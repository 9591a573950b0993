//! Rendering of search results, law details and law histories as text.

pub mod formatter;

use vstd::prelude::*;
use crate::api::types::{SearchResponse, LawDetail, LawHistory};
use crate::cli::OutputFormat;
use crate::error::WarpError;
use formatter::{Formatter, rendered_here, rows_fit, pages_fit, search_rendering, detail_rendering, history_rendering};

verus! {

/// A search response in the given format; `None` for the terminal table and
/// JSON, which the front end draws.
pub fn format_search_response(response: &SearchResponse, format: OutputFormat) -> (res: Option<Result<String, WarpError>>)
    requires
        rendered_here(format) ==> response.items@.len() <= u32::MAX
            && rows_fit(response.page_no, response.page_size, response.items@.len() as int),
        rendered_here(format) && format != OutputFormat::Csv ==> pages_fit(*response),
    ensures
        search_rendering(format, *response, res),
{
    let formatter = Formatter::new(format);
    formatter.format_search(response)
}

/// A law detail in the given format; `None` for the terminal table and JSON.
pub fn format_law_detail(detail: &LawDetail, format: OutputFormat) -> (res: Option<Result<String, WarpError>>)
    ensures
        detail_rendering(format, *detail, res),
{
    let formatter = Formatter::new(format);
    formatter.format_detail(detail)
}

/// A law history in the given format; `None` for the terminal table and JSON.
pub fn format_law_history(history: &LawHistory, format: OutputFormat) -> (res: Option<Result<String, WarpError>>)
    ensures
        history_rendering(format, *history, res),
{
    let formatter = Formatter::new(format);
    formatter.format_history(history)
}

} // verus!
