//! Command-line vocabulary: output formats and the parsing of the textual
//! options the commands accept.

pub mod args;
pub mod commands;
pub mod parallel_search;
pub mod parse;
pub mod search;
pub mod shell_detect;

use vstd::prelude::*;

verus! {

/// How results are rendered.
#[derive(Debug, Clone, Copy, PartialEq, Eq, Structural)]
pub enum OutputFormat {
    /// Table format (default)
    Table,
    /// JSON format
    Json,
    /// Markdown format
    Markdown,
    /// CSV format
    Csv,
    /// HTML format
    Html,
    /// Simple HTML format
    HtmlSimple,
}

} // verus!
