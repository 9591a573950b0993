//! Renders results as Markdown, HTML or CSV, and prepares the rows of the
//! terminal tables.

use vstd::prelude::*;
use crate::api::types::{SearchItem, SearchResponse, LawDetail, Article, LawHistory, HistoryEntry};
use crate::api::client::{section, push_section, result_text};
use crate::cli::OutputFormat;
use crate::error::WarpError;
use crate::text::{string_of, push_str, push_char, push_dec, dec, chars_of};

verus! {

/// `a / b` rounded up.
pub open spec fn ceil_div(a: int, b: int) -> int {
    (a + b - 1) / b
}

/// `dividend / divisor` rounded up; the divisor must not be zero and the
/// sum `dividend + divisor` must fit in 32 bits.
pub fn div_ceil(dividend: u32, divisor: u32) -> (res: u32)
    requires
        divisor > 0,
        dividend + divisor <= u32::MAX,
    ensures
        res == ceil_div(dividend as int, divisor as int),
{
    (dividend + divisor - 1) / divisor
}

/// The text of an optional string, or a stand-in when absent.
pub open spec fn or_text(o: Option<String>, absent: Seq<char>) -> Seq<char> {
    match o {
        Some(s) => s@,
        None => absent,
    }
}

fn opt_str<'a>(o: &'a Option<String>, absent: &'a str) -> (res: &'a str)
    ensures
        res@ == or_text(*o, absent@),
{
    match o {
        Some(s) => s.as_str(),
        None => absent,
    }
}

/// A character as it stands in HTML text.
pub open spec fn html_char(c: char) -> Seq<char> {
    if c == '&' { "&amp;"@ }
    else if c == '<' { "&lt;"@ }
    else if c == '>' { "&gt;"@ }
    else if c == '"' { "&quot;"@ }
    else if c == '\'' { "&#39;"@ }
    else { seq![c] }
}

/// A text escaped for HTML: `&`, `<`, `>`, `"` and `'` as entities.
pub open spec fn esc_html(s: Seq<char>) -> Seq<char>
    decreases s.len(),
{
    if s.len() == 0 { Seq::empty() } else { esc_html(s.drop_last()) + html_char(s.last()) }
}

/// A text escaped for HTML, with line breaks as `<br>`.
pub open spec fn esc_html_br(s: Seq<char>) -> Seq<char>
    decreases s.len(),
{
    if s.len() == 0 {
        Seq::empty()
    } else {
        esc_html_br(s.drop_last()) + if s.last() == '\n' { "<br>"@ } else { html_char(s.last()) }
    }
}

/// A character as it stands in a Markdown table cell.
pub open spec fn md_char(c: char) -> Seq<char> {
    if c == '|' { "\\|"@ }
    else if c == '*' { "\\*"@ }
    else if c == '_' { "\\_"@ }
    else { seq![c] }
}

/// A text escaped for a Markdown table: `|`, `*` and `_` behind a backslash.
pub open spec fn esc_md(s: Seq<char>) -> Seq<char>
    decreases s.len(),
{
    if s.len() == 0 { Seq::empty() } else { esc_md(s.drop_last()) + md_char(s.last()) }
}

/// Escaped HTML text holds no raw `<`, `>`, `"` or `'`, and text without
/// any of the five special characters is left as it is.
pub proof fn law_escaped_html_is_inert(s: Seq<char>)
    ensures
        forall|j: int| 0 <= j < esc_html(s).len() ==> {
            let c = #[trigger] esc_html(s)[j];
            c != '<' && c != '>' && c != '"' && c != '\''
        },
        (forall|j: int| 0 <= j < s.len() ==> {
            let c = #[trigger] s[j];
            c != '&' && c != '<' && c != '>' && c != '"' && c != '\''
        }) ==> esc_html(s) == s,
    decreases s.len(),
{
    reveal_strlit("&amp;");
    reveal_strlit("&lt;");
    reveal_strlit("&gt;");
    reveal_strlit("&quot;");
    reveal_strlit("&#39;");
    if s.len() > 0 {
        let init = s.drop_last();
        law_escaped_html_is_inert(init);
        let e0 = esc_html(init);
        let t = html_char(s.last());
        assert(esc_html(s) == e0 + t);
        assert forall|j: int| 0 <= j < esc_html(s).len() implies {
            let c = #[trigger] esc_html(s)[j];
            c != '<' && c != '>' && c != '"' && c != '\''
        } by {
            if j < e0.len() {
                assert(esc_html(s)[j] == e0[j]);
            } else {
                assert(esc_html(s)[j] == t[j - e0.len()]);
            }
        }
        if forall|j: int| 0 <= j < s.len() ==> {
            let c = #[trigger] s[j];
            c != '&' && c != '<' && c != '>' && c != '"' && c != '\''
        } {
            assert forall|j: int| 0 <= j < init.len() implies {
                let c = #[trigger] init[j];
                c != '&' && c != '<' && c != '>' && c != '"' && c != '\''
            } by {
                assert(init[j] == s[j]);
            }
            assert(s[s.len() - 1] == s.last());
            assert(esc_html(s) =~= s);
        }
    }
}

/// In escaped Markdown every `|`, `*` and `_` stands right after a
/// backslash, so none of them acts as table or emphasis syntax.
pub proof fn law_escaped_markdown_is_inert(s: Seq<char>)
    ensures
        forall|j: int| 0 <= j < esc_md(s).len() && (#[trigger] esc_md(s)[j] == '|' || esc_md(s)[j] == '*' || esc_md(s)[j] == '_')
            ==> j > 0 && esc_md(s)[j - 1] == '\\',
    decreases s.len(),
{
    reveal_strlit("\\|");
    reveal_strlit("\\*");
    reveal_strlit("\\_");
    if s.len() > 0 {
        let init = s.drop_last();
        law_escaped_markdown_is_inert(init);
        let e0 = esc_md(init);
        let t = md_char(s.last());
        assert(esc_md(s) == e0 + t);
        assert forall|j: int| 0 <= j < esc_md(s).len() && (#[trigger] esc_md(s)[j] == '|' || esc_md(s)[j] == '*' || esc_md(s)[j] == '_')
            implies j > 0 && esc_md(s)[j - 1] == '\\' by {
            if j < e0.len() {
                assert(esc_md(s)[j] == e0[j]);
                assert(esc_md(s)[j - 1] == e0[j - 1]);
            } else {
                assert(esc_md(s)[j] == t[j - e0.len()]);
                if j == e0.len() + 1 {
                    assert(esc_md(s)[j - 1] == t[0]);
                }
            }
        }
    }
}

fn push_html_char(out: &mut String, c: char)
    ensures
        final(out)@ == old(out)@ + html_char(c),
{
    if c == '&' { push_str(out, "&amp;") }
    else if c == '<' { push_str(out, "&lt;") }
    else if c == '>' { push_str(out, "&gt;") }
    else if c == '"' { push_str(out, "&quot;") }
    else if c == '\'' { push_str(out, "&#39;") }
    else {
        push_char(out, c);
        assert(old(out)@.push(c) =~= old(out)@ + seq![c]);
    }
}

/// Escapes a text for HTML (`&` first, then `<`, `>`, `"` and `'`).
pub fn escape_html(s: &str) -> (res: String)
    ensures
        res@ == esc_html(s@),
{
    let mut out = String::new();
    push_escaped_html(&mut out, s, false);
    out
}

fn push_escaped_html(out: &mut String, s: &str, breaks: bool)
    ensures
        final(out)@ == old(out)@ + if breaks { esc_html_br(s@) } else { esc_html(s@) },
{
    let cs = chars_of(s);
    let n = cs.len();
    let ghost start = out@;
    let mut i: usize = 0;
    while i < n
        invariant
            cs@ == s@,
            n == s@.len(),
            i <= n,
            out@ == start + if breaks { esc_html_br(s@.take(i as int)) } else { esc_html(s@.take(i as int)) },
        decreases n - i,
    {
        let c = cs[i];
        assert(s@.take(i + 1).drop_last() =~= s@.take(i as int));
        assert(s@.take(i + 1).last() == c);
        if breaks && c == '\n' {
            push_str(out, "<br>");
        } else {
            push_html_char(out, c);
        }
        i = i + 1;
    }
    assert(s@.take(n as int) =~= s@);
}

/// Escapes a text for a Markdown table.
pub fn escape_markdown(s: &str) -> (res: String)
    ensures
        res@ == esc_md(s@),
{
    let mut out = String::new();
    push_escaped_md(&mut out, s);
    out
}

fn push_escaped_md(out: &mut String, s: &str)
    ensures
        final(out)@ == old(out)@ + esc_md(s@),
{
    let cs = chars_of(s);
    let n = cs.len();
    let ghost start = out@;
    let mut i: usize = 0;
    while i < n
        invariant
            cs@ == s@,
            n == s@.len(),
            i <= n,
            out@ == start + esc_md(s@.take(i as int)),
        decreases n - i,
    {
        let c = cs[i];
        assert(s@.take(i + 1).drop_last() =~= s@.take(i as int));
        if c == '|' { push_str(out, "\\|") }
        else if c == '*' { push_str(out, "\\*") }
        else if c == '_' { push_str(out, "\\_") }
        else {
            push_char(out, c);
            assert(start + esc_md(s@.take(i as int)) + seq![c] =~= (start + esc_md(s@.take(i as int))).push(c));
        }
        i = i + 1;
    }
    assert(s@.take(n as int) =~= s@);
}

/// A text cut to `max_len` characters: longer texts keep `max_len - 3`
/// characters followed by `...`.
pub open spec fn truncated(s: Seq<char>, max_len: int) -> Seq<char> {
    if s.len() <= max_len { s } else { s.take(max_len - 3) + "..."@ }
}

/// A cut text is never longer than the limit; a text within the limit is
/// kept whole, and a longer one keeps its beginning.
pub proof fn law_truncation_bounded(s: Seq<char>, max_len: int)
    requires
        max_len >= 3,
    ensures
        truncated(s, max_len).len() <= max_len,
        s.len() <= max_len ==> truncated(s, max_len) == s,
        s.len() > max_len ==> truncated(s, max_len).len() == max_len
            && truncated(s, max_len).take(max_len - 3) == s.take(max_len - 3),
{
    reveal_strlit("...");
    if s.len() > max_len {
        assert(truncated(s, max_len).take(max_len - 3) =~= s.take(max_len - 3));
    }
}

/// Cuts a text to `max_len` characters, marking the cut with `...`.
pub fn truncate_string(s: &str, max_len: usize) -> (res: String)
    requires
        max_len >= 3,
    ensures
        res@ == truncated(s@, max_len as int),
{
    let cs = chars_of(s);
    if cs.len() <= max_len {
        string_of(s)
    } else {
        let mut out = String::new();
        let mut i: usize = 0;
        while i < max_len - 3
            invariant
                cs@ == s@,
                max_len >= 3,
                s@.len() > max_len,
                i <= max_len - 3,
                out@ == s@.take(i as int),
            decreases max_len - 3 - i,
        {
            push_char(&mut out, cs[i]);
            assert(s@.take(i + 1) =~= s@.take(i as int).push(cs@[i as int]));
            i = i + 1;
        }
        push_str(&mut out, "...");
        out
    }
}

/// The number shown before the `i`-th item (from 0) of a page.
pub open spec fn row_number(page_no: u32, page_size: u32, i: int) -> int {
    (page_no - 1) * page_size + i + 1
}

/// Whether the rows of a page can be numbered: pages count from 1 and
/// every number fits in 32 bits.
pub open spec fn rows_fit(page_no: u32, page_size: u32, n: int) -> bool {
    n == 0 || (page_no >= 1 && (page_no - 1) * page_size + n <= u32::MAX)
}

/// Whether the page count of a response can be computed.
pub open spec fn pages_fit(r: SearchResponse) -> bool {
    r.page_size > 0 && r.total_count + r.page_size <= u32::MAX
}

fn row_num(page_no: u32, page_size: u32, i: usize, n: usize) -> (res: u32)
    requires
        i < n,
        n <= u32::MAX,
        rows_fit(page_no, page_size, n as int),
    ensures
        res == row_number(page_no, page_size, i as int),
{
    proof {
        assert((page_no - 1) * page_size <= u32::MAX) by (nonlinear_arith)
            requires (page_no - 1) * page_size + n <= u32::MAX, n >= 1;
    }
    (page_no - 1) * page_size + i as u32 + 1
}

/// The renderer of one output format.
#[derive(Debug, Clone, Copy)]
pub struct Formatter {
    pub format: OutputFormat,
}

// ---------------------------------------------------------------------------
// Markdown
// ---------------------------------------------------------------------------

/// One Markdown table row of a search item.
pub open spec fn search_md_row(n: int, it: SearchItem) -> Seq<char> {
    "| "@ + dec(n as nat) + " | "@ + esc_md(it.title@) + " | "@ + or_text(it.law_no, "-"@)
        + " | "@ + or_text(it.law_type, "-"@) + " | "@ + or_text(it.department, "-"@)
        + " | "@ + or_text(it.enforcement_date, "-"@) + " |\n"@
}

/// The Markdown table rows of the first items of a page.
pub open spec fn search_md_rows(items: Seq<SearchItem>, page_no: u32, page_size: u32) -> Seq<char>
    decreases items.len(),
{
    if items.len() == 0 {
        Seq::empty()
    } else {
        search_md_rows(items.drop_last(), page_no, page_size)
            + search_md_row(row_number(page_no, page_size, items.len() - 1), items.last())
    }
}

/// A search response in Markdown: a summary list, then a table.
pub open spec fn search_markdown(r: SearchResponse) -> Seq<char> {
    "# 검색 결과\n\n"@
        + "- **총 결과**: "@ + dec(r.total_count as nat) + "\n"@
        + "- **페이지**: "@ + dec(r.page_no as nat) + "/"@
        + dec(ceil_div(r.total_count as int, r.page_size as int) as nat) + "\n"@
        + "- **출처**: "@ + r.source@ + "\n\n"@
        + "| 번호 | 법령명 | 법령번호 | 종류 | 소관부처 | 시행일 |\n"@
        + "|------|--------|----------|------|----------|--------|\n"@
        + search_md_rows(r.items@, r.page_no, r.page_size)
}

/// One article in Markdown.
pub open spec fn article_md(a: Article) -> Seq<char> {
    "### "@ + a.number@ + section(a.title, " ("@, ")"@) + "\n\n"@ + a.content@ + "\n\n"@
}

/// The articles in Markdown.
pub open spec fn articles_md(s: Seq<Article>) -> Seq<char>
    decreases s.len(),
{
    if s.len() == 0 { Seq::empty() } else { articles_md(s.drop_last()) + article_md(s.last()) }
}

/// A law detail in Markdown: title, facts, a rule, then the articles.
pub open spec fn detail_markdown(d: LawDetail) -> Seq<char> {
    "# "@ + d.law_name@ + "\n\n"@
        + section(d.law_no, "- **법령번호**: "@, "\n"@)
        + section(d.law_type, "- **법령종류**: "@, "\n"@)
        + section(d.department, "- **소관부처**: "@, "\n"@)
        + section(d.enforcement_date, "- **시행일자**: "@, "\n"@)
        + "\n---\n\n"@
        + if d.articles@.len() == 0 { Seq::empty() } else { "## 조문\n\n"@ + articles_md(d.articles@) }
}

/// One Markdown table row of a history entry.
pub open spec fn history_md_row(e: HistoryEntry) -> Seq<char> {
    "| "@ + dec(e.revision_no as nat) + " | "@ + e.revision_date@ + " | "@ + or_text(e.enforcement_date, "-"@)
        + " | "@ + e.revision_type@ + " | "@ + esc_md(or_text(e.reason, "-"@)) + " |\n"@
}

/// The Markdown table rows of history entries.
pub open spec fn history_md_rows(s: Seq<HistoryEntry>) -> Seq<char>
    decreases s.len(),
{
    if s.len() == 0 { Seq::empty() } else { history_md_rows(s.drop_last()) + history_md_row(s.last()) }
}

/// A law history in Markdown: title, count, then a table.
pub open spec fn history_markdown(h: LawHistory) -> Seq<char> {
    "# "@ + h.law_name@ + " 개정 연혁\n\n"@
        + "총 "@ + dec(h.total_count as nat) + "건의 개정 이력\n\n"@
        + "| 순번 | 개정일자 | 시행일자 | 개정구분 | 개정이유 |\n"@
        + "|------|----------|----------|----------|----------|\n"@
        + history_md_rows(h.entries@)
}

fn push_search_md_row(out: &mut String, num: u32, item: &SearchItem)
    ensures
        final(out)@ == old(out)@ + search_md_row(num as int, *item),
{
    push_str(out, "| ");
    push_dec(out, num as u64);
    push_str(out, " | ");
    push_escaped_md(out, item.title.as_str());
    push_str(out, " | ");
    push_str(out, opt_str(&item.law_no, "-"));
    push_str(out, " | ");
    push_str(out, opt_str(&item.law_type, "-"));
    push_str(out, " | ");
    push_str(out, opt_str(&item.department, "-"));
    push_str(out, " | ");
    push_str(out, opt_str(&item.enforcement_date, "-"));
    push_str(out, " |\n");
    assert(final(out)@ =~= old(out)@ + search_md_row(num as int, *item));
}

fn push_history_md_row(out: &mut String, e: &HistoryEntry)
    ensures
        final(out)@ == old(out)@ + history_md_row(*e),
{
    push_str(out, "| ");
    push_dec(out, e.revision_no as u64);
    push_str(out, " | ");
    push_str(out, e.revision_date.as_str());
    push_str(out, " | ");
    push_str(out, opt_str(&e.enforcement_date, "-"));
    push_str(out, " | ");
    push_str(out, e.revision_type.as_str());
    push_str(out, " | ");
    push_escaped_md(out, opt_str(&e.reason, "-"));
    push_str(out, " |\n");
    assert(final(out)@ =~= old(out)@ + history_md_row(*e));
}

fn push_article_md(out: &mut String, a: &Article)
    ensures
        final(out)@ == old(out)@ + article_md(*a),
{
    push_str(out, "### ");
    push_str(out, a.number.as_str());
    push_section(out, &a.title, " (", ")");
    push_str(out, "\n\n");
    push_str(out, a.content.as_str());
    push_str(out, "\n\n");
    assert(final(out)@ =~= old(out)@ + article_md(*a));
}

impl Formatter {
    /// A renderer for the given format.
    pub fn new(format: OutputFormat) -> (res: Formatter)
        ensures
            res.format == format,
    {
        Formatter { format }
    }

    /// A search response in Markdown.
    pub fn format_search_markdown(&self, response: &SearchResponse) -> (res: Result<String, WarpError>)
        requires
            pages_fit(*response),
            response.items@.len() <= u32::MAX,
            rows_fit(response.page_no, response.page_size, response.items@.len() as int),
        ensures
            res matches Ok(s) && s@ == search_markdown(*response),
    {
        let mut out = string_of("# 검색 결과\n\n");
        push_str(&mut out, "- **총 결과**: ");
        push_dec(&mut out, response.total_count as u64);
        push_str(&mut out, "\n");
        push_str(&mut out, "- **페이지**: ");
        push_dec(&mut out, response.page_no as u64);
        push_str(&mut out, "/");
        push_dec(&mut out, div_ceil(response.total_count, response.page_size) as u64);
        push_str(&mut out, "\n");
        push_str(&mut out, "- **출처**: ");
        push_str(&mut out, response.source.as_str());
        push_str(&mut out, "\n\n");
        push_str(&mut out, "| 번호 | 법령명 | 법령번호 | 종류 | 소관부처 | 시행일 |\n");
        push_str(&mut out, "|------|--------|----------|------|----------|--------|\n");
        let ghost head = out@;
        let n = response.items.len();
        let ghost items = response.items@;
        let mut i: usize = 0;
        while i < n
            invariant
                n == items.len(),
                items == response.items@,
                n <= u32::MAX,
                rows_fit(response.page_no, response.page_size, n as int),
                i <= n,
                out@ == head + search_md_rows(items.take(i as int), response.page_no, response.page_size),
            decreases n - i,
        {
            let item = &response.items[i];
            let num = row_num(response.page_no, response.page_size, i, n);
            let ghost before = out@;
            push_search_md_row(&mut out, num, item);
            assert(items.take(i + 1).drop_last() =~= items.take(i as int));
            assert(items.take(i + 1).last() == items[i as int]);
            assert(out@ =~= before + search_md_row(row_number(response.page_no, response.page_size, i as int), items[i as int]));
            i = i + 1;
        }
        assert(items.take(n as int) =~= items);
        assert(out@ =~= search_markdown(*response));
        Ok(out)
    }

    /// A law detail in Markdown.
    pub fn format_detail_markdown(&self, detail: &LawDetail) -> (res: Result<String, WarpError>)
        ensures
            res matches Ok(s) && s@ == detail_markdown(*detail),
    {
        let mut out = string_of("# ");
        push_str(&mut out, detail.law_name.as_str());
        push_str(&mut out, "\n\n");
        push_section(&mut out, &detail.law_no, "- **법령번호**: ", "\n");
        push_section(&mut out, &detail.law_type, "- **법령종류**: ", "\n");
        push_section(&mut out, &detail.department, "- **소관부처**: ", "\n");
        push_section(&mut out, &detail.enforcement_date, "- **시행일자**: ", "\n");
        push_str(&mut out, "\n---\n\n");
        let ghost head = out@;
        let n = detail.articles.len();
        if n > 0 {
            push_str(&mut out, "## 조문\n\n");
            let ghost start = out@;
            let ghost arts = detail.articles@;
            let mut i: usize = 0;
            while i < n
                invariant
                    n == arts.len(),
                    arts == detail.articles@,
                    i <= n,
                    out@ == start + articles_md(arts.take(i as int)),
                decreases n - i,
            {
                let a = &detail.articles[i];
                let ghost before = out@;
                push_article_md(&mut out, a);
                assert(arts.take(i + 1).drop_last() =~= arts.take(i as int));
                assert(arts.take(i + 1).last() == arts[i as int]);
                assert(out@ =~= before + article_md(arts[i as int]));
                i = i + 1;
            }
            assert(arts.take(n as int) =~= arts);
        }
        proof { reveal_strlit(""); }
        assert(out@ =~= detail_markdown(*detail));
        Ok(out)
    }

    /// A law history in Markdown.
    pub fn format_history_markdown(&self, history: &LawHistory) -> (res: Result<String, WarpError>)
        ensures
            res matches Ok(s) && s@ == history_markdown(*history),
    {
        let mut out = string_of("# ");
        push_str(&mut out, history.law_name.as_str());
        push_str(&mut out, " 개정 연혁\n\n");
        push_str(&mut out, "총 ");
        push_dec(&mut out, history.total_count as u64);
        push_str(&mut out, "건의 개정 이력\n\n");
        push_str(&mut out, "| 순번 | 개정일자 | 시행일자 | 개정구분 | 개정이유 |\n");
        push_str(&mut out, "|------|----------|----------|----------|----------|\n");
        let ghost head = out@;
        let n = history.entries.len();
        let ghost es = history.entries@;
        let mut i: usize = 0;
        while i < n
            invariant
                n == es.len(),
                es == history.entries@,
                i <= n,
                out@ == head + history_md_rows(es.take(i as int)),
            decreases n - i,
        {
            let e = &history.entries[i];
            let ghost before = out@;
            push_history_md_row(&mut out, e);
            assert(es.take(i + 1).drop_last() =~= es.take(i as int));
            assert(es.take(i + 1).last() == es[i as int]);
            assert(out@ =~= before + history_md_row(es[i as int]));
            i = i + 1;
        }
        assert(es.take(n as int) =~= es);
        assert(out@ =~= history_markdown(*history));
        Ok(out)
    }
}

// ---------------------------------------------------------------------------
// HTML
// ---------------------------------------------------------------------------

/// The opening of a full HTML page, up to its title.
pub open spec fn html_open() -> Seq<char> {
    "<!DOCTYPE html>\n<html>\n<head>\n"@ + "<meta charset=\"UTF-8\">\n"@
}

/// The style of the table pages, closing the head and opening the body.
pub open spec fn table_style() -> Seq<char> {
    "<style>\n"@
        + "body { font-family: 'Malgun Gothic', sans-serif; margin: 20px; }\n"@
        + "table { border-collapse: collapse; width: 100%; }\n"@
        + "th, td { border: 1px solid #ddd; padding: 8px; text-align: left; }\n"@
        + "th { background-color: #4CAF50; color: white; }\n"@
        + "tr:nth-child(even) { background-color: #f2f2f2; }\n"@
        + "</style>\n</head>\n<body>\n"@
}

/// The style of the detail page, closing the head and opening the body.
pub open spec fn detail_style() -> Seq<char> {
    "<style>\n"@
        + "body { font-family: 'Malgun Gothic', sans-serif; margin: 20px; line-height: 1.6; }\n"@
        + ".info { background: #f9f9f9; padding: 15px; border-radius: 5px; margin-bottom: 20px; }\n"@
        + ".article { margin: 20px 0; padding: 15px; border-left: 3px solid #4CAF50; }\n"@
        + ".article-title { font-weight: bold; color: #333; margin-bottom: 10px; }\n"@
        + "</style>\n</head>\n<body>\n"@
}

/// The end of a full HTML page.
pub open spec fn html_close() -> Seq<char> {
    "</body>\n</html>"@
}

/// A table cell.
pub open spec fn td(t: Seq<char>) -> Seq<char> {
    "<td>"@ + t + "</td>"@
}

/// One HTML table row of a search item (only the title is escaped).
pub open spec fn search_html_row(n: int, it: SearchItem) -> Seq<char> {
    "<tr>\n"@ + td(dec(n as nat)) + td(esc_html(it.title@)) + td(or_text(it.law_no, "-"@))
        + td(or_text(it.law_type, "-"@)) + td(or_text(it.department, "-"@))
        + td(or_text(it.enforcement_date, "-"@)) + "</tr>\n"@
}

/// The HTML table rows of the first items of a page.
pub open spec fn search_html_rows(items: Seq<SearchItem>, page_no: u32, page_size: u32) -> Seq<char>
    decreases items.len(),
{
    if items.len() == 0 {
        Seq::empty()
    } else {
        search_html_rows(items.drop_last(), page_no, page_size)
            + search_html_row(row_number(page_no, page_size, items.len() - 1), items.last())
    }
}

/// A search response in HTML: a whole page, or only its body content when simple.
pub open spec fn search_html(r: SearchResponse, simple: bool) -> Seq<char> {
    (if simple { Seq::empty() } else { html_open() + "<title>법령 검색 결과</title>\n"@ + table_style() })
        + "<h1>검색 결과</h1>\n"@
        + "<p>총 "@ + dec(r.total_count as nat) + "건 | 페이지 "@ + dec(r.page_no as nat) + "/"@
        + dec(ceil_div(r.total_count as int, r.page_size as int) as nat) + "</p>\n"@
        + "<table>\n<thead>\n<tr>\n"@
        + "<th>번호</th><th>법령명</th><th>법령번호</th><th>종류</th><th>소관부처</th><th>시행일</th>\n"@
        + "</tr>\n</thead>\n<tbody>\n"@
        + search_html_rows(r.items@, r.page_no, r.page_size)
        + "</tbody>\n</table>\n"@
        + (if simple { Seq::empty() } else { html_close() })
}

/// One article in HTML.
pub open spec fn article_html(a: Article) -> Seq<char> {
    "<div class=\"article\">\n"@
        + "<div class=\"article-title\">"@ + esc_html(a.number@)
        + (match a.title { Some(t) => " ("@ + esc_html(t@) + ")"@, None => Seq::empty() })
        + "</div>\n"@
        + "<div>"@ + esc_html_br(a.content@) + "</div>\n"@
        + "</div>\n"@
}

/// The articles in HTML.
pub open spec fn articles_html(s: Seq<Article>) -> Seq<char>
    decreases s.len(),
{
    if s.len() == 0 { Seq::empty() } else { articles_html(s.drop_last()) + article_html(s.last()) }
}

/// A fact of a law in HTML, when present.
pub open spec fn info_html(o: Option<String>, label: Seq<char>) -> Seq<char> {
    match o {
        Some(v) => "<p><strong>"@ + label + ":</strong> "@ + esc_html(v@) + "</p>\n"@,
        None => Seq::empty(),
    }
}

/// A law detail in HTML: title, facts, then the articles.
pub open spec fn detail_html(d: LawDetail, simple: bool) -> Seq<char> {
    (if simple { Seq::empty() } else {
        html_open() + "<title>"@ + esc_html(d.law_name@) + "</title>\n"@ + detail_style()
    })
        + "<h1>"@ + esc_html(d.law_name@) + "</h1>\n"@
        + "<div class=\"info\">\n"@
        + info_html(d.law_no, "법령번호"@)
        + info_html(d.law_type, "법령종류"@)
        + info_html(d.department, "소관부처"@)
        + info_html(d.enforcement_date, "시행일자"@)
        + info_html(d.revision_date, "개정일자"@)
        + "</div>\n"@
        + (if d.articles@.len() == 0 { Seq::empty() } else { "<h2>조문</h2>\n"@ + articles_html(d.articles@) })
        + (if simple { Seq::empty() } else { html_close() })
}

/// One HTML table row of a history entry.
pub open spec fn history_html_row(e: HistoryEntry) -> Seq<char> {
    "<tr>\n"@ + td(dec(e.revision_no as nat)) + td(esc_html(e.revision_date@))
        + td(esc_html(or_text(e.enforcement_date, "-"@))) + td(esc_html(e.revision_type@))
        + td(esc_html(or_text(e.reason, "-"@))) + "</tr>\n"@
}

/// The HTML table rows of history entries.
pub open spec fn history_html_rows(s: Seq<HistoryEntry>) -> Seq<char>
    decreases s.len(),
{
    if s.len() == 0 { Seq::empty() } else { history_html_rows(s.drop_last()) + history_html_row(s.last()) }
}

/// A law history in HTML: title, count, then a table.
pub open spec fn history_html(h: LawHistory, simple: bool) -> Seq<char> {
    (if simple { Seq::empty() } else {
        html_open() + "<title>"@ + esc_html(h.law_name@) + " 개정 연혁</title>\n"@ + table_style()
    })
        + "<h1>"@ + esc_html(h.law_name@) + " 개정 연혁</h1>\n"@
        + "<p>총 "@ + dec(h.total_count as nat) + "건의 개정 이력</p>\n"@
        + "<table>\n<thead>\n<tr>\n"@
        + "<th>순번</th><th>개정일자</th><th>시행일자</th><th>개정구분</th><th>개정이유</th>\n"@
        + "</tr>\n</thead>\n<tbody>\n"@
        + history_html_rows(h.entries@)
        + "</tbody>\n</table>\n"@
        + (if simple { Seq::empty() } else { html_close() })
}

fn push_html_open(out: &mut String)
    ensures
        final(out)@ == old(out)@ + html_open(),
{
    push_str(out, "<!DOCTYPE html>\n<html>\n<head>\n");
    push_str(out, "<meta charset=\"UTF-8\">\n");
    assert(final(out)@ =~= old(out)@ + html_open());
}

fn push_table_style(out: &mut String)
    ensures
        final(out)@ == old(out)@ + table_style(),
{
    push_str(out, "<style>\n");
    push_str(out, "body { font-family: 'Malgun Gothic', sans-serif; margin: 20px; }\n");
    push_str(out, "table { border-collapse: collapse; width: 100%; }\n");
    push_str(out, "th, td { border: 1px solid #ddd; padding: 8px; text-align: left; }\n");
    push_str(out, "th { background-color: #4CAF50; color: white; }\n");
    push_str(out, "tr:nth-child(even) { background-color: #f2f2f2; }\n");
    push_str(out, "</style>\n</head>\n<body>\n");
    assert(final(out)@ =~= old(out)@ + table_style());
}

fn push_detail_style(out: &mut String)
    ensures
        final(out)@ == old(out)@ + detail_style(),
{
    push_str(out, "<style>\n");
    push_str(out, "body { font-family: 'Malgun Gothic', sans-serif; margin: 20px; line-height: 1.6; }\n");
    push_str(out, ".info { background: #f9f9f9; padding: 15px; border-radius: 5px; margin-bottom: 20px; }\n");
    push_str(out, ".article { margin: 20px 0; padding: 15px; border-left: 3px solid #4CAF50; }\n");
    push_str(out, ".article-title { font-weight: bold; color: #333; margin-bottom: 10px; }\n");
    push_str(out, "</style>\n</head>\n<body>\n");
    assert(final(out)@ =~= old(out)@ + detail_style());
}

fn push_td(out: &mut String, t: &str)
    ensures
        final(out)@ == old(out)@ + td(t@),
{
    push_str(out, "<td>");
    push_str(out, t);
    push_str(out, "</td>");
    assert(final(out)@ =~= old(out)@ + td(t@));
}

fn push_td_escaped(out: &mut String, t: &str)
    ensures
        final(out)@ == old(out)@ + td(esc_html(t@)),
{
    push_str(out, "<td>");
    push_escaped_html(out, t, false);
    push_str(out, "</td>");
    assert(final(out)@ =~= old(out)@ + td(esc_html(t@)));
}

fn push_search_html_row(out: &mut String, num: u32, item: &SearchItem)
    ensures
        final(out)@ == old(out)@ + search_html_row(num as int, *item),
{
    push_str(out, "<tr>\n");
    let n = crate::text::dec_string(num as u64);
    push_td(out, n.as_str());
    push_td_escaped(out, item.title.as_str());
    push_td(out, opt_str(&item.law_no, "-"));
    push_td(out, opt_str(&item.law_type, "-"));
    push_td(out, opt_str(&item.department, "-"));
    push_td(out, opt_str(&item.enforcement_date, "-"));
    push_str(out, "</tr>\n");
    assert(final(out)@ =~= old(out)@ + search_html_row(num as int, *item));
}

fn push_history_html_row(out: &mut String, e: &HistoryEntry)
    ensures
        final(out)@ == old(out)@ + history_html_row(*e),
{
    push_str(out, "<tr>\n");
    let n = crate::text::dec_string(e.revision_no as u64);
    push_td(out, n.as_str());
    push_td_escaped(out, e.revision_date.as_str());
    push_td_escaped(out, opt_str(&e.enforcement_date, "-"));
    push_td_escaped(out, e.revision_type.as_str());
    push_td_escaped(out, opt_str(&e.reason, "-"));
    push_str(out, "</tr>\n");
    assert(final(out)@ =~= old(out)@ + history_html_row(*e));
}

fn push_info_html(out: &mut String, o: &Option<String>, label: &str)
    ensures
        final(out)@ == old(out)@ + info_html(*o, label@),
{
    match o {
        Some(v) => {
            push_str(out, "<p><strong>");
            push_str(out, label);
            push_str(out, ":</strong> ");
            push_escaped_html(out, v.as_str(), false);
            push_str(out, "</p>\n");
            assert(final(out)@ =~= old(out)@ + info_html(*o, label@));
        }
        None => {
            assert(old(out)@ + Seq::<char>::empty() =~= old(out)@);
        }
    }
}

fn push_article_html(out: &mut String, a: &Article)
    ensures
        final(out)@ == old(out)@ + article_html(*a),
{
    push_str(out, "<div class=\"article\">\n");
    push_str(out, "<div class=\"article-title\">");
    push_escaped_html(out, a.number.as_str(), false);
    match &a.title {
        Some(t) => {
            push_str(out, " (");
            push_escaped_html(out, t.as_str(), false);
            push_str(out, ")");
        }
        None => {}
    }
    push_str(out, "</div>\n");
    push_str(out, "<div>");
    push_escaped_html(out, a.content.as_str(), true);
    push_str(out, "</div>\n");
    push_str(out, "</div>\n");
    assert(final(out)@ =~= old(out)@ + article_html(*a));
}

impl Formatter {
    /// Whether the HTML is the body content only.
    pub open spec fn simple_html(&self) -> bool {
        self.format == OutputFormat::HtmlSimple
    }

    /// A search response in HTML.
    pub fn format_search_html(&self, response: &SearchResponse) -> (res: Result<String, WarpError>)
        requires
            pages_fit(*response),
            response.items@.len() <= u32::MAX,
            rows_fit(response.page_no, response.page_size, response.items@.len() as int),
        ensures
            res matches Ok(s) && s@ == search_html(*response, self.simple_html()),
    {
        let is_simple = match self.format { OutputFormat::HtmlSimple => true, _ => false };
        let mut out = String::new();
        if !is_simple {
            push_html_open(&mut out);
            push_str(&mut out, "<title>법령 검색 결과</title>\n");
            push_table_style(&mut out);
        }
        let ghost opening = out@;
        push_str(&mut out, "<h1>검색 결과</h1>\n");
        push_str(&mut out, "<p>총 ");
        push_dec(&mut out, response.total_count as u64);
        push_str(&mut out, "건 | 페이지 ");
        push_dec(&mut out, response.page_no as u64);
        push_str(&mut out, "/");
        push_dec(&mut out, div_ceil(response.total_count, response.page_size) as u64);
        push_str(&mut out, "</p>\n");
        push_str(&mut out, "<table>\n<thead>\n<tr>\n");
        push_str(&mut out, "<th>번호</th><th>법령명</th><th>법령번호</th><th>종류</th><th>소관부처</th><th>시행일</th>\n");
        push_str(&mut out, "</tr>\n</thead>\n<tbody>\n");
        let ghost head = out@;
        let n = response.items.len();
        let ghost items = response.items@;
        let mut i: usize = 0;
        while i < n
            invariant
                n == items.len(),
                items == response.items@,
                n <= u32::MAX,
                rows_fit(response.page_no, response.page_size, n as int),
                i <= n,
                out@ == head + search_html_rows(items.take(i as int), response.page_no, response.page_size),
            decreases n - i,
        {
            let num = row_num(response.page_no, response.page_size, i, n);
            let ghost before = out@;
            push_search_html_row(&mut out, num, &response.items[i]);
            assert(items.take(i + 1).drop_last() =~= items.take(i as int));
            assert(items.take(i + 1).last() == items[i as int]);
            i = i + 1;
        }
        assert(items.take(n as int) =~= items);
        let ghost body = out@;
        push_str(&mut out, "</tbody>\n</table>\n");
        if !is_simple {
            push_str(&mut out, "</body>\n</html>");
        }
        proof { reveal_strlit(""); }
        assert(out@ =~= search_html(*response, self.simple_html()));
        Ok(out)
    }

    /// A law detail in HTML.
    pub fn format_detail_html(&self, detail: &LawDetail) -> (res: Result<String, WarpError>)
        ensures
            res matches Ok(s) && s@ == detail_html(*detail, self.simple_html()),
    {
        let is_simple = match self.format { OutputFormat::HtmlSimple => true, _ => false };
        let mut out = String::new();
        if !is_simple {
            push_html_open(&mut out);
            push_str(&mut out, "<title>");
            push_escaped_html(&mut out, detail.law_name.as_str(), false);
            push_str(&mut out, "</title>\n");
            push_detail_style(&mut out);
        }
        push_str(&mut out, "<h1>");
        push_escaped_html(&mut out, detail.law_name.as_str(), false);
        push_str(&mut out, "</h1>\n");
        push_str(&mut out, "<div class=\"info\">\n");
        push_info_html(&mut out, &detail.law_no, "법령번호");
        push_info_html(&mut out, &detail.law_type, "법령종류");
        push_info_html(&mut out, &detail.department, "소관부처");
        push_info_html(&mut out, &detail.enforcement_date, "시행일자");
        push_info_html(&mut out, &detail.revision_date, "개정일자");
        push_str(&mut out, "</div>\n");
        let ghost head = out@;
        let n = detail.articles.len();
        if n > 0 {
            push_str(&mut out, "<h2>조문</h2>\n");
            let ghost start = out@;
            let ghost arts = detail.articles@;
            let mut i: usize = 0;
            while i < n
                invariant
                    n == arts.len(),
                    arts == detail.articles@,
                    i <= n,
                    out@ == start + articles_html(arts.take(i as int)),
                decreases n - i,
            {
                push_article_html(&mut out, &detail.articles[i]);
                assert(arts.take(i + 1).drop_last() =~= arts.take(i as int));
                assert(arts.take(i + 1).last() == arts[i as int]);
                i = i + 1;
            }
            assert(arts.take(n as int) =~= arts);
        }
        if !is_simple {
            push_str(&mut out, "</body>\n</html>");
        }
        proof { reveal_strlit(""); }
        assert(out@ =~= detail_html(*detail, self.simple_html()));
        Ok(out)
    }

    /// A law history in HTML.
    pub fn format_history_html(&self, history: &LawHistory) -> (res: Result<String, WarpError>)
        ensures
            res matches Ok(s) && s@ == history_html(*history, self.simple_html()),
    {
        let is_simple = match self.format { OutputFormat::HtmlSimple => true, _ => false };
        let mut out = String::new();
        if !is_simple {
            push_html_open(&mut out);
            push_str(&mut out, "<title>");
            push_escaped_html(&mut out, history.law_name.as_str(), false);
            push_str(&mut out, " 개정 연혁</title>\n");
            push_table_style(&mut out);
        }
        push_str(&mut out, "<h1>");
        push_escaped_html(&mut out, history.law_name.as_str(), false);
        push_str(&mut out, " 개정 연혁</h1>\n");
        push_str(&mut out, "<p>총 ");
        push_dec(&mut out, history.total_count as u64);
        push_str(&mut out, "건의 개정 이력</p>\n");
        push_str(&mut out, "<table>\n<thead>\n<tr>\n");
        push_str(&mut out, "<th>순번</th><th>개정일자</th><th>시행일자</th><th>개정구분</th><th>개정이유</th>\n");
        push_str(&mut out, "</tr>\n</thead>\n<tbody>\n");
        let ghost head = out@;
        let n = history.entries.len();
        let ghost es = history.entries@;
        let mut i: usize = 0;
        while i < n
            invariant
                n == es.len(),
                es == history.entries@,
                i <= n,
                out@ == head + history_html_rows(es.take(i as int)),
            decreases n - i,
        {
            push_history_html_row(&mut out, &history.entries[i]);
            assert(es.take(i + 1).drop_last() =~= es.take(i as int));
            assert(es.take(i + 1).last() == es[i as int]);
            i = i + 1;
        }
        assert(es.take(n as int) =~= es);
        push_str(&mut out, "</tbody>\n</table>\n");
        if !is_simple {
            push_str(&mut out, "</body>\n</html>");
        }
        proof { reveal_strlit(""); }
        assert(out@ =~= history_html(*history, self.simple_html()));
        Ok(out)
    }
}

// ---------------------------------------------------------------------------
// CSV and table rows
// ---------------------------------------------------------------------------

/// A character that forces a field into quotes with the default writer:
/// the delimiter, the quote, a carriage return or a line feed.
pub open spec fn csv_special(c: char) -> bool {
    c == ',' || c == '"' || c == '\r' || c == '\n'
}

/// A field that must be quoted.
pub open spec fn csv_needs_quotes(f: Seq<char>) -> bool {
    exists|i: int| 0 <= i < f.len() && csv_special(#[trigger] f[i])
}

/// The field with every quote doubled.
pub open spec fn csv_doubled(f: Seq<char>) -> Seq<char>
    decreases f.len(),
{
    if f.len() == 0 {
        Seq::empty()
    } else {
        csv_doubled(f.drop_last()) + if f.last() == '"' { seq!['"', '"'] } else { seq![f.last()] }
    }
}

/// One field as written: in quotes, with quotes doubled, when needed.
pub open spec fn csv_field(f: Seq<char>) -> Seq<char> {
    if csv_needs_quotes(f) { seq!['"'] + csv_doubled(f) + seq!['"'] } else { f }
}

/// The fields as written, separated by commas.
pub open spec fn csv_joined(fs: Seq<Seq<char>>) -> Seq<char>
    decreases fs.len(),
{
    if fs.len() == 0 {
        Seq::empty()
    } else if fs.len() == 1 {
        csv_field(fs[0])
    } else {
        csv_joined(fs.drop_last()) + seq![','] + csv_field(fs.last())
    }
}

/// The text `csv::Writer` (default settings: comma, double quote, quoting
/// only where needed, `\n` terminator) writes for one record into memory:
/// the joined fields, or `""` when they come to nothing, then the
/// terminator. Writing into memory does not fail.
pub open spec fn csv_record_text(fields: Seq<Seq<char>>) -> Result<Seq<char>, Seq<char>> {
    let j = csv_joined(fields);
    Ok((if j.len() == 0 { seq!['"', '"'] } else { j }) + seq!['\n'])
}

/// One record written by a fresh `csv::Writer` into memory, as text.
#[verifier::external_body]
fn write_csv_record(fields: &Vec<String>) -> (res: Result<String, String>)
    ensures
        result_text(res) == csv_record_text(fields@.map_values(|f: String| f@)),
{
    let mut w = csv::Writer::from_writer(Vec::new());
    w.write_record(fields).map_err(|e| e.to_string())?;
    let bytes = w.into_inner().map_err(|e| e.to_string())?;
    String::from_utf8(bytes).map_err(|e| e.to_string())
}

/// Rows of cells as texts.
pub open spec fn rows_view(rows: Seq<Vec<String>>) -> Seq<Seq<Seq<char>>> {
    rows.map_values(|r: Vec<String>| r@.map_values(|f: String| f@))
}

/// The records written one after the other, or the first error.
pub open spec fn csv_lines(rows: Seq<Seq<Seq<char>>>) -> Result<Seq<char>, Seq<char>>
    decreases rows.len(),
{
    if rows.len() == 0 {
        Ok(Seq::empty())
    } else {
        match csv_lines(rows.drop_last()) {
            Err(m) => Err(m),
            Ok(t) => match csv_record_text(rows.last()) {
                Ok(line) => Ok(t + line),
                Err(m) => Err(m),
            },
        }
    }
}

/// A CSV document: the byte order mark for spreadsheet programs, then
/// the records; a record that cannot be written fails the document.
pub open spec fn csv_outcome(rows: Seq<Seq<Seq<char>>>, res: Result<String, WarpError>) -> bool {
    match csv_lines(rows) {
        Ok(t) => res matches Ok(s) && s@ == seq!['\u{feff}'] + t,
        Err(m) => res matches Err(WarpError::Csv(e)) && e@ == m,
    }
}

/// Writes rows as a CSV document.
pub fn csv_document(rows: &Vec<Vec<String>>) -> (res: Result<String, WarpError>)
    ensures
        csv_outcome(rows_view(rows@), res),
{
    let ghost rv = rows_view(rows@);
    let mut out = String::new();
    push_char(&mut out, '\u{feff}');
    let n = rows.len();
    let mut i: usize = 0;
    assert(rv.take(0) =~= Seq::<Seq<Seq<char>>>::empty());
    while i < n
        invariant
            n == rows@.len(),
            rv == rows_view(rows@),
            i <= n,
            csv_lines(rv.take(i as int)) matches Ok(t) && out@ == seq!['\u{feff}'] + t,
        decreases n - i,
    {
        assert(rv.take(i + 1).drop_last() =~= rv.take(i as int));
        assert(rv.take(i + 1).last() == rows@[i as int]@.map_values(|f: String| f@));
        match write_csv_record(&rows[i]) {
            Ok(line) => {
                push_str(&mut out, line.as_str());
            }
            Err(m) => {
                proof { lemma_csv_error_stays(rv, i as int + 1); }
                return Err(WarpError::Csv(m));
            }
        }
        i = i + 1;
    }
    assert(rv.take(n as int) =~= rv);
    Ok(out)
}

proof fn lemma_csv_error_stays(rows: Seq<Seq<Seq<char>>>, k: int)
    requires
        0 < k <= rows.len(),
        csv_lines(rows.take(k)) is Err,
    ensures
        csv_lines(rows) == csv_lines(rows.take(k)),
    decreases rows.len() - k,
{
    if k < rows.len() {
        assert(rows.take(k + 1).drop_last() =~= rows.take(k));
        lemma_csv_error_stays(rows, k + 1);
    } else {
        assert(rows.take(k) =~= rows);
    }
}

fn strings_of(fields: Vec<&str>) -> (res: Vec<String>)
    ensures
        res@.map_values(|f: String| f@) == fields@.map_values(|f: &str| f@),
{
    let mut out: Vec<String> = Vec::new();
    let n = fields.len();
    let mut i: usize = 0;
    while i < n
        invariant
            n == fields@.len(),
            i <= n,
            out@.len() == i,
            forall|k: int| 0 <= k < i ==> (#[trigger] out@[k])@ == fields@[k]@,
        decreases n - i,
    {
        out.push(string_of(fields[i]));
        i = i + 1;
    }
    assert(out@.map_values(|f: String| f@) =~= fields@.map_values(|f: &str| f@));
    out
}

/// The cells of a search item's row: its number, title, law number, type,
/// department and enforcement date, absent values shown as `absent`.
pub open spec fn search_cells(n: int, it: SearchItem, absent: Seq<char>) -> Seq<Seq<char>> {
    seq![dec(n as nat), it.title@, or_text(it.law_no, absent), or_text(it.law_type, absent),
        or_text(it.department, absent), or_text(it.enforcement_date, absent)]
}

/// The header and rows of a search response in CSV.
pub open spec fn search_csv_rows(r: SearchResponse) -> Seq<Seq<Seq<char>>> {
    seq![seq!["번호"@, "법령명"@, "법령번호"@, "종류"@, "소관부처"@, "시행일"@]]
        + Seq::new(r.items@.len(), |i: int| search_cells(row_number(r.page_no, r.page_size, i), r.items@[i], ""@))
}

/// The cells of a history entry's row, absent values shown as `absent`.
pub open spec fn history_cells(e: HistoryEntry, absent: Seq<char>) -> Seq<Seq<char>> {
    seq![dec(e.revision_no as nat), e.revision_date@, or_text(e.enforcement_date, absent), e.revision_type@,
        or_text(e.reason, absent)]
}

/// The header and rows of a law history in CSV.
pub open spec fn history_csv_rows(h: LawHistory) -> Seq<Seq<Seq<char>>> {
    seq![seq!["순번"@, "개정일자"@, "시행일자"@, "개정구분"@, "개정이유"@]]
        + Seq::new(h.entries@.len(), |i: int| history_cells(h.entries@[i], ""@))
}

/// A fact row of a law detail in CSV, when present.
pub open spec fn fact_row(o: Option<String>, label: Seq<char>) -> Seq<Seq<Seq<char>>> {
    match o {
        Some(v) => seq![seq![label, v@]],
        None => Seq::empty(),
    }
}

/// The heading of an article in CSV: its number, and its title in
/// parentheses when it has a non-empty one.
pub open spec fn article_heading(a: Article) -> Seq<char> {
    match a.title {
        Some(t) => if t@.len() == 0 { a.number@ } else { a.number@ + " ("@ + t@ + ")"@ },
        None => a.number@,
    }
}

/// The rows of a law detail in CSV: fact rows, then, when it has
/// articles, a blank row, a header and one row per article.
pub open spec fn detail_csv_rows(d: LawDetail) -> Seq<Seq<Seq<char>>> {
    seq![seq!["항목"@, "내용"@], seq!["법령명"@, d.law_name@]]
        + fact_row(d.law_no, "법령번호"@) + fact_row(d.law_type, "법령종류"@)
        + fact_row(d.department, "소관부처"@) + fact_row(d.enforcement_date, "시행일자"@)
        + fact_row(d.revision_date, "개정일자"@)
        + if d.articles@.len() == 0 {
            Seq::empty()
        } else {
            seq![seq![""@, ""@], seq!["조문번호"@, "조문내용"@]]
                + Seq::new(d.articles@.len(), |i: int| seq![article_heading(d.articles@[i]), d.articles@[i].content@])
        }
}

fn search_row(num: u32, item: &SearchItem, absent: &str) -> (res: Vec<String>)
    ensures
        res@.map_values(|f: String| f@) == search_cells(num as int, *item, absent@),
{
    let n = crate::text::dec_string(num as u64);
    let v = strings_of(vec![n.as_str(), item.title.as_str(), opt_str(&item.law_no, absent),
        opt_str(&item.law_type, absent), opt_str(&item.department, absent),
        opt_str(&item.enforcement_date, absent)]);
    assert(v@.map_values(|f: String| f@) =~= search_cells(num as int, *item, absent@));
    v
}

fn history_row(e: &HistoryEntry, absent: &str) -> (res: Vec<String>)
    ensures
        res@.map_values(|f: String| f@) == history_cells(*e, absent@),
{
    let n = crate::text::dec_string(e.revision_no as u64);
    let v = strings_of(vec![n.as_str(), e.revision_date.as_str(), opt_str(&e.enforcement_date, absent),
        e.revision_type.as_str(), opt_str(&e.reason, absent)]);
    assert(v@.map_values(|f: String| f@) =~= history_cells(*e, absent@));
    v
}

fn pair_row(a: &str, b: &str) -> (res: Vec<String>)
    ensures
        res@.map_values(|f: String| f@) == seq![a@, b@],
{
    let v = strings_of(vec![a, b]);
    assert(v@.map_values(|f: String| f@) =~= seq![a@, b@]);
    v
}

fn push_fact_row(rows: &mut Vec<Vec<String>>, o: &Option<String>, label: &str)
    ensures
        rows_view(final(rows)@) == rows_view(old(rows)@) + fact_row(*o, label@),
{
    match o {
        Some(v) => {
            rows.push(pair_row(label, v.as_str()));
            assert(rows_view(rows@) =~= rows_view(old(rows)@) + fact_row(*o, label@));
        }
        None => {
            assert(rows_view(rows@) =~= rows_view(old(rows)@) + fact_row(*o, label@));
        }
    }
}

impl Formatter {
    /// The rows of a search response's terminal table: row number, title
    /// cut to 40 characters, law number, type, department cut to 20
    /// characters and enforcement date, absent values shown as `-`.
    pub fn search_table_rows(&self, response: &SearchResponse) -> (res: Vec<Vec<String>>)
        requires
            response.items@.len() <= u32::MAX,
            rows_fit(response.page_no, response.page_size, response.items@.len() as int),
        ensures
            res@.len() == response.items@.len(),
            forall|i: int| 0 <= i < res@.len() ==> (#[trigger] res@[i])@.map_values(|f: String| f@) == seq![
                dec(row_number(response.page_no, response.page_size, i) as nat),
                truncated(response.items@[i].title@, 40),
                or_text(response.items@[i].law_no, "-"@),
                or_text(response.items@[i].law_type, "-"@),
                truncated(or_text(response.items@[i].department, "-"@), 20),
                or_text(response.items@[i].enforcement_date, "-"@)],
    {
        let n = response.items.len();
        let mut rows: Vec<Vec<String>> = Vec::new();
        let mut i: usize = 0;
        while i < n
            invariant
                n == response.items@.len(),
                n <= u32::MAX,
                rows_fit(response.page_no, response.page_size, n as int),
                i <= n,
                rows@.len() == i,
                forall|k: int| 0 <= k < i ==> (#[trigger] rows@[k])@.map_values(|f: String| f@) == seq![
                    dec(row_number(response.page_no, response.page_size, k) as nat),
                    truncated(response.items@[k].title@, 40),
                    or_text(response.items@[k].law_no, "-"@),
                    or_text(response.items@[k].law_type, "-"@),
                    truncated(or_text(response.items@[k].department, "-"@), 20),
                    or_text(response.items@[k].enforcement_date, "-"@)],
            decreases n - i,
        {
            let item = &response.items[i];
            let num = crate::text::dec_string(row_num(response.page_no, response.page_size, i, n) as u64);
            let title = truncate_string(item.title.as_str(), 40);
            let dept = truncate_string(opt_str(&item.department, "-"), 20);
            let row = strings_of(vec![num.as_str(), title.as_str(), opt_str(&item.law_no, "-"),
                opt_str(&item.law_type, "-"), dept.as_str(), opt_str(&item.enforcement_date, "-")]);
            rows.push(row);
            i = i + 1;
        }
        rows
    }

    /// The rows of a law history's terminal table: number, revision date,
    /// enforcement date, revision type and reason cut to 40 characters,
    /// absent values shown as `-`.
    pub fn history_table_rows(&self, history: &LawHistory) -> (res: Vec<Vec<String>>)
        ensures
            res@.len() == history.entries@.len(),
            forall|i: int| 0 <= i < res@.len() ==> (#[trigger] res@[i])@.map_values(|f: String| f@) == seq![
                dec(history.entries@[i].revision_no as nat),
                history.entries@[i].revision_date@,
                or_text(history.entries@[i].enforcement_date, "-"@),
                history.entries@[i].revision_type@,
                truncated(or_text(history.entries@[i].reason, "-"@), 40)],
    {
        let n = history.entries.len();
        let mut rows: Vec<Vec<String>> = Vec::new();
        let mut i: usize = 0;
        while i < n
            invariant
                n == history.entries@.len(),
                i <= n,
                rows@.len() == i,
                forall|k: int| 0 <= k < i ==> (#[trigger] rows@[k])@.map_values(|f: String| f@) == seq![
                    dec(history.entries@[k].revision_no as nat),
                    history.entries@[k].revision_date@,
                    or_text(history.entries@[k].enforcement_date, "-"@),
                    history.entries@[k].revision_type@,
                    truncated(or_text(history.entries@[k].reason, "-"@), 40)],
            decreases n - i,
        {
            let e = &history.entries[i];
            let num = crate::text::dec_string(e.revision_no as u64);
            let reason = truncate_string(opt_str(&e.reason, "-"), 40);
            let row = strings_of(vec![num.as_str(), e.revision_date.as_str(), opt_str(&e.enforcement_date, "-"),
                e.revision_type.as_str(), reason.as_str()]);
            rows.push(row);
            i = i + 1;
        }
        rows
    }

    /// A search response in CSV.
    pub fn format_search_csv(&self, response: &SearchResponse) -> (res: Result<String, WarpError>)
        requires
            response.items@.len() <= u32::MAX,
            rows_fit(response.page_no, response.page_size, response.items@.len() as int),
        ensures
            csv_outcome(search_csv_rows(*response), res),
    {
        let mut rows: Vec<Vec<String>> = Vec::new();
        let header = vec!["번호", "법령명", "법령번호", "종류", "소관부처", "시행일"];
        assert(header@.map_values(|f: &str| f@) =~= seq!["번호"@, "법령명"@, "법령번호"@, "종류"@, "소관부처"@, "시행일"@]);
        rows.push(strings_of(header));
        assert(rows_view(rows@) =~= search_csv_rows(*response).take(1));
        let n = response.items.len();
        let mut i: usize = 0;
        while i < n
            invariant
                n == response.items@.len(),
                n <= u32::MAX,
                rows_fit(response.page_no, response.page_size, n as int),
                i <= n,
                rows_view(rows@) == search_csv_rows(*response).take(i + 1),
            decreases n - i,
        {
            let num = row_num(response.page_no, response.page_size, i, n);
            let r = search_row(num, &response.items[i], "");
            let ghost old_rows = rows@;
            let ghost rv = r@.map_values(|f: String| f@);
            rows.push(r);
            proof { reveal_strlit(""); }
            assert(rows_view(rows@) =~= rows_view(old_rows).push(rv));
            assert(search_csv_rows(*response)[i + 1] == search_cells(
                row_number(response.page_no, response.page_size, i as int), response.items@[i as int], ""@));
            assert(search_csv_rows(*response).take(i + 2) =~= search_csv_rows(*response).take(i + 1).push(
                search_csv_rows(*response)[i + 1]));
            i = i + 1;
        }
        assert(search_csv_rows(*response).take(n + 1) =~= search_csv_rows(*response));
        csv_document(&rows)
    }

    /// A law history in CSV.
    pub fn format_history_csv(&self, history: &LawHistory) -> (res: Result<String, WarpError>)
        ensures
            csv_outcome(history_csv_rows(*history), res),
    {
        let mut rows: Vec<Vec<String>> = Vec::new();
        let header = vec!["순번", "개정일자", "시행일자", "개정구분", "개정이유"];
        assert(header@.map_values(|f: &str| f@) =~= seq!["순번"@, "개정일자"@, "시행일자"@, "개정구분"@, "개정이유"@]);
        rows.push(strings_of(header));
        assert(rows_view(rows@) =~= history_csv_rows(*history).take(1));
        let n = history.entries.len();
        let mut i: usize = 0;
        while i < n
            invariant
                n == history.entries@.len(),
                i <= n,
                rows_view(rows@) == history_csv_rows(*history).take(i + 1),
            decreases n - i,
        {
            let r = history_row(&history.entries[i], "");
            let ghost old_rows = rows@;
            let ghost rv = r@.map_values(|f: String| f@);
            rows.push(r);
            proof { reveal_strlit(""); }
            assert(rows_view(rows@) =~= rows_view(old_rows).push(rv));
            assert(history_csv_rows(*history)[i + 1] == history_cells(history.entries@[i as int], ""@));
            assert(history_csv_rows(*history).take(i + 2) =~= history_csv_rows(*history).take(i + 1).push(
                history_csv_rows(*history)[i + 1]));
            i = i + 1;
        }
        assert(history_csv_rows(*history).take(n + 1) =~= history_csv_rows(*history));
        csv_document(&rows)
    }

    /// A law detail in CSV.
    pub fn format_detail_csv(&self, detail: &LawDetail) -> (res: Result<String, WarpError>)
        ensures
            csv_outcome(detail_csv_rows(*detail), res),
    {
        let mut rows: Vec<Vec<String>> = Vec::new();
        rows.push(pair_row("항목", "내용"));
        rows.push(pair_row("법령명", detail.law_name.as_str()));
        assert(rows_view(rows@) =~= seq![seq!["항목"@, "내용"@], seq!["법령명"@, detail.law_name@]]);
        push_fact_row(&mut rows, &detail.law_no, "법령번호");
        push_fact_row(&mut rows, &detail.law_type, "법령종류");
        push_fact_row(&mut rows, &detail.department, "소관부처");
        push_fact_row(&mut rows, &detail.enforcement_date, "시행일자");
        push_fact_row(&mut rows, &detail.revision_date, "개정일자");
        let ghost facts = rows_view(rows@);
        let n = detail.articles.len();
        if n > 0 {
            rows.push(pair_row("", ""));
            rows.push(pair_row("조문번호", "조문내용"));
            let ghost start = rows_view(rows@);
            assert(start =~= facts + seq![seq![""@, ""@], seq!["조문번호"@, "조문내용"@]]);
            let mut i: usize = 0;
            while i < n
                invariant
                    n == detail.articles@.len(),
                    i <= n,
                    rows_view(rows@) == start + Seq::new(i as nat, |k: int|
                        seq![article_heading(detail.articles@[k]), detail.articles@[k].content@]),
                decreases n - i,
            {
                let a = &detail.articles[i];
                let heading = match &a.title {
                    Some(t) => if t.as_str().unicode_len() == 0 {
                        a.number.clone()
                    } else {
                        let mut h = a.number.clone();
                        push_str(&mut h, " (");
                        push_str(&mut h, t.as_str());
                        push_str(&mut h, ")");
                        h
                    },
                    None => a.number.clone(),
                };
                assert(heading@ == article_heading(*a));
                let r = pair_row(heading.as_str(), a.content.as_str());
                let ghost old_rows = rows@;
                rows.push(r);
                assert(rows_view(rows@) =~= rows_view(old_rows).push(seq![heading@, a.content@]));
                assert(rows_view(rows@) =~= start + Seq::new((i + 1) as nat, |k: int|
                    seq![article_heading(detail.articles@[k]), detail.articles@[k].content@]));
                i = i + 1;
            }
            assert(rows_view(rows@) =~= facts + (seq![seq![""@, ""@], seq!["조문번호"@, "조문내용"@]]
                + Seq::new(n as nat, |k: int| seq![article_heading(detail.articles@[k]), detail.articles@[k].content@])));
        } else {
            assert(rows_view(rows@) =~= facts + Seq::<Seq<Seq<char>>>::empty());
        }
        proof { reveal_strlit(""); }
        assert(rows_view(rows@) =~= detail_csv_rows(*detail));
        csv_document(&rows)
    }
}

// ---------------------------------------------------------------------------
// Choice of renderer
// ---------------------------------------------------------------------------

/// Whether the library itself renders this format; the terminal table and
/// JSON are drawn by the front end.
pub open spec fn rendered_here(format: OutputFormat) -> bool {
    format != OutputFormat::Table && format != OutputFormat::Json
}

/// What a search response renders to in each format the library renders.
pub open spec fn search_rendering(format: OutputFormat, r: SearchResponse, res: Option<Result<String, WarpError>>) -> bool {
    match format {
        OutputFormat::Markdown => res matches Some(Ok(s)) && s@ == search_markdown(r),
        OutputFormat::Csv => res matches Some(o) && csv_outcome(search_csv_rows(r), o),
        OutputFormat::Html => res matches Some(Ok(s)) && s@ == search_html(r, false),
        OutputFormat::HtmlSimple => res matches Some(Ok(s)) && s@ == search_html(r, true),
        _ => res is None,
    }
}

/// What a law detail renders to in each format the library renders.
pub open spec fn detail_rendering(format: OutputFormat, d: LawDetail, res: Option<Result<String, WarpError>>) -> bool {
    match format {
        OutputFormat::Markdown => res matches Some(Ok(s)) && s@ == detail_markdown(d),
        OutputFormat::Csv => res matches Some(o) && csv_outcome(detail_csv_rows(d), o),
        OutputFormat::Html => res matches Some(Ok(s)) && s@ == detail_html(d, false),
        OutputFormat::HtmlSimple => res matches Some(Ok(s)) && s@ == detail_html(d, true),
        _ => res is None,
    }
}

/// What a law history renders to in each format the library renders.
pub open spec fn history_rendering(format: OutputFormat, h: LawHistory, res: Option<Result<String, WarpError>>) -> bool {
    match format {
        OutputFormat::Markdown => res matches Some(Ok(s)) && s@ == history_markdown(h),
        OutputFormat::Csv => res matches Some(o) && csv_outcome(history_csv_rows(h), o),
        OutputFormat::Html => res matches Some(Ok(s)) && s@ == history_html(h, false),
        OutputFormat::HtmlSimple => res matches Some(Ok(s)) && s@ == history_html(h, true),
        _ => res is None,
    }
}

impl Formatter {
    /// A search response in this renderer's format; `None` for the terminal
    /// table and JSON, which the front end draws.
    pub fn format_search(&self, response: &SearchResponse) -> (res: Option<Result<String, WarpError>>)
        requires
            rendered_here(self.format) ==> response.items@.len() <= u32::MAX
                && rows_fit(response.page_no, response.page_size, response.items@.len() as int),
            rendered_here(self.format) && self.format != OutputFormat::Csv ==> pages_fit(*response),
        ensures
            search_rendering(self.format, *response, res),
    {
        match self.format {
            OutputFormat::Markdown => Some(self.format_search_markdown(response)),
            OutputFormat::Csv => Some(self.format_search_csv(response)),
            OutputFormat::Html | OutputFormat::HtmlSimple => Some(self.format_search_html(response)),
            _ => None,
        }
    }

    /// A law detail in this renderer's format; `None` for the terminal table
    /// and JSON.
    pub fn format_detail(&self, detail: &LawDetail) -> (res: Option<Result<String, WarpError>>)
        ensures
            detail_rendering(self.format, *detail, res),
    {
        match self.format {
            OutputFormat::Markdown => Some(self.format_detail_markdown(detail)),
            OutputFormat::Csv => Some(self.format_detail_csv(detail)),
            OutputFormat::Html | OutputFormat::HtmlSimple => Some(self.format_detail_html(detail)),
            _ => None,
        }
    }

    /// A law history in this renderer's format; `None` for the terminal table
    /// and JSON.
    pub fn format_history(&self, history: &LawHistory) -> (res: Option<Result<String, WarpError>>)
        ensures
            history_rendering(self.format, *history, res),
    {
        match self.format {
            OutputFormat::Markdown => Some(self.format_history_markdown(history)),
            OutputFormat::Csv => Some(self.format_history_csv(history)),
            OutputFormat::Html | OutputFormat::HtmlSimple => Some(self.format_history_html(history)),
            _ => None,
        }
    }
}

proof fn lemma_ends_with_piece(a: Seq<char>, x: Seq<char>)
    ensures
        crate::text::has_substring(a + x, x),
{
    assert((a + x).subrange(a.len() as int, (a.len() + x.len()) as int) =~= x);
}

proof fn lemma_piece_kept(t: Seq<char>, x: Seq<char>, y: Seq<char>)
    requires
        crate::text::has_substring(t, x),
    ensures
        crate::text::has_substring(t + y, x),
{
    let i = choose|i: int| 0 <= i && i + x.len() <= t.len() && #[trigger] t.subrange(i, i + x.len()) == x;
    assert((t + y).subrange(i, i + x.len()) =~= t.subrange(i, i + x.len()));
}

/// Each fact a law detail has is shown on its own line of the Markdown
/// detail: the law number after `법령번호`, the law type after `법령종류`, the
/// ministry after `소관부처` and the enforcement date after `시행일자`, each
/// with exactly that field's text; and the detail starts with the law's name
/// as its title.
pub proof fn law_markdown_detail_shows_each_fact(d: LawDetail)
    ensures
        crate::text::has_prefix(detail_markdown(d), "# "@ + d.law_name@ + "\n\n"@),
        d.law_no matches Some(v) ==> crate::text::has_substring(detail_markdown(d), "- **법령번호**: "@ + v@ + "\n"@),
        d.law_type matches Some(v) ==> crate::text::has_substring(detail_markdown(d), "- **법령종류**: "@ + v@ + "\n"@),
        d.department matches Some(v) ==> crate::text::has_substring(detail_markdown(d), "- **소관부처**: "@ + v@ + "\n"@),
        d.enforcement_date matches Some(v) ==> crate::text::has_substring(detail_markdown(d), "- **시행일자**: "@ + v@ + "\n"@),
{
    let head = "# "@ + d.law_name@ + "\n\n"@;
    let s1 = section(d.law_no, "- **법령번호**: "@, "\n"@);
    let s2 = section(d.law_type, "- **법령종류**: "@, "\n"@);
    let s3 = section(d.department, "- **소관부처**: "@, "\n"@);
    let s4 = section(d.enforcement_date, "- **시행일자**: "@, "\n"@);
    let tail = "\n---\n\n"@ + if d.articles@.len() == 0 { Seq::empty() } else { "## 조문\n\n"@ + articles_md(d.articles@) };
    assert(detail_markdown(d) =~= head + s1 + s2 + s3 + s4 + tail);
    assert(detail_markdown(d).subrange(0, head.len() as int) =~= head);
    lemma_ends_with_piece(head, s1);
    lemma_piece_kept(head + s1, s1, s2);
    lemma_piece_kept(head + s1 + s2, s1, s3);
    lemma_piece_kept(head + s1 + s2 + s3, s1, s4);
    lemma_piece_kept(head + s1 + s2 + s3 + s4, s1, tail);
    lemma_ends_with_piece(head + s1, s2);
    lemma_piece_kept(head + s1 + s2, s2, s3);
    lemma_piece_kept(head + s1 + s2 + s3, s2, s4);
    lemma_piece_kept(head + s1 + s2 + s3 + s4, s2, tail);
    lemma_ends_with_piece(head + s1 + s2, s3);
    lemma_piece_kept(head + s1 + s2 + s3, s3, s4);
    lemma_piece_kept(head + s1 + s2 + s3 + s4, s3, tail);
    lemma_ends_with_piece(head + s1 + s2 + s3, s4);
    lemma_piece_kept(head + s1 + s2 + s3 + s4, s4, tail);
}

proof fn lemma_piece_inside(a: Seq<char>, x: Seq<char>, b: Seq<char>)
    ensures
        crate::text::has_substring(a + x + b, x),
{
    assert((a + x + b).subrange(a.len() as int, (a.len() + x.len()) as int) =~= x);
}

/// Each fact a law detail has is shown in the HTML detail as its own
/// labelled paragraph holding that field's (escaped) text: the law number,
/// law type, ministry, enforcement date and revision date.
pub proof fn law_html_detail_shows_each_fact(d: LawDetail, simple: bool)
    ensures
        d.law_no matches Some(v) ==> crate::text::has_substring(detail_html(d, simple),
            "<p><strong>"@ + "법령번호"@ + ":</strong> "@ + esc_html(v@) + "</p>\n"@),
        d.law_type matches Some(v) ==> crate::text::has_substring(detail_html(d, simple),
            "<p><strong>"@ + "법령종류"@ + ":</strong> "@ + esc_html(v@) + "</p>\n"@),
        d.department matches Some(v) ==> crate::text::has_substring(detail_html(d, simple),
            "<p><strong>"@ + "소관부처"@ + ":</strong> "@ + esc_html(v@) + "</p>\n"@),
        d.enforcement_date matches Some(v) ==> crate::text::has_substring(detail_html(d, simple),
            "<p><strong>"@ + "시행일자"@ + ":</strong> "@ + esc_html(v@) + "</p>\n"@),
        d.revision_date matches Some(v) ==> crate::text::has_substring(detail_html(d, simple),
            "<p><strong>"@ + "개정일자"@ + ":</strong> "@ + esc_html(v@) + "</p>\n"@),
{
    let (p, i1, i2, i3, i4, i5, r) = detail_html_parts(d, simple);
    lemma_detail_html_parts(d, simple);
    lemma_piece_at(p, i1, i2, i3, i4, i5, r);
}

/// The pieces of the HTML detail: what comes before the facts, the five
/// fact paragraphs, and what follows them.
spec fn detail_html_parts(d: LawDetail, simple: bool) -> (Seq<char>, Seq<char>, Seq<char>, Seq<char>, Seq<char>, Seq<char>, Seq<char>) {
    ((if simple { Seq::empty() } else {
            html_open() + "<title>"@ + esc_html(d.law_name@) + "</title>\n"@ + detail_style()
        }) + "<h1>"@ + esc_html(d.law_name@) + "</h1>\n"@ + "<div class=\"info\">\n"@,
    info_html(d.law_no, "법령번호"@),
    info_html(d.law_type, "법령종류"@),
    info_html(d.department, "소관부처"@),
    info_html(d.enforcement_date, "시행일자"@),
    info_html(d.revision_date, "개정일자"@),
    "</div>\n"@
        + (if d.articles@.len() == 0 { Seq::empty() } else { "<h2>조문</h2>\n"@ + articles_html(d.articles@) })
        + (if simple { Seq::empty() } else { html_close() }))
}

proof fn lemma_detail_html_parts(d: LawDetail, simple: bool)
    ensures
        ({
            let (p, i1, i2, i3, i4, i5, r) = detail_html_parts(d, simple);
            detail_html(d, simple) == p + i1 + i2 + i3 + i4 + i5 + r
        }),
{
    let (p, i1, i2, i3, i4, i5, r) = detail_html_parts(d, simple);
    assert(detail_html(d, simple) =~= p + i1 + i2 + i3 + i4 + i5 + r);
}

proof fn lemma_piece_at(p: Seq<char>, i1: Seq<char>, i2: Seq<char>, i3: Seq<char>, i4: Seq<char>, i5: Seq<char>, r: Seq<char>)
    ensures
        crate::text::has_substring(p + i1 + i2 + i3 + i4 + i5 + r, i1),
        crate::text::has_substring(p + i1 + i2 + i3 + i4 + i5 + r, i2),
        crate::text::has_substring(p + i1 + i2 + i3 + i4 + i5 + r, i3),
        crate::text::has_substring(p + i1 + i2 + i3 + i4 + i5 + r, i4),
        crate::text::has_substring(p + i1 + i2 + i3 + i4 + i5 + r, i5),
{
    let h = p + i1 + i2 + i3 + i4 + i5 + r;
    assert(h =~= p + i1 + (i2 + i3 + i4 + i5 + r));
    lemma_piece_inside(p, i1, i2 + i3 + i4 + i5 + r);
    assert(h =~= (p + i1) + i2 + (i3 + i4 + i5 + r));
    lemma_piece_inside(p + i1, i2, i3 + i4 + i5 + r);
    assert(h =~= (p + i1 + i2) + i3 + (i4 + i5 + r));
    lemma_piece_inside(p + i1 + i2, i3, i4 + i5 + r);
    assert(h =~= (p + i1 + i2 + i3) + i4 + (i5 + r));
    lemma_piece_inside(p + i1 + i2 + i3, i4, i5 + r);
    lemma_piece_inside(p + i1 + i2 + i3 + i4, i5, r);
}

/// Each fact a law detail has is a row of the CSV detail: its label, then
/// exactly that field's text; the law's name is the row after the header.
pub proof fn law_csv_detail_shows_each_fact(d: LawDetail)
    ensures
        detail_csv_rows(d).len() >= 2,
        detail_csv_rows(d)[1] == seq!["법령명"@, d.law_name@],
        d.law_no matches Some(v) ==> detail_csv_rows(d).contains(seq!["법령번호"@, v@]),
        d.law_type matches Some(v) ==> detail_csv_rows(d).contains(seq!["법령종류"@, v@]),
        d.department matches Some(v) ==> detail_csv_rows(d).contains(seq!["소관부처"@, v@]),
        d.enforcement_date matches Some(v) ==> detail_csv_rows(d).contains(seq!["시행일자"@, v@]),
        d.revision_date matches Some(v) ==> detail_csv_rows(d).contains(seq!["개정일자"@, v@]),
{
    let p = seq![seq!["항목"@, "내용"@], seq!["법령명"@, d.law_name@]];
    let f1 = fact_row(d.law_no, "법령번호"@);
    let f2 = fact_row(d.law_type, "법령종류"@);
    let f3 = fact_row(d.department, "소관부처"@);
    let f4 = fact_row(d.enforcement_date, "시행일자"@);
    let f5 = fact_row(d.revision_date, "개정일자"@);
    let rows = detail_csv_rows(d);
    assert(rows =~= p + f1 + f2 + f3 + f4 + f5 + rows.skip((p + f1 + f2 + f3 + f4 + f5).len() as int));
    if d.law_no is Some { assert(rows[(p.len()) as int] == f1[0]); }
    if d.law_type is Some { assert(rows[(p + f1).len() as int] == f2[0]); }
    if d.department is Some { assert(rows[(p + f1 + f2).len() as int] == f3[0]); }
    if d.enforcement_date is Some { assert(rows[(p + f1 + f2 + f3).len() as int] == f4[0]); }
    if d.revision_date is Some { assert(rows[(p + f1 + f2 + f3 + f4).len() as int] == f5[0]); }
}

} // verus!
