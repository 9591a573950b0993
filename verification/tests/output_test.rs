use warp::api::types::{Article, HistoryEntry, LawDetail, LawHistory, SearchItem, SearchResponse};
use warp::cli::OutputFormat;
use warp::output::formatter::{div_ceil, escape_html, escape_markdown, truncate_string, Formatter};
use warp::strmap::StrMap;

fn item(id: &str, title: &str) -> SearchItem {
    SearchItem {
        id: id.to_string(),
        title: title.to_string(),
        law_no: Some("001".to_string()),
        law_type: None,
        department: Some("법무부".to_string()),
        enforcement_date: Some("20210101".to_string()),
        revision_date: None,
        summary: None,
        source: "NLIC".to_string(),
        metadata: StrMap::new(),
    }
}

fn response() -> SearchResponse {
    SearchResponse {
        total_count: 25,
        page_no: 2,
        page_size: 10,
        items: vec![item("123", "Test | Law"), item("124", "<b>")],
        source: "NLIC".to_string(),
        timestamp: 0,
    }
}

fn detail() -> LawDetail {
    LawDetail {
        law_id: "1".to_string(),
        law_name: "민법".to_string(),
        law_no: Some("001".to_string()),
        law_type: None,
        department: None,
        enforcement_date: Some("20200101".to_string()),
        revision_date: None,
        content: String::new(),
        articles: vec![Article {
            number: "제1조".to_string(),
            title: Some("목적".to_string()),
            content: "a\nb & c".to_string(),
            paragraphs: vec![],
        }],
        attachments: vec![],
        related_laws: vec![],
        metadata: StrMap::new(),
    }
}

fn history() -> LawHistory {
    LawHistory {
        law_id: "1".to_string(),
        law_name: "민법".to_string(),
        total_count: 1,
        entries: vec![HistoryEntry {
            revision_no: 1,
            revision_date: "20200101".to_string(),
            enforcement_date: None,
            revision_type: "일부개정".to_string(),
            reason: Some("a_b".to_string()),
            changed_articles: vec![],
        }],
    }
}

#[test]
fn helpers() {
    assert_eq!(div_ceil(25, 10), 3);
    assert_eq!(div_ceil(0, 10), 0);
    assert_eq!(escape_html("a & <b> \"c\" 'd'"), "a &amp; &lt;b&gt; &quot;c&quot; &#39;d&#39;");
    assert_eq!(escape_markdown("a|b*c_d"), "a\\|b\\*c\\_d");
    assert_eq!(truncate_string("abcdef", 6), "abcdef");
    assert_eq!(truncate_string("abcdefg", 6), "abc...");
    assert_eq!(truncate_string("가나다라마바사", 5), "가나...");
}

#[test]
fn search_markdown() {
    let f = Formatter::new(OutputFormat::Markdown);
    let out = f.format_search_markdown(&response()).unwrap();
    let expected = "# 검색 결과\n\n- **총 결과**: 25\n- **페이지**: 2/3\n- **출처**: NLIC\n\n\
| 번호 | 법령명 | 법령번호 | 종류 | 소관부처 | 시행일 |\n|------|--------|----------|------|----------|--------|\n\
| 11 | Test \\| Law | 001 | - | 법무부 | 20210101 |\n| 12 | <b> | 001 | - | 법무부 | 20210101 |\n";
    assert_eq!(out, expected);
}

#[test]
fn detail_and_history_markdown() {
    let f = Formatter::new(OutputFormat::Markdown);
    assert_eq!(
        f.format_detail_markdown(&detail()).unwrap(),
        "# 민법\n\n- **법령번호**: 001\n- **시행일자**: 20200101\n\n---\n\n## 조문\n\n### 제1조 (목적)\n\na\nb & c\n\n"
    );
    assert_eq!(
        f.format_history_markdown(&history()).unwrap(),
        "# 민법 개정 연혁\n\n총 1건의 개정 이력\n\n| 순번 | 개정일자 | 시행일자 | 개정구분 | 개정이유 |\n|------|----------|----------|----------|----------|\n| 1 | 20200101 | - | 일부개정 | a\\_b |\n"
    );
}

#[test]
fn simple_html_has_no_page_frame() {
    let f = Formatter::new(OutputFormat::HtmlSimple);
    let out = f.format_search_html(&response()).unwrap();
    assert!(out.starts_with("<h1>검색 결과</h1>\n<p>총 25건 | 페이지 2/3</p>\n"));
    assert!(out.contains("<td>11</td><td>Test | Law</td>"));
    assert!(out.contains("<td>&lt;b&gt;</td>"));
    assert!(out.ends_with("</tbody>\n</table>\n"));
    let full = Formatter::new(OutputFormat::Html).format_search_html(&response()).unwrap();
    assert!(full.starts_with("<!DOCTYPE html>"));
    assert!(full.ends_with("</body>\n</html>"));
}

#[test]
fn detail_html_escapes_and_breaks_lines() {
    let f = Formatter::new(OutputFormat::HtmlSimple);
    let out = f.format_detail_html(&detail()).unwrap();
    assert!(out.contains("<div class=\"article-title\">제1조 (목적)</div>\n<div>a<br>b &amp; c</div>\n"));
    assert!(out.contains("<p><strong>법령번호:</strong> 001</p>\n"));
    let h = f.format_history_html(&history()).unwrap();
    assert!(h.contains("<td>1</td><td>20200101</td><td>-</td><td>일부개정</td><td>a_b</td>"));
}

#[test]
fn csv_documents_start_with_a_byte_order_mark() {
    let f = Formatter::new(OutputFormat::Csv);
    let out = f.format_search_csv(&response()).unwrap();
    assert!(out.starts_with('\u{feff}'));
    let lines: Vec<&str> = out.trim_start_matches('\u{feff}').lines().collect();
    assert_eq!(lines[0], "번호,법령명,법령번호,종류,소관부처,시행일");
    assert_eq!(lines[1], "11,Test | Law,001,,법무부,20210101");
    assert_eq!(lines.len(), 3);
    let d = f.format_detail_csv(&detail()).unwrap();
    assert!(d.contains("법령명,민법"));
    assert!(d.contains("조문번호,조문내용"));
    assert!(d.contains("제1조 (목적),\"a\nb & c\""));
    let h = f.format_history_csv(&history()).unwrap();
    assert!(h.contains("1,20200101,,일부개정,a_b"));
}

#[test]
fn table_rows_cut_long_cells() {
    let f = Formatter::new(OutputFormat::Table);
    let mut r = response();
    r.items[0].title = "가".repeat(45);
    let rows = f.search_table_rows(&r);
    assert_eq!(rows.len(), 2);
    assert_eq!(rows[0][0], "11");
    assert_eq!(rows[0][1], format!("{}...", "가".repeat(37)));
    assert_eq!(rows[0][3], "-");
    let h = f.history_table_rows(&history());
    assert_eq!(h[0], vec!["1", "20200101", "-", "일부개정", "a_b"]);
}

#[test]
fn csv_fields_are_quoted_only_where_needed() {
    let rows = vec![
        vec!["a,b".to_string(), "say \"hi\"".to_string(), "x".to_string()],
        vec!["".to_string()],
        vec!["line\nbreak".to_string(), "".to_string()],
        vec!["법률".to_string(), "r\rx".to_string()],
    ];
    let doc = warp::output::formatter::csv_document(&rows).unwrap();
    assert_eq!(doc, "\u{feff}\"a,b\",\"say \"\"hi\"\"\",x\n\"\"\n\"line\nbreak\",\n법률,\"r\rx\"\n");
}
