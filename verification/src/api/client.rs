//! What every legal database client shares: its configuration, the query
//! parameters and URL of a request, the checks on a response body, and the
//! retry schedule of a request.

use vstd::prelude::*;
use vstd::arithmetic::power2::{pow2, lemma_pow2_unfold, lemma_pow2_strictly_increases, lemma2_to64};
use crate::error::{WarpError, NetworkFailure, opt_text};
use crate::text::{string_of, push_str, push_dec, dec, has_prefix, has_substring, starts_with_str,
    contains_str, trim, trimmed_of, chars_of};
use crate::time::{Duration, max_nanos};
use crate::api::ApiType;
use crate::strmap::StrMap;
use crate::cli::parse::{parse_u32, parse_u32_text};

verus! {

/// Settings of an API client.
#[derive(Debug, Clone)]
pub struct ClientConfig {
    /// API key for authentication with the legal databases
    pub api_key: String,
    /// Request timeout in seconds
    pub timeout: u64,
    /// Maximum number of attempts for a request
    pub max_retries: u32,
    /// Base delay for exponential backoff (milliseconds)
    pub retry_base_delay: u64,
    /// User agent string for HTTP requests
    pub user_agent: String,
    /// Whether cached responses are ignored
    pub bypass_cache: bool,
    /// Whether background tasks and optimizations are disabled
    pub benchmark_mode: bool,
}

impl Default for ClientConfig {
    /// No key, 30 s timeout, 3 attempts, 100 ms base delay, the crate's user agent.
    fn default() -> (res: Self)
        ensures
            res.api_key@.len() == 0,
            res.timeout == 30,
            res.max_retries == 3,
            res.retry_base_delay == 100,
            res.user_agent@ == "warp/0.1.0"@,
            !res.bypass_cache,
            !res.benchmark_mode,
    {
        proof { reveal_strlit(""); }
        ClientConfig {
            api_key: string_of(""),
            timeout: 30,
            max_retries: 3,
            retry_base_delay: 100,
            user_agent: string_of("warp/0.1.0"),
            bypass_cache: false,
            benchmark_mode: false,
        }
    }
}

/// The 1-based position of the first result of a page, which the APIs
/// take in place of a page number.
pub open spec fn offset_of(page_no: u32, page_size: u32) -> int {
    (page_no - 1) * page_size + 1
}

/// Whether a page's offset can be computed: pages count from 1 and the
/// offset fits in 32 bits.
pub open spec fn offset_fits(page_no: u32, page_size: u32) -> bool {
    page_no >= 1 && offset_of(page_no, page_size) <= u32::MAX
}

/// Pages tile the results: the first page starts at the first result and
/// each page starts right after the previous one ends.
pub proof fn law_pages_are_contiguous(page_no: u32, page_size: u32)
    requires
        1 <= page_no < u32::MAX,
    ensures
        offset_of(1, page_size) == 1,
        offset_of((page_no + 1) as u32, page_size) == offset_of(page_no, page_size) + page_size,
{
    assert(page_no * page_size == (page_no - 1) * page_size + page_size) by (nonlinear_arith);
}

/// The offset of the first result of page `page_no` of `page_size` results.
pub fn page_offset(page_no: u32, page_size: u32) -> (res: u32)
    requires
        offset_fits(page_no, page_size),
    ensures
        res == offset_of(page_no, page_size),
{
    proof {
        assert((page_no - 1) * page_size <= u32::MAX) by (nonlinear_arith)
            requires
                (page_no - 1) * page_size + 1 <= u32::MAX,
        ;
    }
    (page_no - 1) * page_size + 1
}

/// Query parameters as pairs of texts.
pub open spec fn params_view(p: Seq<(String, String)>) -> Seq<(Seq<char>, Seq<char>)> {
    p.map_values(|kv: (String, String)| (kv.0@, kv.1@))
}

/// Appends one query parameter.
pub fn push_param(params: &mut Vec<(String, String)>, key: &str, value: &str)
    ensures
        params_view(final(params)@) == params_view(old(params)@).push((key@, value@)),
{
    params.push((string_of(key), string_of(value)));
    assert(params_view(params@) =~= params_view(old(params)@).push((key@, value@)));
}

/// Appends one query parameter whose value is a number.
pub fn push_num_param(params: &mut Vec<(String, String)>, key: &str, value: u32)
    ensures
        params_view(final(params)@) == params_view(old(params)@).push((key@, dec(value as nat))),
{
    let mut v = String::new();
    push_dec(&mut v, value as u64);
    assert(v@ =~= dec(value as nat));
    params.push((string_of(key), v));
    assert(params_view(params@) =~= params_view(old(params)@).push((key@, dec(value as nat))));
}

/// `params` with one more pair when the value is present.
pub open spec fn with_opt(params: Seq<(Seq<char>, Seq<char>)>, key: Seq<char>, value: Option<String>) -> Seq<(Seq<char>, Seq<char>)> {
    match value {
        Some(v) => params.push((key, v@)),
        None => params,
    }
}

/// A number given as optional text: its value when it parses, else the default.
pub open spec fn parsed_or(o: Option<String>, default: u32) -> u32 {
    match o {
        Some(s) => match parse_u32_text(s@) {
            Some(v) => v,
            None => default,
        },
        None => default,
    }
}

/// An optional number, else the default.
pub open spec fn or_default(o: Option<u32>, default: u32) -> u32 {
    match o {
        Some(v) => v,
        None => default,
    }
}

/// A map with one more entry when the value is present.
pub open spec fn with_entry(m: Map<Seq<char>, String>, key: Seq<char>, value: Option<String>) -> Map<Seq<char>, String> {
    match value {
        Some(v) => m.insert(key, v),
        None => m,
    }
}

/// A number given as optional text, parsed, else the default.
pub fn opt_number(o: Option<String>, default: u32) -> (res: u32)
    ensures
        res == parsed_or(o, default),
{
    match o {
        Some(s) => match parse_u32(s.as_str()) {
            Some(v) => v,
            None => default,
        },
        None => default,
    }
}

/// `params` with one more pair when the extra parameter is set.
pub open spec fn with_extra(params: Seq<(Seq<char>, Seq<char>)>, key: Seq<char>, extras: StrMap<String>, name: Seq<char>) -> Seq<(Seq<char>, Seq<char>)> {
    if extras.map_view().dom().contains(name) {
        params.push((key, extras.map_view()[name]@))
    } else {
        params
    }
}

/// A titled section of a combined text, present when its body is.
pub open spec fn section(body: Option<String>, head: Seq<char>, tail: Seq<char>) -> Seq<char> {
    match body {
        Some(b) => head + b@ + tail,
        None => Seq::empty(),
    }
}

/// Appends a titled section when its body is present.
pub fn push_section(out: &mut String, body: &Option<String>, head: &str, tail: &str)
    ensures
        final(out)@ == old(out)@ + section(*body, head@, tail@),
{
    match body {
        Some(b) => {
            push_str(out, head);
            push_str(out, b.as_str());
            push_str(out, tail);
        }
        None => {
            assert(old(out)@ + Seq::<char>::empty() =~= old(out)@);
        }
    }
}

/// A copy of an optional string, equal to it.
pub fn copy_opt(o: &Option<String>) -> (res: Option<String>)
    ensures
        res == *o,
{
    match o {
        Some(s) => Some(s.clone()),
        None => None,
    }
}

/// Appends an extra parameter of the request when it is set.
pub fn push_extra_param(params: &mut Vec<(String, String)>, key: &str, extras: &StrMap<String>, name: &str)
    requires
        extras.wf(),
    ensures
        params_view(final(params)@) == with_extra(params_view(old(params)@), key@, *extras, name@),
{
    match extras.get(name) {
        Some(v) => push_param(params, key, v.as_str()),
        None => {}
    }
}

/// The text of a result whose two sides are strings.
pub open spec fn result_text(r: Result<String, String>) -> Result<Seq<char>, Seq<char>> {
    match r {
        Ok(s) => Ok(s@),
        Err(s) => Err(s@),
    }
}

/// The URL that `url::Url::parse_with_params` makes of a base URL and
/// query pairs, or the text of its parse error.
pub uninterp spec fn url_with_query(base: Seq<char>, params: Seq<(Seq<char>, Seq<char>)>) -> Result<Seq<char>, Seq<char>>;

/// `reqwest::Url::parse_with_params(base, params)`, the URL rendered with
/// `to_string` or the error with `to_string`. Its result is named, not
/// stated: it depends on the base and the pairs alone.
#[verifier::external_body]
fn parse_with_params(base: &str, params: &Vec<(String, String)>) -> (res: Result<String, String>)
    ensures
        result_text(res) == url_with_query(base@, params_view(params@)),
{
    reqwest::Url::parse_with_params(base, params.iter().map(|kv| (kv.0.as_str(), kv.1.as_str())))
        .map(|u| u.to_string())
        .map_err(|e| e.to_string())
}

/// What a URL result becomes: the URL, or a parse error with its message.
pub open spec fn url_outcome(r: Result<Seq<char>, Seq<char>>, res: Result<String, WarpError>) -> bool {
    match r {
        Ok(u) => res matches Ok(s) && s@ == u,
        Err(m) => res matches Err(WarpError::Parse(e)) && e@ == m,
    }
}

/// Turns the outcome of building a URL into the client's result.
pub fn url_or_parse_error(r: Result<String, String>) -> (res: Result<String, WarpError>)
    ensures
        url_outcome(result_text(r), res),
{
    match r {
        Ok(u) => Ok(u),
        Err(m) => Err(WarpError::Parse(m)),
    }
}

/// The request URL for a base URL and query parameters.
pub fn build_url(base: &str, params: &Vec<(String, String)>) -> (res: Result<String, WarpError>)
    ensures
        url_outcome(url_with_query(base@, params_view(params@)), res),
{
    url_or_parse_error(parse_with_params(base, params))
}

/// Whether an error is the API error with these code, message and hint.
pub open spec fn is_api_error(e: WarpError, code: Seq<char>, message: Seq<char>, hint: Option<Seq<char>>) -> bool {
    e matches WarpError::ApiError { code: c, message: m, hint: h }
        && c@ == code && m@ == message && opt_text(h) == hint
}

fn api_error(code: &str, message: &str, hint: &str) -> (res: WarpError)
    ensures
        is_api_error(res, code@, message@, Some(hint@)),
{
    WarpError::ApiError { code: string_of(code), message: string_of(message), hint: Some(string_of(hint)) }
}

/// The hint given when a search answer is HTML.
pub open spec fn html_hint(config_key: Seq<char>) -> Seq<char> {
    "Please check your API key with 'warp config get "@ + config_key + "' and ensure it's valid."@
}

/// The error for a search answered with HTML.
pub open spec fn is_html_answer_error(e: WarpError, config_key: Seq<char>) -> bool {
    is_api_error(e, "INVALID_RESPONSE"@,
        "API returned HTML instead of JSON. This usually means the API key is invalid or the service is unavailable."@,
        Some(html_hint(config_key)))
}

/// The error for an empty search answer.
pub open spec fn is_empty_answer_error(e: WarpError) -> bool {
    is_api_error(e, "EMPTY_RESPONSE"@, "API returned an empty response."@,
        Some("This might indicate an invalid API key or server issue. Try again later."@))
}

fn html_answer_error(config_key: &str) -> (res: WarpError)
    ensures
        is_html_answer_error(res, config_key@),
{
    let mut hint = string_of("Please check your API key with 'warp config get ");
    push_str(&mut hint, config_key);
    push_str(&mut hint, "' and ensure it's valid.");
    WarpError::ApiError {
        code: string_of("INVALID_RESPONSE"),
        message: string_of("API returned HTML instead of JSON. This usually means the API key is invalid or the service is unavailable."),
        hint: Some(hint),
    }
}

/// Checks the body of a search answer: HTML (by content type or by a
/// leading `<`) and blank bodies are refused.
pub fn check_search_text(is_html: bool, text: &str, config_key: &str) -> (res: Result<(), WarpError>)
    ensures
        (is_html || has_prefix(text@, "<"@)) ==> (res matches Err(e) && is_html_answer_error(e, config_key@)),
        !(is_html || has_prefix(text@, "<"@)) && trimmed_of(text@).len() == 0
            ==> (res matches Err(e) && is_empty_answer_error(e)),
        res is Ok <==> !(is_html || has_prefix(text@, "<"@)) && trimmed_of(text@).len() != 0,
{
    if is_html || starts_with_str(text, "<") {
        return Err(html_answer_error(config_key));
    }
    let t = trim(text);
    if t.as_str().unicode_len() == 0 {
        return Err(api_error("EMPTY_RESPONSE", "API returned an empty response.",
            "This might indicate an invalid API key or server issue. Try again later."));
    }
    Ok(())
}

/// Checks the body of a search answer for a leading `<` only.
pub fn check_search_text_for_html(text: &str, config_key: &str) -> (res: Result<(), WarpError>)
    ensures
        has_prefix(text@, "<"@) ==> (res matches Err(e) && is_html_answer_error(e, config_key@)),
        res is Ok <==> !has_prefix(text@, "<"@),
{
    if starts_with_str(text, "<") {
        return Err(html_answer_error(config_key));
    }
    Ok(())
}

/// The error for a detail or history answered with HTML.
pub open spec fn is_html_detail_error(e: WarpError) -> bool {
    is_api_error(e, "INVALID_RESPONSE"@, "API returned HTML instead of JSON."@,
        Some("Please check your API key configuration."@))
}

/// Checks the body of a detail or history answer: a leading `<` is refused.
pub fn check_detail_text(text: &str) -> (res: Result<(), WarpError>)
    ensures
        has_prefix(text@, "<"@) ==> (res matches Err(e) && is_html_detail_error(e)),
        res is Ok <==> !has_prefix(text@, "<"@),
{
    if starts_with_str(text, "<") {
        return Err(api_error("INVALID_RESPONSE", "API returned HTML instead of JSON.",
            "Please check your API key configuration."));
    }
    Ok(())
}

/// The first `n` characters of a text (all of it when shorter).
pub open spec fn first_chars(s: Seq<char>, n: int) -> Seq<char> {
    if s.len() <= n { s } else { s.take(n) }
}

/// The first `n` characters of a text, as a new string.
pub fn take_chars(s: &str, n: usize) -> (res: String)
    ensures
        res@ == first_chars(s@, n as int),
{
    let cs = chars_of(s);
    let mut out = String::new();
    let mut i: usize = 0;
    while i < n && i < cs.len()
        invariant
            cs@ == s@,
            i <= cs@.len(),
            i <= n,
            out@ == s@.take(i as int),
        decreases cs@.len() - i,
    {
        crate::text::push_char(&mut out, cs[i]);
        assert(s@.take(i + 1) =~= s@.take(i as int).push(cs@[i as int]));
        i = i + 1;
    }
    assert(i == cs@.len() ==> s@.take(i as int) =~= s@);
    out
}

/// Whether an answer that does not parse reads as an error report.
pub open spec fn mentions_error(text: Seq<char>) -> bool {
    has_substring(text, "error"@) || has_substring(text, "Error"@)
}

/// The error for an answer that reads as an error report.
pub open spec fn is_reported_error(e: WarpError, text: Seq<char>) -> bool {
    is_api_error(e, "API_ERROR"@, "API returned an error: "@ + first_chars(text, 200),
        Some("Check your API key and request parameters."@))
}

/// The error for a search answer that failed to parse: an error report
/// quoted from the first 200 characters of the body when the body mentions
/// an error, else a parse error: `prefix` and the parser's message.
pub fn search_parse_failure(text: &str, prefix: &str, parse_error: &str) -> (res: WarpError)
    ensures
        mentions_error(text@) ==> is_reported_error(res, text@),
        !mentions_error(text@) ==> (res matches WarpError::Parse(m) && m@ == prefix@ + parse_error@),
{
    if contains_str(text, "error") || contains_str(text, "Error") {
        reported_error(text)
    } else {
        parse_failure(prefix, parse_error)
    }
}

/// The error for an answer that reads as an error report.
pub fn reported_error(text: &str) -> (res: WarpError)
    ensures
        is_reported_error(res, text@),
{
    let mut m = string_of("API returned an error: ");
    let head = take_chars(text, 200);
    push_str(&mut m, head.as_str());
    WarpError::ApiError {
        code: string_of("API_ERROR"),
        message: m,
        hint: Some(string_of("Check your API key and request parameters.")),
    }
}

/// A parse error: `prefix` followed by the parser's message.
pub fn parse_failure(prefix: &str, parse_error: &str) -> (res: WarpError)
    ensures
        res matches WarpError::Parse(m) && m@ == prefix@ + parse_error@,
{
    let mut m = string_of(prefix);
    push_str(&mut m, parse_error);
    WarpError::Parse(m)
}

/// The cache key of a detail or history request: `<api>:<kind>:<id>`.
pub open spec fn item_cache_key(api: ApiType, kind: Seq<char>, id: Seq<char>) -> Seq<char> {
    crate::api::api_type_name(api) + ":"@ + kind + ":"@ + id
}

/// The cache key of a detail or history request.
pub fn item_key(api: ApiType, kind: &str, id: &str) -> (res: String)
    ensures
        res@ == item_cache_key(api, kind@, id@),
{
    let mut k = string_of(api.as_str());
    push_str(&mut k, ":");
    push_str(&mut k, kind);
    push_str(&mut k, ":");
    push_str(&mut k, id);
    k
}

/// How the wait before a repeated attempt grows.
#[derive(Debug, Clone, Copy, PartialEq, Eq, Structural)]
pub enum Backoff {
    /// The base delay, doubled after every wait; rate limiting is retried.
    Doubling,
    /// `2^n` seconds before attempt `n`; rate limiting is not retried.
    PowersOfTwoSeconds,
}

/// How one attempt at a request ended.
#[derive(Debug)]
pub enum AttemptOutcome {
    /// The server answered with a status code and its text (such as
    /// `404 Not Found`).
    Response { code: u16, status_text: String },
    /// The request failed in transport.
    Transport(NetworkFailure),
}

/// What to do with the answer to an attempt.
#[derive(Debug)]
pub enum AttemptVerdict {
    /// The answer is usable.
    Success,
    /// The request failed for good.
    Failed(WarpError),
    /// The attempt failed; another may succeed.
    Retry,
}

/// The next step of a request.
#[derive(Debug)]
pub enum RetryAction {
    /// Wait this long, then send the request.
    Send { wait: Duration },
    /// Stop with this error.
    GiveUp(WarpError),
}

/// The error an attempt's outcome gives, and whether it is worth another try.
pub open spec fn outcome_error(backoff: Backoff, o: AttemptOutcome, e: WarpError) -> bool {
    match o {
        AttemptOutcome::Response { code, status_text } =>
            if backoff == Backoff::Doubling && code == 429 {
                e is RateLimit
            } else if 500 <= code <= 599 {
                e matches WarpError::ServerError(m) && m@ == (if backoff == Backoff::Doubling {
                    "Server returned status "@
                } else {
                    "Server error: "@
                }) + status_text@
            } else {
                is_api_error(e, status_text@, "API request failed with status "@ + status_text@, None)
            },
        AttemptOutcome::Transport(f) => e matches WarpError::Network(g) && g == f,
    }
}

/// Whether an attempt's outcome is a usable answer.
pub open spec fn outcome_succeeded(o: AttemptOutcome) -> bool {
    o matches AttemptOutcome::Response { code, .. } && 200 <= code <= 299
}

/// Whether an attempt's outcome ends the request with an error.
pub open spec fn outcome_fatal(backoff: Backoff, o: AttemptOutcome) -> bool {
    o matches AttemptOutcome::Response { code, .. } && !(200 <= code <= 299) && !(500 <= code <= 599)
        && !(backoff == Backoff::Doubling && code == 429)
}

/// The base delay doubled `k` times, in nanoseconds.
pub open spec fn doubled(base_nanos: int, k: nat) -> int {
    base_nanos * pow2(k)
}

/// The wait before attempt `attempt` (counting from 0), in nanoseconds.
pub open spec fn wait_before(backoff: Backoff, base_millis: u64, attempt: nat) -> int {
    if attempt == 0 {
        0
    } else if backoff == Backoff::Doubling {
        doubled(base_millis * 1_000_000, (attempt - 1) as nat)
    } else {
        pow2(attempt) * 1_000_000_000int
    }
}

/// Whether a schedule can run to its end without its arithmetic
/// overflowing: the last doubling of the delay stays within the range of a
/// duration, and `2^n` stays within 64 bits.
pub open spec fn schedule_fits(backoff: Backoff, max_retries: u32, base_millis: u64) -> bool {
    if backoff == Backoff::Doubling {
        max_retries == 0 || doubled(base_millis * 1_000_000, (max_retries - 1) as nat) <= max_nanos()
    } else {
        max_retries <= 64
    }
}

/// The attempts of one request, with the schedule of waits between them.
#[derive(Debug)]
pub struct RetryLoop {
    pub backoff: Backoff,
    pub max_retries: u32,
    pub base_millis: u64,
    /// Attempts sent so far
    pub attempt: u32,
    /// The wait before the next repeated attempt (doubling schedule)
    pub delay: Duration,
    /// The error of the last failed attempt
    pub last_error: Option<WarpError>,
}

proof fn lemma_doubled_monotone(b: int, k: nat, m: nat)
    requires
        b >= 0,
        k <= m,
    ensures
        doubled(b, k) <= doubled(b, m),
{
    if k < m {
        lemma_pow2_strictly_increases(k, m);
        assert(b * pow2(k) <= b * pow2(m)) by (nonlinear_arith)
            requires b >= 0, pow2(k) < pow2(m);
    }
}

proof fn lemma_doubled_step(b: int, k: nat)
    ensures
        doubled(b, k + 1) == 2 * doubled(b, k),
{
    lemma_pow2_unfold(k + 1);
    assert(b * (2 * pow2(k)) == 2 * (b * pow2(k))) by (nonlinear_arith);
}

/// The waits of a schedule: none before the first attempt; with doubling,
/// the base delay before the second and twice the previous wait before each
/// later one; otherwise two seconds raised to the attempt's number.
pub proof fn law_backoff_schedule(backoff: Backoff, base_millis: u64, attempt: nat)
    ensures
        wait_before(backoff, base_millis, 0) == 0,
        backoff == Backoff::Doubling ==> wait_before(backoff, base_millis, 1) == base_millis * 1_000_000,
        backoff == Backoff::Doubling && attempt >= 1 ==>
            wait_before(backoff, base_millis, attempt + 1) == 2 * wait_before(backoff, base_millis, attempt),
        backoff == Backoff::PowersOfTwoSeconds && attempt >= 1 ==>
            wait_before(backoff, base_millis, attempt + 1) == 2 * wait_before(backoff, base_millis, attempt),
{
    lemma2_to64();
    let b = base_millis * 1_000_000;
    assert(b * pow2(0) == b);
    if attempt >= 1 {
        lemma_doubled_step(b, (attempt - 1) as nat);
        lemma_pow2_unfold(attempt + 1);
    }
}

impl RetryLoop {
    /// The schedule's state is consistent: no more attempts than allowed,
    /// the doubling delay at its place in the schedule, and the whole
    /// schedule within range.
    pub open spec fn wf(&self) -> bool {
        &&& self.attempt <= self.max_retries
        &&& schedule_fits(self.backoff, self.max_retries, self.base_millis)
        &&& self.backoff == Backoff::Doubling ==> self.delay@ == doubled(
            self.base_millis * 1_000_000, if self.attempt == 0 { 0 } else { (self.attempt - 1) as nat })
    }

    /// A request that has not been sent yet.
    pub fn new(backoff: Backoff, max_retries: u32, base_millis: u64) -> (res: RetryLoop)
        requires
            schedule_fits(backoff, max_retries, base_millis),
        ensures
            res.wf(),
            res.backoff == backoff,
            res.max_retries == max_retries,
            res.base_millis == base_millis,
            res.attempt == 0,
            res.last_error is None,
    {
        proof {
            lemma2_to64();
            let b = base_millis * 1_000_000;
            assert(b * pow2(0) == b);
        }
        RetryLoop {
            backoff,
            max_retries,
            base_millis,
            attempt: 0,
            delay: Duration::from_millis(base_millis),
            last_error: None,
        }
    }

    /// The next step: send again after the scheduled wait while attempts
    /// remain, else give up with the last attempt's error (or a generic one
    /// when nothing was sent).
    pub fn next_action(&mut self) -> (res: RetryAction)
        requires
            old(self).wf(),
        ensures
            final(self).wf(),
            final(self).backoff == old(self).backoff,
            final(self).max_retries == old(self).max_retries,
            final(self).base_millis == old(self).base_millis,
            old(self).attempt < old(self).max_retries ==> {
                &&& res matches RetryAction::Send { wait }
                    && wait@ == wait_before(old(self).backoff, old(self).base_millis, old(self).attempt as nat)
                &&& final(self).attempt == old(self).attempt + 1
            },
            old(self).attempt >= old(self).max_retries ==> {
                &&& res matches RetryAction::GiveUp(e) && match old(self).last_error {
                        Some(last) => e == last,
                        None => e matches WarpError::Other(m) && m@ == "Request failed after all retries"@,
                    }
                &&& final(self).attempt == old(self).attempt
            },
    {
        if self.attempt >= self.max_retries {
            let e = match self.last_error.take() {
                Some(last) => last,
                None => WarpError::Other(string_of("Request failed after all retries")),
            };
            return RetryAction::GiveUp(e);
        }
        let k = self.attempt;
        let wait = if k == 0 {
            Duration::zero()
        } else {
            match self.backoff {
                Backoff::Doubling => {
                    let w = self.delay;
                    proof {
                        lemma_doubled_step(self.base_millis * 1_000_000, (k - 1) as nat);
                        lemma_doubled_monotone(self.base_millis * 1_000_000, k as nat, (self.max_retries - 1) as nat);
                    }
                    self.delay = self.delay.add(self.delay);
                    w
                }
                Backoff::PowersOfTwoSeconds => {
                    let p = pow2_u64(k);
                    Duration::from_secs(p)
                }
            }
        };
        self.attempt = k + 1;
        RetryAction::Send { wait }
    }

    /// Takes in how an attempt ended: a 2xx answer is a success; a
    /// retryable failure is remembered for a later give-up; any other
    /// answer fails the request.
    pub fn record(&mut self, outcome: AttemptOutcome) -> (res: AttemptVerdict)
        requires
            old(self).wf(),
        ensures
            final(self).wf(),
            final(self).backoff == old(self).backoff,
            final(self).max_retries == old(self).max_retries,
            final(self).base_millis == old(self).base_millis,
            final(self).attempt == old(self).attempt,
            outcome_succeeded(outcome) ==> res is Success,
            outcome_fatal(old(self).backoff, outcome) ==> (res matches AttemptVerdict::Failed(e)
                && outcome_error(old(self).backoff, outcome, e)),
            !outcome_succeeded(outcome) && !outcome_fatal(old(self).backoff, outcome) ==> res is Retry
                && (final(self).last_error matches Some(e) && outcome_error(old(self).backoff, outcome, e)),
    {
        match outcome {
            AttemptOutcome::Response { code, status_text } => {
                if 200 <= code && code <= 299 {
                    AttemptVerdict::Success
                } else if self.backoff == Backoff::Doubling && code == 429 {
                    self.last_error = Some(WarpError::RateLimit);
                    AttemptVerdict::Retry
                } else if 500 <= code && code <= 599 {
                    let prefix = if self.backoff == Backoff::Doubling {
                        "Server returned status "
                    } else {
                        "Server error: "
                    };
                    let mut m = string_of(prefix);
                    push_str(&mut m, status_text.as_str());
                    self.last_error = Some(WarpError::ServerError(m));
                    AttemptVerdict::Retry
                } else {
                    let mut m = string_of("API request failed with status ");
                    push_str(&mut m, status_text.as_str());
                    AttemptVerdict::Failed(WarpError::ApiError { code: status_text, message: m, hint: None })
                }
            }
            AttemptOutcome::Transport(f) => {
                self.last_error = Some(WarpError::Network(f));
                AttemptVerdict::Retry
            }
        }
    }
}

/// `2^e` for an exponent below 64 (`u64::pow(2, e)`).
fn pow2_u64(e: u32) -> (res: u64)
    requires
        e < 64,
    ensures
        res == pow2(e as nat),
{
    proof { lemma2_to64(); }
    let mut r: u64 = 1;
    let mut i: u32 = 0;
    while i < e
        invariant
            i <= e < 64,
            r == pow2(i as nat),
        decreases e - i,
    {
        proof {
            lemma_pow2_unfold((i + 1) as nat);
            lemma_pow2_strictly_increases((i + 1) as nat, 64);
            lemma2_to64();
        }
        r = r * 2;
        i = i + 1;
    }
    r
}

/// A client of one of the legal databases.
#[derive(Debug, Clone)]
pub enum LegalClient {
    Nlic(crate::api::nlic::NlicClient),
    Elis(crate::api::elis::ElisClient),
    Prec(crate::api::prec::PrecClient),
    Admrul(crate::api::admrul::AdmrulClient),
    Expc(crate::api::expc::ExpcClient),
}

impl LegalClient {
    /// The settings the client was made with.
    pub open spec fn config_of(&self) -> ClientConfig {
        match self {
            LegalClient::Nlic(c) => c.config,
            LegalClient::Elis(c) => c.config,
            LegalClient::Prec(c) => c.config,
            LegalClient::Admrul(c) => c.config,
            LegalClient::Expc(c) => c.config,
        }
    }

    /// The API of the client.
    pub open spec fn api_of(&self) -> ApiType {
        match self {
            LegalClient::Nlic(_) => ApiType::Nlic,
            LegalClient::Elis(_) => ApiType::Elis,
            LegalClient::Prec(_) => ApiType::Prec,
            LegalClient::Admrul(_) => ApiType::Admrul,
            LegalClient::Expc(_) => ApiType::Expc,
        }
    }

    /// The API the client talks to.
    pub fn api_type(&self) -> (res: ApiType)
        ensures
            res == self.api_of(),
    {
        match self {
            LegalClient::Nlic(_) => ApiType::Nlic,
            LegalClient::Elis(_) => ApiType::Elis,
            LegalClient::Prec(_) => ApiType::Prec,
            LegalClient::Admrul(_) => ApiType::Admrul,
            LegalClient::Expc(_) => ApiType::Expc,
        }
    }
}

/// Makes the client of a legal database.
pub struct ApiClientFactory;

impl ApiClientFactory {
    /// The client of the given database with the given settings; the
    /// unified search has no client of its own.
    pub fn create(api_type: ApiType, config: ClientConfig) -> (res: Result<LegalClient, WarpError>)
        ensures
            api_type == ApiType::All ==> (res matches Err(WarpError::Other(m)) && m@ ==
                "Unified search across all APIs is not yet implemented. Please use individual API types for now."@),
            api_type != ApiType::All ==> (res matches Ok(c) && c.api_of() == api_type && c.config_of() == config),
    {
        match api_type {
            ApiType::Nlic => Ok(LegalClient::Nlic(crate::api::nlic::NlicClient::new(config))),
            ApiType::Elis => Ok(LegalClient::Elis(crate::api::elis::ElisClient::new(config))),
            ApiType::Prec => Ok(LegalClient::Prec(crate::api::prec::PrecClient::new(config))),
            ApiType::Admrul => Ok(LegalClient::Admrul(crate::api::admrul::AdmrulClient::new(config))),
            ApiType::Expc => Ok(LegalClient::Expc(crate::api::expc::ExpcClient::new(config))),
            ApiType::All => Err(WarpError::Other(string_of(
                "Unified search across all APIs is not yet implemented. Please use individual API types for now."))),
        }
    }
}

} // verus!
