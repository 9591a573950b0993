//! Parsing of time windows, durations and API source lists, and masking of
//! secret values for display.

use vstd::prelude::*;
use vstd::string::*;
use vstd::utf8::{encode_utf8, decode_utf8, is_char_boundary};
use crate::text::{str_eq, to_lowercase, lowercase_of, trim, trimmed_of, push_str, push_char, push_dec, dec, digit_char, string_of};
use crate::metrics::MetricsWindow;
use crate::api::{ApiType, api_type_named};
use crate::time::{Duration, nanos_per_sec};
use crate::error::WarpError;

verus! {

broadcast use vstd::utf8::encode_utf8_decode_utf8;

/// The window a lowercase name denotes.
pub open spec fn window_named(s: Seq<char>) -> Option<MetricsWindow> {
    if s == "1m"@ || s == "1min"@ || s == "minute"@ {
        Some(MetricsWindow::LastMinute)
    } else if s == "5m"@ || s == "5min"@ {
        Some(MetricsWindow::Last5Minutes)
    } else if s == "15m"@ || s == "15min"@ {
        Some(MetricsWindow::Last15Minutes)
    } else if s == "1h"@ || s == "1hour"@ || s == "hour"@ {
        Some(MetricsWindow::LastHour)
    } else if s == "24h"@ || s == "24hour"@ || s == "day"@ {
        Some(MetricsWindow::Last24Hours)
    } else {
        None
    }
}

/// Resolves an already lowercased window name.
pub fn window_from_lowercase(lowered: &str) -> (res: Option<MetricsWindow>)
    ensures
        res == window_named(lowered@),
{
    if str_eq(lowered, "1m") || str_eq(lowered, "1min") || str_eq(lowered, "minute") {
        Some(MetricsWindow::LastMinute)
    } else if str_eq(lowered, "5m") || str_eq(lowered, "5min") {
        Some(MetricsWindow::Last5Minutes)
    } else if str_eq(lowered, "15m") || str_eq(lowered, "15min") {
        Some(MetricsWindow::Last15Minutes)
    } else if str_eq(lowered, "1h") || str_eq(lowered, "1hour") || str_eq(lowered, "hour") {
        Some(MetricsWindow::LastHour)
    } else if str_eq(lowered, "24h") || str_eq(lowered, "24hour") || str_eq(lowered, "day") {
        Some(MetricsWindow::Last24Hours)
    } else {
        None
    }
}

/// The message of a rejected window name.
pub open spec fn invalid_window_message(window: Seq<char>) -> Seq<char> {
    "Invalid time window: '"@ + window + "'. Valid options: 1m, 5m, 15m, 1h, 24h"@
}

/// Parses a time window name (1m, 5m, 15m, 1h, 24h and aliases), ignoring case.
pub fn parse_time_window(window: &str) -> (res: Result<MetricsWindow, WarpError>)
    ensures
        match window_named(lowercase_of(window@)) {
            Some(w) => res == Ok::<MetricsWindow, WarpError>(w),
            None => res matches Err(WarpError::InvalidInput(msg)) && msg@ == invalid_window_message(window@),
        },
{
    let lowered = to_lowercase(window);
    match window_from_lowercase(lowered.as_str()) {
        Some(w) => Ok(w),
        None => {
            let mut msg = string_of("Invalid time window: '");
            push_str(&mut msg, window);
            push_str(&mut msg, "'. Valid options: 1m, 5m, 15m, 1h, 24h");
            Err(WarpError::InvalidInput(msg))
        }
    }
}

// ---------------------------------------------------------------------------
// Durations
// ---------------------------------------------------------------------------

/// The value of a digit string, most significant first.
pub open spec fn digits_value(s: Seq<char>) -> nat
    decreases s.len(),
{
    if s.len() == 0 {
        0
    } else {
        digits_value(s.drop_last()) * 10 + digit_value(s.last())
    }
}

/// The value of an ASCII digit.
pub open spec fn digit_value(c: char) -> nat {
    if c == '1' { 1 } else if c == '2' { 2 } else if c == '3' { 3 } else if c == '4' { 4 }
    else if c == '5' { 5 } else if c == '6' { 6 } else if c == '7' { 7 } else if c == '8' { 8 }
    else if c == '9' { 9 } else { 0 }
}

fn digit_of(c: char) -> (res: u64)
    ensures
        res == digit_value(c),
{
    if c == '1' { 1 } else if c == '2' { 2 } else if c == '3' { 3 } else if c == '4' { 4 }
    else if c == '5' { 5 } else if c == '6' { 6 } else if c == '7' { 7 } else if c == '8' { 8 }
    else if c == '9' { 9 } else { 0 }
}

/// All characters are ASCII digits.
pub open spec fn all_digits(s: Seq<char>) -> bool {
    forall|i: int| 0 <= i < s.len() ==> '0' <= #[trigger] s[i] && s[i] <= '9'
}

/// What `str::parse::<u64>` accepts: an optional `+` and at least one digit,
/// with a value that fits in 64 bits. The result is that value.
pub open spec fn parse_u64_text(s: Seq<char>) -> Option<u64> {
    let body = if s.len() > 0 && s[0] == '+' { s.drop_first() } else { s };
    if body.len() > 0 && all_digits(body) && digits_value(body) <= u64::MAX {
        Some(digits_value(body) as u64)
    } else {
        None
    }
}

proof fn lemma_dec_digits(n: nat)
    ensures
        dec(n).len() > 0,
        all_digits(dec(n)),
        digits_value(dec(n)) == n,
    decreases n,
{
    if n >= 10 {
        lemma_dec_digits(n / 10);
        let init = dec(n / 10);
        let d = (n % 10) as int;
        assert(dec(n) == init + seq![digit_char(d)]);
        assert(dec(n).drop_last() =~= init);
        assert(digit_value(digit_char(d)) == d);
        assert(dec(n).last() == digit_char(d));
        assert(digits_value(dec(n)) == digits_value(init) * 10 + digit_value(digit_char(d)));
        assert((n / 10) * 10 + n % 10 == n);
        assert forall|i: int| 0 <= i < dec(n).len() implies '0' <= #[trigger] dec(n)[i] && dec(n)[i] <= '9' by {
            if i < init.len() { assert(dec(n)[i] == init[i]); }
        }
    } else {
        assert(dec(n) == seq![digit_char(n as int)]);
        assert(dec(n).drop_last() =~= Seq::<char>::empty());
        assert(digit_value(digit_char(n as int)) == n);
        assert(digits_value(dec(n)) == digits_value(Seq::<char>::empty()) * 10 + digit_value(digit_char(n as int)));
    }
}

/// Reading back a number written in decimal gives the number.
pub proof fn law_decimal_round_trip(n: u64)
    ensures
        parse_u64_text(dec(n as nat)) == Some(n),
{
    lemma_dec_digits(n as nat);
    assert(dec(n as nat)[0] != '+');
}

/// Parses an unsigned 64-bit decimal number the way `str::parse::<u64>` does.
pub fn parse_u64(s: &str) -> (res: Option<u64>)
    ensures
        res == parse_u64_text(s@),
{
    let n = s.unicode_len();
    let start: usize = if n > 0 && s.get_char(0) == '+' { 1 } else { 0 };
    let ghost body = if s@.len() > 0 && s@[0] == '+' { s@.drop_first() } else { s@ };
    assert(body =~= s@.subrange(start as int, n as int));
    if start >= n {
        return None;
    }
    let mut value: u64 = 0;
    let mut i: usize = start;
    while i < n
        invariant
            start <= i <= n,
            n == s@.len(),
            body == s@.subrange(start as int, n as int),
            body == (if s@.len() > 0 && s@[0] == '+' { s@.drop_first() } else { s@ }),
            all_digits(s@.subrange(start as int, i as int)),
            value == digits_value(s@.subrange(start as int, i as int)),
        decreases n - i,
    {
        let c = s.get_char(i);
        let ghost pre = s@.subrange(start as int, i as int);
        assert(s@.subrange(start as int, i + 1) =~= pre.push(c));
        assert(pre.push(c).drop_last() =~= pre);
        assert(digits_value(pre.push(c)) == digits_value(pre) * 10 + digit_value(c));
        if !('0' <= c && c <= '9') {
            assert(body[i - start] == c);
            assert(!all_digits(body));
            assert(body == (if s@.len() > 0 && s@[0] == '+' { s@.drop_first() } else { s@ }));
            assert(parse_u64_text(s@) is None);
            return None;
        }
        let d = digit_of(c);
        if value > 1844674407370955161 || (value == 1844674407370955161 && d > 5) {
            proof { lemma_digits_value_grows(s@.subrange(start as int, n as int), (i - start + 1) as int); }
            assert(s@.subrange(start as int, n as int).subrange(0, (i - start + 1) as int) =~= pre.push(c));
            return None;
        }
        value = value * 10 + d;
        i = i + 1;
    }
    Some(value)
}

/// A digit string is worth at least any of its prefixes.
proof fn lemma_digits_value_grows(s: Seq<char>, k: int)
    requires
        0 <= k <= s.len(),
    ensures
        digits_value(s.subrange(0, k)) <= digits_value(s),
    decreases s.len() - k,
{
    if k < s.len() {
        lemma_digits_value_grows(s, k + 1);
        assert(s.subrange(0, k + 1).drop_last() =~= s.subrange(0, k));
    } else {
        assert(s.subrange(0, k) =~= s);
    }
}

/// Seconds in one unit of a duration suffix.
pub open spec fn unit_secs(c: char) -> int {
    if c == 's' { 1 } else if c == 'm' { 60 } else { 3600 }
}

/// A normalized (trimmed, lowercased) duration text ends in s, m or h after a number.
pub open spec fn duration_number(t: Seq<char>) -> Option<u64> {
    if t.len() > 0 && (t.last() == 's' || t.last() == 'm' || t.last() == 'h') {
        parse_u64_text(t.drop_last())
    } else {
        None
    }
}

/// What `str::parse::<u32>` gives for a text.
pub open spec fn parse_u32_text(s: Seq<char>) -> Option<u32> {
    match parse_u64_text(s) {
        Some(v) => if v <= u32::MAX { Some(v as u32) } else { None },
        None => None,
    }
}

/// Parses an unsigned 32-bit decimal number the way `str::parse::<u32>` does.
pub fn parse_u32(s: &str) -> (res: Option<u32>)
    ensures
        res == parse_u32_text(s@),
{
    match parse_u64(s) {
        Some(v) => if v <= 0xffff_ffff { Some(v as u32) } else { None },
        None => None,
    }
}

/// The seconds a normalized duration text denotes, if it parses.
pub open spec fn duration_secs_of(t: Seq<char>) -> Option<int> {
    match duration_number(t) {
        Some(n) => Some(n * unit_secs(t.last())),
        None => None,
    }
}

/// Converting the number to seconds does not leave 64 bits (`parse_duration` aborts otherwise).
pub open spec fn duration_in_range(t: Seq<char>) -> bool {
    match duration_secs_of(t) {
        Some(s) => s <= u64::MAX,
        None => true,
    }
}

/// The message of a rejected duration.
pub open spec fn duration_error_message(t: Seq<char>) -> Seq<char> {
    if t.len() > 0 && (t.last() == 's' || t.last() == 'm' || t.last() == 'h') {
        "Invalid duration: '"@ + t + "'"@
    } else {
        "Invalid duration format: '"@ + t + "'. Use format like '5s', '1m', '2h'"@
    }
}

/// Parses a trimmed, lowercased duration such as `5s`, `2m` or `1h`.
pub fn duration_from_normalized(t: &str) -> (res: Result<Duration, WarpError>)
    requires
        duration_in_range(t@),
    ensures
        match duration_secs_of(t@) {
            Some(s) => res matches Ok(d) && d@ == s * nanos_per_sec(),
            None => res matches Err(WarpError::InvalidInput(msg)) && msg@ == duration_error_message(t@),
        },
{
    let n = t.unicode_len();
    let last = if n > 0 { t.get_char(n - 1) } else { ' ' };
    if n > 0 && (last == 's' || last == 'm' || last == 'h') {
        let num = t.substring_char(0, n - 1);
        assert(num@ =~= t@.drop_last());
        match parse_u64(num) {
            Some(v) => {
                let secs = if last == 's' { v } else if last == 'm' { v * 60 } else { v * 3600 };
                Ok(Duration::from_secs(secs))
            }
            None => {
                let mut msg = string_of("Invalid duration: '");
                push_str(&mut msg, t);
                push_str(&mut msg, "'");
                Err(WarpError::InvalidInput(msg))
            }
        }
    } else {
        let mut msg = string_of("Invalid duration format: '");
        push_str(&mut msg, t);
        push_str(&mut msg, "'. Use format like '5s', '1m', '2h'");
        Err(WarpError::InvalidInput(msg))
    }
}

/// The normalized form of a duration text: trimmed, then lowercased.
pub open spec fn normalized_duration(s: Seq<char>) -> Seq<char> {
    lowercase_of(trimmed_of(s))
}

/// Parses a duration such as `5s`, `2m` or `1h` (surrounding whitespace and
/// case ignored) into a span of whole seconds.
pub fn parse_duration(duration_str: &str) -> (res: Result<Duration, WarpError>)
    requires
        duration_in_range(normalized_duration(duration_str@)),
    ensures
        match duration_secs_of(normalized_duration(duration_str@)) {
            Some(s) => res matches Ok(d) && d@ == s * nanos_per_sec(),
            None => res matches Err(WarpError::InvalidInput(msg))
                && msg@ == duration_error_message(normalized_duration(duration_str@)),
        },
{
    let trimmed = trim(duration_str);
    let lowered = to_lowercase(trimmed.as_str());
    duration_from_normalized(lowered.as_str())
}

/// Parses a duration as `parse_duration` does when its number of seconds
/// fits in 64 bits (where the original arithmetic would overflow), and
/// gives `None` otherwise.
pub fn parse_duration_checked(duration_str: &str) -> (res: Option<Result<Duration, WarpError>>)
    ensures
        res is None <==> !duration_in_range(normalized_duration(duration_str@)),
        res matches Some(r) ==> match duration_secs_of(normalized_duration(duration_str@)) {
            Some(s) => r matches Ok(d) && d@ == s * nanos_per_sec(),
            None => r matches Err(WarpError::InvalidInput(msg))
                && msg@ == duration_error_message(normalized_duration(duration_str@)),
        },
{
    if duration_fits(duration_str) {
        Some(parse_duration(duration_str))
    } else {
        None
    }
}

/// Whether `parse_duration` can take the text: its number of seconds fits in 64 bits.
pub fn duration_fits(duration_str: &str) -> (res: bool)
    ensures
        res == duration_in_range(normalized_duration(duration_str@)),
{
    let trimmed = trim(duration_str);
    let lowered = to_lowercase(trimmed.as_str());
    let t = lowered.as_str();
    let n = t.unicode_len();
    if n == 0 {
        return true;
    }
    let last = t.get_char(n - 1);
    if !(last == 's' || last == 'm' || last == 'h') {
        return true;
    }
    let num = t.substring_char(0, n - 1);
    assert(num@ =~= t@.drop_last());
    match parse_u64(num) {
        Some(v) => {
            if last == 's' { true }
            else if last == 'm' { v <= 0xffff_ffff_ffff_ffff / 60 }
            else { v <= 0xffff_ffff_ffff_ffff / 3600 }
        }
        None => true,
    }
}

// ---------------------------------------------------------------------------
// Secret masking
// ---------------------------------------------------------------------------

/// What `mask_value` shows: values of more than ten bytes are cut to their
/// first ten bytes and followed by their byte length.
pub open spec fn masked(value: Seq<char>) -> Seq<char> {
    let bytes = encode_utf8(value);
    if bytes.len() > 10 {
        decode_utf8(bytes.subrange(0, 10)) + "...("@ + dec(bytes.len()) + " characters)"@
    } else {
        value
    }
}

/// Masks a secret for display. Cutting at ten bytes must not split a character.
pub fn mask_value(value: &str) -> (res: String)
    requires
        encode_utf8(value@).len() <= usize::MAX,
        encode_utf8(value@).len() > 10 ==> is_char_boundary(encode_utf8(value@), 10),
    ensures
        res@ == masked(value@),
{
    let len = value.len();
    if len > 10 {
        let (head, _tail) = value.split_at(10);
        assert(head@ == decode_utf8(encode_utf8(head@)));
        assert(head.spec_bytes() == encode_utf8(value@).subrange(0, 10));
        assert(head@ == decode_utf8(encode_utf8(value@).subrange(0, 10)));
        assert(len == encode_utf8(value@).len());
        let mut out = string_of(head);
        push_str(&mut out, "...(");
        push_dec(&mut out, len as u64);
        push_str(&mut out, " characters)");
        out
    } else {
        string_of(value)
    }
}

// ---------------------------------------------------------------------------
// API source lists
// ---------------------------------------------------------------------------

/// Splits text at every comma (empty pieces kept; no comma gives one piece).
pub open spec fn split_commas(s: Seq<char>) -> Seq<Seq<char>>
    decreases s.len(),
{
    if s.len() == 0 {
        seq![Seq::<char>::empty()]
    } else {
        let rest = split_commas(s.drop_last());
        if s.last() == ',' {
            rest.push(Seq::<char>::empty())
        } else {
            rest.update(rest.len() - 1, rest.last().push(s.last()))
        }
    }
}

/// `split_commas` always yields at least one piece.
pub proof fn lemma_split_nonempty(s: Seq<char>)
    ensures
        split_commas(s).len() >= 1,
    decreases s.len(),
{
    if s.len() > 0 {
        lemma_split_nonempty(s.drop_last());
    }
}

/// The API types of the pieces that parse, in order.
pub open spec fn parsed_pieces(pieces: Seq<Seq<char>>) -> Seq<ApiType>
    decreases pieces.len(),
{
    if pieces.len() == 0 {
        Seq::empty()
    } else {
        parsed_pieces(pieces.drop_last()) + match api_type_named(lowercase_of(trimmed_of(pieces.last()))) {
            Some(t) => seq![t],
            None => Seq::<ApiType>::empty(),
        }
    }
}

/// Every source except the unified one.
pub open spec fn all_sources() -> Seq<ApiType> {
    seq![ApiType::Nlic, ApiType::Elis, ApiType::Prec, ApiType::Admrul, ApiType::Expc]
}

/// The sources a lowercased source text selects.
pub open spec fn sources_named(s: Seq<char>) -> Seq<ApiType> {
    if s == "all"@ || s == ""@ {
        all_sources()
    } else if s == "nlic"@ || s == "law"@ {
        seq![ApiType::Nlic]
    } else if s == "elis"@ || s == "ordinance"@ {
        seq![ApiType::Elis]
    } else if s == "prec"@ || s == "precedent"@ {
        seq![ApiType::Prec]
    } else if s == "admrul"@ || s == "administrative"@ {
        seq![ApiType::Admrul]
    } else if s == "expc"@ || s == "interpretation"@ {
        seq![ApiType::Expc]
    } else {
        parsed_pieces(split_commas(s))
    }
}

pub fn split_at_commas(s: &str) -> (res: Vec<String>)
    ensures
        res@.map_values(|p: String| p@) == split_commas(s@),
{
    let n = s.unicode_len();
    let mut out: Vec<String> = Vec::new();
    out.push(String::new());
    assert(out@.map_values(|p: String| p@) =~= split_commas(s@.take(0)));
    let mut i: usize = 0;
    while i < n
        invariant
            n == s@.len(),
            i <= n,
            out@.len() >= 1,
            out@.map_values(|p: String| p@) == split_commas(s@.take(i as int)),
        decreases n - i,
    {
        let c = s.get_char(i);
        let ghost pre = s@.take(i as int);
        assert(s@.take(i + 1).drop_last() =~= pre);
        assert(s@.take(i + 1).last() == c);
        proof { lemma_split_nonempty(pre); }
        if c == ',' {
            out.push(String::new());
            assert(out@.map_values(|p: String| p@) =~= split_commas(s@.take(i + 1)));
        } else {
            let last_index = out.len() - 1;
            let mut piece = out.remove(last_index);
            push_char(&mut piece, c);
            out.push(piece);
            assert(out@.map_values(|p: String| p@) =~= split_commas(s@.take(i + 1)));
        }
        i = i + 1;
    }
    assert(s@.take(n as int) =~= s@);
    out
}

/// The API types a source option selects: a known name or alias, `all` or
/// empty for every source, otherwise a comma-separated list whose pieces
/// that name an API type are kept in order.
pub fn parse_source(source: &str) -> (res: Vec<ApiType>)
    ensures
        res@ == sources_named(lowercase_of(source@)),
{
    let lowered = to_lowercase(source);
    let l = lowered.as_str();
    if str_eq(l, "all") || str_eq(l, "") {
        let v = vec![ApiType::Nlic, ApiType::Elis, ApiType::Prec, ApiType::Admrul, ApiType::Expc];
        assert(v@ =~= all_sources());
        v
    } else if str_eq(l, "nlic") || str_eq(l, "law") {
        let v = vec![ApiType::Nlic];
        assert(v@ =~= seq![ApiType::Nlic]);
        v
    } else if str_eq(l, "elis") || str_eq(l, "ordinance") {
        let v = vec![ApiType::Elis];
        assert(v@ =~= seq![ApiType::Elis]);
        v
    } else if str_eq(l, "prec") || str_eq(l, "precedent") {
        let v = vec![ApiType::Prec];
        assert(v@ =~= seq![ApiType::Prec]);
        v
    } else if str_eq(l, "admrul") || str_eq(l, "administrative") {
        let v = vec![ApiType::Admrul];
        assert(v@ =~= seq![ApiType::Admrul]);
        v
    } else if str_eq(l, "expc") || str_eq(l, "interpretation") {
        let v = vec![ApiType::Expc];
        assert(v@ =~= seq![ApiType::Expc]);
        v
    } else {
        let pieces = split_at_commas(l);
        let ghost pv = pieces@.map_values(|p: String| p@);
        let n = pieces.len();
        let mut out: Vec<ApiType> = Vec::new();
        let mut i: usize = 0;
        assert(pv.take(0) =~= Seq::<Seq<char>>::empty());
        while i < n
            invariant
                n == pieces@.len(),
                pv == pieces@.map_values(|p: String| p@),
                i <= n,
                out@ == parsed_pieces(pv.take(i as int)),
            decreases n - i,
        {
            let t = trim(pieces[i].as_str());
            let parsed = ApiType::from_str(t.as_str());
            assert(pv.take(i + 1).drop_last() =~= pv.take(i as int));
            assert(pv.take(i + 1).last() == pieces@[i as int]@);
            match parsed {
                Some(a) => {
                    out.push(a);
                }
                None => {}
            }
            assert(out@ =~= parsed_pieces(pv.take(i + 1)));
            i = i + 1;
        }
        assert(pv.take(n as int) =~= pv);
        out
    }
}

/// A source text that names one API (by its name or alias, such as `prec`
/// or `precedent`) selects exactly that API, and so does each API's own
/// name: `--source precedent` searches the precedents and nothing else.
pub proof fn law_single_source_selects_its_api(s: Seq<char>, t: ApiType)
    ensures
        api_type_named(s) == Some(t) && t != ApiType::All ==> sources_named(s) == seq![t],
        t != ApiType::All ==> sources_named(crate::api::api_type_name(t)) == seq![t],
{
    lemma_source_names_distinct();
}

proof fn lemma_source_names_distinct()
    ensures
        "all"@ != ""@,
        "all"@ != "nlic"@,
        "all"@ != "law"@,
        "all"@ != "elis"@,
        "all"@ != "ordinance"@,
        "all"@ != "prec"@,
        "all"@ != "precedent"@,
        "all"@ != "admrul"@,
        "all"@ != "administrative"@,
        "all"@ != "expc"@,
        "all"@ != "interpretation"@,
        "all"@ != "unified"@,
        ""@ != "nlic"@,
        ""@ != "law"@,
        ""@ != "elis"@,
        ""@ != "ordinance"@,
        ""@ != "prec"@,
        ""@ != "precedent"@,
        ""@ != "admrul"@,
        ""@ != "administrative"@,
        ""@ != "expc"@,
        ""@ != "interpretation"@,
        ""@ != "unified"@,
        "nlic"@ != "law"@,
        "nlic"@ != "elis"@,
        "nlic"@ != "ordinance"@,
        "nlic"@ != "prec"@,
        "nlic"@ != "precedent"@,
        "nlic"@ != "admrul"@,
        "nlic"@ != "administrative"@,
        "nlic"@ != "expc"@,
        "nlic"@ != "interpretation"@,
        "nlic"@ != "unified"@,
        "law"@ != "elis"@,
        "law"@ != "ordinance"@,
        "law"@ != "prec"@,
        "law"@ != "precedent"@,
        "law"@ != "admrul"@,
        "law"@ != "administrative"@,
        "law"@ != "expc"@,
        "law"@ != "interpretation"@,
        "law"@ != "unified"@,
        "elis"@ != "ordinance"@,
        "elis"@ != "prec"@,
        "elis"@ != "precedent"@,
        "elis"@ != "admrul"@,
        "elis"@ != "administrative"@,
        "elis"@ != "expc"@,
        "elis"@ != "interpretation"@,
        "elis"@ != "unified"@,
        "ordinance"@ != "prec"@,
        "ordinance"@ != "precedent"@,
        "ordinance"@ != "admrul"@,
        "ordinance"@ != "administrative"@,
        "ordinance"@ != "expc"@,
        "ordinance"@ != "interpretation"@,
        "ordinance"@ != "unified"@,
        "prec"@ != "precedent"@,
        "prec"@ != "admrul"@,
        "prec"@ != "administrative"@,
        "prec"@ != "expc"@,
        "prec"@ != "interpretation"@,
        "prec"@ != "unified"@,
        "precedent"@ != "admrul"@,
        "precedent"@ != "administrative"@,
        "precedent"@ != "expc"@,
        "precedent"@ != "interpretation"@,
        "precedent"@ != "unified"@,
        "admrul"@ != "administrative"@,
        "admrul"@ != "expc"@,
        "admrul"@ != "interpretation"@,
        "admrul"@ != "unified"@,
        "administrative"@ != "expc"@,
        "administrative"@ != "interpretation"@,
        "administrative"@ != "unified"@,
        "expc"@ != "interpretation"@,
        "expc"@ != "unified"@,
        "interpretation"@ != "unified"@,
{
    reveal_strlit("all");
    reveal_strlit("");
    reveal_strlit("nlic");
    reveal_strlit("law");
    reveal_strlit("elis");
    reveal_strlit("ordinance");
    reveal_strlit("prec");
    reveal_strlit("precedent");
    reveal_strlit("admrul");
    reveal_strlit("administrative");
    reveal_strlit("expc");
    reveal_strlit("interpretation");
    reveal_strlit("unified");
    assert("all"@.len() != ""@.len());
    assert("all"@.len() != "nlic"@.len());
    assert("all"@[0] != "law"@[0]);
    assert("all"@.len() != "elis"@.len());
    assert("all"@.len() != "ordinance"@.len());
    assert("all"@.len() != "prec"@.len());
    assert("all"@.len() != "precedent"@.len());
    assert("all"@.len() != "admrul"@.len());
    assert("all"@.len() != "administrative"@.len());
    assert("all"@.len() != "expc"@.len());
    assert("all"@.len() != "interpretation"@.len());
    assert("all"@.len() != "unified"@.len());
    assert(""@.len() != "nlic"@.len());
    assert(""@.len() != "law"@.len());
    assert(""@.len() != "elis"@.len());
    assert(""@.len() != "ordinance"@.len());
    assert(""@.len() != "prec"@.len());
    assert(""@.len() != "precedent"@.len());
    assert(""@.len() != "admrul"@.len());
    assert(""@.len() != "administrative"@.len());
    assert(""@.len() != "expc"@.len());
    assert(""@.len() != "interpretation"@.len());
    assert(""@.len() != "unified"@.len());
    assert("nlic"@.len() != "law"@.len());
    assert("nlic"@[0] != "elis"@[0]);
    assert("nlic"@.len() != "ordinance"@.len());
    assert("nlic"@[0] != "prec"@[0]);
    assert("nlic"@.len() != "precedent"@.len());
    assert("nlic"@.len() != "admrul"@.len());
    assert("nlic"@.len() != "administrative"@.len());
    assert("nlic"@[0] != "expc"@[0]);
    assert("nlic"@.len() != "interpretation"@.len());
    assert("nlic"@.len() != "unified"@.len());
    assert("law"@.len() != "elis"@.len());
    assert("law"@.len() != "ordinance"@.len());
    assert("law"@.len() != "prec"@.len());
    assert("law"@.len() != "precedent"@.len());
    assert("law"@.len() != "admrul"@.len());
    assert("law"@.len() != "administrative"@.len());
    assert("law"@.len() != "expc"@.len());
    assert("law"@.len() != "interpretation"@.len());
    assert("law"@.len() != "unified"@.len());
    assert("elis"@.len() != "ordinance"@.len());
    assert("elis"@[0] != "prec"@[0]);
    assert("elis"@.len() != "precedent"@.len());
    assert("elis"@.len() != "admrul"@.len());
    assert("elis"@.len() != "administrative"@.len());
    assert("elis"@[1] != "expc"@[1]);
    assert("elis"@.len() != "interpretation"@.len());
    assert("elis"@.len() != "unified"@.len());
    assert("ordinance"@.len() != "prec"@.len());
    assert("ordinance"@[0] != "precedent"@[0]);
    assert("ordinance"@.len() != "admrul"@.len());
    assert("ordinance"@.len() != "administrative"@.len());
    assert("ordinance"@.len() != "expc"@.len());
    assert("ordinance"@.len() != "interpretation"@.len());
    assert("ordinance"@.len() != "unified"@.len());
    assert("prec"@.len() != "precedent"@.len());
    assert("prec"@.len() != "admrul"@.len());
    assert("prec"@.len() != "administrative"@.len());
    assert("prec"@[0] != "expc"@[0]);
    assert("prec"@.len() != "interpretation"@.len());
    assert("prec"@.len() != "unified"@.len());
    assert("precedent"@.len() != "admrul"@.len());
    assert("precedent"@.len() != "administrative"@.len());
    assert("precedent"@.len() != "expc"@.len());
    assert("precedent"@.len() != "interpretation"@.len());
    assert("precedent"@.len() != "unified"@.len());
    assert("admrul"@.len() != "administrative"@.len());
    assert("admrul"@.len() != "expc"@.len());
    assert("admrul"@.len() != "interpretation"@.len());
    assert("admrul"@.len() != "unified"@.len());
    assert("administrative"@.len() != "expc"@.len());
    assert("administrative"@[0] != "interpretation"@[0]);
    assert("administrative"@.len() != "unified"@.len());
    assert("expc"@.len() != "interpretation"@.len());
    assert("expc"@.len() != "unified"@.len());
    assert("interpretation"@.len() != "unified"@.len());
}

} // verus!
