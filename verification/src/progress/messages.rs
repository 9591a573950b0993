//! The messages shown while API operations run.

use vstd::prelude::*;
use vstd::arithmetic::power2::{pow2, lemma_pow2_unfold, lemma_pow2_strictly_increases, lemma2_to64, lemma_pow2_adds};
use crate::progress::ApiStage;
use crate::text::{string_of, push_str, push_char, push_dec, dec, digit_char};

verus! {

/// Connecting to the server.
pub const CONNECTING: &'static str = "서버 연결 중...";
/// Searching.
pub const SEARCHING: &'static str = "검색 중...";
/// Processing results.
pub const PROCESSING: &'static str = "결과 처리 중...";
/// Formatting.
pub const FORMATTING: &'static str = "포맷팅 중...";
/// Downloading.
pub const DOWNLOADING: &'static str = "다운로드 중...";
/// Parsing data.
pub const PARSING: &'static str = "데이터 파싱 중...";
/// Saving to the cache.
pub const CACHING: &'static str = "캐시 저장 중...";
/// Retrying.
pub const RETRYING: &'static str = "재시도 중...";
/// Stage: connecting to the API server.
pub const STAGE_CONNECTING: &'static str = "API 서버 연결 중...";
/// Stage: sending the search request.
pub const STAGE_SEARCHING: &'static str = "검색 요청 전송 중...";
/// Stage: parsing the answer.
pub const STAGE_PARSING: &'static str = "응답 데이터 파싱 중...";
/// Stage: caching the results.
pub const STAGE_CACHING: &'static str = "결과 캐시 저장 중...";

/// `<api> 검색 중...`
pub fn searching_api(api_name: &str) -> (res: String)
    ensures
        res@ == api_name@ + " 검색 중..."@,
{
    let mut s = string_of(api_name);
    push_str(&mut s, " 검색 중...");
    s
}

/// `<api>: <count>개 결과`
pub fn search_complete(api_name: &str, count: usize) -> (res: String)
    ensures
        res@ == api_name@ + ": "@ + dec(count as nat) + "개 결과"@,
{
    let mut s = string_of(api_name);
    push_str(&mut s, ": ");
    push_dec(&mut s, count as u64);
    push_str(&mut s, "개 결과");
    s
}

/// `<api>: <count>개 결과 (<ms>ms)`
pub fn search_complete_with_time(api_name: &str, count: usize, elapsed_ms: u64) -> (res: String)
    ensures
        res@ == api_name@ + ": "@ + dec(count as nat) + "개 결과 ("@ + dec(elapsed_ms as nat) + "ms)"@,
{
    let mut s = string_of(api_name);
    push_str(&mut s, ": ");
    push_dec(&mut s, count as u64);
    push_str(&mut s, "개 결과 (");
    push_dec(&mut s, elapsed_ms);
    push_str(&mut s, "ms)");
    s
}

/// `API 검색 진행 중 (<current>/<total>)`
pub fn multi_api_progress(current: usize, total: usize) -> (res: String)
    ensures
        res@ == "API 검색 진행 중 ("@ + dec(current as nat) + "/"@ + dec(total as nat) + ")"@,
{
    let mut s = string_of("API 검색 진행 중 (");
    push_dec(&mut s, current as u64);
    push_str(&mut s, "/");
    push_dec(&mut s, total as u64);
    push_str(&mut s, ")");
    s
}

/// The Korean word for a stage.
pub open spec fn stage_text(stage: ApiStage) -> Seq<char> {
    match stage {
        ApiStage::Connecting => "연결"@,
        ApiStage::Searching => "검색"@,
        ApiStage::Parsing => "파싱"@,
        ApiStage::Caching => "캐시"@,
    }
}

/// `<api> <stage>`
pub fn stage_message(api_name: &str, stage: ApiStage) -> (res: String)
    ensures
        res@ == api_name@ + " "@ + stage_text(stage),
{
    let text = match stage {
        ApiStage::Connecting => "연결",
        ApiStage::Searching => "검색",
        ApiStage::Parsing => "파싱",
        ApiStage::Caching => "캐시",
    };
    let mut s = string_of(api_name);
    push_str(&mut s, " ");
    push_str(&mut s, text);
    s
}

/// `<operation> 재시도 (<attempt>/<max>)`
pub fn retry_message(operation: &str, attempt: u32, max_attempts: u32) -> (res: String)
    ensures
        res@ == operation@ + " 재시도 ("@ + dec(attempt as nat) + "/"@ + dec(max_attempts as nat) + ")"@,
{
    let mut s = string_of(operation);
    push_str(&mut s, " 재시도 (");
    push_dec(&mut s, attempt as u64);
    push_str(&mut s, "/");
    push_dec(&mut s, max_attempts as u64);
    push_str(&mut s, ")");
    s
}

/// `캐시 <operation> (<progress>/<total>)`
pub fn cache_operation(operation: &str, progress: usize, total: usize) -> (res: String)
    ensures
        res@ == "캐시 "@ + operation@ + " ("@ + dec(progress as nat) + "/"@ + dec(total as nat) + ")"@,
{
    let mut s = string_of("캐시 ");
    push_str(&mut s, operation);
    push_str(&mut s, " (");
    push_dec(&mut s, progress as u64);
    push_str(&mut s, "/");
    push_dec(&mut s, total as u64);
    push_str(&mut s, ")");
    s
}

/// `num / den` rounded to the nearest integer, ties to the even one.
pub open spec fn round_half_even(num: nat, den: nat) -> nat
    recommends
        den > 0,
{
    let q = num / den;
    let r = num % den;
    if 2 * r > den || (2 * r == den && q % 2 == 1) { q + 1 } else { q }
}

/// The spacing of the 64-bit floats around `n`: the least power of two
/// `2^e` (from `2^e0` on) with `n < 2^(53 + e)`.
pub open spec fn float_unit_from(n: nat, e: nat) -> nat
    decreases 64 - e,
{
    if e >= 64 || n < pow2(53 + e) { pow2(e) } else { float_unit_from(n, e + 1) }
}

/// The 64-bit float nearest to `n` (ties to an even significand), which
/// is what `n as f64` gives.
pub open spec fn nearest_float(n: nat) -> nat {
    let u = float_unit_from(n, 0);
    round_half_even(n, u) * u
}

/// A number of tenths as text with one decimal: `12` is `1.2`.
pub open spec fn tenths_text(t: nat) -> Seq<char> {
    dec(t / 10) + "."@ + seq![digit_char((t % 10) as int)]
}

/// A byte count as text: whole bytes below 1 KiB, else KiB below 1 MiB,
/// else MiB, with one decimal rounded half to even (the `{:.1}` rendering
/// of the float quotient).
pub open spec fn bytes_text(bytes: u64) -> Seq<char> {
    if bytes < 1024 {
        dec(bytes as nat) + "B"@
    } else if bytes < 1024 * 1024 {
        tenths_text(round_half_even(bytes as nat * 10, 1024)) + "KB"@
    } else {
        tenths_text(round_half_even(nearest_float(bytes as nat) * 10, 1024 * 1024)) + "MB"@
    }
}

pub(crate) fn round_half_even_u128(num: u128, den: u128) -> (res: u128)
    requires
        den > 0,
        num / den < u128::MAX,
    ensures
        res == round_half_even(num as nat, den as nat),
{
    let q = num / den;
    let r = num % den;
    if r > den - r || (r == den - r && q % 2 == 1) { q + 1 } else { q }
}

proof fn lemma_unit_skip(n: nat, e: nat, k: nat)
    requires
        e <= k <= 64,
        forall|j: nat| e <= j < k ==> n >= #[trigger] pow2(53 + j),
    ensures
        float_unit_from(n, e) == float_unit_from(n, k),
    decreases k - e,
{
    if e < k {
        assert(n >= pow2(53 + e));
        lemma_unit_skip(n, e + 1, k);
    }
}

/// `n as f64` for a 64-bit count, as an exact integer.
pub(crate) fn nearest_float_u64(n: u64) -> (res: u128)
    ensures
        res == nearest_float(n as nat),
        res <= n + 2048,
{
    proof { lemma2_to64(); }
    let big: u128 = n as u128;
    let mut unit: u128 = 1;
    let mut e: u32 = 0;
    let mut limit: u128 = 0x20_0000_0000_0000;
    proof { lemma_pow2_53(); }
    while big >= limit && e < 64
        invariant
            big == n,
            e <= 11,
            unit == pow2(e as nat),
            limit == pow2(53 + e as nat),
            forall|j: nat| j < e ==> n >= #[trigger] pow2(53 + j),
        decreases 64 - e,
    {
        proof {
            if 53 + e >= 64 {
                if 53 + e > 64 {
                    lemma_pow2_strictly_increases(64, 53 + e as nat);
                }
                lemma2_to64();
                assert(false);
            }
            lemma_pow2_unfold((e + 1) as nat);
            lemma_pow2_unfold((53 + e + 1) as nat);
            lemma_pow2_strictly_increases(e as nat, 11);
            lemma2_to64();
            lemma_pow2_strictly_increases(53 + e as nat, 64);
        }
        unit = unit * 2;
        limit = limit * 2;
        e = e + 1;
    }
    proof {
        lemma_unit_skip(n as nat, 0, e as nat);
        if e < 64 {
            assert(big < limit);
        }
        vstd::arithmetic::power2::lemma_pow2_pos(e as nat);
        if e < 11 {
            lemma_pow2_strictly_increases(e as nat, 11);
        }
    }
    let q = round_half_even_u128(big, unit);
    proof {
        let u = unit as int;
        let b = big as int;
        assert(0 < u <= 2048);
        assert(q <= b / u + 1);
        assert((b / u) * u <= b) by (nonlinear_arith) requires u > 0, b >= 0;
        assert(q * u <= b + u) by (nonlinear_arith) requires q <= b / u + 1, (b / u) * u <= b, u > 0;
    }
    q * unit
}

proof fn lemma_pow2_53()
    ensures
        pow2(53) == 0x20_0000_0000_0000,
{
    lemma2_to64();
    lemma_pow2_adds(32, 21);
}

pub(crate) fn push_tenths(s: &mut String, t: u128)
    requires
        t / 10 <= u64::MAX,
    ensures
        final(s)@ == old(s)@ + tenths_text(t as nat),
{
    push_dec(s, (t / 10) as u64);
    push_str(s, ".");
    let d = (t % 10) as u8;
    let c = if d == 0 { '0' } else if d == 1 { '1' } else if d == 2 { '2' } else if d == 3 { '3' }
        else if d == 4 { '4' } else if d == 5 { '5' } else if d == 6 { '6' } else if d == 7 { '7' }
        else if d == 8 { '8' } else { '9' };
    push_char(s, c);
}

/// A byte count for display: `512B`, `2.0KB`, `2.0MB`.
pub fn bytes_transferred(bytes: u64) -> (res: String)
    ensures
        res@ == bytes_text(bytes),
{
    let mut s = String::new();
    if bytes < 1024 {
        push_dec(&mut s, bytes);
        push_str(&mut s, "B");
    } else if bytes < 1024 * 1024 {
        let t = round_half_even_u128(bytes as u128 * 10, 1024);
        assert(t <= (bytes * 10) / 1024 + 1);
        push_tenths(&mut s, t);
        push_str(&mut s, "KB");
    } else {
        let f = nearest_float_u64(bytes);
        let t = round_half_even_u128(f * 10, 1024 * 1024);
        assert(t <= (f * 10) / 1048576 + 1);
        push_tenths(&mut s, t);
        push_str(&mut s, "MB");
    }
    s
}

} // verus!
