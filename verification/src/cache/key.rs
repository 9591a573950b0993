//! Cache keys: a SHA-256 digest over the API type, endpoint, optional
//! version and the request parameters taken in ascending key order, so that
//! the same request always maps to the same key whatever the order in which
//! its parameters were given.

use vstd::prelude::*;
use vstd::string::*;
use vstd::utf8::{encode_utf8, is_ascii_chars};
use crate::strmap::{StrMap, lemma_index_of_unique};
use crate::api::{ApiType, api_type_name, api_type_named, lemma_name_round_trip};
use crate::text::{lowercase_of, ascii_lower};
use crate::text::{push_char, push_str, push_dec, dec};
use sha2::{Digest, Sha256};

verus! {

// ---------------------------------------------------------------------------
// Ordering of keys
// ---------------------------------------------------------------------------

/// Lexicographic "strictly less" on character sequences, comparing code
/// points. UTF-8 keeps code-point order, so this is also the byte order by
/// which Rust orders `String`s.
pub open spec fn str_lt(a: Seq<char>, b: Seq<char>) -> bool
    decreases a.len(),
{
    if a.len() == 0 {
        b.len() > 0
    } else if b.len() == 0 {
        false
    } else if a[0] != b[0] {
        a[0] < b[0]
    } else {
        str_lt(a.drop_first(), b.drop_first())
    }
}

/// `str_lt` is irreflexive and asymmetric.
pub proof fn lemma_str_lt_asym(a: Seq<char>, b: Seq<char>)
    ensures
        !(str_lt(a, b) && str_lt(b, a)),
        !str_lt(a, a),
    decreases a.len(),
{
    if a.len() > 0 && b.len() > 0 && a[0] == b[0] {
        lemma_str_lt_asym(a.drop_first(), b.drop_first());
    }
    if a.len() > 0 {
        lemma_str_lt_asym(a.drop_first(), a.drop_first());
    }
}

/// `str_lt` is transitive.
pub proof fn lemma_str_lt_trans(a: Seq<char>, b: Seq<char>, c: Seq<char>)
    requires
        str_lt(a, b),
        str_lt(b, c),
    ensures
        str_lt(a, c),
    decreases a.len(),
{
    if a.len() > 0 && b.len() > 0 && c.len() > 0 && a[0] == b[0] && b[0] == c[0] {
        lemma_str_lt_trans(a.drop_first(), b.drop_first(), c.drop_first());
    }
}

/// Any two different sequences are ordered one way or the other.
pub proof fn lemma_str_lt_total(a: Seq<char>, b: Seq<char>)
    requires
        a != b,
    ensures
        str_lt(a, b) || str_lt(b, a),
    decreases a.len(),
{
    if a.len() == 0 && b.len() == 0 {
        assert(a =~= b);
    } else if a.len() > 0 && b.len() > 0 {
        if a[0] == b[0] {
            if a.drop_first() == b.drop_first() {
                assert(a =~= seq![a[0]] + a.drop_first());
                assert(b =~= seq![b[0]] + b.drop_first());
            }
            lemma_str_lt_total(a.drop_first(), b.drop_first());
        }
    }
}

/// Compares two string slices with `str_lt`.
pub fn str_less(a: &str, b: &str) -> (res: bool)
    ensures
        res == str_lt(a@, b@),
{
    let n = a.unicode_len();
    let m = b.unicode_len();
    let mut i: usize = 0;
    assert(a@.skip(0) =~= a@);
    assert(b@.skip(0) =~= b@);
    while i < n && i < m
        invariant
            n == a@.len(),
            m == b@.len(),
            i <= n,
            i <= m,
            str_lt(a@, b@) == str_lt(a@.skip(i as int), b@.skip(i as int)),
        decreases n - i,
    {
        let ca = a.get_char(i);
        let cb = b.get_char(i);
        if ca != cb {
            return ca < cb;
        }
        assert(a@.skip(i as int).drop_first() =~= a@.skip(i + 1));
        assert(b@.skip(i as int).drop_first() =~= b@.skip(i + 1));
        i = i + 1;
    }
    i < m
}

// ---------------------------------------------------------------------------
// Sorted listings of a parameter map
// ---------------------------------------------------------------------------

/// A parameter as text: name and value.
pub type Param = (Seq<char>, Seq<char>);

/// Names strictly ascending (so no name occurs twice).
pub open spec fn names_ascending(s: Seq<Param>) -> bool {
    forall|i: int, j: int| 0 <= i < j < s.len() ==> str_lt(#[trigger] s[i].0, #[trigger] s[j].0)
}

/// `s` lists exactly the entries of `m`, in ascending name order.
pub open spec fn is_sorted_listing(s: Seq<Param>, m: Map<Seq<char>, Seq<char>>) -> bool {
    &&& names_ascending(s)
    &&& forall|p: Param| #[trigger] s.contains(p) <==> (m.dom().contains(p.0) && m[p.0] == p.1)
}

/// The entries of `m` in ascending name order.
pub open spec fn sorted_listing(m: Map<Seq<char>, Seq<char>>) -> Seq<Param> {
    choose|s: Seq<Param>| is_sorted_listing(s, m)
}

/// Two ascending sequences holding the same elements are equal.
pub proof fn lemma_ascending_unique(s1: Seq<Param>, s2: Seq<Param>)
    requires
        names_ascending(s1),
        names_ascending(s2),
        forall|p: Param| s1.contains(p) <==> s2.contains(p),
    ensures
        s1 == s2,
    decreases s1.len() + s2.len(),
{
    if s1.len() == 0 {
        if s2.len() > 0 {
            assert(s2.contains(s2[0]));
        }
        assert(s1 =~= s2);
    } else if s2.len() == 0 {
        assert(s1.contains(s1[0]));
    } else {
        assert(s1.contains(s1[0]));
        assert(s2.contains(s2[0]));
        let j = choose|j: int| 0 <= j < s2.len() && s2[j] == s1[0];
        let i = choose|i: int| 0 <= i < s1.len() && s1[i] == s2[0];
        if i > 0 && j > 0 {
            assert(str_lt(s1[0].0, s1[i].0));
            assert(str_lt(s2[0].0, s2[j].0));
            lemma_str_lt_asym(s1[0].0, s2[0].0);
        }
        if i == 0 {
            assert(s1[0] == s2[0]);
        } else {
            assert(j == 0);
        }
        let t1 = s1.drop_first();
        let t2 = s2.drop_first();
        assert forall|p: Param| t1.contains(p) implies t2.contains(p) by {
            let a = choose|a: int| 0 <= a < t1.len() && t1[a] == p;
            assert(s1[a + 1] == p);
            assert(str_lt(s1[0].0, s1[a + 1].0));
            lemma_str_lt_asym(p.0, p.0);
            assert(s2.contains(p));
            let b = choose|b: int| 0 <= b < s2.len() && s2[b] == p;
            assert(b != 0);
            assert(t2[b - 1] == p);
        }
        assert forall|p: Param| t2.contains(p) implies t1.contains(p) by {
            let a = choose|a: int| 0 <= a < t2.len() && t2[a] == p;
            assert(s2[a + 1] == p);
            assert(str_lt(s2[0].0, s2[a + 1].0));
            lemma_str_lt_asym(p.0, p.0);
            assert(s1.contains(p));
            let b = choose|b: int| 0 <= b < s1.len() && s1[b] == p;
            assert(b != 0);
            assert(t1[b - 1] == p);
        }
        assert(names_ascending(t1)) by {
            assert forall|x: int, y: int| 0 <= x < y < t1.len() implies str_lt(#[trigger] t1[x].0, #[trigger] t1[y].0) by {
                assert(t1[x] == s1[x + 1] && t1[y] == s1[y + 1]);
            }
        }
        assert(names_ascending(t2)) by {
            assert forall|x: int, y: int| 0 <= x < y < t2.len() implies str_lt(#[trigger] t2[x].0, #[trigger] t2[y].0) by {
                assert(t2[x] == s2[x + 1] && t2[y] == s2[y + 1]);
            }
        }
        lemma_ascending_unique(t1, t2);
        assert(s1 =~= seq![s1[0]] + t1);
        assert(s2 =~= seq![s2[0]] + t2);
    }
}

/// Any sorted listing of `m` is the sorted listing of `m`.
pub proof fn lemma_sorted_listing_is(s: Seq<Param>, m: Map<Seq<char>, Seq<char>>)
    requires
        is_sorted_listing(s, m),
    ensures
        sorted_listing(m) == s,
{
    let c = sorted_listing(m);
    assert(is_sorted_listing(c, m));
    assert forall|p: Param| c.contains(p) <==> s.contains(p) by {
        assert(c.contains(p) <==> (m.dom().contains(p.0) && m[p.0] == p.1));
        assert(s.contains(p) <==> (m.dom().contains(p.0) && m[p.0] == p.1));
    }
    lemma_ascending_unique(c, s);
}

// ---------------------------------------------------------------------------
// Parameters
// ---------------------------------------------------------------------------

/// Request parameters as text: name to value.
pub open spec fn params_view(m: StrMap<String>) -> Map<Seq<char>, Seq<char>> {
    m.map_view().map_values(|v: String| v@)
}

/// The positions of `m`'s keys ordered by ascending key.
pub fn sorted_positions(m: &StrMap<String>) -> (res: Vec<usize>)
    requires
        m.wf(),
    ensures
        res@.len() == m.key_seq().len(),
        res@.no_duplicates(),
        forall|t: int| 0 <= t < res@.len() ==> #[trigger] res@[t] < m.key_seq().len(),
        forall|t: int| 0 <= t < res@.len() ==> #[trigger] res@.contains(t as usize),
        forall|x: int, y: int| 0 <= x < y < res@.len()
            ==> str_lt(m.key_seq()[#[trigger] res@[x] as int], m.key_seq()[#[trigger] res@[y] as int]),
{
    let n = m.len();
    let ghost ks = m.key_seq();
    let mut out: Vec<usize> = Vec::new();
    let mut i: usize = 0;
    while i < n
        invariant
            n == ks.len(),
            ks == m.key_seq(),
            m.wf(),
            i <= n,
            out@.len() == i,
            out@.no_duplicates(),
            forall|t: int| 0 <= t < out@.len() ==> #[trigger] out@[t] < i,
            forall|t: int| 0 <= t < i ==> #[trigger] out@.contains(t as usize),
            forall|x: int, y: int| 0 <= x < y < out@.len()
                ==> str_lt(ks[#[trigger] out@[x] as int], ks[#[trigger] out@[y] as int]),
        decreases n - i,
    {
        let ki = m.key_at(i);
        let len = out.len();
        let mut p: usize = 0;
        while p < len && !str_less(ki.as_str(), m.key_at(out[p]).as_str())
            invariant
                len == out@.len(),
                p <= len,
                ki@ == ks[i as int],
                i < n,
                n == ks.len(),
                ks == m.key_seq(),
                m.wf(),
                forall|t: int| 0 <= t < out@.len() ==> #[trigger] out@[t] < i,
                forall|t: int| 0 <= t < p ==> str_lt(ks[#[trigger] out@[t] as int], ks[i as int]),
            decreases len - p,
        {
            let ghost kp = ks[out@[p as int] as int];
            proof {
                assert(out@[p as int] != i);
                assert(ks[out@[p as int] as int] != ks[i as int]);
                lemma_str_lt_total(kp, ks[i as int]);
            }
            p = p + 1;
        }
        let ghost before = out@;
        out.insert(p, i);
        proof {
            assert(out@ == before.insert(p as int, i));
            assert(out@[p as int] == i);
            assert forall|t: int| 0 <= t < i + 1 implies #[trigger] out@.contains(t as usize) by {
                if t < i {
                    assert(before.contains(t as usize));
                    let a = choose|a: int| 0 <= a < before.len() && before[a] == t as usize;
                    if a < p { assert(out@[a] == t as usize); } else { assert(out@[a + 1] == t as usize); }
                }
            }
            assert forall|t: int| 0 <= t < out@.len() implies #[trigger] out@[t] < i + 1 by {
                if t < p { assert(out@[t] == before[t]); }
                else if t > p { assert(out@[t] == before[t - 1]); }
            }
            assert forall|x: int, y: int| 0 <= x < y < out@.len() implies
                str_lt(ks[#[trigger] out@[x] as int], ks[#[trigger] out@[y] as int]) by {
                if y < p {
                    assert(out@[x] == before[x] && out@[y] == before[y]);
                } else if y == p {
                    assert(out@[x] == before[x]);
                } else if x < p {
                    assert(out@[x] == before[x] && out@[y] == before[y - 1]);
                    assert(p < len);
                    assert(str_lt(ks[i as int], ks[before[p as int] as int]));
                    if y - 1 > p {
                        assert(str_lt(ks[before[p as int] as int], ks[before[y - 1] as int]));
                        lemma_str_lt_trans(ks[i as int], ks[before[p as int] as int], ks[before[y - 1] as int]);
                    }
                    lemma_str_lt_trans(ks[before[x] as int], ks[i as int], ks[before[y - 1] as int]);
                } else if x == p {
                    assert(out@[y] == before[y - 1]);
                    assert(p < len);
                    assert(str_lt(ks[i as int], ks[before[p as int] as int]));
                    if y - 1 > p {
                        assert(str_lt(ks[before[p as int] as int], ks[before[y - 1] as int]));
                        lemma_str_lt_trans(ks[i as int], ks[before[p as int] as int], ks[before[y - 1] as int]);
                    }
                } else {
                    assert(out@[x] == before[x - 1] && out@[y] == before[y - 1]);
                }
            }
            assert forall|x: int, y: int| 0 <= x < out@.len() && 0 <= y < out@.len() && x != y
                implies out@[x] != out@[y] by {
                if x < y {
                    assert(str_lt(ks[out@[x] as int], ks[out@[y] as int]));
                } else {
                    assert(str_lt(ks[out@[y] as int], ks[out@[x] as int]));
                }
                lemma_str_lt_asym(ks[out@[x] as int], ks[out@[x] as int]);
            }
        }
        i = i + 1;
    }
    out
}

/// The listing read off sorted positions.
pub open spec fn listing_at(m: StrMap<String>, pos: Seq<usize>) -> Seq<Param> {
    pos.map_values(|t: usize| (m.key_seq()[t as int], m.val_seq()[t as int]@))
}

/// Ordering every key of `m` yields the sorted listing of its parameters.
pub proof fn lemma_positions_listing(m: StrMap<String>, pos: Seq<usize>)
    requires
        m.wf(),
        pos.len() == m.key_seq().len(),
        pos.no_duplicates(),
        forall|t: int| 0 <= t < pos.len() ==> #[trigger] pos[t] < m.key_seq().len(),
        forall|t: int| 0 <= t < pos.len() ==> #[trigger] pos.contains(t as usize),
        forall|x: int, y: int| 0 <= x < y < pos.len()
            ==> str_lt(m.key_seq()[#[trigger] pos[x] as int], m.key_seq()[#[trigger] pos[y] as int]),
    ensures
        sorted_listing(params_view(m)) == listing_at(m, pos),
{
    let s = listing_at(m, pos);
    let pv = params_view(m);
    let ks = m.key_seq();
    let n = ks.len();
    assert(names_ascending(s)) by {
        assert forall|x: int, y: int| 0 <= x < y < s.len() implies str_lt(#[trigger] s[x].0, #[trigger] s[y].0) by {
            assert(s[x].0 == ks[pos[x] as int]);
            assert(s[y].0 == ks[pos[y] as int]);
        }
    }
    assert forall|p: Param| #[trigger] s.contains(p) <==> (pv.dom().contains(p.0) && pv[p.0] == p.1) by {
        if s.contains(p) {
            let a = choose|a: int| 0 <= a < s.len() && s[a] == p;
            let t = pos[a] as int;
            assert(ks.contains(ks[t]));
            lemma_index_of_unique(ks, t);
        }
        if pv.dom().contains(p.0) && pv[p.0] == p.1 {
            let t = ks.index_of(p.0);
            assert(0 <= t < n && ks[t] == p.0);
            assert(pv[p.0] == m.map_view()[p.0]@);
            assert(m.map_view()[p.0] == m.val_seq()[t]);
            assert(pos.contains(t as usize));
            let a = choose|a: int| 0 <= a < pos.len() && pos[a] == t as usize;
            assert(s[a] == (ks[pos[a] as int], m.val_seq()[pos[a] as int]@));
            assert(s[a] == p);
        }
    }
    lemma_sorted_listing_is(s, pv);
}


// ---------------------------------------------------------------------------
// Digest and key text
// ---------------------------------------------------------------------------

/// What SHA-256 (the `sha2` crate) yields for a message.
pub uninterp spec fn sha256_digest(data: Seq<u8>) -> Seq<u8>;

/// SHA-256 of a message (`sha2::Sha256::digest`). The digest is named; the
/// one fact stated about it is its documented width of 32 bytes.
#[verifier::external_body]
fn sha256(data: &[u8]) -> (res: Vec<u8>)
    ensures
        res@ == sha256_digest(data@),
        res@.len() == 32,
{
    Sha256::digest(data).to_vec()
}

/// Lowercase hexadecimal digit of a value below sixteen.
pub open spec fn hex_digit(d: u8) -> char {
    if d < 10 {
        ((d + 48) as u8) as char
    } else {
        ((d + 87) as u8) as char
    }
}

/// Two lowercase hex digits per byte, most significant nibble first.
pub open spec fn hex_lower(b: Seq<u8>) -> Seq<char>
    decreases b.len(),
{
    if b.len() == 0 {
        Seq::empty()
    } else {
        hex_lower(b.drop_last()) + seq![hex_digit(b.last() / 16), hex_digit(b.last() % 16)]
    }
}

/// Hex text has two lowercase hex digits per byte, all ASCII, none a colon.
pub proof fn lemma_hex_lower(b: Seq<u8>)
    ensures
        hex_lower(b).len() == 2 * b.len(),
        forall|j: int| 0 <= j < hex_lower(b).len() ==> is_hex_char(#[trigger] hex_lower(b)[j])
            && hex_lower(b)[j] != ':' && '\0' <= hex_lower(b)[j] <= '\u{7f}',
    decreases b.len(),
{
    if b.len() > 0 {
        let init = b.drop_last();
        lemma_hex_lower(init);
        let h0 = hex_lower(init);
        let x = b.last();
        let hi = x / 16;
        let lo = x % 16;
        assert(hex_lower(b) == h0 + seq![hex_digit(hi), hex_digit(lo)]);
        assert(is_hex_char(hex_digit(hi)) && hex_digit(hi) != ':' && '\0' <= hex_digit(hi) <= '\u{7f}') by {
            if hi < 10 { assert((hi + 48) as u8 as char == ((hi + 48) as u8) as char); }
        }
        assert(is_hex_char(hex_digit(lo)) && hex_digit(lo) != ':' && '\0' <= hex_digit(lo) <= '\u{7f}');
        assert forall|j: int| 0 <= j < hex_lower(b).len() implies is_hex_char(#[trigger] hex_lower(b)[j])
            && hex_lower(b)[j] != ':' && '\0' <= hex_lower(b)[j] <= '\u{7f}' by {
            if j < h0.len() {
                assert(hex_lower(b)[j] == h0[j]);
            }
        }
    }
}

/// `name=value&` as UTF-8 bytes.
pub open spec fn param_bytes(p: Param) -> Seq<u8> {
    encode_utf8(p.0) + seq![61u8] + encode_utf8(p.1) + seq![38u8]
}

/// The bytes of a parameter listing, parameter after parameter.
pub open spec fn params_bytes(s: Seq<Param>) -> Seq<u8>
    decreases s.len(),
{
    if s.len() == 0 {
        Seq::empty()
    } else {
        params_bytes(s.drop_last()) + param_bytes(s.last())
    }
}

/// The text of an optional string.
pub open spec fn opt_text(v: Option<&str>) -> Option<Seq<char>> {
    match v {
        Some(s) => Some(s@),
        None => None,
    }
}

/// The message that is hashed: `api|endpoint|version|` followed by the
/// parameters in ascending name order.
pub open spec fn key_message(
    api: ApiType,
    endpoint: Seq<char>,
    params: Map<Seq<char>, Seq<char>>,
    version: Option<Seq<char>>,
) -> Seq<u8> {
    encode_utf8(api_type_name(api)) + seq![124u8] + encode_utf8(endpoint) + seq![124u8]
        + (match version { Some(v) => encode_utf8(v), None => Seq::<u8>::empty() })
        + seq![124u8] + params_bytes(sorted_listing(params))
}

/// A cache key: `api:` followed by the hex digest of the key message.
pub open spec fn cache_key(
    api: ApiType,
    endpoint: Seq<char>,
    params: Map<Seq<char>, Seq<char>>,
    version: Option<Seq<char>>,
) -> Seq<char> {
    api_type_name(api) + seq![':'] + hex_lower(sha256_digest(key_message(api, endpoint, params, version)))
}

fn push_bytes(v: &mut Vec<u8>, b: &[u8])
    ensures
        final(v)@ == old(v)@ + b@,
{
    let n = b.len();
    let mut i: usize = 0;
    while i < n
        invariant
            n == b@.len(),
            i <= n,
            v@ == old(v)@ + b@.subrange(0, i as int),
        decreases n - i,
    {
        v.push(b[i]);
        assert(b@.subrange(0, i + 1) == b@.subrange(0, i as int).push(b@[i as int]));
        i = i + 1;
    }
    assert(b@.subrange(0, n as int) == b@);
}

fn push_text(v: &mut Vec<u8>, s: &str)
    ensures
        final(v)@ == old(v)@ + encode_utf8(s@),
{
    push_bytes(v, s.as_bytes());
}

fn push_hex(out: &mut String, b: &[u8])
    ensures
        final(out)@ == old(out)@ + hex_lower(b@),
{
    let n = b.len();
    let mut i: usize = 0;
    while i < n
        invariant
            n == b@.len(),
            i <= n,
            out@ == old(out)@ + hex_lower(b@.subrange(0, i as int)),
        decreases n - i,
    {
        let x = b[i];
        let hi = x / 16;
        let lo = x % 16;
        let ch = if hi < 10 { (hi + 48) as char } else { (hi + 87) as char };
        let cl = if lo < 10 { (lo + 48) as char } else { (lo + 87) as char };
        push_char(out, ch);
        push_char(out, cl);
        assert(b@.subrange(0, i + 1).drop_last() =~= b@.subrange(0, i as int));
        i = i + 1;
    }
    assert(b@.subrange(0, n as int) =~= b@);
}

/// Builds cache keys for the different APIs.
pub struct CacheKeyGenerator;

impl CacheKeyGenerator {
    /// The key of a request: API type, endpoint, optional version and the
    /// parameters, taken in ascending name order.
    pub fn generate_key(
        api_type: ApiType,
        endpoint: &str,
        params: &StrMap<String>,
        version: Option<&str>,
    ) -> (res: String)
        requires
            params.wf(),
        ensures
            res@ == cache_key(api_type, endpoint@, params_view(*params), opt_text(version)),
            is_key_of(res@, api_type),
    {
        let mut msg: Vec<u8> = Vec::new();
        push_text(&mut msg, api_type.as_str());
        msg.push(124u8);
        push_text(&mut msg, endpoint);
        msg.push(124u8);
        match version {
            Some(v) => push_text(&mut msg, v),
            None => {}
        }
        msg.push(124u8);
        let ghost head = msg@;
        let pos = sorted_positions(params);
        let ghost listing = listing_at(*params, pos@);
        let n = pos.len();
        let mut j: usize = 0;
        while j < n
            invariant
                n == pos@.len(),
                j <= n,
                params.wf(),
                forall|t: int| 0 <= t < pos@.len() ==> #[trigger] pos@[t] < params.key_seq().len(),
                listing == listing_at(*params, pos@),
                msg@ == head + params_bytes(listing.take(j as int)),
            decreases n - j,
        {
            let t = pos[j];
            push_text(&mut msg, params.key_at(t).as_str());
            msg.push(61u8);
            push_text(&mut msg, params.value_at(t).as_str());
            msg.push(38u8);
            assert(listing.take(j + 1).drop_last() =~= listing.take(j as int));
            assert(listing.take(j + 1).last() == listing[j as int]);
            assert(msg@ =~= head + params_bytes(listing.take(j + 1)));
            j = j + 1;
        }
        assert(listing.take(n as int) =~= listing);
        proof {
            lemma_positions_listing(*params, pos@);
        }
        let digest = sha256(msg.as_slice());
        let mut out = String::new();
        push_str(&mut out, api_type.as_str());
        push_char(&mut out, ':');
        push_hex(&mut out, digest.as_slice());
        assert(msg@ =~= key_message(api_type, endpoint@, params_view(*params), opt_text(version)));
        assert(out@ == api_type_name(api_type) + seq![':'] + hex_lower(digest@));
        out
    }
}


/// Adds an optional parameter.
pub open spec fn with_opt(m: Map<Seq<char>, Seq<char>>, k: Seq<char>, v: Option<Seq<char>>) -> Map<Seq<char>, Seq<char>> {
    match v {
        Some(x) => m.insert(k, x),
        None => m,
    }
}

/// The decimal text of an optional number.
pub open spec fn opt_num(v: Option<u32>) -> Option<Seq<char>> {
    match v {
        Some(n) => Some(dec(n as nat)),
        None => None,
    }
}

/// Parameters with no entry.
pub open spec fn no_params() -> Map<Seq<char>, Seq<char>> {
    Map::empty()
}

fn insert_param(m: &mut StrMap<String>, k: &str, v: String)
    requires
        old(m).wf(),
    ensures
        final(m).wf(),
        params_view(*final(m)) == params_view(*old(m)).insert(k@, v@),
{
    let ghost vv = v@;
    m.insert(k, v);
    assert(params_view(*m) =~= params_view(*old(m)).insert(k@, vv));
}

fn insert_opt(m: &mut StrMap<String>, k: &str, v: Option<&str>)
    requires
        old(m).wf(),
    ensures
        final(m).wf(),
        params_view(*final(m)) == with_opt(params_view(*old(m)), k@, opt_text(v)),
{
    match v {
        Some(x) => {
            let s = crate::text::string_of(x);
            insert_param(m, k, s);
        }
        None => {}
    }
}

fn insert_opt_num(m: &mut StrMap<String>, k: &str, v: Option<u32>)
    requires
        old(m).wf(),
    ensures
        final(m).wf(),
        params_view(*final(m)) == with_opt(params_view(*old(m)), k@, opt_num(v)),
{
    match v {
        Some(x) => {
            let s = crate::text::dec_string(x as u64);
            insert_param(m, k, s);
        }
        None => {}
    }
}

fn empty_params() -> (res: StrMap<String>)
    ensures
        res.wf(),
        params_view(res) == no_params(),
{
    let m = StrMap::new();
    assert(params_view(m) =~= no_params());
    m
}

/// The parameters behind an NLIC key.
pub open spec fn nlic_params(query: Option<Seq<char>>, law_type: Option<Seq<char>>, page: Option<u32>, size: Option<u32>) -> Map<Seq<char>, Seq<char>> {
    with_opt(with_opt(with_opt(with_opt(no_params(), "query"@, query), "law_type"@, law_type), "page"@, opt_num(page)), "size"@, opt_num(size))
}

/// The parameters behind an ELIS key.
pub open spec fn elis_params(query: Option<Seq<char>>, region: Option<Seq<char>>, category: Option<Seq<char>>, page: Option<u32>, size: Option<u32>) -> Map<Seq<char>, Seq<char>> {
    with_opt(with_opt(with_opt(with_opt(with_opt(no_params(), "query"@, query), "region"@, region), "category"@, category), "page"@, opt_num(page)), "size"@, opt_num(size))
}

/// The parameters behind an ADMRUL key.
pub open spec fn admrul_params(query: Option<Seq<char>>, ministry: Option<Seq<char>>, rule_type: Option<Seq<char>>, page: Option<u32>, size: Option<u32>) -> Map<Seq<char>, Seq<char>> {
    with_opt(with_opt(with_opt(with_opt(with_opt(no_params(), "query"@, query), "ministry"@, ministry), "rule_type"@, rule_type), "page"@, opt_num(page)), "size"@, opt_num(size))
}

/// The parameters behind an EXPC key.
pub open spec fn expc_params(query: Option<Seq<char>>, interpretation_type: Option<Seq<char>>, requesting_agency: Option<Seq<char>>, page: Option<u32>, size: Option<u32>) -> Map<Seq<char>, Seq<char>> {
    with_opt(with_opt(with_opt(with_opt(with_opt(no_params(), "query"@, query), "interpretation_type"@, interpretation_type), "requesting_agency"@, requesting_agency), "page"@, opt_num(page)), "size"@, opt_num(size))
}

/// The parameters behind a PREC key.
pub open spec fn prec_params(p: PrecKeyParams) -> Map<Seq<char>, Seq<char>> {
    with_opt(with_opt(with_opt(with_opt(with_opt(with_opt(with_opt(no_params(),
        "query"@, opt_text(p.query)), "court"@, opt_text(p.court)), "case_type"@, opt_text(p.case_type)),
        "date_from"@, opt_text(p.date_from)), "date_to"@, opt_text(p.date_to)),
        "page"@, opt_num(p.page)), "size"@, opt_num(p.size))
}

/// Parameters of a PREC (precedent) cache key.
pub struct PrecKeyParams<'a> {
    pub endpoint: &'a str,
    pub query: Option<&'a str>,
    pub court: Option<&'a str>,
    pub case_type: Option<&'a str>,
    pub date_from: Option<&'a str>,
    pub date_to: Option<&'a str>,
    pub page: Option<u32>,
    pub size: Option<u32>,
}

impl CacheKeyGenerator {
    /// Key for a simple query: the digest of `api|query`.
    pub fn generate_simple_key(api_type: ApiType, query: &str) -> (res: String)
        ensures
            res@ == api_type_name(api_type) + seq![':'] + hex_lower(sha256_digest(
                encode_utf8(api_type_name(api_type)) + seq![124u8] + encode_utf8(query@))),
    {
        let mut msg: Vec<u8> = Vec::new();
        push_text(&mut msg, api_type.as_str());
        msg.push(124u8);
        push_text(&mut msg, query);
        assert(msg@ =~= encode_utf8(api_type_name(api_type)) + seq![124u8] + encode_utf8(query@));
        let digest = sha256(msg.as_slice());
        let mut out = String::new();
        push_str(&mut out, api_type.as_str());
        push_char(&mut out, ':');
        push_hex(&mut out, digest.as_slice());
        out
    }

    /// Key for an NLIC request.
    pub fn nlic_key(endpoint: &str, query: Option<&str>, law_type: Option<&str>, page: Option<u32>, size: Option<u32>) -> (res: String)
        ensures
            res@ == cache_key(ApiType::Nlic, endpoint@, nlic_params(opt_text(query), opt_text(law_type), page, size), None),
            is_key_of(res@, ApiType::Nlic),
    {
        let mut m = empty_params();
        insert_opt(&mut m, "query", query);
        insert_opt(&mut m, "law_type", law_type);
        insert_opt_num(&mut m, "page", page);
        insert_opt_num(&mut m, "size", size);
        Self::generate_key(ApiType::Nlic, endpoint, &m, None)
    }

    /// Key for an ELIS request.
    pub fn elis_key(endpoint: &str, query: Option<&str>, region: Option<&str>, category: Option<&str>, page: Option<u32>, size: Option<u32>) -> (res: String)
        ensures
            res@ == cache_key(ApiType::Elis, endpoint@, elis_params(opt_text(query), opt_text(region), opt_text(category), page, size), None),
            is_key_of(res@, ApiType::Elis),
    {
        let mut m = empty_params();
        insert_opt(&mut m, "query", query);
        insert_opt(&mut m, "region", region);
        insert_opt(&mut m, "category", category);
        insert_opt_num(&mut m, "page", page);
        insert_opt_num(&mut m, "size", size);
        Self::generate_key(ApiType::Elis, endpoint, &m, None)
    }

    /// Key for a PREC request.
    pub fn prec_key(params: PrecKeyParams) -> (res: String)
        ensures
            res@ == cache_key(ApiType::Prec, params.endpoint@, prec_params(params), None),
            is_key_of(res@, ApiType::Prec),
    {
        let mut m = empty_params();
        insert_opt(&mut m, "query", params.query);
        insert_opt(&mut m, "court", params.court);
        insert_opt(&mut m, "case_type", params.case_type);
        insert_opt(&mut m, "date_from", params.date_from);
        insert_opt(&mut m, "date_to", params.date_to);
        insert_opt_num(&mut m, "page", params.page);
        insert_opt_num(&mut m, "size", params.size);
        Self::generate_key(ApiType::Prec, params.endpoint, &m, None)
    }

    /// Key for an ADMRUL request.
    pub fn admrul_key(endpoint: &str, query: Option<&str>, ministry: Option<&str>, rule_type: Option<&str>, page: Option<u32>, size: Option<u32>) -> (res: String)
        ensures
            res@ == cache_key(ApiType::Admrul, endpoint@, admrul_params(opt_text(query), opt_text(ministry), opt_text(rule_type), page, size), None),
            is_key_of(res@, ApiType::Admrul),
    {
        let mut m = empty_params();
        insert_opt(&mut m, "query", query);
        insert_opt(&mut m, "ministry", ministry);
        insert_opt(&mut m, "rule_type", rule_type);
        insert_opt_num(&mut m, "page", page);
        insert_opt_num(&mut m, "size", size);
        Self::generate_key(ApiType::Admrul, endpoint, &m, None)
    }

    /// Key for an EXPC request.
    pub fn expc_key(endpoint: &str, query: Option<&str>, interpretation_type: Option<&str>, requesting_agency: Option<&str>, page: Option<u32>, size: Option<u32>) -> (res: String)
        ensures
            res@ == cache_key(ApiType::Expc, endpoint@, expc_params(opt_text(query), opt_text(interpretation_type), opt_text(requesting_agency), page, size), None),
            is_key_of(res@, ApiType::Expc),
    {
        let mut m = empty_params();
        insert_opt(&mut m, "query", query);
        insert_opt(&mut m, "interpretation_type", interpretation_type);
        insert_opt(&mut m, "requesting_agency", requesting_agency);
        insert_opt_num(&mut m, "page", page);
        insert_opt_num(&mut m, "size", size);
        Self::generate_key(ApiType::Expc, endpoint, &m, None)
    }
}

/// Parameters given in any order produce the same key: inserting two
/// different parameters one way round or the other leads to the same key.
pub proof fn lemma_key_ignores_parameter_order(
    api: ApiType,
    endpoint: Seq<char>,
    m: Map<Seq<char>, Seq<char>>,
    k1: Seq<char>,
    v1: Seq<char>,
    k2: Seq<char>,
    v2: Seq<char>,
    version: Option<Seq<char>>,
)
    requires
        k1 != k2,
    ensures
        cache_key(api, endpoint, m.insert(k1, v1).insert(k2, v2), version)
            == cache_key(api, endpoint, m.insert(k2, v2).insert(k1, v1), version),
{
    assert(m.insert(k1, v1).insert(k2, v2) =~= m.insert(k2, v2).insert(k1, v1));
}


// ---------------------------------------------------------------------------
// Unified search keys
// ---------------------------------------------------------------------------

/// The names of the entries of `apis` that equal `t`, in order.
pub open spec fn names_of(apis: Seq<ApiType>, t: ApiType) -> Seq<Seq<char>>
    decreases apis.len(),
{
    if apis.len() == 0 {
        Seq::empty()
    } else {
        names_of(apis.drop_last(), t) + (if apis.last() == t { seq![api_type_name(t)] } else { Seq::empty() })
    }
}

/// The names of `apis` in ascending order ("admrul" < "all" < "elis" < "expc"
/// < "nlic" < "prec"), repetitions kept: the names, sorted.
pub open spec fn sorted_api_names(apis: Seq<ApiType>) -> Seq<Seq<char>> {
    names_of(apis, ApiType::Admrul) + names_of(apis, ApiType::All) + names_of(apis, ApiType::Elis)
        + names_of(apis, ApiType::Expc) + names_of(apis, ApiType::Nlic) + names_of(apis, ApiType::Prec)
}

/// Names joined with commas.
pub open spec fn comma_join(s: Seq<Seq<char>>) -> Seq<char>
    decreases s.len(),
{
    if s.len() == 0 {
        Seq::empty()
    } else if s.len() == 1 {
        s[0]
    } else {
        comma_join(s.drop_last()) + seq![','] + s.last()
    }
}

/// The parameters behind a unified-search key.
pub open spec fn unified_params(query: Seq<char>, apis: Seq<ApiType>, page: Option<u32>, size: Option<u32>) -> Map<Seq<char>, Seq<char>> {
    with_opt(with_opt(no_params().insert("query"@, query).insert("apis"@, comma_join(sorted_api_names(apis))),
        "page"@, opt_num(page)), "size"@, opt_num(size))
}

/// How many entries of `apis` equal `t`.
pub open spec fn type_count(apis: Seq<ApiType>, t: ApiType) -> nat
    decreases apis.len(),
{
    if apis.len() == 0 {
        0
    } else {
        type_count(apis.drop_last(), t) + (if apis.last() == t { 1nat } else { 0nat })
    }
}

/// The names of the entries equal to `t` are `count` copies of its name.
pub proof fn lemma_names_of_count(apis: Seq<ApiType>, t: ApiType)
    ensures
        names_of(apis, t) == Seq::new(type_count(apis, t), |_i: int| api_type_name(t)),
    decreases apis.len(),
{
    if apis.len() > 0 {
        lemma_names_of_count(apis.drop_last(), t);
    }
    assert(names_of(apis, t) =~= Seq::new(type_count(apis, t), |_i: int| api_type_name(t)));
}

/// The unified-search key depends only on how many times each API occurs,
/// not on the order in which the APIs are listed.
pub proof fn lemma_unified_key_ignores_api_order(
    query: Seq<char>,
    apis1: Seq<ApiType>,
    apis2: Seq<ApiType>,
    page: Option<u32>,
    size: Option<u32>,
)
    requires
        forall|t: ApiType| type_count(apis1, t) == type_count(apis2, t),
    ensures
        cache_key(ApiType::All, "unified_search"@, unified_params(query, apis1, page, size), None)
            == cache_key(ApiType::All, "unified_search"@, unified_params(query, apis2, page, size), None),
{
    lemma_names_of_count(apis1, ApiType::Admrul);
    lemma_names_of_count(apis2, ApiType::Admrul);
    lemma_names_of_count(apis1, ApiType::All);
    lemma_names_of_count(apis2, ApiType::All);
    lemma_names_of_count(apis1, ApiType::Elis);
    lemma_names_of_count(apis2, ApiType::Elis);
    lemma_names_of_count(apis1, ApiType::Expc);
    lemma_names_of_count(apis2, ApiType::Expc);
    lemma_names_of_count(apis1, ApiType::Nlic);
    lemma_names_of_count(apis2, ApiType::Nlic);
    lemma_names_of_count(apis1, ApiType::Prec);
    lemma_names_of_count(apis2, ApiType::Prec);
    assert(sorted_api_names(apis1) =~= sorted_api_names(apis2));
}

fn push_names_of(names: &mut Vec<&'static str>, apis: &[ApiType], t: ApiType)
    ensures
        final(names)@.map_values(|s: &str| s@) == old(names)@.map_values(|s: &str| s@) + names_of(apis@, t),
{
    let n = apis.len();
    let mut i: usize = 0;
    let ghost start = old(names)@.map_values(|s: &str| s@);
    while i < n
        invariant
            n == apis@.len(),
            i <= n,
            names@.map_values(|s: &str| s@) == start + names_of(apis@.take(i as int), t),
        decreases n - i,
    {
        assert(apis@.take(i + 1).drop_last() =~= apis@.take(i as int));
        assert(apis@.take(i + 1).last() == apis@[i as int]);
        let ghost before = names@;
        if apis[i] == t {
            let nm = t.as_str();
            names.push(nm);
            assert(names@ == before.push(nm));
            assert(names@.map_values(|s: &str| s@) =~= before.map_values(|s: &str| s@).push(nm@));
        } else {
            assert(names@.map_values(|s: &str| s@) =~= before.map_values(|s: &str| s@));
        }
        assert(names@.map_values(|s: &str| s@) =~= start + names_of(apis@.take(i + 1), t));
        i = i + 1;
    }
    assert(apis@.take(n as int) =~= apis@);
}

fn join_with_commas(names: &Vec<&'static str>) -> (res: String)
    ensures
        res@ == comma_join(names@.map_values(|s: &str| s@)),
{
    let ghost v = names@.map_values(|s: &str| s@);
    let mut out = String::new();
    let n = names.len();
    let mut i: usize = 0;
    while i < n
        invariant
            n == names@.len(),
            v == names@.map_values(|s: &str| s@),
            i <= n,
            out@ == comma_join(v.take(i as int)),
        decreases n - i,
    {
        if i > 0 {
            push_char(&mut out, ',');
        }
        push_str(&mut out, names[i]);
        assert(v.take(i + 1).drop_last() =~= v.take(i as int));
        assert(v.take(i + 1).last() == names@[i as int]@);
        if i == 0 {
            assert(v.take(0) =~= Seq::<Seq<char>>::empty());
            assert(out@ =~= comma_join(v.take(1)));
        }
        i = i + 1;
    }
    assert(v.take(n as int) =~= v);
    out
}

impl CacheKeyGenerator {
    /// Key for a search across several APIs; the API names enter sorted and
    /// comma-separated, so the order in which APIs are given does not matter.
    pub fn unified_search_key(query: &str, apis: &[ApiType], page: Option<u32>, size: Option<u32>) -> (res: String)
        ensures
            res@ == cache_key(ApiType::All, "unified_search"@, unified_params(query@, apis@, page, size), None),
            is_key_of(res@, ApiType::All),
    {
        let mut m = empty_params();
        let q = crate::text::string_of(query);
        insert_param(&mut m, "query", q);
        let mut names: Vec<&'static str> = Vec::new();
        assert(names@.map_values(|s: &str| s@) =~= Seq::<Seq<char>>::empty());
        push_names_of(&mut names, apis, ApiType::Admrul);
        push_names_of(&mut names, apis, ApiType::All);
        push_names_of(&mut names, apis, ApiType::Elis);
        push_names_of(&mut names, apis, ApiType::Expc);
        push_names_of(&mut names, apis, ApiType::Nlic);
        push_names_of(&mut names, apis, ApiType::Prec);
        assert(names@.map_values(|s: &str| s@) =~= sorted_api_names(apis@));
        let joined = join_with_commas(&names);
        insert_param(&mut m, "apis", joined);
        insert_opt_num(&mut m, "page", page);
        insert_opt_num(&mut m, "size", size);
        Self::generate_key(ApiType::All, "unified_search", &m, None)
    }
}

// ---------------------------------------------------------------------------
// Key inspection
// ---------------------------------------------------------------------------

/// `i` is the position of the first colon of `k`.
pub open spec fn first_colon_at(k: Seq<char>, i: int) -> bool {
    &&& 0 <= i < k.len()
    &&& k[i] == ':'
    &&& forall|j: int| 0 <= j < i ==> k[j] != ':'
}

/// An ASCII hexadecimal digit, either case.
pub open spec fn is_hex_char(c: char) -> bool {
    ('0' <= c && c <= '9') || ('a' <= c && c <= 'f') || ('A' <= c && c <= 'F')
}

/// Sixty-four hexadecimal digits.
pub open spec fn is_digest_text(h: Seq<char>) -> bool {
    h.len() == 64 && forall|j: int| 0 <= j < h.len() ==> is_hex_char(#[trigger] h[j])
}

/// The text before the first colon, if there is a colon.
pub open spec fn key_api_part(k: Seq<char>) -> Option<Seq<char>> {
    if exists|i: int| first_colon_at(k, i) {
        Some(k.take(choose|i: int| first_colon_at(k, i)))
    } else {
        None
    }
}

/// A well-formed key: `name:digest` where the name parses as an API type
/// and the digest is 64 hex digits.
pub open spec fn is_valid_key_text(k: Seq<char>) -> bool {
    exists|i: int| #[trigger] first_colon_at(k, i)
        && api_type_named(lowercase_of(k.take(i))) is Some
        && is_digest_text(k.skip(i + 1))
}

/// A well-formed ASCII key: `name:digest` where the name, lowercased in
/// ASCII, parses as an API type and the digest is 64 hex digits.
pub open spec fn is_valid_key_ascii(k: Seq<char>) -> bool {
    exists|i: int| #[trigger] first_colon_at(k, i)
        && api_type_named(ascii_lower(k.take(i))) is Some
        && is_digest_text(k.skip(i + 1))
}

/// The shape of a generated key: the API's name, a colon and the hex text
/// of a 32-byte digest.
pub open spec fn is_key_of(k: Seq<char>, api: ApiType) -> bool {
    exists|d: Seq<u8>| d.len() == 32 && k == api_type_name(api) + seq![':'] + hex_lower(d)
}

proof fn lemma_name_has_no_colon(t: ApiType)
    ensures
        forall|j: int| 0 <= j < api_type_name(t).len() ==> #[trigger] api_type_name(t)[j] != ':',
{
    reveal_strlit("nlic");
    reveal_strlit("elis");
    reveal_strlit("prec");
    reveal_strlit("admrul");
    reveal_strlit("expc");
    reveal_strlit("all");
}

/// Every generated key is an ASCII key that the validity check accepts and
/// whose part before the colon names the API it was generated for, so that
/// reading the API back from it gives that API.
pub proof fn law_generated_key_names_its_api(k: Seq<char>, api: ApiType)
    requires
        is_key_of(k, api),
    ensures
        is_ascii_chars(k),
        is_valid_key_ascii(k),
        key_api_part(k) == Some(api_type_name(api)),
        api_type_named(ascii_lower(api_type_name(api))) == Some(api),
{
    let d = choose|d: Seq<u8>| d.len() == 32 && k == api_type_name(api) + seq![':'] + hex_lower(d);
    let name = api_type_name(api);
    let h = hex_lower(d);
    lemma_hex_lower(d);
    lemma_name_round_trip(api);
    lemma_name_has_no_colon(api);
    let i = name.len() as int;
    assert(k[i] == ':');
    assert forall|j: int| 0 <= j < i implies k[j] != ':' by {
        assert(k[j] == name[j]);
    }
    assert(first_colon_at(k, i));
    assert forall|q: int| #[trigger] first_colon_at(k, q) implies q == i by {
        lemma_first_colon_unique(k, q, i);
    }
    assert(k.take(i) =~= name);
    assert(k.skip(i + 1) =~= h);
    assert(is_digest_text(h));
    assert forall|j: int| 0 <= j < k.len() implies '\0' <= #[trigger] k[j] <= '\u{7f}' by {
        if j < i {
            assert(k[j] == name[j]);
        } else if j > i {
            assert(k[j] == h[j - i - 1]);
        }
    }
}

proof fn lemma_first_colon_unique(k: Seq<char>, i: int, j: int)
    requires
        first_colon_at(k, i),
        first_colon_at(k, j),
    ensures
        i == j,
{
}

fn find_colon(k: &str) -> (res: Option<usize>)
    ensures
        match res {
            Some(i) => first_colon_at(k@, i as int),
            None => forall|j: int| 0 <= j < k@.len() ==> k@[j] != ':',
        },
{
    let n = k.unicode_len();
    let mut i: usize = 0;
    while i < n
        invariant
            n == k@.len(),
            i <= n,
            forall|j: int| 0 <= j < i ==> k@[j] != ':',
        decreases n - i,
    {
        if k.get_char(i) == ':' {
            return Some(i);
        }
        i = i + 1;
    }
    None
}

impl CacheKeyGenerator {
    /// Whether a key has the form `api:digest` produced by this generator.
    pub fn is_valid_key(key: &str) -> (res: bool)
        ensures
            res == is_valid_key_text(key@),
            is_ascii_chars(key@) ==> res == is_valid_key_ascii(key@),
    {
        match find_colon(key) {
            None => {
                assert(!exists|i: int| first_colon_at(key@, i));
                false
            }
            Some(i) => {
                let n = key.unicode_len();
                let api_part = key.substring_char(0, i);
                let hash_part = key.substring_char(i + 1, n);
                assert(api_part@ =~= key@.take(i as int));
                assert(hash_part@ =~= key@.skip(i + 1));
                assert(is_ascii_chars(key@) ==> is_ascii_chars(api_part@)) by {
                    if is_ascii_chars(key@) {
                        assert forall|t: int| 0 <= t < api_part@.len() implies '\0' <= #[trigger] api_part@[t] <= '\u{7f}' by {
                            assert(api_part@[t] == key@[t]);
                        }
                    }
                }
                let parsed = ApiType::from_str(api_part);
                let m = hash_part.unicode_len();
                let mut ok = m == 64;
                let mut j: usize = 0;
                while ok && j < m
                    invariant
                        m == hash_part@.len(),
                        j <= m,
                        ok ==> forall|t: int| 0 <= t < j ==> is_hex_char(#[trigger] hash_part@[t]),
                        ok ==> m == 64,
                        !ok ==> !is_digest_text(hash_part@),
                    decreases m - j,
                {
                    let c = hash_part.get_char(j);
                    if !(('0' <= c && c <= '9') || ('a' <= c && c <= 'f') || ('A' <= c && c <= 'F')) {
                        ok = false;
                        assert(!is_digest_text(hash_part@));
                    }
                    j = j + 1;
                }
                assert forall|q: int| #[trigger] first_colon_at(key@, q) implies q == i by {
                    lemma_first_colon_unique(key@, q, i as int);
                }
                let res = parsed.is_some() && ok;
                if res {
                    assert(first_colon_at(key@, i as int));
                }
                proof {
                    if is_ascii_chars(key@) && is_valid_key_ascii(key@) {
                        assert(first_colon_at(key@, i as int));
                    }
                }
                res
            }
        }
    }

    /// The API type named before the first colon of a key, if any.
    pub fn extract_api_type(key: &str) -> (res: Option<ApiType>)
        ensures
            res == match key_api_part(key@) {
                Some(part) => api_type_named(lowercase_of(part)),
                None => None,
            },
            is_ascii_chars(key@) ==> res == match key_api_part(key@) {
                Some(part) => api_type_named(ascii_lower(part)),
                None => None,
            },
    {
        match find_colon(key) {
            None => {
                assert(!exists|i: int| first_colon_at(key@, i));
                None
            }
            Some(i) => {
                let api_part = key.substring_char(0, i);
                assert(api_part@ =~= key@.take(i as int));
                assert(is_ascii_chars(key@) ==> is_ascii_chars(api_part@)) by {
                    if is_ascii_chars(key@) {
                        assert forall|t: int| 0 <= t < api_part@.len() implies '\0' <= #[trigger] api_part@[t] <= '\u{7f}' by {
                            assert(api_part@[t] == key@[t]);
                        }
                    }
                }
                let ghost c = choose|q: int| first_colon_at(key@, q);
                proof { lemma_first_colon_unique(key@, c, i as int); }
                ApiType::from_str(api_part)
            }
        }
    }
}

} // verus!
