//! The Korean legal databases the library talks to, and the request and
//! response shapes shared by all of them.

pub mod admrul;
pub mod batcher;
pub mod client;
pub mod elis;
pub mod expc;
pub mod nlic;
pub mod parallel;
pub mod pool;
pub mod prec;
pub mod streaming;
pub mod types;

use vstd::prelude::*;
use vstd::string::*;
use vstd::utf8::is_ascii_chars;
use crate::text::{str_eq, to_lowercase, lowercase_of, ascii_lower, ascii_lower_char};

verus! {

/// The supported legal databases; `All` searches every one of them.
#[derive(Debug, Clone, Copy, PartialEq, Eq, Structural)]
pub enum ApiType {
    /// National Law Information Center (국가법령정보센터)
    Nlic,
    /// Local Regulations Information System (자치법규정보시스템)
    Elis,
    /// Court precedents (판례)
    Prec,
    /// Administrative rules (행정규칙)
    Admrul,
    /// Legal interpretation cases (법령해석례)
    Expc,
    /// Unified search over all databases
    All,
}

/// The canonical short name of an API type.
pub open spec fn api_type_name(t: ApiType) -> Seq<char> {
    match t {
        ApiType::Nlic => "nlic"@,
        ApiType::Elis => "elis"@,
        ApiType::Prec => "prec"@,
        ApiType::Admrul => "admrul"@,
        ApiType::Expc => "expc"@,
        ApiType::All => "all"@,
    }
}

/// The Korean display name of an API type.
pub open spec fn api_type_display(t: ApiType) -> Seq<char> {
    match t {
        ApiType::Nlic => "국가법령정보센터"@,
        ApiType::Elis => "자치법규정보시스템"@,
        ApiType::Prec => "판례"@,
        ApiType::Admrul => "행정규칙"@,
        ApiType::Expc => "법령해석례"@,
        ApiType::All => "통합검색"@,
    }
}

/// The API type a lowercase name or alias denotes, if any.
pub open spec fn api_type_named(s: Seq<char>) -> Option<ApiType> {
    if s == "nlic"@ || s == "law"@ {
        Some(ApiType::Nlic)
    } else if s == "elis"@ || s == "ordinance"@ {
        Some(ApiType::Elis)
    } else if s == "prec"@ || s == "precedent"@ {
        Some(ApiType::Prec)
    } else if s == "admrul"@ || s == "administrative"@ {
        Some(ApiType::Admrul)
    } else if s == "expc"@ || s == "interpretation"@ {
        Some(ApiType::Expc)
    } else if s == "all"@ || s == "unified"@ {
        Some(ApiType::All)
    } else {
        None
    }
}

impl ApiType {
    /// The canonical short name ("nlic", "elis", ...).
    pub fn as_str(&self) -> (res: &'static str)
        ensures
            res@ == api_type_name(*self),
    {
        match self {
            ApiType::Nlic => "nlic",
            ApiType::Elis => "elis",
            ApiType::Prec => "prec",
            ApiType::Admrul => "admrul",
            ApiType::Expc => "expc",
            ApiType::All => "all",
        }
    }

    /// The Korean display name.
    pub fn display_name(&self) -> (res: &'static str)
        ensures
            res@ == api_type_display(*self),
    {
        match self {
            ApiType::Nlic => "국가법령정보센터",
            ApiType::Elis => "자치법규정보시스템",
            ApiType::Prec => "판례",
            ApiType::Admrul => "행정규칙",
            ApiType::Expc => "법령해석례",
            ApiType::All => "통합검색",
        }
    }

    /// Resolves an already lowercased name or alias.
    pub fn from_lowercase_name(lowered: &str) -> (res: Option<ApiType>)
        ensures
            res == api_type_named(lowered@),
    {
        if str_eq(lowered, "nlic") || str_eq(lowered, "law") {
            Some(ApiType::Nlic)
        } else if str_eq(lowered, "elis") || str_eq(lowered, "ordinance") {
            Some(ApiType::Elis)
        } else if str_eq(lowered, "prec") || str_eq(lowered, "precedent") {
            Some(ApiType::Prec)
        } else if str_eq(lowered, "admrul") || str_eq(lowered, "administrative") {
            Some(ApiType::Admrul)
        } else if str_eq(lowered, "expc") || str_eq(lowered, "interpretation") {
            Some(ApiType::Expc)
        } else if str_eq(lowered, "all") || str_eq(lowered, "unified") {
            Some(ApiType::All)
        } else {
            None
        }
    }

    /// Parses a name or alias, ignoring case.
    pub fn from_str(s: &str) -> (res: Option<ApiType>)
        ensures
            res == api_type_named(lowercase_of(s@)),
            is_ascii_chars(s@) ==> res == api_type_named(ascii_lower(s@)),
    {
        let lowered = to_lowercase(s);
        Self::from_lowercase_name(lowered.as_str())
    }
}

/// Parses a name or alias, ignoring case, with the error text for any other
/// name: `Unknown API type: ` and the name as given.
pub fn parse_api_type(s: &str) -> (res: Result<ApiType, String>)
    ensures
        match api_type_named(lowercase_of(s@)) {
            Some(t) => res == Ok::<ApiType, String>(t),
            None => res matches Err(m) && m@ == "Unknown API type: "@ + s@,
        },
{
    match ApiType::from_str(s) {
        Some(t) => Ok(t),
        None => {
            let mut m = crate::text::string_of("Unknown API type: ");
            crate::text::push_str(&mut m, s);
            Err(m)
        }
    }
}

impl std::str::FromStr for ApiType {
    type Err = String;

    fn from_str(s: &str) -> Result<ApiType, String> {
        parse_api_type(s)
    }
}

/// Every canonical name is ASCII, already lowercase, and names its own type:
/// parsing `t.as_str()` gives back `t`.
pub proof fn lemma_name_round_trip(t: ApiType)
    ensures
        is_ascii_chars(api_type_name(t)),
        ascii_lower(api_type_name(t)) == api_type_name(t),
        api_type_named(ascii_lower(api_type_name(t))) == Some(t),
{
    reveal_strlit("nlic");
    reveal_strlit("law");
    reveal_strlit("elis");
    reveal_strlit("ordinance");
    reveal_strlit("prec");
    reveal_strlit("precedent");
    reveal_strlit("admrul");
    reveal_strlit("administrative");
    reveal_strlit("expc");
    reveal_strlit("interpretation");
    reveal_strlit("all");
    reveal_strlit("unified");
    let n = api_type_name(t);
    assert(ascii_lower(n) =~= n);
    match t {
        ApiType::Nlic => {}
        ApiType::Elis => {
            assert("elis"@[0] != "nlic"@[0]);
            assert("elis"@.len() != "law"@.len());
        }
        ApiType::Prec => {
            assert("prec"@[0] != "nlic"@[0]);
            assert("prec"@.len() != "law"@.len());
            assert("prec"@[0] != "elis"@[0]);
            assert("prec"@.len() != "ordinance"@.len());
        }
        ApiType::Admrul => {
            assert("admrul"@.len() != "nlic"@.len());
            assert("admrul"@.len() != "law"@.len());
            assert("admrul"@.len() != "elis"@.len());
            assert("admrul"@.len() != "ordinance"@.len());
            assert("admrul"@.len() != "prec"@.len());
            assert("admrul"@.len() != "precedent"@.len());
        }
        ApiType::Expc => {
            assert("expc"@[0] != "nlic"@[0]);
            assert("expc"@.len() != "law"@.len());
            assert("expc"@[1] != "elis"@[1]);
            assert("expc"@.len() != "ordinance"@.len());
            assert("expc"@[0] != "prec"@[0]);
            assert("expc"@.len() != "precedent"@.len());
            assert("expc"@.len() != "admrul"@.len());
            assert("expc"@.len() != "administrative"@.len());
        }
        ApiType::All => {
            assert("all"@[0] != "nlic"@[0]);
            assert("all"@[0] != "law"@[0]);
            assert("all"@.len() != "elis"@.len());
            assert("all"@.len() != "ordinance"@.len());
            assert("all"@.len() != "prec"@.len());
            assert("all"@.len() != "precedent"@.len());
            assert("all"@.len() != "admrul"@.len());
            assert("all"@.len() != "administrative"@.len());
            assert("all"@.len() != "expc"@.len());
            assert("all"@.len() != "interpretation"@.len());
        }
    }
}

} // verus!
