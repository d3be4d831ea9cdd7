//! ATPCO passenger types: a closed enumeration built from the reference
//! table of (code, description) rows, one variant per code, with exhaustive
//! code and description lookup and exact, case-sensitive parsing.

use vstd::prelude::*;
use vstd::string::{StrSliceExecFns, StringExecFns};

verus! {

broadcast use vstd::string::group_string_axioms;

/// ATPCO passenger types, one variant per code of the reference table.
#[allow(non_camel_case_types)]
#[derive(Debug, PartialEq, Eq, Structural, Hash, Copy, Clone)]
pub enum PassengerKind {
    ADT,
    CNN,
}

/// Raised when text matches none of the known passenger type codes.
#[derive(Debug, Copy, Clone)]
pub struct PassengerKindParseError;

/// Whether `s` is one of the known passenger type codes.
pub open spec fn is_known_code(s: Seq<char>) -> bool {
    exists|k: PassengerKind| k.code_spec() == s
}

impl PassengerKind {
    /// The variant's canonical code, as the reference table spells it.
    pub open spec fn code_spec(&self) -> Seq<char> {
        match self {
            PassengerKind::ADT => "ADT"@,
            PassengerKind::CNN => "CNN"@,
        }
    }

    /// The variant's human-readable description from the reference table.
    pub open spec fn description_spec(&self) -> Seq<char> {
        match self {
            PassengerKind::ADT => "Adult"@,
            PassengerKind::CNN => "Child"@,
        }
    }

    /// The variant's canonical code string.
    pub fn name(&self) -> (r: &'static str)
        ensures
            r@ == self.code_spec(),
    {
        match self {
            PassengerKind::ADT => "ADT",
            PassengerKind::CNN => "CNN",
        }
    }

    /// The variant's human-readable description.
    pub fn description(&self) -> (r: &'static str)
        ensures
            r@ == self.description_spec(),
    {
        match self {
            PassengerKind::ADT => "Adult",
            PassengerKind::CNN => "Child",
        }
    }

    /// Parse a passenger type from its exact, case-sensitive code. Succeeds
    /// exactly on the known codes, yielding the variant that carries the
    /// given code; any other text is rejected.
    pub fn from_str(value: &str) -> (r: Result<PassengerKind, PassengerKindParseError>)
        ensures
            r is Ok <==> is_known_code(value@),
            r matches Ok(k) ==> k.code_spec() == value@,
    {
        proof {
            reveal_strlit("ADT");
            reveal_strlit("CNN");
        }
        let n = value.unicode_len();
        if n == 3 {
            let c0 = value.get_char(0);
            let c1 = value.get_char(1);
            let c2 = value.get_char(2);
            if c0 == 'A' && c1 == 'D' && c2 == 'T' {
                proof {
                    assert(value@ =~= "ADT"@);
                    assert(PassengerKind::ADT.code_spec() == value@);
                }
                return Ok(PassengerKind::ADT);
            }
            if c0 == 'C' && c1 == 'N' && c2 == 'N' {
                proof {
                    assert(value@ =~= "CNN"@);
                    assert(PassengerKind::CNN.code_spec() == value@);
                }
                return Ok(PassengerKind::CNN);
            }
        }
        proof {
            assert forall|k: PassengerKind| k.code_spec() != value@ by {
                if value@ == "ADT"@ || value@ == "CNN"@ {
                    assert(false);
                }
            }
        }
        Err(PassengerKindParseError)
    }
}

impl PassengerKindParseError {
    /// The diagnostic text for this failure; intentionally static, the
    /// attempted text is left to the caller's error reporting.
    pub fn message(&self) -> (r: String)
        ensures
            r@ == "invalid passenger kind"@,
    {
        String::from_str("invalid passenger kind")
    }
}

impl core::str::FromStr for PassengerKind {
    type Err = PassengerKindParseError;

    fn from_str(value: &str) -> Result<PassengerKind, PassengerKindParseError> {
        PassengerKind::from_str(value)
    }
}

/// Distinct variants carry distinct codes: a variant is determined by its
/// code, so formatting a variant and parsing the result yields it back.
pub proof fn lemma_code_injective(a: PassengerKind, b: PassengerKind)
    ensures
        a.code_spec() == b.code_spec() <==> a == b,
{
    reveal_strlit("ADT");
    reveal_strlit("CNN");
    assert("ADT"@[0] == 'A');
    assert("CNN"@[0] == 'C');
    if a.code_spec() == b.code_spec() && a != b {
        assert("ADT"@ != "CNN"@);
    }
}

/// Round trip: whatever `name` returns for a variant, parsing it back
/// yields exactly that variant.
pub proof fn lemma_name_from_str_round_trip(
    k: PassengerKind,
    rendered: &str,
    r: Result<PassengerKind, PassengerKindParseError>,
)
    requires
        call_ensures(PassengerKind::name, (&k,), rendered),
        call_ensures(PassengerKind::from_str, (rendered,), r),
    ensures
        r == Ok::<PassengerKind, PassengerKindParseError>(k),
{
    assert(is_known_code(rendered@));
    if let Ok(k2) = r {
        lemma_code_injective(k, k2);
    }
}

} // verus!
