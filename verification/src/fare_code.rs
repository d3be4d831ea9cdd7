//! ATPCO fare type code: a short text code (1 to 5 bytes) stored inline in a
//! constant-size buffer with a length prefix.
//!
//! The buffer layout is: byte 0 holds the length, bytes `1..1+length` hold
//! the UTF-8 text, and the remaining bytes are always zero, so that equality,
//! ordering and hashing over the whole buffer agree with equality and
//! ordering of the stored text.

use core::cmp::Ordering;
use vstd::prelude::*;
use vstd::std_specs::cmp::{PartialEqSpec, PartialOrdSpec};
use vstd::string::{StringExecFns, StringSliceAdditionalSpecFns};
use vstd::utf8::*;

verus! {

broadcast use
    vstd::array::group_array_axioms,
    encode_utf8_valid_utf8,
    encode_utf8_decode_utf8,
    decode_utf8_encode_utf8;

/// ATPCO fare type code (e.g. XPN): 1 to 5 bytes of text held inline.
#[derive(Debug, Hash, Clone, Copy, Eq, Ord)]
#[verifier::ext_equal]
pub struct FareCode {
    bytes: [u8; 6],
}

/// Why a piece of text was rejected as a fare code.
#[derive(Debug)]
pub enum FareCodeParseError {
    /// The text's byte length lies outside 1 to 5; carries that length.
    InvalidLength(usize),
}

impl View for FareCode {
    type V = Seq<char>;

    /// A fare code is viewed as the sequence of characters it stores.
    closed spec fn view(&self) -> Seq<char> {
        decode_utf8(self.text_bytes())
    }
}

impl FareCode {
    /// The full encoded buffer: length prefix, text bytes, zero padding.
    /// Equality, ordering and hashing are defined over this sequence.
    pub closed spec fn buffer(&self) -> Seq<u8> {
        self.bytes@
    }

    /// The stored length: the value of the buffer's first byte.
    pub closed spec fn len_spec(&self) -> nat {
        self.bytes@[0] as nat
    }

    /// The stored text, as the UTF-8 bytes held after the length prefix.
    pub closed spec fn text_bytes(&self) -> Seq<u8> {
        self.bytes@.subrange(1, 1 + self.bytes@[0] as int)
    }

    /// Invariant: the length prefix lies in 1 to 5, the stored bytes are
    /// valid UTF-8, and every byte past the text is zero.
    #[verifier::type_invariant]
    pub closed spec fn wf(&self) -> bool {
        &&& 1 <= self.bytes@[0] <= 5
        &&& valid_utf8(self.text_bytes())
        &&& forall|i: int| 1 + self.bytes@[0] <= i < 6 ==> self.bytes@[i] == 0
    }

    /// Parse a fare code from text. Succeeds exactly when the text's byte
    /// length lies in 1 to 5; the resulting code stores that text. Any other
    /// length is rejected with `InvalidLength` carrying the offending length.
    pub fn from_str(value: &str) -> (r: Result<FareCode, FareCodeParseError>)
        ensures
            r is Ok <==> 1 <= value.spec_bytes().len() <= 5,
            match r {
                Ok(code) => {
                    &&& code@ == value@
                    &&& code.text_bytes() == value.spec_bytes()
                    &&& code.len_spec() == value.spec_bytes().len()
                },
                Err(e) => {
                    &&& e matches FareCodeParseError::InvalidLength(l)
                        && l == value.spec_bytes().len()
                },
            },
    {
        let b = value.as_bytes();
        let len = b.len();
        if len < 1 || len > 5 {
            return Err(FareCodeParseError::InvalidLength(len));
        }
        let bytes: [u8; 6] = [
            len as u8,
            b[0],
            if len >= 2 { b[1] } else { 0 },
            if len >= 3 { b[2] } else { 0 },
            if len >= 4 { b[3] } else { 0 },
            if len >= 5 { b[4] } else { 0 },
        ];
        proof {
            assert(bytes@.subrange(1, 1 + bytes@[0] as int) =~= value.spec_bytes());
        }
        let code = FareCode { bytes };
        Ok(code)
    }

    /// A borrowed view of exactly the stored text; never panics.
    pub fn name<'a>(&'a self) -> (r: &'a str)
        ensures
            r@ == self@,
            r.spec_bytes() == self.text_bytes(),
    {
        proof {
            use_type_invariant(self);
        }
        let len = self.bytes[0] as usize;
        let s: &[u8] = &self.bytes[1..1 + len];
        str_from_bytes(s)
    }

    /// Lexicographic order over the whole encoded buffer: the length prefix
    /// first, then the text bytes, then the (always zero) padding.
    pub closed spec fn cmp_spec(&self, other: &FareCode) -> Ordering {
        let a = self.bytes@;
        let b = other.bytes@;
        if a[0] != b[0] {
            if a[0] < b[0] { Ordering::Less } else { Ordering::Greater }
        } else if a[1] != b[1] {
            if a[1] < b[1] { Ordering::Less } else { Ordering::Greater }
        } else if a[2] != b[2] {
            if a[2] < b[2] { Ordering::Less } else { Ordering::Greater }
        } else if a[3] != b[3] {
            if a[3] < b[3] { Ordering::Less } else { Ordering::Greater }
        } else if a[4] != b[4] {
            if a[4] < b[4] { Ordering::Less } else { Ordering::Greater }
        } else if a[5] != b[5] {
            if a[5] < b[5] { Ordering::Less } else { Ordering::Greater }
        } else {
            Ordering::Equal
        }
    }
}

impl PartialEq for FareCode {
    /// Structural equality over the full fixed buffer.
    fn eq(&self, other: &FareCode) -> (r: bool) {
        let r = self.bytes[0] == other.bytes[0] && self.bytes[1] == other.bytes[1]
            && self.bytes[2] == other.bytes[2] && self.bytes[3] == other.bytes[3]
            && self.bytes[4] == other.bytes[4] && self.bytes[5] == other.bytes[5];
        proof {
            if r {
                assert(self.bytes@ =~= other.bytes@);
            }
        }
        r
    }
}

impl vstd::std_specs::cmp::PartialEqSpecImpl for FareCode {
    open spec fn obeys_eq_spec() -> bool {
        true
    }

    open spec fn eq_spec(&self, other: &FareCode) -> bool {
        self.buffer() == other.buffer()
    }
}

impl PartialOrd for FareCode {
    /// Byte order over the full fixed buffer; always comparable.
    fn partial_cmp(&self, other: &FareCode) -> (r: Option<Ordering>) {
        let a = &self.bytes;
        let b = &other.bytes;
        let o = if a[0] != b[0] {
            if a[0] < b[0] { Ordering::Less } else { Ordering::Greater }
        } else if a[1] != b[1] {
            if a[1] < b[1] { Ordering::Less } else { Ordering::Greater }
        } else if a[2] != b[2] {
            if a[2] < b[2] { Ordering::Less } else { Ordering::Greater }
        } else if a[3] != b[3] {
            if a[3] < b[3] { Ordering::Less } else { Ordering::Greater }
        } else if a[4] != b[4] {
            if a[4] < b[4] { Ordering::Less } else { Ordering::Greater }
        } else if a[5] != b[5] {
            if a[5] < b[5] { Ordering::Less } else { Ordering::Greater }
        } else {
            Ordering::Equal
        };
        Some(o)
    }
}

impl vstd::std_specs::cmp::PartialOrdSpecImpl for FareCode {
    open spec fn obeys_partial_cmp_spec() -> bool {
        true
    }

    open spec fn partial_cmp_spec(&self, other: &FareCode) -> Option<Ordering> {
        Some(self.cmp_spec(other))
    }
}

/// Equality matches source text equality: two well-formed fare codes compare
/// equal (both as values and through `==`) exactly when they store the same
/// text. Deterministic zero padding makes the whole-buffer comparison agree
/// with the text comparison.
pub proof fn lemma_eq_iff_same_text(a: FareCode, b: FareCode)
    requires
        a.wf(),
        b.wf(),
    ensures
        a.eq_spec(&b) <==> a@ == b@,
        (a == b) <==> a@ == b@,
{
    if a@ == b@ {
        decode_utf8_encode_utf8(a.text_bytes());
        decode_utf8_encode_utf8(b.text_bytes());
        assert(a.text_bytes() == b.text_bytes());
        assert(a.bytes@[0] == b.bytes@[0]);
        assert forall|i: int| 0 <= i < 6 implies a.bytes@[i] == b.bytes@[i] by {
            if 1 <= i < 1 + a.bytes@[0] {
                assert(a.bytes@[i] == a.text_bytes()[i - 1]);
                assert(b.bytes@[i] == b.text_bytes()[i - 1]);
            }
        }
        assert(a.bytes@ =~= b.bytes@);
        assert(a =~= b);
    }
}

/// Ordering is total and consistent with equality: any two fare codes are
/// comparable, exactly one of less, equal or greater holds, the comparison
/// is antisymmetric, and it yields `Equal` exactly for equal values.
pub proof fn lemma_order_total(a: FareCode, b: FareCode)
    ensures
        a.partial_cmp_spec(&b) is Some,
        a.partial_cmp_spec(&b) == Some(Ordering::Equal) <==> a == b,
        a.partial_cmp_spec(&b) == Some(Ordering::Less) <==> b.partial_cmp_spec(&a) == Some(
            Ordering::Greater,
        ),
{
    if a.cmp_spec(&b) == Ordering::Equal {
        assert(a.bytes@ =~= b.bytes@);
        assert(a =~= b);
    }
}

/// The character for a single decimal digit.
pub open spec fn digit_char(d: nat) -> char {
    ((d + 48) as u8) as char
}

/// The decimal rendering of a number, most significant digit first, with no
/// leading zeros (a lone zero for 0).
pub open spec fn decimal_chars(n: nat) -> Seq<char>
    decreases n,
{
    if n < 10 {
        seq![digit_char(n)]
    } else {
        decimal_chars(n / 10).push(digit_char(n % 10))
    }
}

/// Every decimal rendering consists of ASCII characters.
proof fn lemma_decimal_chars_ascii(n: nat)
    ensures
        is_ascii_chars(decimal_chars(n)),
    decreases n,
{
    if n >= 10 {
        lemma_decimal_chars_ascii(n / 10);
    }
}

/// Appends the ASCII bytes of the decimal rendering of `n`.
fn push_decimal_bytes(v: &mut Vec<u8>, n: usize)
    ensures
        final(v)@ == old(v)@ + decimal_chars(n as nat).map_values(|c: char| c as u8),
    decreases n,
{
    if n < 10 {
        v.push(48 + n as u8);
        proof {
            assert(v@ =~= old(v)@ + decimal_chars(n as nat).map_values(|c: char| c as u8));
        }
    } else {
        push_decimal_bytes(v, n / 10);
        v.push(48 + (n % 10) as u8);
        proof {
            assert(v@ =~= old(v)@ + decimal_chars(n as nat).map_values(|c: char| c as u8));
        }
    }
}

impl FareCodeParseError {
    /// The diagnostic text for this failure.
    pub open spec fn message_spec(&self) -> Seq<char> {
        match self {
            FareCodeParseError::InvalidLength(l) => "invalid length "@ + decimal_chars(
                *l as nat,
            ) + ", expected 1-5"@,
        }
    }

    /// Render the diagnostic text, naming the offending length.
    pub fn message(&self) -> (r: String)
        ensures
            r@ == self.message_spec(),
    {
        match self {
            FareCodeParseError::InvalidLength(l) => {
                let mut digits: Vec<u8> = Vec::new();
                push_decimal_bytes(&mut digits, *l);
                proof {
                    let dc = decimal_chars(*l as nat);
                    lemma_decimal_chars_ascii(*l as nat);
                    is_ascii_chars_encode_utf8(dc);
                    assert(digits@ =~= encode_utf8(dc));
                }
                let ds = str_from_bytes(digits.as_slice());
                proof {
                    let dc = decimal_chars(*l as nat);
                    encode_utf8_decode_utf8(ds@);
                    encode_utf8_decode_utf8(dc);
                    assert(ds@ == dc);
                }
                let mut s = String::from_str("invalid length ");
                s.append(ds);
                s.append(", expected 1-5");
                proof {
                    assert(s@ =~= self.message_spec());
                }
                s
            },
        }
    }
}

impl core::str::FromStr for FareCode {
    type Err = FareCodeParseError;

    fn from_str(value: &str) -> Result<FareCode, FareCodeParseError> {
        FareCode::from_str(value)
    }
}

/// Round trip: whatever a successful parse returns, rendering it with `name`
/// yields exactly the source text.
pub proof fn lemma_parse_name_round_trip(t: &str, code: FareCode, rendered: &str)
    requires
        call_ensures(FareCode::from_str, (t,), Ok(code)),
        call_ensures(FareCode::name, (&code,), rendered),
    ensures
        rendered@ == t@,
{
}

/// Relies on core::str::from_utf8: on input that is valid UTF-8 it returns
/// `Ok` with a string slice viewing exactly the given bytes.
#[verifier::external_body]
fn str_from_bytes<'a>(v: &'a [u8]) -> (r: &'a str)
    requires
        valid_utf8(v@),
    ensures
        r.spec_bytes() == v@,
{
    match core::str::from_utf8(v) {
        Ok(s) => s,
        Err(_) => "",
    }
}

} // verus!
