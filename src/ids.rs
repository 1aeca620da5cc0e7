//! Storage identifiers: twelve bytes, written as twenty-four hex digits.
use vstd::prelude::*;

verus! {

/// The identifier that storage gives a record on creation.
#[derive(Clone, Copy, Debug)]
pub struct ObjectKey {
    pub bytes: [u8; 12],
}

pub open spec fn is_hex_char(c: char) -> bool {
    ('0' <= c && c <= '9') || ('a' <= c && c <= 'f') || ('A' <= c && c <= 'F')
}

pub open spec fn hex_val(c: char) -> int {
    if '0' <= c && c <= '9' {
        c as int - '0' as int
    } else if 'a' <= c && c <= 'f' {
        c as int - 'a' as int + 10
    } else {
        c as int - 'A' as int + 10
    }
}

/// `s` is the text of an identifier: twenty-four hex digits, either case.
pub open spec fn is_object_id_text(s: Seq<char>) -> bool {
    s.len() == 24 && forall|i: int| 0 <= i < 24 ==> is_hex_char(#[trigger] s[i])
}

/// `b` is what the hex digits `s` stand for, two digits to a byte.
pub open spec fn decodes_to(s: Seq<char>, b: Seq<u8>) -> bool {
    &&& b.len() == 12
    &&& forall|k: int|
        0 <= k < 12 ==> #[trigger] b[k] as int == 16 * hex_val(s[2 * k]) + hex_val(s[2 * k + 1])
}

/// The lower-case hex digit for `n` in `0..16`.
pub open spec fn hex_digit(n: int) -> char {
    if n == 0 { '0' }
    else if n == 1 { '1' }
    else if n == 2 { '2' }
    else if n == 3 { '3' }
    else if n == 4 { '4' }
    else if n == 5 { '5' }
    else if n == 6 { '6' }
    else if n == 7 { '7' }
    else if n == 8 { '8' }
    else if n == 9 { '9' }
    else if n == 10 { 'a' }
    else if n == 11 { 'b' }
    else if n == 12 { 'c' }
    else if n == 13 { 'd' }
    else if n == 14 { 'e' }
    else { 'f' }
}

/// The lower-case hex text of `b`: two digits to a byte, high half first.
pub open spec fn hex_lower(b: Seq<u8>) -> Seq<char> {
    Seq::new(
        2 * b.len(),
        |i: int|
            if i % 2 == 0 {
                hex_digit(b[i / 2] as int / 16)
            } else {
                hex_digit(b[i / 2] as int % 16)
            },
    )
}

/// Relies on bson's `ObjectId::parse_str`: it accepts exactly twenty-four
/// hex digits (through `hex::decode`, either case) and gives the bytes they
/// stand for.
#[verifier::external_body]
fn parse_object_id(s: &str) -> (r: Option<[u8; 12]>)
    ensures
        r is Some <==> is_object_id_text(s@),
        r matches Some(b) ==> decodes_to(s@, b@),
{
    mongodb::bson::oid::ObjectId::parse_str(s).ok().map(|o| o.bytes())
}

/// Relies on bson's `ObjectId::to_hex`, which is `hex::encode` of the bytes:
/// lower-case digits, high half of each byte first.
#[verifier::external_body]
fn object_id_hex(b: [u8; 12]) -> (r: String)
    ensures
        r@ == hex_lower(b@),
{
    mongodb::bson::oid::ObjectId::from_bytes(b).to_hex()
}

proof fn lemma_hex_digit_injective(m: int, n: int)
    requires
        0 <= m < 16,
        0 <= n < 16,
        hex_digit(m) == hex_digit(n),
    ensures
        m == n,
{
}

/// Two byte strings with the same lower-case hex text are equal.
pub proof fn lemma_hex_lower_injective(a: Seq<u8>, b: Seq<u8>)
    requires
        hex_lower(a) == hex_lower(b),
    ensures
        a == b,
{
    assert(a.len() == b.len()) by {
        assert(hex_lower(a).len() == 2 * a.len());
    }
    assert forall|k: int| 0 <= k < a.len() implies a[k] == b[k] by {
        assert((2 * k) % 2 == 0 && (2 * k) / 2 == k);
        assert((2 * k + 1) % 2 == 1 && (2 * k + 1) / 2 == k);
        assert(hex_lower(a)[2 * k] == hex_digit(a[k] as int / 16));
        assert(hex_lower(b)[2 * k] == hex_digit(b[k] as int / 16));
        assert(hex_lower(a)[2 * k + 1] == hex_digit(a[k] as int % 16));
        assert(hex_lower(b)[2 * k + 1] == hex_digit(b[k] as int % 16));
        lemma_hex_digit_injective(a[k] as int / 16, b[k] as int / 16);
        lemma_hex_digit_injective(a[k] as int % 16, b[k] as int % 16);
    }
    assert(a =~= b);
}

impl ObjectKey {
    /// Reads an identifier from its hex text; `None` unless the text is
    /// twenty-four hex digits.
    pub fn parse(s: &str) -> (r: Option<ObjectKey>)
        ensures
            r is Some <==> is_object_id_text(s@),
            r matches Some(k) ==> decodes_to(s@, k.bytes@),
    {
        match parse_object_id(s) {
            Some(b) => Some(ObjectKey { bytes: b }),
            None => None,
        }
    }

    /// The lower-case hex text of the identifier.
    pub fn to_hex(&self) -> (r: String)
        ensures
            r@ == hex_lower(self.bytes@),
    {
        object_id_hex(self.bytes)
    }

    /// Whether two identifiers are the same.
    pub fn same_as(&self, other: &ObjectKey) -> (r: bool)
        ensures
            r == (self.bytes@ == other.bytes@),
    {
        let mut i: usize = 0;
        while i < 12
            invariant
                0 <= i <= 12,
                forall|j: int| 0 <= j < i ==> self.bytes@[j] == other.bytes@[j],
            decreases 12 - i,
        {
            if self.bytes[i] != other.bytes[i] {
                return false;
            }
            i = i + 1;
        }
        assert(self.bytes@ =~= other.bytes@);
        true
    }
}

} // verus!
