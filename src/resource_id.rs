use vstd::prelude::*;

verus! {

/// The lowercase hexadecimal digit of a value in `0..16`.
pub open spec fn hex_digit(n: int) -> char {
    seq!['0', '1', '2', '3', '4', '5', '6', '7', '8', '9', 'a', 'b', 'c', 'd', 'e', 'f'][n]
}

/// The `k`-th of the 32 hex digits of `v`, the most significant first.
pub open spec fn nibble(v: u128, k: int) -> int {
    ((v >> (((31 - k) * 4) as u128)) & 15u128) as int
}

/// Which hex digit stands at position `i` of the 36-character hyphenated form.
pub open spec fn digit_index(i: int) -> int {
    if i < 8 {
        i
    } else if i < 13 {
        i - 1
    } else if i < 18 {
        i - 2
    } else if i < 23 {
        i - 3
    } else {
        i - 4
    }
}

pub open spec fn is_hyphen_position(i: int) -> bool {
    i == 8 || i == 13 || i == 18 || i == 23
}

/// The canonical text of an identifier: 32 lowercase hex digits, most
/// significant first, grouped 8-4-4-4-12 by hyphens.
#[verifier::opaque]
pub open spec fn hyphenated_hex(v: u128) -> Seq<char> {
    Seq::new(
        36,
        |i: int|
            if is_hyphen_position(i) {
                '-'
            } else {
                hex_digit(nibble(v, digit_index(i)))
            },
    )
}

pub proof fn lemma_nibble_range(v: u128, k: int)
    ensures
        0 <= nibble(v, k) < 16,
{
    let x = v >> (((31 - k) * 4) as u128);
    assert(x & 15u128 <= 15u128) by (bit_vector);
}

pub proof fn lemma_hex_text_len(v: u128)
    ensures
        hyphenated_hex(v).len() == 36,
{
    reveal(hyphenated_hex);
}

/// Each character of the hyphenated form is a hyphen, at the four fixed
/// positions, or a lowercase hex digit elsewhere.
pub proof fn lemma_hex_text_chars(v: u128, i: int)
    requires
        0 <= i < 36,
    ensures
        hyphenated_hex(v).len() == 36,
        is_hyphen_position(i) ==> hyphenated_hex(v)[i] == '-',
        !is_hyphen_position(i) ==> {
            let c = hyphenated_hex(v)[i];
            ('0' <= c <= '9') || ('a' <= c <= 'f')
        },
{
    reveal(hyphenated_hex);
    lemma_nibble_range(v, digit_index(i));
}

/// What `uuid::Uuid::parse_str` makes of a text: the identifier's value, or
/// `None` where the text is no identifier.
pub uninterp spec fn parsed_uuid(s: Seq<char>) -> Option<u128>;

/// Relies on `uuid::Uuid::from_u128` (the value read as big-endian bytes) and
/// on `uuid`'s `Display`, which writes the lowercase hyphenated form.
#[verifier::external_body]
fn render_hyphenated(v: u128) -> (r: String)
    ensures
        r@ == hyphenated_hex(v),
{
    uuid::Uuid::from_u128(v).hyphenated().to_string()
}

/// Relies on `uuid::Uuid::parse_str` and `uuid::Uuid::as_u128`: the result
/// depends on the text alone, and the hyphenated form of a value reads back
/// as that value.
#[verifier::external_body]
fn parse_uuid(s: &str) -> (r: Option<u128>)
    ensures
        r == parsed_uuid(s@),
        forall|v: u128| s@ == hyphenated_hex(v) ==> r == Some(v),
{
    match uuid::Uuid::parse_str(s) {
        Ok(u) => Some(u.as_u128()),
        Err(_) => None,
    }
}

/// The 128-bit identifier of a single resource of the API.
#[derive(Clone, Copy, Debug, PartialEq, Eq, Hash)]
pub struct ResourceId {
    pub value: u128,
}

impl ResourceId {
    pub fn from_u128(value: u128) -> (r: ResourceId)
        ensures
            r.value == value,
    {
        ResourceId { value }
    }

    /// Reads an identifier from its text; `None` where the text is none.
    pub fn parse(s: &str) -> (r: Option<ResourceId>)
        ensures
            r == (match parsed_uuid(s@) {
                Some(v) => Some(ResourceId { value: v }),
                None => None,
            }),
            forall|v: u128| s@ == hyphenated_hex(v) ==> r == Some(ResourceId { value: v }),
    {
        match parse_uuid(s) {
            Some(v) => Some(ResourceId { value: v }),
            None => None,
        }
    }

    /// The canonical hyphenated lowercase text of this identifier.
    pub fn to_hyphenated(&self) -> (r: String)
        ensures
            r@ == hyphenated_hex(self.value),
    {
        render_hyphenated(self.value)
    }
}

} // verus!
