use vstd::prelude::*;

verus! {

/// A JSON value as read from a response body. Numbers keep the text they
/// were written with, so that no precision is lost before a field is decoded.
#[derive(Debug, PartialEq)]
pub enum Json {
    Null,
    Bool(bool),
    Number(String),
    Str(String),
    Array(Vec<Json>),
    Object(Vec<(String, Json)>),
}

/// The value of the first member of an object named `key`.
pub open spec fn member(fields: Seq<(String, Json)>, key: Seq<char>) -> Option<Json>
    decreases fields.len(),
{
    if fields.len() == 0 {
        None
    } else if fields[0].0@ == key {
        Some(fields[0].1)
    } else {
        member(fields.drop_first(), key)
    }
}

proof fn lemma_member_step(fields: Seq<(String, Json)>, key: Seq<char>, i: int)
    requires
        0 <= i < fields.len(),
        fields[i].0@ != key,
    ensures
        member(fields.subrange(i, fields.len() as int), key) == member(
            fields.subrange(i + 1, fields.len() as int),
            key,
        ),
{
    let rest = fields.subrange(i, fields.len() as int);
    assert(rest.drop_first() =~= fields.subrange(i + 1, fields.len() as int));
}

/// Looks up the first member named `key` among the members of an object.
pub fn get_member<'a>(fields: &'a Vec<(String, Json)>, key: &str) -> (r: Option<&'a Json>)
    ensures
        match r {
            Some(v) => member(fields@, key@) == Some(*v),
            None => member(fields@, key@) is None,
        },
{
    let k = String::from_str(key);
    let n = fields.len();
    let mut i: usize = 0;
    assert(fields@.subrange(0, n as int) =~= fields@);
    while i < n
        invariant
            n == fields@.len(),
            0 <= i <= n,
            k@ == key@,
            member(fields@.subrange(i as int, n as int), key@) == member(fields@, key@),
        decreases n - i,
    {
        if fields[i].0 == k {
            let ghost rest = fields@.subrange(i as int, n as int);
            assert(rest[0] == fields@[i as int]);
            return Some(&fields[i].1);
        }
        proof {
            lemma_member_step(fields@, key@, i as int);
        }
        i = i + 1;
    }
    None
}

/// All characters of `s` are decimal digits.
pub open spec fn all_digits(s: Seq<char>) -> bool {
    forall|i: int| 0 <= i < s.len() ==> '0' <= #[trigger] s[i] <= '9'
}

/// The value of a run of decimal digits, the most significant first.
pub open spec fn digits_value(s: Seq<char>) -> int
    decreases s.len(),
{
    if s.len() == 0 {
        0
    } else {
        10 * digits_value(s.drop_last()) + (s.last() as int - '0' as int)
    }
}

/// The number a JSON number's text stands for, where it is a non-negative
/// integer that fits in 16 bits.
pub open spec fn spec_small_uint(s: Seq<char>) -> Option<u16> {
    if s.len() > 0 && all_digits(s) && digits_value(s) <= 65535 {
        Some(digits_value(s) as u16)
    } else {
        None
    }
}

proof fn lemma_digits_grow(s: Seq<char>, i: int, j: int)
    requires
        all_digits(s),
        0 <= i <= j <= s.len(),
    ensures
        0 <= digits_value(s.subrange(0, i)) <= digits_value(s.subrange(0, j)),
    decreases j - i,
{
    if i < j {
        lemma_digits_grow(s, i, j - 1);
        let p = s.subrange(0, j);
        assert(p.drop_last() =~= s.subrange(0, j - 1));
        assert(p.last() == s[j - 1]);
    } else {
        lemma_digits_nonneg(s.subrange(0, i));
    }
}

proof fn lemma_digits_nonneg(s: Seq<char>)
    requires
        all_digits(s),
    ensures
        digits_value(s) >= 0,
    decreases s.len(),
{
    if s.len() > 0 {
        assert(all_digits(s.drop_last()));
        lemma_digits_nonneg(s.drop_last());
    }
}

/// Reads a non-negative integer below 65536 from a number's text.
pub fn parse_small_uint(text: &str) -> (r: Option<u16>)
    ensures
        r == spec_small_uint(text@),
{
    let n = text.unicode_len();
    if n == 0 {
        return None;
    }
    let mut value: u32 = 0;
    let mut i: usize = 0;
    while i < n
        invariant
            n == text@.len(),
            0 <= i <= n,
            all_digits(text@.subrange(0, i as int)),
            value as int == digits_value(text@.subrange(0, i as int)),
            value <= 65535,
        decreases n - i,
    {
        let c = text.get_char(i);
        if c < '0' || c > '9' {
            assert(!all_digits(text@));
            return None;
        }
        let d = (c as u32) - ('0' as u32);
        let ghost prefix = text@.subrange(0, i as int + 1);
        assert(prefix.drop_last() =~= text@.subrange(0, i as int));
        assert(prefix.last() == c);
        assert(all_digits(prefix));
        if value > 6553 || value * 10 + d > 65535 {
            proof {
                if all_digits(text@) {
                    lemma_digits_grow(text@, i as int + 1, n as int);
                    assert(text@.subrange(0, n as int) =~= text@);
                }
            }
            return None;
        }
        value = value * 10 + d;
        i = i + 1;
    }
    assert(text@.subrange(0, n as int) =~= text@);
    Some(value as u16)
}

} // verus!
