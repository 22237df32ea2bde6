//! Small helpers on numbers and text.
use vstd::prelude::*;

verus! {

/// Adds two numbers.
pub fn add(a: i32, b: i32) -> (r: i32)
    requires
        i32::MIN <= a + b <= i32::MAX,
    ensures
        r == a + b,
{
    a + b
}

/// The largest element of a non-empty list (the first of them, if several are equal).
pub fn largest(list: &[i32]) -> (r: &i32)
    requires
        list@.len() > 0,
    ensures
        exists|i: int| 0 <= i < list@.len() && list@[i] == *r,
        forall|i: int| 0 <= i < list@.len() ==> list@[i] <= *r,
{
    let mut largest: usize = 0;
    let mut i: usize = 0;
    while i < list.len()
        invariant
            i <= list@.len(),
            largest < list@.len(),
            forall|j: int| 0 <= j < i ==> list@[j] <= list@[largest as int],
        decreases list@.len() - i,
    {
        if list[i] > list[largest] {
            largest = i;
        }
        i = i + 1;
    }
    &list[largest]
}

/// Whether `s` holds no space.
pub open spec fn no_space(s: Seq<char>) -> bool {
    forall|i: int| 0 <= i < s.len() ==> s[i] != ' '
}

/// The first word of `s`: everything before its first space, or all of `s`
/// where it has none.
pub fn first_world(s: &str) -> (r: &str)
    ensures
        r@.len() <= s@.len(),
        r@ == s@.subrange(0, r@.len() as int),
        no_space(r@),
        r@.len() < s@.len() ==> s@[r@.len() as int] == ' ',
{
    let n = s.unicode_len();
    let mut i: usize = 0;
    while i < n
        invariant
            n == s@.len(),
            i <= n,
            no_space(s@.subrange(0, i as int)),
        decreases n - i,
    {
        if s.get_char(i) == ' ' {
            return s.substring_char(0, i);
        }
        assert(s@.subrange(0, i + 1) == s@.subrange(0, i as int).push(s@[i as int]));
        i = i + 1;
    }
    s.substring_char(0, n)
}

/// Whether `s` is one or more ASCII decimal digits.
pub open spec fn is_decimal(s: Seq<char>) -> bool {
    s.len() > 0 && forall|i: int| 0 <= i < s.len() ==> '0' <= #[trigger] s[i] <= '9'
}

/// The number that the decimal digits `s` denote.
pub open spec fn digits_value(s: Seq<char>) -> int
    decreases s.len(),
{
    if s.len() == 0 {
        0
    } else {
        digits_value(s.drop_last()) * 10 + (s.last() as int - '0' as int)
    }
}

/// The integer that `s` writes: an optional `+` or `-` sign followed by
/// decimal digits, and nothing else.
pub open spec fn integer_text_value(s: Seq<char>) -> Option<int> {
    if s.len() > 0 && s[0] == '-' && is_decimal(s.drop_first()) {
        Some(-digits_value(s.drop_first()))
    } else if s.len() > 0 && s[0] == '+' && is_decimal(s.drop_first()) {
        Some(digits_value(s.drop_first()))
    } else if is_decimal(s) {
        Some(digits_value(s))
    } else {
        None
    }
}

/// The `i32` that `s` writes, where it writes one in range.
pub open spec fn i32_of_text(s: Seq<char>) -> Option<i32> {
    match integer_text_value(s) {
        Some(v) => if i32::MIN <= v <= i32::MAX {
            Some(v as i32)
        } else {
            None
        },
        None => None,
    }
}

/// What `s` with its leading and trailing whitespace removed holds.
pub uninterp spec fn trimmed(s: Seq<char>) -> Seq<char>;

/// Relies on `str::trim`, which removes leading and trailing whitespace and
/// depends on the characters of `s` alone.
#[verifier::external_body]
fn trim(s: &str) -> (r: &str)
    ensures
        r@ == trimmed(s@),
{
    s.trim()
}

/// Relies on `str::parse::<i32>` (`i32::from_str`): an optional `+` or `-`
/// followed by decimal digits, whose value fits in an `i32`; anything else
/// is an error, which is handed on as its message.
#[verifier::external_body]
pub(crate) fn parse_int(s: &str) -> (r: Result<i32, String>)
    ensures
        r is Ok <==> i32_of_text(s@) is Some,
        r matches Ok(v) ==> i32_of_text(s@) == Some(v),
{
    match s.parse::<i32>() {
        Ok(v) => Ok(v),
        Err(e) => Err(e.to_string()),
    }
}

/// The value of `s` as an `i32` where it writes one, else `default`.
pub open spec fn i32_or(default: i32, s: Seq<char>) -> i32 {
    match i32_of_text(s) {
        Some(v) => v,
        None => default,
    }
}

/// Reads an `i32` from text that has no surrounding whitespace left; returns
/// `default` where the text is no integer in range.
pub fn parse_i32_or(default: i32, s: &str) -> (r: i32)
    ensures
        r == i32_or(default, s@),
{
    match parse_int(s) {
        Ok(v) => v,
        Err(_) => default,
    }
}

/// Reads an `i32` from `s` with its surrounding whitespace removed; returns
/// `default` where it is no integer in range.
pub fn convert_to_i32(default: i32, s: &str) -> (r: i32)
    ensures
        r == i32_or(default, trimmed(s@)),
{
    parse_i32_or(default, trim(s))
}

} // verus!
