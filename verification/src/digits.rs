//! Decimal rendering and parsing of user ids.
//!
//! A session credential carries the user id as its decimal digit string, so
//! the codec needs an exact spec-level notion of that string: `spec_decimal`
//! gives the digits of a non-negative number, `decimal_value` reads a digit
//! string back, and the two are proved inverse to each other.

use vstd::prelude::*;
use vstd::string::StringExecFns;

verus! {

/// The digit character for a value in `0..10`.
pub open spec fn digit_char(d: int) -> char {
    if d == 0 {
        '0'
    } else if d == 1 {
        '1'
    } else if d == 2 {
        '2'
    } else if d == 3 {
        '3'
    } else if d == 4 {
        '4'
    } else if d == 5 {
        '5'
    } else if d == 6 {
        '6'
    } else if d == 7 {
        '7'
    } else if d == 8 {
        '8'
    } else {
        '9'
    }
}

/// The value of a digit character, or -1 for any other character.
pub open spec fn digit_val(c: char) -> int {
    if c == '0' {
        0
    } else if c == '1' {
        1
    } else if c == '2' {
        2
    } else if c == '3' {
        3
    } else if c == '4' {
        4
    } else if c == '5' {
        5
    } else if c == '6' {
        6
    } else if c == '7' {
        7
    } else if c == '8' {
        8
    } else if c == '9' {
        9
    } else {
        -1
    }
}

pub open spec fn is_digit_char(c: char) -> bool {
    digit_val(c) >= 0
}

pub open spec fn all_digits(s: Seq<char>) -> bool {
    forall|i: int| 0 <= i < s.len() ==> is_digit_char(#[trigger] s[i])
}

/// The decimal digit string of a non-negative number, most significant
/// digit first, without a sign and without leading zeros (except for 0
/// itself, whose string is "0").
pub open spec fn spec_decimal(n: int) -> Seq<char>
    decreases n,
{
    if n < 10 {
        seq![digit_char(n)]
    } else {
        spec_decimal(n / 10) + seq![digit_char(n % 10)]
    }
}

/// The number a digit string denotes (reading any non-digit as -1 makes the
/// result of a malformed string irrelevant: callers guard with `all_digits`).
pub open spec fn decimal_value(s: Seq<char>) -> int
    decreases s.len(),
{
    if s.len() == 0 {
        0
    } else {
        decimal_value(s.drop_last()) * 10 + digit_val(s.last())
    }
}

pub proof fn lemma_spec_decimal_digits(n: int)
    requires
        n >= 0,
    ensures
        spec_decimal(n).len() >= 1,
        all_digits(spec_decimal(n)),
    decreases n,
{
    if n >= 10 {
        lemma_spec_decimal_digits(n / 10);
    }
}

/// Rendering then reading a non-negative number gives the number back.
pub proof fn lemma_decimal_round_trip(n: int)
    requires
        n >= 0,
    ensures
        decimal_value(spec_decimal(n)) == n,
    decreases n,
{
    let s = spec_decimal(n);
    assert(s.len() > 0);
    assert(decimal_value(s) == decimal_value(s.drop_last()) * 10 + digit_val(s.last()));
    if n < 10 {
        assert(s.drop_last() =~= Seq::<char>::empty());
        assert(decimal_value(Seq::<char>::empty()) == 0);
        assert(s.last() == digit_char(n));
        assert(digit_val(digit_char(n)) == n);
    } else {
        lemma_decimal_round_trip(n / 10);
        assert(s.drop_last() =~= spec_decimal(n / 10));
        assert(s.last() == digit_char(n % 10));
        assert(digit_val(digit_char(n % 10)) == n % 10);
        assert((n / 10) * 10 + n % 10 == n);
    }
}

/// Extending a digit string by one digit multiplies its value by ten, so a
/// prefix already past a bound keeps the whole string past it.
pub proof fn lemma_decimal_value_prefix_exceeds(s: Seq<char>, i: int, bound: int)
    requires
        0 <= i <= s.len(),
        all_digits(s),
        bound >= 0,
        decimal_value(s.subrange(0, i)) > bound,
    ensures
        decimal_value(s) > bound,
    decreases s.len() - i,
{
    if i < s.len() {
        let t = s.subrange(0, i + 1);
        assert(t.drop_last() =~= s.subrange(0, i));
        assert(decimal_value(t) == decimal_value(s.subrange(0, i)) * 10 + digit_val(s[i]));
        lemma_decimal_value_prefix_exceeds(s, i + 1, bound);
    } else {
        assert(s.subrange(0, i) =~= s);
    }
}

/// Relies on std's `String::push`: appends exactly the given character.
#[verifier::external_body]
fn push_char(s: &mut String, c: char)
    ensures
        final(s)@ == old(s)@ + seq![c],
{
    s.push(c)
}

/// The decimal rendering of a possibly negative number: a `-` sign followed
/// by the digits of its magnitude.
pub open spec fn spec_int_decimal(n: int) -> Seq<char> {
    if n < 0 {
        seq!['-'] + spec_decimal(-n)
    } else {
        spec_decimal(n)
    }
}

/// The digit character of a value below ten.
fn digit_char_of(d: u64) -> (c: char)
    requires
        d < 10,
    ensures
        c == digit_char(d as int),
{
    match d {
        0 => '0',
        1 => '1',
        2 => '2',
        3 => '3',
        4 => '4',
        5 => '5',
        6 => '6',
        7 => '7',
        8 => '8',
        _ => '9',
    }
}

/// The value of a digit character, if it is one.
fn digit_of(c: char) -> (r: Option<u32>)
    ensures
        r is Some <==> is_digit_char(c),
        r is Some ==> r->Some_0 == digit_val(c),
{
    match c {
        '0' => Some(0),
        '1' => Some(1),
        '2' => Some(2),
        '3' => Some(3),
        '4' => Some(4),
        '5' => Some(5),
        '6' => Some(6),
        '7' => Some(7),
        '8' => Some(8),
        '9' => Some(9),
        _ => None,
    }
}

/// Renders a number as its decimal digit string.
pub fn format_u64(n: u64) -> (s: String)
    ensures
        s@ == spec_decimal(n as int),
    decreases n,
{
    if n < 10 {
        let mut s = String::new();
        push_char(&mut s, digit_char_of(n));
        s
    } else {
        let mut s = format_u64(n / 10);
        push_char(&mut s, digit_char_of(n % 10));
        s
    }
}

/// Renders a number, with a `-` sign when it is negative.
pub fn format_i32(n: i32) -> (s: String)
    ensures
        s@ == spec_int_decimal(n as int),
{
    if n >= 0 {
        format_u64(n as u64)
    } else {
        let magnitude = (-(n as i64)) as u64;
        let mut s = String::new();
        push_char(&mut s, '-');
        let digits = format_u64(magnitude);
        s.append(digits.as_str());
        proof {
            assert(s@ =~= spec_int_decimal(n as int));
        }
        s
    }
}

/// Renders a non-negative user id as its decimal digit string.
pub fn format_user_id(id: i32) -> (s: String)
    requires
        id >= 0,
    ensures
        s@ == spec_decimal(id as int),
{
    format_u64(id as u64)
}

/// Parses a string of decimal digits as a user id.  Succeeds exactly on the
/// non-empty all-digit strings whose value fits in an `i32`.
pub fn parse_user_id(s: &str) -> (r: Option<i32>)
    ensures
        r is Some <==> (s@.len() > 0 && all_digits(s@) && decimal_value(s@) <= i32::MAX),
        r is Some ==> r->Some_0 == decimal_value(s@),
{
    let len = s.unicode_len();
    if len == 0 {
        return None;
    }
    let mut acc: u64 = 0;
    let mut i: usize = 0;
    while i < len
        invariant
            0 < len == s@.len(),
            0 <= i <= len,
            all_digits(s@.subrange(0, i as int)),
            acc == decimal_value(s@.subrange(0, i as int)),
            acc <= i32::MAX,
        decreases len - i,
    {
        let c = s.get_char(i);
        match digit_of(c) {
            None => {
                assert(!is_digit_char(s@[i as int]));
                return None;
            }
            Some(d) => {
                proof {
                    let t = s@.subrange(0, i + 1);
                    assert(t.drop_last() =~= s@.subrange(0, i as int));
                }
                acc = acc * 10 + (d as u64);
                if acc > i32::MAX as u64 {
                    proof {
                        if all_digits(s@) {
                            lemma_decimal_value_prefix_exceeds(s@, i + 1, i32::MAX as int);
                        }
                    }
                    return None;
                }
            }
        }
        i += 1;
    }
    proof {
        assert(s@.subrange(0, len as int) =~= s@);
    }
    Some(acc as i32)
}

} // verus!
