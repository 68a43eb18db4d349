//! Character-level text helpers: string comparison, the `bool` numeral, and
//! the shape check for decimal literals that are carried through verbatim.

use vstd::prelude::*;

verus! {

use crate::numbers::{is_digit, is_digit_seq};

/// Compares two string slices character by character.
pub fn str_eq(a: &str, b: &str) -> (r: bool)
    ensures
        r == (a@ == b@),
{
    let la = a.unicode_len();
    let lb = b.unicode_len();
    if la != lb {
        return false;
    }
    let mut i: usize = 0;
    while i < la
        invariant
            0 <= i as int <= la as int,
            la as nat == a@.len(),
            la as nat == b@.len(),
            forall|j: int| 0 <= j < i as int ==> a@[j] == b@[j],
        decreases la as int - i as int,
    {
        if a.get_char(i) != b.get_char(i) {
            return false;
        }
        i = i + 1;
    }
    proof {
        assert(a@ =~= b@);
    }
    true
}

/// `bool::from_str` semantics: exactly the words `true` and `false`.
pub open spec fn spec_parse_bool(s: Seq<char>) -> Option<bool> {
    if s == "true"@ {
        Some(true)
    } else if s == "false"@ {
        Some(false)
    } else {
        None
    }
}

/// Parses a boolean as `bool::from_str` does.
pub fn parse_bool(s: &str) -> (r: Option<bool>)
    ensures
        r == spec_parse_bool(s@),
{
    if str_eq(s, "true") {
        Some(true)
    } else if str_eq(s, "false") {
        Some(false)
    } else {
        None
    }
}

/// The texts of a list of strings.
pub open spec fn texts_model(v: Seq<String>) -> Seq<Seq<char>> {
    Seq::new(
        v.len(),
        |i: int|
            if 0 <= i < v.len() {
                v[i]@
            } else {
                Seq::<char>::empty()
            },
    )
}

/// Relies on `String::push`: appends one character to the end of the string.
#[verifier::external_body]
pub fn push_char(s: &mut String, c: char)
    ensures
        final(s)@ == old(s)@.push(c),
{
    s.push(c)
}

/// The number of leading digit characters of `s`.
pub open spec fn digits_prefix_len(s: Seq<char>) -> int
    decreases s.len(),
{
    if s.len() == 0 || !is_digit(s[0]) {
        0
    } else {
        1 + digits_prefix_len(s.skip(1))
    }
}

/// A scan that stops at the first non-digit finds the digits prefix.
proof fn lemma_digits_prefix_scan(s: Seq<char>, i: int)
    requires
        0 <= i <= s.len(),
        forall|j: int| 0 <= j < i ==> is_digit(#[trigger] s[j]),
        i == s.len() || !is_digit(s[i]),
    ensures
        digits_prefix_len(s) == i,
    decreases i,
{
    if i == 0 {
    } else {
        assert(is_digit(s[0]));
        lemma_digits_prefix_scan(s.skip(1), i - 1);
    }
}

/// The position of the first non-digit at or after `from`.
fn scan_digits(s: &str, from: usize) -> (p: usize)
    requires
        from as nat <= s@.len(),
    ensures
        from <= p,
        p as nat <= s@.len(),
        forall|j: int| from as int <= j < p as int ==> is_digit(#[trigger] s@[j]),
        p as nat == s@.len() || !is_digit(s@[p as int]),
{
    let n = s.unicode_len();
    let mut i: usize = from;
    while i < n
        invariant
            from as int <= i as int <= n as int,
            n as nat == s@.len(),
            forall|j: int| from as int <= j < i as int ==> is_digit(#[trigger] s@[j]),
        decreases n as int - i as int,
    {
        let c = s.get_char(i);
        let u = c as u32;
        if u < 48 || u > 57 {
            return i;
        }
        i = i + 1;
    }
    i
}

/// A plain decimal literal: one or more digits, optionally followed by a
/// point and one or more digits.  No sign, no exponent.
pub open spec fn is_decimal_literal(s: Seq<char>) -> bool {
    let p = digits_prefix_len(s);
    p >= 1 && (p == s.len() || (s[p] == '.' && p + 2 <= s.len() && is_digit_seq(s.skip(p + 1))))
}

/// Checks the decimal-literal shape.
pub fn check_decimal_literal(s: &str) -> (r: bool)
    ensures
        r == is_decimal_literal(s@),
{
    let n = s.unicode_len();
    let i = scan_digits(s, 0);
    proof {
        lemma_digits_prefix_scan(s@, i as int);
    }
    if i == 0 {
        return false;
    }
    if i == n {
        return true;
    }
    if s.get_char(i) != '.' {
        return false;
    }
    if i + 1 == n {
        return false;
    }
    let ghost p = i as int;
    let k = scan_digits(s, i + 1);
    if k < n {
        proof {
            assert(s@.skip(p + 1)[k as int - p - 1] == s@[k as int]);
        }
        return false;
    }
    proof {
        assert forall|j: int| 0 <= j < s@.skip(p + 1).len() implies is_digit(
            #[trigger] s@.skip(p + 1)[j],
        ) by {
            assert(s@.skip(p + 1)[j] == s@[j + p + 1]);
        }
    }
    true
}

} // verus!
