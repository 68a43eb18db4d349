//! Decimal text for the wire formats: parsing unsigned integers the way the
//! standard `FromStr` implementations do (an optional leading `+`, then one
//! or more digits, rejecting overflow), printing them back, and checking the
//! shape of decimal literals that are carried verbatim.

use vstd::prelude::*;

verus! {

use vstd::arithmetic::div_mod::lemma_fundamental_div_mod;

/// A decimal digit.
pub open spec fn is_digit(c: char) -> bool {
    48 <= c as u32 && c as u32 <= 57
}

/// The numeric value of a digit character.
pub open spec fn digit_val(c: char) -> nat
    recommends
        is_digit(c),
{
    (c as u32 - 48) as nat
}

/// Every character of `s` is a decimal digit.
pub open spec fn is_digit_seq(s: Seq<char>) -> bool {
    forall|i: int| 0 <= i < s.len() ==> is_digit(#[trigger] s[i])
}

/// The value of a digit string, most significant digit first.
pub open spec fn str_to_nat(s: Seq<char>) -> nat
    decreases s.len(),
{
    if s.len() == 0 {
        0
    } else {
        str_to_nat(s.drop_last()) * 10 + digit_val(s.last())
    }
}

/// The part of a numeral after an optional leading `+` sign.
pub open spec fn digits_part(s: Seq<char>) -> Seq<char> {
    if s.len() > 0 && s[0] == '+' {
        s.skip(1)
    } else {
        s
    }
}

/// What an unsigned numeral denotes: `Some` exactly when the text is an
/// optional `+` followed by one or more digits.
pub open spec fn parsed_nat(s: Seq<char>) -> Option<nat> {
    let t = digits_part(s);
    if t.len() > 0 && is_digit_seq(t) {
        Some(str_to_nat(t))
    } else {
        None
    }
}

/// `u64::from_str` semantics: the denoted value when it fits, else nothing.
pub open spec fn spec_parse_u64(s: Seq<char>) -> Option<u64> {
    match parsed_nat(s) {
        Some(n) => if n <= u64::MAX {
            Some(n as u64)
        } else {
            None
        },
        None => None,
    }
}

/// `u32::from_str` semantics.
pub open spec fn spec_parse_u32(s: Seq<char>) -> Option<u32> {
    match parsed_nat(s) {
        Some(n) => if n <= u32::MAX {
            Some(n as u32)
        } else {
            None
        },
        None => None,
    }
}

/// `u16::from_str` semantics.
pub open spec fn spec_parse_u16(s: Seq<char>) -> Option<u16> {
    match parsed_nat(s) {
        Some(n) => if n <= u16::MAX {
            Some(n as u16)
        } else {
            None
        },
        None => None,
    }
}

/// A prefix of a digit string never denotes more than the whole string.
pub proof fn lemma_str_to_nat_prefix_le(s: Seq<char>, i: int)
    requires
        0 <= i <= s.len(),
    ensures
        str_to_nat(s.subrange(0, i)) <= str_to_nat(s),
    decreases s.len(),
{
    if i == s.len() {
        assert(s.subrange(0, i) =~= s);
    } else {
        lemma_str_to_nat_prefix_le(s.drop_last(), i);
        assert(s.drop_last().subrange(0, i) =~= s.subrange(0, i));
    }
}

/// Parses an unsigned numeral as `u64::from_str` does: an optional leading
/// `+`, then one or more decimal digits, `None` on any other character or
/// when the value exceeds `u64::MAX`.
pub fn parse_u64(s: &str) -> (r: Option<u64>)
    ensures
        r == spec_parse_u64(s@),
{
    let n = s.unicode_len();
    let mut i: usize = 0;
    if n > 0 && s.get_char(0) == '+' {
        i = 1;
    }
    let ghost start = i as int;
    let ghost t = digits_part(s@);
    proof {
        assert(t =~= s@.subrange(start, n as int));
    }
    if i == n {
        return None;
    }
    let mut val: u64 = 0;
    while i < n
        invariant
            0 <= start <= i as int <= n as int,
            n as nat == s@.len(),
            t == digits_part(s@),
            t =~= s@.subrange(start, n as int),
            is_digit_seq(s@.subrange(start, i as int)),
            val as nat == str_to_nat(s@.subrange(start, i as int)),
        decreases n as int - i as int,
    {
        let c = s.get_char(i);
        let u = c as u32;
        if u < 48 || u > 57 {
            proof {
                let k = i as int - start;
                assert(s@.subrange(start, n as int)[k] == s@[i as int]);
                assert(!is_digit(t[k]));
            }
            return None;
        }
        let d: u64 = (u - 48) as u64;
        let ghost prefix = s@.subrange(start, i as int);
        let ghost next_prefix = s@.subrange(start, i as int + 1);
        proof {
            assert(next_prefix.drop_last() =~= prefix);
            assert(next_prefix.last() == s@[i as int]);
        }
        if val > (u64::MAX - d) / 10 {
            proof {
                let m = u64::MAX as int;
                lemma_fundamental_div_mod(m - d, 10);
                assert(str_to_nat(next_prefix) > u64::MAX);
                assert(next_prefix =~= t.subrange(0, i as int + 1 - start));
                lemma_str_to_nat_prefix_le(t, i as int + 1 - start);
            }
            return None;
        }
        val = val * 10 + d;
        i = i + 1;
    }
    proof {
        assert(s@.subrange(start, i as int) =~= t);
    }
    Some(val)
}

/// Parses an unsigned numeral as `u32::from_str` does.
pub fn parse_u32(s: &str) -> (r: Option<u32>)
    ensures
        r == spec_parse_u32(s@),
{
    match parse_u64(s) {
        Some(v) => if v <= u32::MAX as u64 {
            Some(v as u32)
        } else {
            None
        },
        None => None,
    }
}

/// Parses an unsigned numeral as `u16::from_str` does.
pub fn parse_u16(s: &str) -> (r: Option<u16>)
    ensures
        r == spec_parse_u16(s@),
{
    match parse_u64(s) {
        Some(v) => if v <= u16::MAX as u64 {
            Some(v as u16)
        } else {
            None
        },
        None => None,
    }
}

/// The digit character for a value below ten.
pub open spec fn digit_char(d: nat) -> char
    recommends
        d < 10,
{
    if d == 0 {
        '0'
    } else if d == 1 {
        '1'
    } else if d == 2 {
        '2'
    } else if d == 3 {
        '3'
    } else if d == 4 {
        '4'
    } else if d == 5 {
        '5'
    } else if d == 6 {
        '6'
    } else if d == 7 {
        '7'
    } else if d == 8 {
        '8'
    } else {
        '9'
    }
}

/// The decimal numeral of `n`, most significant digit first, no sign and no
/// leading zero except for the numeral of zero itself.
pub open spec fn nat_to_digits(n: nat) -> Seq<char>
    decreases n,
{
    if n < 10 {
        seq![digit_char(n)]
    } else {
        nat_to_digits(n / 10).push(digit_char(n % 10))
    }
}

fn digit_str(d: u64) -> (r: &'static str)
    requires
        d < 10,
    ensures
        r@ == seq![digit_char(d as nat)],
{
    proof {
        reveal_strlit("0");
        reveal_strlit("1");
        reveal_strlit("2");
        reveal_strlit("3");
        reveal_strlit("4");
        reveal_strlit("5");
        reveal_strlit("6");
        reveal_strlit("7");
        reveal_strlit("8");
        reveal_strlit("9");
    }
    let r = match d {
        0 => "0",
        1 => "1",
        2 => "2",
        3 => "3",
        4 => "4",
        5 => "5",
        6 => "6",
        7 => "7",
        8 => "8",
        _ => "9",
    };
    proof {
        assert(r@ =~= seq![digit_char(d as nat)]);
    }
    r
}

/// Prints `n` as its decimal numeral.
pub fn u64_to_string(n: u64) -> (s: String)
    ensures
        s@ == nat_to_digits(n as nat),
    decreases n,
{
    if n < 10 {
        String::from_str(digit_str(n))
    } else {
        let mut s = u64_to_string(n / 10);
        s.append(digit_str(n % 10));
        proof {
            assert(s@ =~= nat_to_digits(n as nat));
        }
        s
    }
}

/// Prints `n` as its decimal numeral.
pub fn u32_to_string(n: u32) -> (s: String)
    ensures
        s@ == nat_to_digits(n as nat),
{
    u64_to_string(n as u64)
}

/// A printed numeral consists of digits.
pub proof fn lemma_nat_to_digits_shape(n: nat)
    ensures
        nat_to_digits(n).len() >= 1,
        is_digit_seq(nat_to_digits(n)),
    decreases n,
{
    if n >= 10 {
        lemma_nat_to_digits_shape(n / 10);
    }
}

/// Printing and re-reading a number gives the number back.
pub proof fn lemma_str_to_nat_of_digits(n: nat)
    ensures
        str_to_nat(nat_to_digits(n)) == n,
    decreases n,
{
    if n < 10 {
        assert(seq![digit_char(n)].drop_last() =~= Seq::<char>::empty());
        assert(str_to_nat(Seq::<char>::empty()) == 0);
        assert(digit_val(digit_char(n)) == n);
    } else {
        lemma_str_to_nat_of_digits(n / 10);
        let w = nat_to_digits(n / 10).push(digit_char(n % 10));
        assert(w.drop_last() =~= nat_to_digits(n / 10));
        assert(digit_val(digit_char(n % 10)) == n % 10);
        lemma_fundamental_div_mod(n as int, 10);
    }
}

/// The numerals this module prints parse back to the same value.
pub proof fn lemma_u64_numeral_roundtrip(n: u64)
    ensures
        spec_parse_u64(nat_to_digits(n as nat)) == Some(n),
{
    lemma_nat_to_digits_shape(n as nat);
    lemma_str_to_nat_of_digits(n as nat);
    let s = nat_to_digits(n as nat);
    assert(is_digit(s[0]));
    assert(s[0] != '+');
    assert(digits_part(s) == s);
}

/// The numerals this module prints parse back to the same value.
pub proof fn lemma_u32_numeral_roundtrip(n: u32)
    ensures
        spec_parse_u32(nat_to_digits(n as nat)) == Some(n),
{
    lemma_nat_to_digits_shape(n as nat);
    lemma_str_to_nat_of_digits(n as nat);
    let s = nat_to_digits(n as nat);
    assert(is_digit(s[0]));
    assert(s[0] != '+');
    assert(digits_part(s) == s);
}

} // verus!
