//! Validation of the short strings that name rule resources and actions, and
//! the decimal rendering of namespaces.

use vstd::prelude::*;
use vstd::string::StrSliceExecFns;
use vstd::string::StringExecFns;

use crate::errors::Errors;

verus! {

/// The wildcard string: the single character `*`.
pub open spec fn is_star(s: Seq<char>) -> bool {
    s.len() == 1 && s[0] == '*'
}

/// ASCII alphanumeric: a decimal digit or a latin letter of either case.
pub open spec fn is_alnum(c: char) -> bool {
    ||| '0' as u32 <= c as u32 <= '9' as u32
    ||| 'A' as u32 <= c as u32 <= 'Z' as u32
    ||| 'a' as u32 <= c as u32 <= 'z' as u32
}

/// The shape a rule's resource or action string must have: 1 to 16 ASCII
/// alphanumeric characters, or exactly the single character `*`.
pub open spec fn valid_rule_string(s: Seq<char>) -> bool {
    ||| is_star(s)
    ||| (1 <= s.len() <= 16 && forall|i: int| 0 <= i < s.len() ==> is_alnum(#[trigger] s[i]))
}

/// Whether `s` is the wildcard string `"*"`.
pub fn is_wildcard(s: &str) -> (r: bool)
    ensures
        r == is_star(s@),
{
    s.unicode_len() == 1 && s.get_char(0) == '*'
}

/// Whether `s` is a valid rule resource or action string.
pub fn is_valid_rule_string(s: &str) -> (r: bool)
    ensures
        r == valid_rule_string(s@),
{
    if is_wildcard(s) {
        return true;
    }
    let n = s.unicode_len();
    if n < 1 || n > 16 {
        return false;
    }
    let mut i: usize = 0;
    while i < n
        invariant
            !is_star(s@),
            n == s@.len(),
            1 <= n <= 16,
            0 <= i <= n,
            forall|j: int| 0 <= j < i ==> is_alnum(#[trigger] s@[j]),
        decreases n - i,
    {
        let c = s.get_char(i);
        let cv = c as u32;
        let digit = 48 <= cv && cv <= 57;
        let upper = 65 <= cv && cv <= 90;
        let lower = 97 <= cv && cv <= 122;
        if !(digit || upper || lower) {
            proof {
                assert(!is_alnum(s@[i as int]));
            }
            return false;
        }
        i = i + 1;
    }
    true
}

/// Validates the resource and action strings of a rule together.
pub fn valid_rules(resource: &String, permission: &String) -> (r: bool)
    ensures
        r == (valid_rule_string(resource@) && valid_rule_string(permission@)),
{
    is_valid_rule_string(resource.as_str()) && is_valid_rule_string(permission.as_str())
}

/// Checks a string's length against inclusive bounds and hands back a copy of
/// it, so lifecycle operations can validate a field as they store it.
pub fn validate_string_len(value: &String, min: usize, max: usize) -> (r: Result<String, Errors>)
    ensures
        value@.len() < min ==> r == Err::<String, Errors>(Errors::StringTooShort),
        min <= value@.len() && value@.len() > max ==> r == Err::<String, Errors>(
            Errors::StringTooLong,
        ),
        min <= value@.len() <= max ==> r == Ok::<String, Errors>(*value),
{
    let n = value.as_str().unicode_len();
    if n < min {
        Err(Errors::StringTooShort)
    } else if n > max {
        Err(Errors::StringTooLong)
    } else {
        Ok(value.clone())
    }
}

/// The decimal digit character for a value below ten.
pub open spec fn digit_char(d: u8) -> char
    recommends
        d < 10,
{
    match d {
        0 => '0',
        1 => '1',
        2 => '2',
        3 => '3',
        4 => '4',
        5 => '5',
        6 => '6',
        7 => '7',
        8 => '8',
        _ => '9',
    }
}

/// The decimal rendering of a byte, most significant digit first, without
/// leading zeros.
pub open spec fn u8_decimal(n: u8) -> Seq<char>
    decreases n,
{
    if n < 10 {
        seq![digit_char(n)]
    } else {
        u8_decimal(n / 10).push(digit_char(n % 10))
    }
}

fn digit_str(d: u8) -> (r: &'static str)
    requires
        d < 10,
    ensures
        r@ =~= seq![digit_char(d)],
{
    let r: &'static str = match d {
        0 => "0",
        1 => "1",
        2 => "2",
        3 => "3",
        4 => "4",
        5 => "5",
        6 => "6",
        7 => "7",
        8 => "8",
        _ => "9",
    };
    proof {
        reveal_strlit("0");
        reveal_strlit("1");
        reveal_strlit("2");
        reveal_strlit("3");
        reveal_strlit("4");
        reveal_strlit("5");
        reveal_strlit("6");
        reveal_strlit("7");
        reveal_strlit("8");
        reveal_strlit("9");
    }
    r
}

/// Renders a byte in decimal, the way namespaces are spelled when they stand
/// as the resource of a meta-rule.
pub fn u8_to_string(n: u8) -> (r: String)
    ensures
        r@ =~= u8_decimal(n),
{
    if n < 10 {
        digit_str(n).to_owned()
    } else if n < 100 {
        let mut s = digit_str(n / 10).to_owned();
        s.append(digit_str(n % 10));
        proof {
            assert(u8_decimal(n / 10) =~= seq![digit_char(n / 10)]);
            assert(u8_decimal(n) =~= u8_decimal(n / 10).push(digit_char(n % 10)));
        }
        s
    } else {
        let m = n / 10;
        let mut s = digit_str(m / 10).to_owned();
        s.append(digit_str(m % 10));
        s.append(digit_str(n % 10));
        proof {
            assert(m >= 10 && m / 10 < 10);
            assert(u8_decimal(m / 10) =~= seq![digit_char(m / 10)]);
            assert(u8_decimal(m) =~= u8_decimal(m / 10).push(digit_char(m % 10)));
            assert(u8_decimal(n) =~= u8_decimal(m).push(digit_char(n % 10)));
        }
        s
    }
}

/// Whether `c` is a decimal digit.
pub open spec fn is_digit(c: char) -> bool {
    '0' as u32 <= c as u32 <= '9' as u32
}

/// The numeric value of a digit character.
pub open spec fn digit_val(c: char) -> int
    recommends
        is_digit(c),
{
    c as u32 - '0' as u32
}

/// The number a sequence of digit characters denotes, most significant first.
pub open spec fn decimal_value(s: Seq<char>) -> int
    decreases s.len(),
{
    if s.len() == 0 {
        0
    } else {
        decimal_value(s.drop_last()) * 10 + digit_val(s.last())
    }
}

/// Whether every character of `s` is a decimal digit.
pub open spec fn all_digits(s: Seq<char>) -> bool {
    forall|i: int| 0 <= i < s.len() ==> is_digit(#[trigger] s[i])
}

/// The shape of a namespace spelled in a rule's resource: a decimal number
/// that fits in a byte.
pub open spec fn valid_u8_decimal(s: Seq<char>) -> bool {
    s.len() > 0 && all_digits(s) && decimal_value(s) <= 255
}

pub proof fn lemma_decimal_value_nonneg(s: Seq<char>)
    requires
        all_digits(s),
    ensures
        decimal_value(s) >= 0,
    decreases s.len(),
{
    if s.len() > 0 {
        assert(all_digits(s.drop_last()));
        lemma_decimal_value_nonneg(s.drop_last());
    }
}

/// Lengthening a digit string never shrinks the number it denotes.
pub proof fn lemma_decimal_value_prefix(s: Seq<char>, i: int)
    requires
        all_digits(s),
        0 <= i <= s.len(),
    ensures
        decimal_value(s.subrange(0, i)) <= decimal_value(s),
    decreases s.len() - i,
{
    if i < s.len() {
        let p = s.subrange(0, i);
        let q = s.subrange(0, i + 1);
        assert(q.drop_last() =~= p);
        assert(all_digits(p));
        lemma_decimal_value_nonneg(p);
        lemma_decimal_value_prefix(s, i + 1);
    } else {
        assert(s.subrange(0, i) =~= s);
    }
}

} // verus!
