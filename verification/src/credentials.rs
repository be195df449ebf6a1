use vstd::prelude::*;
use crate::decimal::all_digits;
use crate::text::chars_of;

verus! {

/// Whether `c` is a hexadecimal digit, in either case.
pub open spec fn is_hex_digit(c: char) -> bool {
    ('0' <= c <= '9') || ('a' <= c <= 'f') || ('A' <= c <= 'F')
}

/// Whether every character of `s` is a hexadecimal digit.
pub open spec fn all_hex_digits(s: Seq<char>) -> bool {
    forall|i: int| 0 <= i < s.len() ==> is_hex_digit(#[trigger] s[i])
}

/// A phone number in international form: `+` and then digits only, ten
/// characters or more in all.
pub open spec fn phone_number_ok(s: Seq<char>) -> bool {
    s.len() >= 10 && s[0] == '+' && all_digits(s.skip(1))
}

/// A telephony account id: `AC` and then 32 hexadecimal digits.
pub open spec fn account_sid_ok(s: Seq<char>) -> bool {
    s.len() == 34 && s[0] == 'A' && s[1] == 'C' && all_hex_digits(s.skip(2))
}

/// A telephony auth token: 32 hexadecimal digits.
pub open spec fn auth_token_ok(s: Seq<char>) -> bool {
    s.len() == 32 && all_hex_digits(s)
}

fn digits_from(v: &Vec<char>, from: usize) -> (r: bool)
    requires
        from <= v.len(),
    ensures
        r == all_digits(v@.skip(from as int)),
{
    let mut i: usize = from;
    while i < v.len()
        invariant
            from <= i <= v.len(),
            forall|j: int| from <= j < i ==> '0' <= #[trigger] v@[j] <= '9',
        decreases v.len() - i,
    {
        if v[i] < '0' || v[i] > '9' {
            assert(v@.skip(from as int)[i - from] == v@[i as int]);
            return false;
        }
        i = i + 1;
    }
    assert forall|j: int| 0 <= j < v@.skip(from as int).len() implies '0' <= #[trigger] v@.skip(
        from as int,
    )[j] <= '9' by {
        assert(v@.skip(from as int)[j] == v@[from + j]);
    }
    true
}

fn hex_digit(c: char) -> (r: bool)
    ensures
        r == is_hex_digit(c),
{
    (c >= '0' && c <= '9') || (c >= 'a' && c <= 'f') || (c >= 'A' && c <= 'F')
}

fn hex_digits_from(v: &Vec<char>, from: usize) -> (r: bool)
    requires
        from <= v.len(),
    ensures
        r == all_hex_digits(v@.skip(from as int)),
{
    let mut i: usize = from;
    while i < v.len()
        invariant
            from <= i <= v.len(),
            forall|j: int| from <= j < i ==> is_hex_digit(#[trigger] v@[j]),
        decreases v.len() - i,
    {
        if !hex_digit(v[i]) {
            assert(v@.skip(from as int)[i - from] == v@[i as int]);
            return false;
        }
        i = i + 1;
    }
    assert forall|j: int| 0 <= j < v@.skip(from as int).len() implies is_hex_digit(
        #[trigger] v@.skip(from as int)[j],
    ) by {
        assert(v@.skip(from as int)[j] == v@[from + j]);
    }
    true
}

/// Whether `value` may be saved as the user's own phone number.
pub fn is_phone_valid(value: &str) -> (r: bool)
    ensures
        r == phone_number_ok(value@),
{
    let v = chars_of(value);
    v.len() >= 10 && v[0] == '+' && digits_from(&v, 1)
}

/// Whether `value` may be saved as a telephony account id.
pub fn is_sid_valid(value: &str) -> (r: bool)
    ensures
        r == account_sid_ok(value@),
{
    let v = chars_of(value);
    v.len() == 34 && v[0] == 'A' && v[1] == 'C' && hex_digits_from(&v, 2)
}

/// Whether `value` may be saved as a telephony auth token.
pub fn is_token_valid(value: &str) -> (r: bool)
    ensures
        r == auth_token_ok(value@),
{
    let v = chars_of(value);
    assert(v@.skip(0) == v@);
    v.len() == 32 && hex_digits_from(&v, 0)
}

} // verus!
