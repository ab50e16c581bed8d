//! Decimal rendering of counters for display text.

use vstd::prelude::*;

verus! {

/// The digit character for one decimal digit.
pub open spec fn digit_char_spec(d: int) -> char {
    if d == 0 {
        '0'
    } else if d == 1 {
        '1'
    } else if d == 2 {
        '2'
    } else if d == 3 {
        '3'
    } else if d == 4 {
        '4'
    } else if d == 5 {
        '5'
    } else if d == 6 {
        '6'
    } else if d == 7 {
        '7'
    } else if d == 8 {
        '8'
    } else {
        '9'
    }
}

/// The decimal digit string of a number, most significant digit first.
pub open spec fn dec_str_spec(n: nat) -> Seq<char>
    decreases n,
{
    if n < 10 {
        seq![digit_char_spec(n as int)]
    } else {
        dec_str_spec(n / 10).push(digit_char_spec((n % 10) as int))
    }
}

/// The one-character string of one decimal digit.
fn digit_str(d: u64) -> (r: &'static str)
    requires
        d < 10,
    ensures
        r@ == seq![digit_char_spec(d as int)],
{
    let r: &str = if d == 0 {
        "0"
    } else if d == 1 {
        "1"
    } else if d == 2 {
        "2"
    } else if d == 3 {
        "3"
    } else if d == 4 {
        "4"
    } else if d == 5 {
        "5"
    } else if d == 6 {
        "6"
    } else if d == 7 {
        "7"
    } else if d == 8 {
        "8"
    } else {
        "9"
    };
    proof {
        reveal_strlit("0");
        reveal_strlit("1");
        reveal_strlit("2");
        reveal_strlit("3");
        reveal_strlit("4");
        reveal_strlit("5");
        reveal_strlit("6");
        reveal_strlit("7");
        reveal_strlit("8");
        reveal_strlit("9");
        assert(r@ =~= seq![digit_char_spec(d as int)]);
    }
    r
}

/// Renders an unsigned integer as its decimal digits, most significant
/// first, with no sign and no leading zeros.
pub fn u64_text(n: u64) -> (r: String)
    ensures
        r@ == dec_str_spec(n as nat),
    decreases n,
{
    if n < 10 {
        String::from_str(digit_str(n))
    } else {
        let mut s = u64_text(n / 10);
        s.append(digit_str(n % 10));
        proof {
            assert(dec_str_spec((n / 10) as nat) + seq![digit_char_spec((n % 10) as int)]
                =~= dec_str_spec((n / 10) as nat).push(digit_char_spec((n % 10) as int)));
        }
        s
    }
}

/// [`u64_text`] on the narrow counters.
pub fn u32_text(n: u32) -> (r: String)
    ensures
        r@ == dec_str_spec(n as nat),
{
    u64_text(n as u64)
}

/// One `[label, value-with-unit]` row of a property table.
pub fn property_row(label: &str, value: u64, unit: &str) -> (r: Vec<String>)
    ensures
        r@.len() == 2,
        r@[0]@ == label@,
        r@[1]@ == dec_str_spec(value as nat) + unit@,
{
    let mut row: Vec<String> = Vec::new();
    row.push(String::from_str(label));
    let mut text = u64_text(value);
    text.append(unit);
    row.push(text);
    row
}

} // verus!
