//! Text building blocks: decimal numerals and the few fixed line shapes.

use vstd::prelude::*;

verus! {

/// The numeral of a single digit.
pub open spec fn digit(d: int) -> char
    recommends
        0 <= d < 10,
{
    if d == 0 {
        '0'
    } else if d == 1 {
        '1'
    } else if d == 2 {
        '2'
    } else if d == 3 {
        '3'
    } else if d == 4 {
        '4'
    } else if d == 5 {
        '5'
    } else if d == 6 {
        '6'
    } else if d == 7 {
        '7'
    } else if d == 8 {
        '8'
    } else {
        '9'
    }
}

/// The decimal numeral of `n`: most significant digit first, no leading zero,
/// and `"0"` for zero.
pub open spec fn decimal(n: nat) -> Seq<char>
    decreases n,
{
    if n < 10 {
        seq![digit(n as int)]
    } else {
        decimal(n / 10).push(digit((n % 10) as int))
    }
}

/// The number that a digit's numeral stands for; `0` for any other character.
pub open spec fn digit_value(c: char) -> nat {
    if c == '1' {
        1
    } else if c == '2' {
        2
    } else if c == '3' {
        3
    } else if c == '4' {
        4
    } else if c == '5' {
        5
    } else if c == '6' {
        6
    } else if c == '7' {
        7
    } else if c == '8' {
        8
    } else if c == '9' {
        9
    } else {
        0
    }
}

/// Whether `c` is one of the ten digits.
pub open spec fn is_digit(c: char) -> bool {
    c == '0' || digit_value(c) > 0
}

/// The number that a run of digits stands for, read as a decimal numeral.
pub open spec fn numeral_value(text: Seq<char>) -> nat
    decreases text.len(),
{
    if text.len() == 0 {
        0
    } else {
        numeral_value(text.drop_last()) * 10 + digit_value(text.last())
    }
}

/// `label: value`
pub open spec fn labelled(label: Seq<char>, value: Seq<char>) -> Seq<char> {
    label + seq![':', ' '] + value
}

/// `label: value unit`
pub open spec fn rated(label: Seq<char>, value: Seq<char>, unit: Seq<char>) -> Seq<char> {
    label + seq![':', ' '] + value + seq![' '] + unit
}

/// `head - tail`, or `head` alone when there is no tail.
pub open spec fn joined(head: Seq<char>, tail: Seq<char>) -> Seq<char> {
    if tail.len() == 0 {
        head
    } else {
        head + seq![' ', '-', ' '] + tail
    }
}

/// The one-character text of a digit.
fn digit_text(d: u64) -> (text: &'static str)
    requires
        d < 10,
    ensures
        text@ == seq![digit(d as int)],
{
    proof {
        reveal_strlit("0");
        reveal_strlit("1");
        reveal_strlit("2");
        reveal_strlit("3");
        reveal_strlit("4");
        reveal_strlit("5");
        reveal_strlit("6");
        reveal_strlit("7");
        reveal_strlit("8");
        reveal_strlit("9");
    }
    let text = if d == 0 {
        "0"
    } else if d == 1 {
        "1"
    } else if d == 2 {
        "2"
    } else if d == 3 {
        "3"
    } else if d == 4 {
        "4"
    } else if d == 5 {
        "5"
    } else if d == 6 {
        "6"
    } else if d == 7 {
        "7"
    } else if d == 8 {
        "8"
    } else {
        "9"
    };
    assert(text@ =~= seq![digit(d as int)]);
    text
}

/// Appends the decimal numeral of `n` to `text`.
pub fn push_decimal(text: &mut String, n: u64)
    ensures
        final(text)@ == old(text)@ + decimal(n as nat),
    decreases n,
{
    if n >= 10 {
        push_decimal(text, n / 10);
    }
    text.append(digit_text(n % 10));
    assert(text@ =~= old(text)@ + decimal(n as nat));
}

/// The decimal numeral of `n`.
pub fn decimal_string(n: u64) -> (text: String)
    ensures
        text@ == decimal(n as nat),
{
    let mut text = String::new();
    push_decimal(&mut text, n);
    assert(text@ =~= decimal(n as nat));
    text
}

/// Builds `label: value`.
pub fn labelled_string(label: &str, value: &str) -> (text: String)
    ensures
        text@ == labelled(label@, value@),
{
    proof {
        reveal_strlit(": ");
    }
    let mut text = String::from_str(label);
    text.append(": ");
    text.append(value);
    assert(": "@ =~= seq![':', ' ']);
    text
}

/// Builds `label: value unit`.
pub fn rated_string(label: &str, value: &str, unit: &str) -> (text: String)
    ensures
        text@ == rated(label@, value@, unit@),
{
    proof {
        reveal_strlit(" ");
    }
    let mut text = labelled_string(label, value);
    text.append(" ");
    text.append(unit);
    assert(" "@ =~= seq![' ']);
    text
}

/// Builds `head - tail`, or `head` alone when `tail` is empty.
pub fn joined_string(head: &str, tail: &str) -> (text: String)
    ensures
        text@ == joined(head@, tail@),
{
    proof {
        reveal_strlit(" - ");
    }
    let mut text = String::from_str(head);
    if !tail.is_empty() {
        text.append(" - ");
        text.append(tail);
        assert(" - "@ =~= seq![' ', '-', ' ']);
    }
    text
}

} // verus!
