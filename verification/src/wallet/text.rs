//! Text of numbers and bytes, for error messages.

use vstd::prelude::*;
use vstd::string::StringExecFns;

verus! {

/// The decimal numeral of `n`, without leading zeros.
pub open spec fn decimal(n: nat) -> Seq<char>
    decreases n,
{
    if n < 10 {
        seq![(48 + n) as char]
    } else {
        decimal(n / 10).push((48 + n % 10) as char)
    }
}

/// The lower-case hexadecimal digit of a value below sixteen.
pub open spec fn hex_digit(n: int) -> char {
    if n < 10 {
        (48 + n) as char
    } else {
        (87 + n) as char
    }
}

/// Two lower-case hexadecimal digits per byte, the high half first.
pub open spec fn hex_text(bytes: Seq<u8>) -> Seq<char> {
    Seq::new(
        2 * bytes.len(),
        |i: int|
            if i % 2 == 0 {
                hex_digit(bytes[i / 2] as int / 16)
            } else {
                hex_digit(bytes[i / 2] as int % 16)
            },
    )
}

/// `hex::encode`: the bytes as lower-case hexadecimal digits, two for each
/// byte, the high half of the byte first.
#[verifier::external_body]
pub(crate) fn hex_encode(bytes: &[u8]) -> (text: String)
    ensures
        text@ == hex_text(bytes@),
{
    hex::encode(bytes)
}

fn digit_text(n: u32) -> (text: &'static str)
    requires
        n < 10,
    ensures
        text@ == seq![(48 + n) as char],
{
    proof {
        reveal_strlit("0");
        reveal_strlit("1");
        reveal_strlit("2");
        reveal_strlit("3");
        reveal_strlit("4");
        reveal_strlit("5");
        reveal_strlit("6");
        reveal_strlit("7");
        reveal_strlit("8");
        reveal_strlit("9");
    }
    let text: &'static str = match n {
        0 => "0",
        1 => "1",
        2 => "2",
        3 => "3",
        4 => "4",
        5 => "5",
        6 => "6",
        7 => "7",
        8 => "8",
        _ => "9",
    };
    text
}

/// The decimal numeral of `n`.
pub fn decimal_text(n: u32) -> (text: String)
    ensures
        text@ == decimal(n as nat),
    decreases n,
{
    if n < 10 {
        digit_text(n).to_string()
    } else {
        let mut text: String = decimal_text(n / 10);
        text.append(digit_text(n % 10));
        text
    }
}

/// `before`, then the decimal numeral of `n`, then `after`.
pub fn numbered_text(before: &str, n: u32, after: &str) -> (text: String)
    ensures
        text@ == before@ + decimal(n as nat) + after@,
{
    let mut text: String = before.to_string();
    text.append(decimal_text(n).as_str());
    text.append(after);
    text
}

/// `before`, then `after`.
pub fn joined_text(before: &str, after: &str) -> (text: String)
    ensures
        text@ == before@ + after@,
{
    let mut text: String = before.to_string();
    text.append(after);
    text
}

/// The number that a character stands for as a digit: 0 to 9, then a to f.
pub open spec fn hex_value(digit: char) -> int {
    if '0' <= digit && digit <= '9' {
        digit as int - '0' as int
    } else if 'a' <= digit && digit <= 'f' {
        digit as int - 'a' as int + 10
    } else {
        -1
    }
}

/// Reading the digits two by two gives the bytes back, and every character is
/// a digit or one of the letters a to f.
pub proof fn law_hex_text_spells_the_bytes(bytes: Seq<u8>)
    ensures
        hex_text(bytes).len() == 2 * bytes.len(),
        forall|i: int|
            0 <= i < bytes.len() ==> #[trigger] bytes[i] == 16 * hex_value(hex_text(bytes)[2 * i])
                + hex_value(hex_text(bytes)[2 * i + 1]),
        forall|i: int|
            0 <= i < hex_text(bytes).len() ==> 0 <= hex_value(#[trigger] hex_text(bytes)[i]) < 16,
{
    assert forall|i: int| 0 <= i < bytes.len() implies #[trigger] bytes[i] == 16 * hex_value(
        hex_text(bytes)[2 * i],
    ) + hex_value(hex_text(bytes)[2 * i + 1]) by {
        assert((2 * i) / 2 == i && (2 * i + 1) / 2 == i);
    }
}

/// The number that decimal digits spell.
pub open spec fn numeral_value(digits: Seq<char>) -> int
    decreases digits.len(),
{
    if digits.len() == 0 {
        0
    } else {
        10 * numeral_value(digits.drop_last()) + (digits.last() as int - '0' as int)
    }
}

/// A decimal numeral spells its number, in decimal digits alone, and without a
/// leading zero.
pub proof fn law_decimal_spells_the_number(n: nat)
    ensures
        numeral_value(decimal(n)) == n,
        decimal(n).len() > 0,
        forall|i: int| 0 <= i < decimal(n).len() ==> '0' <= #[trigger] decimal(n)[i] <= '9',
        decimal(n)[0] == '0' ==> decimal(n).len() == 1,
        n > 0 ==> decimal(n)[0] != '0',
    decreases n,
{
    reveal_with_fuel(numeral_value, 2);
    if n >= 10 {
        law_decimal_spells_the_number(n / 10);
        assert(decimal(n).drop_last() =~= decimal(n / 10));
    }
}

/// The texts that the functions themselves return: a number is spelled in its
/// decimal digits, and the parts stand one after the other.
pub proof fn law_texts_are_put_together(
    n: u32,
    before: &str,
    after: &str,
    numeral: String,
    numbered: String,
    joined: String,
)
    requires
        call_ensures(decimal_text, (n,), numeral),
        call_ensures(numbered_text, (before, n, after), numbered),
        call_ensures(joined_text, (before, after), joined),
    ensures
        numeral_value(numeral@) == n,
        n > 0 ==> numeral@[0] != '0',
        n == 0 ==> numeral@.len() == 1,
        forall|i: int| 0 <= i < numeral@.len() ==> '0' <= #[trigger] numeral@[i] <= '9',
        numbered@ == before@ + numeral@ + after@,
        joined@ == before@ + after@,
{
    law_decimal_spells_the_number(n as nat);
}

} // verus!
