use vstd::prelude::*;
use vstd::string::*;

pub mod chars;
pub mod scan;
pub mod strings;
pub mod tables;

verus! {

/// The character of a digit, upper case for the digits above 9.
pub open spec fn spec_digit_char(digit: int) -> char {
    if digit == 0 {
        '0'
    } else if digit == 1 {
        '1'
    } else if digit == 2 {
        '2'
    } else if digit == 3 {
        '3'
    } else if digit == 4 {
        '4'
    } else if digit == 5 {
        '5'
    } else if digit == 6 {
        '6'
    } else if digit == 7 {
        '7'
    } else if digit == 8 {
        '8'
    } else if digit == 9 {
        '9'
    } else if digit == 10 {
        'A'
    } else if digit == 11 {
        'B'
    } else if digit == 12 {
        'C'
    } else if digit == 13 {
        'D'
    } else if digit == 14 {
        'E'
    } else {
        'F'
    }
}

/// The digits of a number, in radix 16 or in radix 10, most significant first,
/// without leading zeros; a single `0` for zero.
pub open spec fn spec_digits(value: nat, hex: bool) -> Seq<char>
    decreases value,
{
    if hex {
        if value < 16 {
            seq![spec_digit_char(value as int)]
        } else {
            spec_digits(value / 16, hex).push(spec_digit_char((value % 16) as int))
        }
    } else {
        if value < 10 {
            seq![spec_digit_char(value as int)]
        } else {
            spec_digits(value / 10, hex).push(spec_digit_char((value % 10) as int))
        }
    }
}

/// A number in upper-case hexadecimal digits.
pub open spec fn spec_hex_upper(value: nat) -> Seq<char> {
    spec_digits(value, true)
}

/// A number in decimal digits.
pub open spec fn spec_decimal(value: nat) -> Seq<char> {
    spec_digits(value, false)
}

/// A number in decimal digits, with `-` before a negative one.
pub open spec fn spec_signed_decimal(value: int) -> Seq<char> {
    if value < 0 {
        seq!['-'] + spec_decimal((-value) as nat)
    } else {
        spec_decimal(value as nat)
    }
}

/// The bit pattern of a 128-bit signed number in upper-case hexadecimal
/// digits, after `0x`: a negative number by its two's complement.
pub open spec fn spec_prefixed_hex_i128(value: i128) -> Seq<char> {
    seq!['0', 'x'] + spec_hex_upper(
        (if value < 0 {
            value + 0x1_0000_0000_0000_0000_0000_0000_0000_0000
        } else {
            value as int
        }) as nat,
    )
}

/// A number in upper-case hexadecimal digits, after `0x`.
pub open spec fn spec_prefixed_hex_u64(value: u64) -> Seq<char> {
    seq!['0', 'x'] + spec_hex_upper(value as nat)
}

/// A run of zeros.
pub open spec fn spec_zeros(count: nat) -> Seq<char> {
    Seq::new(count, |i: int| '0')
}

/// A text with zeros before it, as many as it takes to reach a width; a text
/// of that width or more is left as it is.
pub open spec fn spec_zero_padded(text: Seq<char>, width: nat) -> Seq<char> {
    if text.len() >= width {
        text
    } else {
        spec_zeros((width - text.len()) as nat) + text
    }
}

fn digit_text(digit: u8) -> (text: &'static str)
    requires
        digit < 16,
    ensures
        text@ == seq![spec_digit_char(digit as int)],
{
    proof {
        reveal_strlit("0");
        reveal_strlit("1");
        reveal_strlit("2");
        reveal_strlit("3");
        reveal_strlit("4");
        reveal_strlit("5");
        reveal_strlit("6");
        reveal_strlit("7");
        reveal_strlit("8");
        reveal_strlit("9");
        reveal_strlit("A");
        reveal_strlit("B");
        reveal_strlit("C");
        reveal_strlit("D");
        reveal_strlit("E");
        reveal_strlit("F");
        assert("0"@ =~= seq!['0']);
        assert("1"@ =~= seq!['1']);
        assert("2"@ =~= seq!['2']);
        assert("3"@ =~= seq!['3']);
        assert("4"@ =~= seq!['4']);
        assert("5"@ =~= seq!['5']);
        assert("6"@ =~= seq!['6']);
        assert("7"@ =~= seq!['7']);
        assert("8"@ =~= seq!['8']);
        assert("9"@ =~= seq!['9']);
        assert("A"@ =~= seq!['A']);
        assert("B"@ =~= seq!['B']);
        assert("C"@ =~= seq!['C']);
        assert("D"@ =~= seq!['D']);
        assert("E"@ =~= seq!['E']);
        assert("F"@ =~= seq!['F']);
    }
    match digit {
        0 => "0",
        1 => "1",
        2 => "2",
        3 => "3",
        4 => "4",
        5 => "5",
        6 => "6",
        7 => "7",
        8 => "8",
        9 => "9",
        10 => "A",
        11 => "B",
        12 => "C",
        13 => "D",
        14 => "E",
        _ => "F",
    }
}

/// Writes a number in radix 16 or in radix 10.
pub fn digits(value: u128, hex: bool) -> (text: String)
    ensures
        text@ == spec_digits(value as nat, hex),
    decreases value,
{
    let radix: u128 = if hex {
        16
    } else {
        10
    };
    if value < radix {
        String::from_str(digit_text(value as u8))
    } else {
        let mut text = digits(value / radix, hex);
        text.append(digit_text((value % radix) as u8));
        proof {
            let head = spec_digits((value / radix) as nat, hex);
            let last = spec_digit_char((value % radix) as int);
            assert(head + seq![last] =~= head.push(last));
        }
        text
    }
}

/// Writes a number in upper-case hexadecimal digits.
pub fn hex_upper(value: u128) -> (text: String)
    ensures
        text@ == spec_hex_upper(value as nat),
{
    digits(value, true)
}

/// Writes a number in decimal digits.
pub fn decimal(value: u128) -> (text: String)
    ensures
        text@ == spec_decimal(value as nat),
{
    digits(value, false)
}

/// Writes a number in decimal digits, with `-` before a negative one.
pub fn signed_decimal(value: i128) -> (text: String)
    ensures
        text@ == spec_signed_decimal(value as int),
{
    if value < 0 {
        proof {
            reveal_strlit("-");
            assert("-"@ =~= seq!['-']);
        }
        let magnitude: u128 = if value == i128::MIN {
            0x8000_0000_0000_0000_0000_0000_0000_0000
        } else {
            (-value) as u128
        };
        let mut text = String::from_str("-");
        text.append(decimal(magnitude).as_str());
        text
    } else {
        decimal(value as u128)
    }
}

/// Writes the bit pattern of a signed number in hexadecimal digits after `0x`.
pub fn prefixed_hex_i128(value: i128) -> (text: String)
    ensures
        text@ == spec_prefixed_hex_i128(value),
{
    proof {
        reveal_strlit("0x");
        assert("0x"@ =~= seq!['0', 'x']);
    }
    let pattern: u128 = if value < 0 {
        (value - i128::MIN) as u128 + 0x8000_0000_0000_0000_0000_0000_0000_0000
    } else {
        value as u128
    };
    let mut text = String::from_str("0x");
    text.append(hex_upper(pattern).as_str());
    text
}

/// Writes a number in hexadecimal digits after `0x`.
pub fn prefixed_hex_u64(value: u64) -> (text: String)
    ensures
        text@ == spec_prefixed_hex_u64(value),
{
    proof {
        reveal_strlit("0x");
        assert("0x"@ =~= seq!['0', 'x']);
    }
    let mut text = String::from_str("0x");
    text.append(hex_upper(value as u128).as_str());
    text
}

/// Puts zeros before a text until it is `width` characters long.
pub fn zero_padded(text: &str, width: usize) -> (padded: String)
    ensures
        padded@ == spec_zero_padded(text@, width as nat),
{
    proof {
        reveal_strlit("0");
        assert("0"@ =~= seq!['0']);
    }
    let len = text.unicode_len();
    let mut padded = String::new();
    if len < width {
        let missing = width - len;
        let mut i: usize = 0;
        assert(padded@ =~= spec_zeros(0));
        while i < missing
            invariant
                i <= missing,
                padded@ == spec_zeros(i as nat),
                "0"@ == seq!['0'],
            decreases missing - i,
        {
            padded.append("0");
            assert(padded@ =~= spec_zeros((i + 1) as nat));
            i = i + 1;
        }
        padded.append(text);
        padded
    } else {
        padded.append(text);
        assert(padded@ =~= text@);
        padded
    }
}

} // verus!
