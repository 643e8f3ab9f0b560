//! Building text: characters, decimal and hexadecimal numerals.
use vstd::prelude::*;

verus! {

/// `String::push` appends the given character at the end of the string.
pub assume_specification[ std::string::String::push ](s: &mut std::string::String, c: char)
    ensures
        final(s)@ == old(s)@.push(c),
;

/// The decimal digit for `d`, a number below ten.
pub open spec fn digit_char(d: int) -> char {
    if d == 0 {
        '0'
    } else if d == 1 {
        '1'
    } else if d == 2 {
        '2'
    } else if d == 3 {
        '3'
    } else if d == 4 {
        '4'
    } else if d == 5 {
        '5'
    } else if d == 6 {
        '6'
    } else if d == 7 {
        '7'
    } else if d == 8 {
        '8'
    } else {
        '9'
    }
}

/// The decimal numeral of `n`, without leading zeros; `"0"` for zero.
pub open spec fn decimal(n: nat) -> Seq<char>
    decreases n,
{
    if n < 10 {
        seq![digit_char(n as int)]
    } else {
        decimal(n / 10).push(digit_char((n % 10) as int))
    }
}

/// The hexadecimal digit for `d`, a number below sixteen, in lower case.
pub open spec fn hex_digit_char(d: int) -> char {
    if d < 10 {
        digit_char(d)
    } else if d == 10 {
        'a'
    } else if d == 11 {
        'b'
    } else if d == 12 {
        'c'
    } else if d == 13 {
        'd'
    } else if d == 14 {
        'e'
    } else {
        'f'
    }
}

/// The lower-case hexadecimal numeral of `n`, without leading zeros.
pub open spec fn hexadecimal(n: nat) -> Seq<char>
    decreases n,
{
    if n < 16 {
        seq![hex_digit_char(n as int)]
    } else {
        hexadecimal(n / 16).push(hex_digit_char((n % 16) as int))
    }
}

/// The decimal numeral of a signed number: a minus sign before the numeral
/// of its magnitude when it is negative.
pub open spec fn signed_decimal(n: int) -> Seq<char> {
    if n < 0 {
        seq!['-'] + decimal((-n) as nat)
    } else {
        decimal(n as nat)
    }
}

/// `count` spaces.
pub open spec fn spaces(count: nat) -> Seq<char> {
    Seq::new(count, |i: int| ' ')
}

/// `text` right-aligned in a field of `width` characters: padded with spaces
/// on the left, and unchanged when it is already that long.
pub open spec fn pad_left(text: Seq<char>, width: nat) -> Seq<char> {
    if text.len() >= width {
        text
    } else {
        spaces((width - text.len()) as nat) + text
    }
}

/// The characters of `text`.
pub fn to_chars(text: &str) -> (chars: Vec<char>)
    ensures
        chars@ == text@,
{
    broadcast use vstd::string::group_string_axioms;

    let mut chars: Vec<char> = Vec::new();
    for c in it: text.chars()
        invariant
            it.seq() == text@,
            chars@ == it.seq().subrange(0, it.index() as int),
    {
        chars.push(c);
        proof {
            assert(it.seq().subrange(0, it.index() + 1) == it.seq().subrange(
                0,
                it.index() as int,
            ).push(c));
        }
    }
    proof {
        assert(chars@ == text@);
    }
    chars
}

/// The character of a decimal digit.
pub fn digit_to_char(d: u8) -> (c: char)
    requires
        d < 10,
    ensures
        c == digit_char(d as int),
{
    if d == 0 {
        '0'
    } else if d == 1 {
        '1'
    } else if d == 2 {
        '2'
    } else if d == 3 {
        '3'
    } else if d == 4 {
        '4'
    } else if d == 5 {
        '5'
    } else if d == 6 {
        '6'
    } else if d == 7 {
        '7'
    } else if d == 8 {
        '8'
    } else {
        '9'
    }
}

/// The character of a hexadecimal digit.
pub fn hex_digit_to_char(d: u8) -> (c: char)
    requires
        d < 16,
    ensures
        c == hex_digit_char(d as int),
{
    if d < 10 {
        digit_to_char(d)
    } else if d == 10 {
        'a'
    } else if d == 11 {
        'b'
    } else if d == 12 {
        'c'
    } else if d == 13 {
        'd'
    } else if d == 14 {
        'e'
    } else {
        'f'
    }
}

/// Appends every character of `chars` to `out`.
pub fn push_chars(out: &mut String, chars: &Vec<char>)
    ensures
        final(out)@ == old(out)@ + chars@,
{
    let mut i: usize = 0;
    while i < chars.len()
        invariant
            i <= chars.len(),
            out@ == old(out)@ + chars@.subrange(0, i as int),
        decreases chars.len() - i,
    {
        out.push(chars[i]);
        proof {
            assert(chars@.subrange(0, i + 1) == chars@.subrange(0, i as int).push(chars@[i as int]));
        }
        i += 1;
    }
    proof {
        assert(chars@.subrange(0, chars.len() as int) == chars@);
    }
}

/// The digits of `n` in the given base, most significant first.
fn digits_of(n: u64, hex: bool) -> (digits: Vec<char>)
    ensures
        digits@ == if hex {
            hexadecimal(n as nat)
        } else {
            decimal(n as nat)
        },
    decreases n,
{
    let base: u64 = if hex { 16 } else { 10 };
    if n < base {
        let mut digits: Vec<char> = Vec::new();
        digits.push(if hex { hex_digit_to_char(n as u8) } else { digit_to_char(n as u8) });
        digits
    } else {
        let mut digits = digits_of(n / base, hex);
        let last: u8 = (n % base) as u8;
        digits.push(if hex { hex_digit_to_char(last) } else { digit_to_char(last) });
        digits
    }
}

/// Appends the decimal numeral of `n` to `out`.
pub fn push_decimal(out: &mut String, n: u64)
    ensures
        final(out)@ == old(out)@ + decimal(n as nat),
{
    let digits = digits_of(n, false);
    push_chars(out, &digits);
}

/// Appends the lower-case hexadecimal numeral of `n` to `out`.
pub fn push_hexadecimal(out: &mut String, n: u64)
    ensures
        final(out)@ == old(out)@ + hexadecimal(n as nat),
{
    let digits = digits_of(n, true);
    push_chars(out, &digits);
}

/// Appends the decimal numeral of the signed number `n` to `out`.
pub fn push_signed_decimal(out: &mut String, n: i64)
    ensures
        final(out)@ == old(out)@ + signed_decimal(n as int),
{
    if n < 0 {
        out.push('-');
        let magnitude: u64 = if n == i64::MIN {
            0x8000_0000_0000_0000u64
        } else {
            (-n) as u64
        };
        push_decimal(out, magnitude);
    } else {
        push_decimal(out, n as u64);
    }
}

/// Appends the decimal numeral of `n` to `out`, right-aligned in a field of
/// `width` characters.
pub fn push_decimal_padded(out: &mut String, n: u64, width: usize)
    ensures
        final(out)@ == old(out)@ + pad_left(decimal(n as nat), width as nat),
{
    let digits = digits_of(n, false);
    let mut k: usize = digits.len();
    while k < width
        invariant
            digits.len() <= k,
            k <= width || k == digits.len(),
            out@ == old(out)@ + spaces((k - digits.len()) as nat),
        decreases width - k,
    {
        out.push(' ');
        proof {
            assert(spaces((k + 1 - digits.len()) as nat) == spaces((k - digits.len()) as nat).push(' '));
        }
        k += 1;
    }
    proof {
        if digits.len() >= width {
            assert(spaces(0) == Seq::<char>::empty());
            assert(old(out)@ + spaces(0) == old(out)@);
            assert(out@ + digits@ == old(out)@ + digits@);
        } else {
            assert(old(out)@ + spaces((width - digits.len()) as nat) + digits@ == old(out)@ + (spaces(
                (width - digits.len()) as nat,
            ) + digits@));
        }
    }
    push_chars(out, &digits);
}

} // verus!
