use dora::text::{
    digit_to_char, hex_digit_to_char, push_chars, push_decimal, push_decimal_padded,
    push_hexadecimal, push_signed_decimal, to_chars,
};

#[test]
fn test_push_decimal() {
    let mut s = String::from("n=");
    push_decimal(&mut s, 0);
    s.push(',');
    push_decimal(&mut s, 7);
    s.push(',');
    push_decimal(&mut s, 1234567890);
    s.push(',');
    push_decimal(&mut s, u64::MAX);
    assert_eq!("n=0,7,1234567890,18446744073709551615", s);
}

#[test]
fn test_push_hexadecimal() {
    let mut s = String::new();
    push_hexadecimal(&mut s, 0);
    s.push(' ');
    push_hexadecimal(&mut s, 255);
    s.push(' ');
    push_hexadecimal(&mut s, 0xdead_beef);
    s.push(' ');
    push_hexadecimal(&mut s, u64::MAX);
    assert_eq!(format!("{:x} {:x} {:x} {:x}", 0, 255, 0xdead_beefu32, u64::MAX), s);
}

#[test]
fn test_push_signed_decimal() {
    let mut s = String::new();
    push_signed_decimal(&mut s, -1);
    s.push(' ');
    push_signed_decimal(&mut s, 0);
    s.push(' ');
    push_signed_decimal(&mut s, 42);
    s.push(' ');
    push_signed_decimal(&mut s, i64::MIN);
    s.push(' ');
    push_signed_decimal(&mut s, i64::MAX);
    assert_eq!(format!("-1 0 42 {} {}", i64::MIN, i64::MAX), s);
}

#[test]
fn test_push_decimal_padded() {
    let mut s = String::new();
    push_decimal_padded(&mut s, 7, 3);
    s.push('|');
    push_decimal_padded(&mut s, 42, 3);
    s.push('|');
    push_decimal_padded(&mut s, 123, 3);
    s.push('|');
    push_decimal_padded(&mut s, 1234, 3);
    s.push('|');
    push_decimal_padded(&mut s, 5, 0);
    assert_eq!(format!("{:3}|{:3}|{:3}|{:3}|{}", 7, 42, 123, 1234, 5), s);
}

#[test]
fn test_digits() {
    assert_eq!('0', digit_to_char(0));
    assert_eq!('9', digit_to_char(9));
    assert_eq!('9', hex_digit_to_char(9));
    assert_eq!('a', hex_digit_to_char(10));
    assert_eq!('f', hex_digit_to_char(15));
}

#[test]
fn test_chars() {
    assert_eq!(vec!['a', 'ß', '→', 'z'], to_chars("aß→z"));
    assert_eq!(Vec::<char>::new(), to_chars(""));
    let mut s = String::from("x");
    push_chars(&mut s, &vec!['y', 'z']);
    assert_eq!("xyz", s);
}
