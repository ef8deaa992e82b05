use netdebug::hex::{chars_of, hex_decode, hex_digit_value, hex_encode, is_whitespace_char};

#[test]
fn decodes_plain_digits() {
    assert_eq!(hex_decode("48656c6c6f"), Some(vec![0x48, 0x65, 0x6c, 0x6c, 0x6f]));
    assert_eq!(hex_decode("48656c6c6f"), Some(b"Hello".to_vec()));
}

#[test]
fn decodes_with_lowercase_prefix() {
    assert_eq!(hex_decode("0xFF"), Some(vec![0xFF]));
}

#[test]
fn odd_digit_count_does_not_decode() {
    assert_eq!(hex_decode("abc"), None);
    assert_eq!(hex_decode("0xabc"), None);
    assert_eq!(hex_decode("f"), None);
}

#[test]
fn empty_and_blank_input_decode_to_nothing() {
    assert_eq!(hex_decode(""), Some(vec![]));
    assert_eq!(hex_decode("   \t\n"), Some(vec![]));
    assert_eq!(hex_decode("0x"), Some(vec![]));
    assert_eq!(hex_decode("  0x  "), Some(vec![]));
}

#[test]
fn whitespace_between_digits_is_ignored() {
    assert_eq!(hex_decode("de ad\tbe\nef"), Some(vec![0xde, 0xad, 0xbe, 0xef]));
    assert_eq!(hex_decode("  0x de ad "), Some(vec![0xde, 0xad]));
    assert_eq!(hex_decode("d e a d"), Some(vec![0xde, 0xad]));
    assert_eq!(hex_decode("12\u{3000}34\u{a0}"), Some(vec![0x12, 0x34]));
}

#[test]
fn one_prefix_of_either_case_is_removed() {
    assert_eq!(hex_decode("0x0a"), Some(vec![0x0a]));
    assert_eq!(hex_decode("0X0a"), Some(vec![0x0a]));
    assert_eq!(hex_decode("0XFF"), Some(vec![0xFF]));
    assert_eq!(hex_decode("  0X ff 00 "), Some(vec![0xff, 0x00]));
    assert_eq!(hex_decode("0X"), Some(vec![]));
    assert_eq!(hex_decode("0x00"), Some(vec![0x00]));
}

#[test]
fn a_second_prefix_does_not_decode() {
    assert_eq!(hex_decode("0x0XFF"), None);
    assert_eq!(hex_decode("0x0X0a"), None);
    assert_eq!(hex_decode("0X0x0a"), None);
    assert_eq!(hex_decode("0x0x0a"), None);
    assert_eq!(hex_decode("0X0X0a"), None);
    assert_eq!(hex_decode("0x 0X0a"), None);
}

#[test]
fn a_prefix_is_two_characters_side_by_side_at_the_front() {
    assert_eq!(hex_decode("0 x0a"), None);
    assert_eq!(hex_decode("x0a0"), None);
    assert_eq!(hex_decode("ff0x"), None);
    assert_eq!(hex_decode("0"), None);
    assert_eq!(hex_decode("0x0"), None);
}

#[test]
fn non_digits_do_not_decode() {
    assert_eq!(hex_decode("zz"), None);
    assert_eq!(hex_decode("0g"), None);
    assert_eq!(hex_decode("+f"), None);
    assert_eq!(hex_decode("-1"), None);
    assert_eq!(hex_decode("a\u{e9}1"), None);
    assert_eq!(hex_decode("\u{e9}"), None);
    assert_eq!(hex_decode("12,34"), None);
}

#[test]
fn digits_of_both_cases_have_their_value() {
    assert_eq!(hex_decode("0123456789abcdef"), Some(vec![0x01, 0x23, 0x45, 0x67, 0x89, 0xab, 0xcd, 0xef]));
    assert_eq!(hex_decode("ABCDEF"), Some(vec![0xab, 0xcd, 0xef]));
    assert_eq!(hex_decode("aB"), Some(vec![0xab]));
    assert_eq!(hex_decode("10"), Some(vec![16]));
    assert_eq!(hex_decode("01"), Some(vec![1]));
}

#[test]
fn digit_values_agree_with_the_standard_library() {
    let mut code: u32 = 0;
    while code <= 0x10FFFF {
        if let Some(c) = char::from_u32(code) {
            let expected = c.to_digit(16).map(|d| d as u8);
            assert_eq!(hex_digit_value(c), expected);
        }
        code += 1;
    }
}

#[test]
fn whitespace_agrees_with_the_standard_library() {
    let mut code: u32 = 0;
    while code <= 0x10FFFF {
        if let Some(c) = char::from_u32(code) {
            assert_eq!(is_whitespace_char(c), c.is_whitespace());
        }
        code += 1;
    }
}

#[test]
fn bytes_are_written_as_lowercase_digit_pairs() {
    assert_eq!(hex_encode(&[]), "");
    assert_eq!(hex_encode(&[0x00]), "00");
    assert_eq!(hex_encode(&[0x0f, 0xf0]), "0ff0");
    assert_eq!(hex_encode(&[0xde, 0xad, 0xbe, 0xef]), "deadbeef");
    assert_eq!(hex_encode(b"Hello"), "48656c6c6f");
}

#[test]
fn decoding_undoes_encoding() {
    let mut all: Vec<u8> = Vec::new();
    let mut b: u16 = 0;
    while b <= 255 {
        all.push(b as u8);
        b += 1;
    }
    assert_eq!(hex_decode(&hex_encode(&all)), Some(all.clone()));
    assert_eq!(hex_decode(&hex_encode(&[])), Some(vec![]));
    assert_eq!(hex_decode(&hex_encode(&[0x0a, 0x00, 0xff])), Some(vec![0x0a, 0x00, 0xff]));
}

#[test]
fn characters_of_a_text_come_in_order() {
    assert_eq!(chars_of(""), Vec::<char>::new());
    assert_eq!(chars_of("a\u{e9}\u{1F600}z"), vec!['a', '\u{e9}', '\u{1F600}', 'z']);
}
