use moonshine::le::{
    read_i16, read_u16, read_u32, write_i32, write_u16, write_u32, write_zeros,
};
use moonshine::text::{copied, decimal, digit_text, hexadecimal, joined, split_once};

#[test]
fn words_round_trip() {
    for word in [0u16, 1, 0xff, 0x100, 0x8000, 0xffff] {
        let mut bytes = Vec::new();
        write_u16(&mut bytes, word);
        assert_eq!(bytes, word.to_le_bytes());
        assert_eq!(read_u16(&bytes, 0), word);
        assert_eq!(read_i16(&bytes, 0), word as i16);
    }
    for word in [0u32, 1, 0x1_0000, 0x8000_0000, 0xffff_ffff, 0x1234_5678] {
        let mut bytes = vec![9u8];
        write_u32(&mut bytes, word);
        assert_eq!(bytes[1..], word.to_le_bytes());
        assert_eq!(read_u32(&bytes, 1), word);
    }
    for value in [0i32, 1, -1, i32::MIN, i32::MAX, -32768] {
        let mut bytes = Vec::new();
        write_i32(&mut bytes, value);
        assert_eq!(bytes, value.to_le_bytes());
    }
}

#[test]
fn zeros_are_appended() {
    let mut bytes = vec![1u8];
    write_zeros(&mut bytes, 3);
    assert_eq!(bytes, vec![1, 0, 0, 0]);
    write_zeros(&mut bytes, 0);
    assert_eq!(bytes.len(), 4);
}

#[test]
fn numbers_are_written_out() {
    for number in [0u32, 7, 9, 10, 15, 16, 99, 100, 255, 256, 4096, u32::MAX] {
        assert_eq!(decimal(number as u64), format!("{number}"));
        assert_eq!(hexadecimal(number), format!("{number:x}"));
    }
    assert_eq!(decimal(u64::MAX), "18446744073709551615");
    assert_eq!(digit_text(0), "0");
    assert_eq!(digit_text(15), "f");
}

#[test]
fn texts_are_joined() {
    assert_eq!(joined("", ""), "");
    assert_eq!(joined("a", "bc"), "abc");
}

#[test]
fn texts_are_split_at_the_first() {
    for text in ["", "=", "a=b", "a=b=c", "none", "é=ü=x", "=x", "x="] {
        assert_eq!(split_once(text, '='), text.split_once('='), "{text}");
    }
}

#[test]
fn splitting_undoes_joining() {
    for (before, after) in [("", ""), ("NAME", "value"), ("NAME", "a=b"), ("", "=")] {
        let text = joined(&joined(before, "="), after);
        assert_eq!(split_once(&text, '='), Some((before, after)));
    }
}

#[test]
fn lists_are_copied() {
    let list = vec!["a".to_string(), String::new()];
    assert_eq!(copied(&list), list);
    assert_eq!(copied(&[]), Vec::<String>::new());
}
