use immeta::bytes::stands_at;
use immeta::types::Error;
use immeta::text::{push_debug_bytes, push_decimal};

fn decimal(n: u8) -> String {
    let mut s = String::new();
    push_decimal(&mut s, n);
    s
}

fn debug(bytes: &[u8]) -> String {
    let mut s = String::new();
    push_debug_bytes(&mut s, bytes);
    s
}

#[test]
fn decimal_of_every_byte() {
    for n in 0..=255u8 {
        assert_eq!(decimal(n), format!("{}", n));
    }
    assert_eq!(decimal(0), "0");
    assert_eq!(decimal(9), "9");
    assert_eq!(decimal(10), "10");
    assert_eq!(decimal(99), "99");
    assert_eq!(decimal(100), "100");
    assert_eq!(decimal(105), "105");
    assert_eq!(decimal(255), "255");
}

#[test]
fn decimal_is_appended() {
    let mut s = String::from("n = ");
    push_decimal(&mut s, 42);
    push_decimal(&mut s, 7);
    assert_eq!(s, "n = 427");
}

#[test]
fn byte_lists() {
    assert_eq!(debug(&[]), "[]");
    assert_eq!(debug(&[0]), "[0]");
    assert_eq!(debug(&[1, 20, 255]), "[1, 20, 255]");
    assert_eq!(debug(b"\x89PNG"), format!("{:?}", b"\x89PNG"));
    let mut s = String::from("got ");
    push_debug_bytes(&mut s, &[7, 8]);
    assert_eq!(s, "got [7, 8]");
}

#[test]
fn bytes_stand_at_a_position() {
    assert!(stands_at(b"hello world", 6, b"world"));
    assert!(stands_at(b"hello world", 0, b"hello"));
    assert!(stands_at(b"hello world", 3, b""));
    assert!(stands_at(b"hello world", 11, b""));
    assert!(!stands_at(b"hello world", 5, b"world"));
    assert!(!stands_at(b"hello world", 6, b"worle"));
    assert!(!stands_at(b"hello world", 0, b"jello"));
}

#[test]
fn error_constructors() {
    assert_eq!(Error::invalid_format("bad"), Error::InvalidFormat("bad".to_string()));
    assert_eq!(
        Error::unexpected_eof("when reading"),
        Error::UnexpectedEndOfFile(Some("when reading".to_string()))
    );
}
