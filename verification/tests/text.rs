use uart_remote::text;
use uart_remote::text::{decimal_text, hex_text, same_text};

#[test]
fn numbers_are_written_in_decimal() {
    for (n, text) in [
        (0, "0"),
        (7, "7"),
        (10, "10"),
        (115_200, "115200"),
        (1_000_000, "1000000"),
        (u64::MAX, "18446744073709551615"),
    ] {
        assert_eq!(decimal_text(n), text);
    }
}

#[test]
fn bytes_are_written_in_hexadecimal() {
    assert_eq!(hex_text(&[]), "");
    assert_eq!(hex_text(&[0x0a]), "0A");
    assert_eq!(hex_text(b"\x00hello\xff"), "00 68 65 6C 6C 6F FF");
}

#[test]
fn hexadecimal_tells_bytes_apart() {
    let inputs: [&[u8]; 6] = [b"", b"\x00", b"\x00\x00", b"\x0f", b"\xf0", b"\x00\x0f"];
    for (i, left) in inputs.iter().enumerate() {
        for (j, right) in inputs.iter().enumerate() {
            assert_eq!(hex_text(left) == hex_text(right), i == j);
        }
    }
}

#[test]
fn texts_are_joined() {
    assert_eq!(text::concat("", ""), "");
    assert_eq!(text::concat("serial ", "端口"), "serial 端口");
}

#[test]
fn texts_are_compared() {
    assert!(same_text("", ""));
    assert!(same_text("端口", "端口"));
    assert!(!same_text("a", "b"));
    assert!(!same_text("a", "aa"));
}
