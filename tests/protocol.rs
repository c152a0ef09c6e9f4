use hc_12::protocol::{
    baud_command, baud_confirmation, bytes_equal, default_command, default_confirmation,
    forced_rate_of, mode_command, mode_confirmation, ok_text, test_command,
};
use hc_12::rates::{BaudRate, TransmissionMode};
use hc_12::text::{contains_bytes, find_byte, parse_numeral, push_decimal, trim_bounds};

#[test]
fn baud_numerals() {
    assert_eq!(BaudRate::Baud1200.numeral(), 1200);
    assert_eq!(BaudRate::Baud9600.numeral(), 9600);
    assert_eq!(BaudRate::Baud115200.numeral(), 115200);
    assert_eq!(u32::from(BaudRate::Baud57600), 57600);
    assert_eq!(u32::from(&BaudRate::Baud2400), 2400);
}

#[test]
fn baud_default_is_factory_rate() {
    assert_eq!(BaudRate::default(), BaudRate::Baud9600);
}

#[test]
fn baud_order_round_trips() {
    for i in 0..8 {
        assert_eq!(BaudRate::candidate(i).index(), i);
    }
    assert_eq!(BaudRate::candidate(0), BaudRate::Baud1200);
    assert_eq!(BaudRate::candidate(7), BaudRate::Baud115200);
}

#[test]
fn mode_digits() {
    assert_eq!(TransmissionMode::Fu1.digit(), 1);
    assert_eq!(u32::from(TransmissionMode::Fu3), 3);
    assert_eq!(u32::from(&TransmissionMode::Fu4), 4);
}

#[test]
fn decimal_numerals() {
    let mut v = Vec::new();
    push_decimal(&mut v, 0);
    assert_eq!(v, b"0".to_vec());
    let mut v = b"x".to_vec();
    push_decimal(&mut v, 115200);
    assert_eq!(v, b"x115200".to_vec());
}

#[test]
fn numeral_parsing() {
    assert_eq!(parse_numeral(b"9600", 0, 4), Some(9600));
    assert_eq!(parse_numeral(b"a42b", 1, 3), Some(42));
    assert_eq!(parse_numeral(b"", 0, 0), None);
    assert_eq!(parse_numeral(b"9a", 0, 2), None);
    assert_eq!(parse_numeral(b"4294967295", 0, 10), Some(4294967295));
    assert_eq!(parse_numeral(b"4294967296", 0, 10), None);
}

#[test]
fn substring_search() {
    assert!(contains_bytes(b"xxOK+FU3,B", b"OK+FU3"));
    assert!(!contains_bytes(b"OK+FU", b"OK+FU3"));
    assert!(contains_bytes(b"abc", b""));
    assert_eq!(find_byte(b"a,b,c", b',', 0), 1);
    assert_eq!(find_byte(b"a,b,c", b',', 2), 3);
    assert_eq!(find_byte(b"abc", b',', 0), 3);
}

#[test]
fn whitespace_trimming() {
    assert_eq!(trim_bounds(b"  96\r\n", 0, 6), (2, 4));
    assert_eq!(trim_bounds(b"   ", 0, 3), (3, 3));
}

#[test]
fn request_bytes() {
    assert_eq!(test_command(), b"AT".to_vec());
    assert_eq!(baud_command(BaudRate::Baud19200), b"AT+B19200".to_vec());
    assert_eq!(mode_command(TransmissionMode::Fu3), b"AT+FU3".to_vec());
    assert_eq!(default_command(), b"AT+DEFAULT".to_vec());
}

#[test]
fn reply_bytes() {
    assert_eq!(ok_text(), b"OK\r\n".to_vec());
    assert_eq!(baud_confirmation(BaudRate::Baud1200), b"OK+B1200\r\n".to_vec());
    assert_eq!(mode_confirmation(TransmissionMode::Fu2), b"OK+FU2".to_vec());
    assert_eq!(default_confirmation(), b"OK+DEFAULT\r\n".to_vec());
    assert!(bytes_equal(b"OK", b"OK"));
    assert!(!bytes_equal(b"OK", b"OK\r\n"));
}

#[test]
fn forced_rate_fields() {
    assert_eq!(forced_rate_of(b"OK+FU3,B9600\r\n"), Some(9600));
    assert_eq!(forced_rate_of(b"OK+FU3,B 4800 ,x"), Some(4800));
    assert_eq!(forced_rate_of(b"OK+FU1\r\n"), None);
    assert_eq!(forced_rate_of(b"OK+FU3,"), None);
    assert_eq!(forced_rate_of(b"OK+FU3,Bxx\r\n"), None);
}
