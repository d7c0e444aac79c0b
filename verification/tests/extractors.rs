//! The caller-identity header codec.

use agartex::domain::XUserId;

#[test]
fn decode_accepts_decimal_ids() {
    assert_eq!(Some(XUserId(123)), XUserId::decode("123"));
    assert_eq!(Some(XUserId(-45)), XUserId::decode("-45"));
    assert_eq!(Some(XUserId(7)), XUserId::decode("+7"));
    assert_eq!(Some(XUserId(12)), XUserId::decode("0012"));
    assert_eq!(Some(XUserId(0)), XUserId::decode("0"));
    assert_eq!(Some(XUserId(i32::MAX)), XUserId::decode("2147483647"));
    assert_eq!(Some(XUserId(i32::MIN)), XUserId::decode("-2147483648"));
}

#[test]
fn decode_rejects_everything_else() {
    assert_eq!(None, XUserId::decode(""));
    assert_eq!(None, XUserId::decode("+"));
    assert_eq!(None, XUserId::decode("-"));
    assert_eq!(None, XUserId::decode("12a"));
    assert_eq!(None, XUserId::decode("1.5"));
    assert_eq!(None, XUserId::decode(" 1"));
    assert_eq!(None, XUserId::decode("2147483648"));
    assert_eq!(None, XUserId::decode("-2147483649"));
    assert_eq!(None, XUserId::decode("99999999999999999999"));
}

#[test]
fn encode_renders_decimal() {
    assert_eq!("42", XUserId(42).encode());
    assert_eq!("-7", XUserId(-7).encode());
    assert_eq!("x-user-id", XUserId::name());
}
