use libdopamine::errors::{error_with_code, u32_to_decimal, DopamineError, ErrorType};

#[test]
fn new_keeps_message_and_kind() {
    let e = DopamineError::new("boom", ErrorType::QueryError);
    assert_eq!(e.message, "boom");
    assert_eq!(e.error_type, ErrorType::QueryError);
}

#[test]
fn new_empty_message() {
    let e = DopamineError::new("", ErrorType::ReadWriteError);
    assert_eq!(e.message, "");
    assert_eq!(e.error_type, ErrorType::ReadWriteError);
}

#[test]
fn decimal_single_digits() {
    assert_eq!(u32_to_decimal(0), "0");
    assert_eq!(u32_to_decimal(7), "7");
    assert_eq!(u32_to_decimal(9), "9");
}

#[test]
fn decimal_multiple_digits() {
    assert_eq!(u32_to_decimal(10), "10");
    assert_eq!(u32_to_decimal(259), "259");
    assert_eq!(u32_to_decimal(4096), "4096");
}

#[test]
fn decimal_largest() {
    assert_eq!(u32_to_decimal(u32::MAX), "4294967295");
}

#[test]
fn describe_prints_kind_and_message() {
    let e = DopamineError::new("oops", ErrorType::QueryError);
    assert_eq!(e.describe(), "DopamineError (QueryError): oops");
    let e = DopamineError::new("cannot write", ErrorType::ReadWriteError);
    assert_eq!(e.describe(), "DopamineError (ReadWriteError): cannot write");
}

#[test]
fn error_with_code_appends_code() {
    let e = error_with_code("it broke, code ", 1234, ErrorType::ProtectBypassError);
    assert_eq!(e.message, "it broke, code 1234");
    assert_eq!(e.error_type, ErrorType::ProtectBypassError);
}
