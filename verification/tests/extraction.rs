use typed_dispatch::ComposeError;
use typed_dispatch::ExtractError;
use typed_dispatch::ParamTy;
use typed_dispatch::Request;
use typed_dispatch::Value;
use typed_dispatch::extract;
use typed_dispatch::extract_params;
use typed_dispatch::parse_u32;
use typed_dispatch::parse_u64;

#[test]
fn parse_u32_plain_number() {
    assert_eq!(parse_u32("1234"), Ok(1234));
    assert_eq!(parse_u32("0"), Ok(0));
    assert_eq!(parse_u32("007"), Ok(7));
}

#[test]
fn parse_u32_leading_plus() {
    assert_eq!(parse_u32("+123"), Ok(123));
    assert_eq!(parse_u32("+"), Err(ExtractError::InvalidDigit));
}

#[test]
fn parse_u32_empty_payload() {
    assert_eq!(parse_u32(""), Err(ExtractError::Empty));
}

#[test]
fn parse_u32_invalid_digit() {
    assert_eq!(parse_u32("12a345"), Err(ExtractError::InvalidDigit));
    assert_eq!(parse_u32("333a3"), Err(ExtractError::InvalidDigit));
    assert_eq!(parse_u32("-4"), Err(ExtractError::InvalidDigit));
    assert_eq!(parse_u32(" 4"), Err(ExtractError::InvalidDigit));
}

#[test]
fn parse_u32_at_the_bound() {
    assert_eq!(parse_u32("4294967295"), Ok(u32::MAX));
    assert_eq!(parse_u32("4294967296"), Err(ExtractError::Overflow));
}

#[test]
fn parse_u64_at_the_bound() {
    assert_eq!(parse_u64("18446744073709551615"), Ok(u64::MAX));
    assert_eq!(parse_u64("18446744073709551616"), Err(ExtractError::Overflow));
    assert_eq!(parse_u64("4294967296"), Ok(4294967296));
}

#[test]
fn extract_unit_and_string_always_succeed() {
    let req = Request::new("333a3".to_string());
    assert_eq!(extract(ParamTy::Unit, &req), Ok(Value::Unit));
    assert_eq!(extract(ParamTy::Str, &req), Ok(Value::Str("333a3".to_string())));
}

#[test]
fn extract_numeric_parses_the_payload() {
    let req = Request::new("1234".to_string());
    assert_eq!(extract(ParamTy::U32, &req), Ok(Value::U32(1234)));
    assert_eq!(extract(ParamTy::U64, &req), Ok(Value::U64(1234)));
    let bad = Request::new("12a345".to_string());
    assert_eq!(extract(ParamTy::U32, &bad), Err(ExtractError::InvalidDigit));
}

#[test]
fn extract_params_zero_arity() {
    let req = Request::new("anything".to_string());
    let args = extract_params(&vec![], &req).unwrap();
    assert_eq!(args.len(), 0);
}

#[test]
fn extract_params_tuple_in_position_order() {
    let req = Request::new("42".to_string());
    let args = extract_params(&vec![ParamTy::Str, ParamTy::U64], &req).unwrap();
    assert_eq!(args, vec![Value::Str("42".to_string()), Value::U64(42)]);
}

#[test]
fn extract_params_reports_the_first_failure() {
    // Both numeric positions would fail; the reported position is the first.
    let req = Request::new("333a3".to_string());
    let err = extract_params(&vec![ParamTy::U32, ParamTy::U64], &req).unwrap_err();
    assert_eq!(err, ComposeError { position: 0, cause: ExtractError::InvalidDigit });
}

#[test]
fn extract_params_short_circuits() {
    // Position 0 fails, so position 1 is never reached: the outcome is the
    // same whatever stands after the failing position.
    let req = Request::new("abc".to_string());
    let with_str = extract_params(&vec![ParamTy::U32, ParamTy::Str], &req).unwrap_err();
    let with_num = extract_params(&vec![ParamTy::U32, ParamTy::U64], &req).unwrap_err();
    assert_eq!(with_str, ComposeError { position: 0, cause: ExtractError::InvalidDigit });
    assert_eq!(with_num, with_str);
}

#[test]
fn extract_params_failure_after_success() {
    let req = Request::new("abc".to_string());
    let err = extract_params(&vec![ParamTy::Str, ParamTy::U32, ParamTy::Str], &req).unwrap_err();
    assert_eq!(err, ComposeError { position: 1, cause: ExtractError::InvalidDigit });
}

#[test]
fn extraction_is_repeatable() {
    // The same request and the same extractor give the same outcome again.
    let req = Request::new("1234".to_string());
    assert_eq!(extract(ParamTy::U32, &req), extract(ParamTy::U32, &req));
    let bad = Request::new("".to_string());
    assert_eq!(extract(ParamTy::U64, &bad), extract(ParamTy::U64, &bad));
}

#[test]
fn value_accessors() {
    assert_eq!(Value::U32(7).as_u32(), Some(7));
    assert_eq!(Value::U32(7).as_u64(), None);
    assert_eq!(Value::U64(8).as_u64(), Some(8));
    assert!(Value::Unit.is_unit());
    assert!(!Value::Str("x".to_string()).is_unit());
    let v = Value::Str("hello".to_string());
    assert_eq!(v.as_str(), Some(&"hello".to_string()));
}

#[test]
fn request_carries_its_payload() {
    let req = Request::new("payload".to_string());
    assert_eq!(req.payload(), "payload");
}
