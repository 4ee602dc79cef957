use ccd_bridge::outcome::{decode_result, QueryError, INTERSECTING, SEPARATE};

#[test]
fn one_means_intersecting() {
    assert_eq!(INTERSECTING, 1);
    assert_eq!(decode_result(1), Ok(true));
}

#[test]
fn zero_means_separate() {
    assert_eq!(SEPARATE, 0);
    assert_eq!(decode_result(0), Ok(false));
}

#[test]
fn other_codes_are_contract_violations() {
    assert_eq!(decode_result(2), Err(QueryError::ContractViolation(2)));
    assert_eq!(decode_result(-1), Err(QueryError::ContractViolation(-1)));
    assert_eq!(decode_result(i32::MAX), Err(QueryError::ContractViolation(i32::MAX)));
    assert_eq!(decode_result(i32::MIN), Err(QueryError::ContractViolation(i32::MIN)));
}

#[test]
fn a_contract_violation_is_never_read_as_separate() {
    for code in [-7, -1, 2, 3, 100, 255, 256] {
        assert_ne!(decode_result(code), Ok(false));
        assert_ne!(decode_result(code), Ok(true));
        assert_ne!(decode_result(code), Err(QueryError::Aborted));
    }
}
