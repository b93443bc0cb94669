use cursewin::{handle_err, teardown_result, visibility_code, visibility_from_code, Visibility, ERR};

#[test]
fn negative_code_is_error() {
    assert_eq!(handle_err(-1), Err(-1));
    assert_eq!(handle_err(-42), Err(-42));
    assert_eq!(handle_err(i32::MIN), Err(i32::MIN));
}

#[test]
fn non_negative_code_is_value() {
    assert_eq!(handle_err(0), Ok(0));
    assert_eq!(handle_err(7), Ok(7));
    assert_eq!(handle_err(i32::MAX), Ok(i32::MAX));
}

#[test]
fn err_is_minus_one() {
    assert_eq!(ERR, -1);
    assert_eq!(handle_err(ERR), Err(ERR));
}

#[test]
fn teardown_zero_is_success() {
    assert_eq!(teardown_result(0), Ok(()));
}

#[test]
fn teardown_positive_codes_succeed() {
    assert_eq!(teardown_result(1), Ok(()));
    assert_eq!(teardown_result(3), Ok(()));
}

#[test]
fn teardown_negative_codes_fail() {
    assert_eq!(teardown_result(-7), Err(-7));
    assert_eq!(teardown_result(i32::MIN), Err(i32::MIN));
    assert_eq!(teardown_result(i32::MAX), Ok(()));
}

#[test]
fn visibility_codes_round_trip() {
    for code in 0..3 {
        let v = visibility_from_code(code).unwrap();
        assert_eq!(visibility_code(v), code);
    }
    assert_eq!(visibility_from_code(0), Some(Visibility::Invisible));
    assert_eq!(visibility_from_code(1), Some(Visibility::Visible));
    assert_eq!(visibility_from_code(2), Some(Visibility::VeryVisible));
}

#[test]
fn visibility_codes_out_of_range() {
    assert_eq!(visibility_from_code(-1), None);
    assert_eq!(visibility_from_code(3), None);
    assert_eq!(visibility_from_code(i32::MAX), None);
}
