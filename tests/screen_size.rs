use cursewin::{cursor_result, max_yx_from, Visibility, ERR};

#[test]
fn size_pairs_two_good_queries() {
    assert_eq!(max_yx_from(Ok(24), Ok(80)), Ok((24, 80)));
    assert_eq!(max_yx_from(Ok(0), Ok(0)), Ok((0, 0)));
}

#[test]
fn size_returns_failed_height_unchanged() {
    assert_eq!(max_yx_from(Err(-1), Ok(80)), Err(-1));
    assert_eq!(max_yx_from(Err(-5), Err(-9)), Err(-5));
}

#[test]
fn size_returns_failed_width_unchanged() {
    assert_eq!(max_yx_from(Ok(24), Err(-3)), Err(-3));
}

#[test]
fn cursor_result_gives_previous_code() {
    assert_eq!(cursor_result(Some(Visibility::Invisible)), Ok(0));
    assert_eq!(cursor_result(Some(Visibility::Visible)), Ok(1));
    assert_eq!(cursor_result(Some(Visibility::VeryVisible)), Ok(2));
}

#[test]
fn cursor_result_refused_is_err() {
    assert_eq!(cursor_result(None), Err(ERR));
}
