use rsed::util::{FlipOptionResult, FlipResultOption};

#[test]
fn flip_of_a_present_success() {
    let value: Option<Result<u8, bool>> = Some(Ok(3));
    assert_eq!(value.flip(), Ok(Some(3)));
}

#[test]
fn flip_of_a_present_failure() {
    let value: Option<Result<u8, bool>> = Some(Err(true));
    assert_eq!(value.flip(), Err(true));
}

#[test]
fn flip_of_an_absent_value() {
    let value: Option<Result<u8, bool>> = None;
    assert_eq!(value.flip(), Ok(None));
}

#[test]
fn flip_of_a_success_with_a_value() {
    let value: Result<Option<u8>, bool> = Ok(Some(3));
    assert_eq!(value.flip(), Some(Ok(3)));
}

#[test]
fn flip_of_a_success_without_a_value() {
    let value: Result<Option<u8>, bool> = Ok(None);
    assert_eq!(value.flip(), None);
}

#[test]
fn flip_of_a_failure() {
    let value: Result<Option<u8>, bool> = Err(false);
    assert_eq!(value.flip(), Some(Err(false)));
}

#[test]
fn flip_twice_gives_the_value_back() {
    let value: Option<Result<u8, bool>> = Some(Ok(9));
    assert_eq!(value.flip().flip(), Some(Ok(9)));
}
