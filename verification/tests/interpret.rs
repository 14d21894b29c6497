use jellyroller_core::outcome::{interpret, Outcome};

#[test]
fn no_content_success() {
    assert_eq!(interpret(204, 204), Outcome::Success);
}

#[test]
fn ok_success() {
    assert_eq!(interpret(200, 200), Outcome::Success);
}

#[test]
fn unauthorized_regardless_of_expected() {
    assert_eq!(interpret(401, 204), Outcome::Unauthorized);
    assert_eq!(interpret(401, 200), Outcome::Unauthorized);
}

#[test]
fn unexpected_status_surfaced_verbatim() {
    assert_eq!(interpret(500, 204), Outcome::UnexpectedStatus(500));
    assert_eq!(interpret(404, 200), Outcome::UnexpectedStatus(404));
}
