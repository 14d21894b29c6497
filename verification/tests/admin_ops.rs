use jellyroller_core::outcome::Outcome;
use jellyroller_core::replace::replace_first;
use jellyroller_core::user_actions::{
    client_ident_header, client_ident_header_cli, content_type_header, token_header, ResetPass,
    UserAdd, UserDel, UserList,
};

#[test]
fn create_user_url_and_outcomes() {
    let op = UserAdd::new(
        "bob".to_string(),
        "pw".to_string(),
        "http://h".to_string(),
        "key".to_string(),
    );
    assert_eq!(op.server_url, "http://h/Users/New");
    assert_eq!(op.create(200), Outcome::Success);
    let op = UserAdd::new(
        "bob".to_string(),
        "pw".to_string(),
        "http://h".to_string(),
        "key".to_string(),
    );
    assert_eq!(op.create(401), Outcome::Unauthorized);
}

#[test]
fn create_user_body_round_trip() {
    let name = "bo\"b\\ the\nbuilder";
    let password = "p w\u{1}\t!";
    let op = UserAdd::new(
        name.to_string(),
        password.to_string(),
        "http://h".to_string(),
        "key".to_string(),
    );
    let body = op.request_body();
    let v: serde_json::Value = serde_json::from_str(&body).unwrap();
    assert_eq!(v.get("name").unwrap().as_str().unwrap(), name);
    assert_eq!(v.get("password").unwrap().as_str().unwrap(), password);
}

#[test]
fn delete_user_scenario() {
    let op = UserDel::new("42".to_string(), "http://h".to_string(), "key".to_string());
    assert_eq!(op.server_url, "http://h/Users/42");
    assert_eq!(op.remove(204), Outcome::Success);
    let op = UserDel::new("42".to_string(), "http://h".to_string(), "key".to_string());
    assert_eq!(op.remove(500), Outcome::UnexpectedStatus(500));
}

#[test]
fn reset_password_url_body_and_outcomes() {
    let op = ResetPass::new(
        "bob".to_string(),
        "newsecret".to_string(),
        "http://h".to_string(),
        "key".to_string(),
    );
    assert_eq!(op.server_url, "http://h/Users/bob/Password");
    let body = op.request_body();
    let v: serde_json::Value = serde_json::from_str(&body).unwrap();
    assert_eq!(v.get("username").unwrap().as_str().unwrap(), "bob");
    assert_eq!(v.get("newpw").unwrap().as_str().unwrap(), "newsecret");
    assert_eq!(op.reset(204), Outcome::Success);
}

#[test]
fn config_update_url_and_body() {
    let dir = UserList::new(
        "/Users/{userId}/Configuration".to_string(),
        "http://h".to_string(),
        "key".to_string(),
    );
    let keys = vec!["AuthenticationProviderId".to_string(), "PasswordResetProviderId".to_string()];
    let values = vec!["A".to_string(), "B".to_string()];
    let (url, body) = dir.update_user_config_bool(
        &"42".to_string(),
        &"EnableAutoLogin".to_string(),
        true,
        &keys,
        &values,
    );
    assert_eq!(url, "http://h/Users/42/Configuration");
    let v: serde_json::Value = serde_json::from_str(&body).unwrap();
    assert_eq!(v.get("EnableAutoLogin").unwrap().as_bool().unwrap(), true);
    assert_eq!(v.get("AuthenticationProviderId").unwrap().as_str().unwrap(), "A");
    assert_eq!(v.get("PasswordResetProviderId").unwrap().as_str().unwrap(), "B");
    assert_eq!(v.as_object().unwrap().len(), 3);
}

#[test]
fn config_body_false_flag() {
    let dir = UserList::new(
        "/Users/{userId}/Configuration".to_string(),
        "http://h".to_string(),
        "key".to_string(),
    );
    let keys = vec!["k1".to_string(), "k2".to_string()];
    let values = vec!["v1".to_string(), "v2".to_string()];
    let (_, body) = dir.update_user_config_bool(
        &"7".to_string(),
        &"Flag".to_string(),
        false,
        &keys,
        &values,
    );
    let v: serde_json::Value = serde_json::from_str(&body).unwrap();
    assert_eq!(v.get("Flag").unwrap().as_bool().unwrap(), false);
}

#[test]
fn replace_first_only_first_occurrence() {
    assert_eq!(replace_first("a/{id}/b/{id}", "{id}", "9"), "a/9/b/{id}");
    assert_eq!(replace_first("no placeholder", "{id}", "9"), "no placeholder");
    assert_eq!(replace_first("", "{id}", "9"), "");
}

#[test]
fn header_values() {
    let (n, v) = token_header(&"key".to_string());
    assert_eq!(n, "X-Emby-Token");
    assert_eq!(v, "key");
    let (n, v) = content_type_header();
    assert_eq!(n, "Content-Type");
    assert_eq!(v, "application/json");
    let (n, v) = client_ident_header();
    assert_eq!(n, "X-Emby-Authorization");
    assert_eq!(
        v,
        "MediaBrowser Client=\"JellyRoller\", Device=\"jellyroller\", DeviceId=\"1\", Version=\"0.0.1\""
    );
    let (_, v) = client_ident_header_cli();
    assert_eq!(
        v,
        "MediaBrowser Client=\"JellyRoller\", Device=\"jellyroller-cli\", DeviceId=\"1\", Version=\"0.0.1\""
    );
}

#[test]
fn config_update_response_classification() {
    let dir = UserList::new(
        "/Users/{userId}/Configuration".to_string(),
        "http://h".to_string(),
        "key".to_string(),
    );
    assert_eq!(dir.config_update_outcome(204), Outcome::Success);
    assert_eq!(dir.config_update_outcome(401), Outcome::Unauthorized);
    assert_eq!(dir.config_update_outcome(500), Outcome::UnexpectedStatus(500));
}
