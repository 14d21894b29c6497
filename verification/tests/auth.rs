use jellyroller_core::outcome::FatalError;
use jellyroller_core::user_actions::{UserAuth, UserAuthJson};

fn session() -> UserAuth {
    UserAuth::new(
        "http://h".to_string(),
        "bob".to_string(),
        "hunter2".to_string(),
    )
}

#[test]
fn auth_endpoint_url() {
    assert_eq!(session().server_url, "http://h/Users/authenticatebyname");
}

#[test]
fn auth_body_fields_round_trip() {
    let body = session().request_body();
    let v: serde_json::Value = serde_json::from_str(&body).unwrap();
    assert_eq!(v.get("username").unwrap().as_str().unwrap(), "bob");
    assert_eq!(v.get("pw").unwrap().as_str().unwrap(), "hunter2");
}

#[test]
fn auth_success_returns_exact_token() {
    let r = session().auth_user(200, "{\"AccessToken\":\"tok123\",\"ServerId\":\"srv9\"}");
    assert_eq!(r, Ok("tok123".to_string()));
}

#[test]
fn auth_non_success_never_returns_token() {
    assert_eq!(
        session().auth_user(401, "{\"AccessToken\":\"tok123\",\"ServerId\":\"srv9\"}"),
        Err(FatalError::AuthFailed)
    );
    assert_eq!(session().auth_user(500, ""), Err(FatalError::AuthFailed));
    assert_eq!(session().auth_user(204, ""), Err(FatalError::AuthFailed));
}

#[test]
fn auth_malformed_success_body_is_fatal() {
    assert_eq!(
        session().auth_user(200, "not json at all"),
        Err(FatalError::DecodeFailure)
    );
    assert_eq!(
        session().auth_user(200, "{\"ServerId\":\"srv9\"}"),
        Err(FatalError::DecodeFailure)
    );
}

#[test]
fn accept_takes_token_from_decoded_body() {
    let decoded = UserAuthJson {
        access_token: "abc".to_string(),
        server_id: "s".to_string(),
    };
    assert_eq!(UserAuth::accept(200, Some(decoded)), Ok("abc".to_string()));
    assert_eq!(
        UserAuth::accept(200, None),
        Err(FatalError::DecodeFailure)
    );
}
