use jellyroller_core::decode::{decode_user, decode_users};
use jellyroller_core::outcome::FatalError;
use jellyroller_core::user_actions::{Policy, User, UserList};

fn record(name: &str, id: &str) -> User {
    User {
        name: name.to_string(),
        serverid: "srv".to_string(),
        id: id.to_string(),
        policy: Policy {
            auth_provider_id: "authp".to_string(),
            pass_reset_provider_id: "resetp".to_string(),
        },
    }
}

fn directory() -> UserList {
    UserList::new(
        "/Users".to_string(),
        "http://h".to_string(),
        "key".to_string(),
    )
}

#[test]
fn list_endpoint_url() {
    assert_eq!(directory().server_url, "http://h/Users");
}

#[test]
fn resolve_user_id_exact_match() {
    let users = vec![record("alice", "1"), record("bob", "2")];
    let r = directory().get_user_id(users, &"bob".to_string());
    assert_eq!(r, Ok("2".to_string()));
}

#[test]
fn resolve_user_id_takes_first_match() {
    let users = vec![record("bob", "7"), record("bob", "8")];
    let r = directory().get_user_id(users, &"bob".to_string());
    assert_eq!(r, Ok("7".to_string()));
}

#[test]
fn resolve_user_id_no_match_is_fatal() {
    let users = vec![record("alice", "1"), record("bob", "2")];
    let r = directory().get_user_id(users, &"carol".to_string());
    assert_eq!(r, Err(FatalError::NotFound));
    assert_eq!(
        directory().get_user_id(Vec::new(), &"bob".to_string()),
        Err(FatalError::NotFound)
    );
}

#[test]
fn names_in_server_order() {
    let users = vec![record("alice", "1"), record("bob", "2"), record("eve", "3")];
    let names = directory().list_users(users);
    assert_eq!(names, vec!["alice", "bob", "eve"]);
}

#[test]
fn provider_pair_order_is_fixed() {
    let user = record("alice", "1");
    let pair = user.provider_ids();
    assert_eq!(pair, vec!["authp".to_string(), "resetp".to_string()]);
}

#[test]
fn decode_user_reads_all_fields() {
    let body = "{\"Name\":\"alice\",\"ServerId\":\"srv\",\"Id\":\"17\",\
                \"Policy\":{\"AuthenticationProviderId\":\"A\",\"PasswordResetProviderId\":\"B\"}}";
    let u = decode_user(body).unwrap();
    assert_eq!(u.name, "alice");
    assert_eq!(u.serverid, "srv");
    assert_eq!(u.id, "17");
    assert_eq!(u.policy.auth_provider_id, "A");
    assert_eq!(u.policy.pass_reset_provider_id, "B");
    assert_eq!(u.provider_ids(), vec!["A".to_string(), "B".to_string()]);
}

#[test]
fn decode_user_rejects_missing_field() {
    assert!(decode_user("{\"Name\":\"alice\"}").is_none());
    assert!(decode_user("[1,2]").is_none());
    assert!(decode_user("nonsense").is_none());
}

#[test]
fn decode_users_then_resolve() {
    let body = "[{\"Name\":\"alice\",\"ServerId\":\"s\",\"Id\":\"1\",\
                \"Policy\":{\"AuthenticationProviderId\":\"A\",\"PasswordResetProviderId\":\"B\"}},\
                {\"Name\":\"bob\",\"ServerId\":\"s\",\"Id\":\"2\",\
                \"Policy\":{\"AuthenticationProviderId\":\"A\",\"PasswordResetProviderId\":\"B\"}}]";
    let users = decode_users(body).unwrap();
    assert_eq!(users.len(), 2);
    let r = directory().get_user_id(users, &"bob".to_string());
    assert_eq!(r, Ok("2".to_string()));
}

#[test]
fn decode_users_rejects_bad_element() {
    assert!(decode_users("[{\"Name\":\"alice\"}]").is_none());
    assert!(decode_users("{}").is_none());
}

#[test]
fn provider_lookup_outcomes() {
    let body = "{\"Name\":\"alice\",\"ServerId\":\"srv\",\"Id\":\"17\",\
                \"Policy\":{\"AuthenticationProviderId\":\"A\",\"PasswordResetProviderId\":\"B\"}}";
    assert_eq!(
        directory().get_user_providers_vec(200, body),
        Ok(vec!["A".to_string(), "B".to_string()])
    );
    assert_eq!(
        directory().get_user_providers_vec(401, body),
        Err(FatalError::Unauthorized)
    );
    assert_eq!(
        directory().get_user_providers_vec(500, body),
        Err(FatalError::UnexpectedStatus(500))
    );
    assert_eq!(
        directory().get_user_providers_vec(200, "broken"),
        Err(FatalError::DecodeFailure)
    );
}
