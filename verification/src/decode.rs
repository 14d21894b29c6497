//! Decoding of the server's JSON answers through serde_json. Each answer's
//! decoded fields are a function of the body text alone, so the result of
//! each decode is given a name, the trusted boundary states its result over
//! that name, and the verified functions around it are exact in the same
//! terms.

use vstd::prelude::*;
use crate::user_actions::{user_view, Policy, User, UserAuthJson};

verus! {

/// The (access-token, server-id) pair held by an authentication answer,
/// or nothing when the text does not hold one.
pub uninterp spec fn spec_auth_of(s: Seq<char>) -> Option<(Seq<char>, Seq<char>)>;

/// The (name, server-id, id, authentication-provider, password-reset-provider)
/// fields of a user-detail answer, or nothing when the text does not hold
/// such a record.
pub uninterp spec fn spec_user_of(s: Seq<char>) -> Option<
    (Seq<char>, Seq<char>, Seq<char>, Seq<char>, Seq<char>),
>;

/// The records of a users-list answer, in server-returned order, or
/// nothing when the text does not hold such a list.
pub uninterp spec fn spec_users_of(s: Seq<char>) -> Option<
    Seq<(Seq<char>, Seq<char>, Seq<char>, Seq<char>, Seq<char>)>,
>;

/// Relies on serde_json::from_str and Value::get/as_str: the AccessToken
/// and ServerId strings of the body, a function of the body text alone.
#[verifier::external_body]
fn decode_auth_fields(body: &str) -> (r: Option<(String, String)>)
    ensures
        match r {
            Some(p) => spec_auth_of(body@) == Some((p.0@, p.1@)),
            None => spec_auth_of(body@) is None,
        },
{
    let v: serde_json::Value = serde_json::from_str(body).ok()?;
    let access_token = v.get("AccessToken")?.as_str()?.to_owned();
    let server_id = v.get("ServerId")?.as_str()?.to_owned();
    Some((access_token, server_id))
}

/// Relies on serde_json::from_str and Value::get/as_str: the Name,
/// ServerId, Id and Policy provider strings of the body, a function of
/// the body text alone.
#[verifier::external_body]
fn decode_user_fields(body: &str) -> (r: Option<(String, String, String, String, String)>)
    ensures
        match r {
            Some(t) => spec_user_of(body@) == Some((t.0@, t.1@, t.2@, t.3@, t.4@)),
            None => spec_user_of(body@) is None,
        },
{
    let v: serde_json::Value = serde_json::from_str(body).ok()?;
    let name = v.get("Name")?.as_str()?.to_owned();
    let serverid = v.get("ServerId")?.as_str()?.to_owned();
    let id = v.get("Id")?.as_str()?.to_owned();
    let policy = v.get("Policy")?;
    let auth = policy.get("AuthenticationProviderId")?.as_str()?.to_owned();
    let reset = policy.get("PasswordResetProviderId")?.as_str()?.to_owned();
    Some((name, serverid, id, auth, reset))
}

/// Relies on serde_json::from_str and Value::get/as_str/as_array: the
/// field strings of every record of the array, in order, a function of
/// the body text alone.
#[verifier::external_body]
fn decode_users_fields(body: &str) -> (r: Option<Vec<(String, String, String, String, String)>>)
    ensures
        match r {
            Some(v) => spec_users_of(body@) == Some(
                v@.map(
                    |i: int, t: (String, String, String, String, String)|
                        (t.0@, t.1@, t.2@, t.3@, t.4@),
                ),
            ),
            None => spec_users_of(body@) is None,
        },
{
    let v: serde_json::Value = serde_json::from_str(body).ok()?;
    let arr = v.as_array()?;
    let mut out = Vec::new();
    for e in arr {
        let name = e.get("Name")?.as_str()?.to_owned();
        let serverid = e.get("ServerId")?.as_str()?.to_owned();
        let id = e.get("Id")?.as_str()?.to_owned();
        let policy = e.get("Policy")?;
        let auth = policy.get("AuthenticationProviderId")?.as_str()?.to_owned();
        let reset = policy.get("PasswordResetProviderId")?.as_str()?.to_owned();
        out.push((name, serverid, id, auth, reset));
    }
    Some(out)
}

/// Decode the authentication answer: exactly the named fields of the
/// body, and nothing when the body holds none.
pub fn decode_auth(body: &str) -> (r: Option<UserAuthJson>)
    ensures
        match spec_auth_of(body@) {
            Some(p) => r matches Some(a) && a.access_token@ == p.0 && a.server_id@ == p.1,
            None => r is None,
        },
{
    match decode_auth_fields(body) {
        Some(p) => Some(UserAuthJson { access_token: p.0, server_id: p.1 }),
        None => None,
    }
}

/// Decode one user-detail answer: exactly the named record of the body,
/// and nothing when the body holds none.
pub fn decode_user(body: &str) -> (r: Option<User>)
    ensures
        match spec_user_of(body@) {
            Some(t) => r matches Some(u) && user_view(u) == t,
            None => r is None,
        },
{
    match decode_user_fields(body) {
        Some(t) => Some(
            User {
                name: t.0,
                serverid: t.1,
                id: t.2,
                policy: Policy { auth_provider_id: t.3, pass_reset_provider_id: t.4 },
            },
        ),
        None => None,
    }
}

/// Decode a users-list answer: exactly the named records of the body, in
/// server-returned order, and nothing when the body holds no such list.
pub fn decode_users(body: &str) -> (r: Option<Vec<User>>)
    ensures
        match spec_users_of(body@) {
            Some(items) => r matches Some(users) && users@.len() == items.len() && (forall|
                k: int,
            |
                0 <= k < items.len() ==> user_view(users@[k]) == items[k]),
            None => r is None,
        },
{
    match decode_users_fields(body) {
        Some(fields) => {
            let mut users: Vec<User> = Vec::new();
            let mut i: usize = 0;
            while i < fields.len()
                invariant
                    i <= fields@.len(),
                    users@.len() == i,
                    forall|k: int|
                        0 <= k < i ==> user_view(users@[k]) == (
                            fields@[k].0@,
                            fields@[k].1@,
                            fields@[k].2@,
                            fields@[k].3@,
                            fields@[k].4@,
                        ),
                decreases fields@.len() - i,
            {
                let t = &fields[i];
                users.push(
                    User {
                        name: t.0.clone(),
                        serverid: t.1.clone(),
                        id: t.2.clone(),
                        policy: Policy {
                            auth_provider_id: t.3.clone(),
                            pass_reset_provider_id: t.4.clone(),
                        },
                    },
                );
                i = i + 1;
            }
            proof {
                let items = spec_users_of(body@).unwrap();
                assert forall|k: int| 0 <= k < items.len() implies user_view(users@[k]) == items[k]
                by {
                    assert(items[k] == (
                        fields@[k].0@,
                        fields@[k].1@,
                        fields@[k].2@,
                        fields@[k].3@,
                        fields@[k].4@,
                    ));
                }
            }
            Some(users)
        },
        None => None,
    }
}

} // verus!
