//! The operation objects of the administrative client. Each owns its
//! endpoint URL and credentials from construction on, builds its request
//! body, and classifies the server's answer; sending the request over the
//! wire is the caller's business.

use vstd::prelude::*;
use vstd::string::*;
use crate::decode::{decode_auth, decode_user, spec_auth_of, spec_user_of};
use crate::json::{build_obj2, build_obj_bool3, json_obj2, json_obj_bool3};
use crate::outcome::{
    interpret, spec_interpret, FatalError, Outcome, STATUS_NO_CONTENT, STATUS_OK,
    STATUS_UNAUTHORIZED,
};
use crate::replace::{replace_first, spec_replace_first};

verus! {

/// A server-reported user policy: which backend authenticates the user
/// and which handles password resets.
pub struct Policy {
    pub auth_provider_id: String,
    pub pass_reset_provider_id: String,
}

/// A server-reported user record; `id` is the stable key used by all
/// per-user endpoints.
pub struct User {
    pub name: String,
    pub serverid: String,
    pub id: String,
    pub policy: Policy,
}

/// The authentication endpoint's successful answer.
pub struct UserAuthJson {
    pub access_token: String,
    pub server_id: String,
}

pub type UserInfoVec = Vec<User>;

/// The plain fields of a record, in the fixed order (name, server-id, id,
/// authentication-provider, password-reset-provider).
pub open spec fn user_view(u: User) -> (Seq<char>, Seq<char>, Seq<char>, Seq<char>, Seq<char>) {
    (u.name@, u.serverid@, u.id@, u.policy.auth_provider_id@, u.policy.pass_reset_provider_id@)
}

impl User {
    /// The provider pair of a record, as an ordered two-element vector:
    /// position 0 is always the authentication provider and position 1 the
    /// password-reset provider, never swapped.
    pub fn provider_ids(&self) -> (r: Vec<String>)
        ensures
            r@.len() == 2,
            r@[0]@ == self.policy.auth_provider_id@,
            r@[1]@ == self.policy.pass_reset_provider_id@,
    {
        let mut r: Vec<String> = Vec::new();
        r.push(self.policy.auth_provider_id.clone());
        r.push(self.policy.pass_reset_provider_id.clone());
        r
    }
}

/// The bearer-token header attached to every authenticated request.
pub fn token_header(api_key: &String) -> (r: (String, String))
    ensures
        r.0@ == "X-Emby-Token"@,
        r.1@ == api_key@,
{
    (String::from_str("X-Emby-Token"), api_key.clone())
}

/// The content-type header attached to every bodied request.
pub fn content_type_header() -> (r: (String, String))
    ensures
        r.0@ == "Content-Type"@,
        r.1@ == "application/json"@,
{
    (String::from_str("Content-Type"), String::from_str("application/json"))
}

/// The client-identification header sent on the unauthenticated login
/// request, reproduced verbatim for server compatibility.
pub fn client_ident_header() -> (r: (String, String))
    ensures
        r.0@ == "X-Emby-Authorization"@,
        r.1@
            == "MediaBrowser Client=\"JellyRoller\", Device=\"jellyroller\", DeviceId=\"1\", Version=\"0.0.1\""@,
{
    (
        String::from_str("X-Emby-Authorization"),
        String::from_str(
            "MediaBrowser Client=\"JellyRoller\", Device=\"jellyroller\", DeviceId=\"1\", Version=\"0.0.1\"",
        ),
    )
}

/// The client-identification header sent on the configuration update,
/// reproduced verbatim for server compatibility.
pub fn client_ident_header_cli() -> (r: (String, String))
    ensures
        r.0@ == "X-Emby-Authorization"@,
        r.1@
            == "MediaBrowser Client=\"JellyRoller\", Device=\"jellyroller-cli\", DeviceId=\"1\", Version=\"0.0.1\""@,
{
    (
        String::from_str("X-Emby-Authorization"),
        String::from_str(
            "MediaBrowser Client=\"JellyRoller\", Device=\"jellyroller-cli\", DeviceId=\"1\", Version=\"0.0.1\"",
        ),
    )
}

/// Password-reset operation: POST to `{server_url}/Users/{username}/Password`,
/// success is "no content".
pub struct ResetPass {
    pub username: String,
    pub newpw: String,
    pub server_url: String,
    pub api_key: String,
}

impl ResetPass {
    pub fn new(username: String, newpw: String, server_url: String, api_key: String) -> (r:
        ResetPass)
        ensures
            r.username@ == username@,
            r.newpw@ == newpw@,
            r.server_url@ == server_url@ + "/Users/"@ + username@ + "/Password"@,
            r.api_key@ == api_key@,
    {
        let url = server_url.concat("/Users/").concat(username.as_str()).concat("/Password");
        ResetPass { username, newpw, server_url: url, api_key }
    }

    /// The request body `{"username":...,"newpw":...}`.
    pub fn request_body(&self) -> (r: String)
        ensures
            r@ == json_obj2("username"@, self.username@, "newpw"@, self.newpw@),
    {
        build_obj2("username", self.username.as_str(), "newpw", self.newpw.as_str())
    }

    /// Classify the server's answer to the reset request.
    pub fn reset(self, status: u16) -> (r: Outcome)
        ensures
            r == spec_interpret(status, STATUS_NO_CONTENT),
    {
        interpret(status, STATUS_NO_CONTENT)
    }
}

/// User-creation operation: POST to `{server_url}/Users/New`, success is
/// "ok".
pub struct UserAdd {
    pub name: String,
    pub password: String,
    pub server_url: String,
    pub api_key: String,
}

impl UserAdd {
    pub fn new(username: String, password: String, server_url: String, api_key: String) -> (r:
        UserAdd)
        ensures
            r.name@ == username@,
            r.password@ == password@,
            r.server_url@ == server_url@ + "/Users/New"@,
            r.api_key@ == api_key@,
    {
        let url = server_url.concat("/Users/New");
        UserAdd { name: username, password, server_url: url, api_key }
    }

    /// The request body `{"name":...,"password":...}`.
    pub fn request_body(&self) -> (r: String)
        ensures
            r@ == json_obj2("name"@, self.name@, "password"@, self.password@),
    {
        build_obj2("name", self.name.as_str(), "password", self.password.as_str())
    }

    /// Classify the server's answer to the creation request.
    pub fn create(self, status: u16) -> (r: Outcome)
        ensures
            r == spec_interpret(status, STATUS_OK),
    {
        interpret(status, STATUS_OK)
    }
}

/// User-removal operation: DELETE to `{server_url}/Users/{userId}`,
/// success is "no content", no body.
pub struct UserDel {
    pub server_url: String,
    pub api_key: String,
    pub username: String,
}

impl UserDel {
    pub fn new(username: String, server_url: String, api_key: String) -> (r: UserDel)
        ensures
            r.server_url@ == server_url@ + "/Users/"@ + username@,
            r.api_key@ == api_key@,
            r.username@ == username@,
    {
        let url = server_url.concat("/Users/").concat(username.as_str());
        UserDel { server_url: url, api_key, username }
    }

    /// Classify the server's answer to the removal request.
    pub fn remove(self, status: u16) -> (r: Outcome)
        ensures
            r == spec_interpret(status, STATUS_NO_CONTENT),
    {
        interpret(status, STATUS_NO_CONTENT)
    }
}

/// Session authentication: POST to `{server_url}/Users/authenticatebyname`
/// with no bearer token, since none exists yet. Exactly one one-shot
/// transition: without a success answer and a well-formed token the whole
/// session is over.
pub struct UserAuth {
    pub server_url: String,
    pub username: String,
    pub pw: String,
}

impl UserAuth {
    pub fn new(server_url: String, username: String, password: String) -> (r: UserAuth)
        ensures
            r.server_url@ == server_url@ + "/Users/authenticatebyname"@,
            r.username@ == username@,
            r.pw@ == password@,
    {
        let url = server_url.concat("/Users/authenticatebyname");
        UserAuth { server_url: url, username, pw: password }
    }

    /// The request body `{"username":...,"pw":...}`.
    pub fn request_body(&self) -> (r: String)
        ensures
            r@ == json_obj2("username"@, self.username@, "pw"@, self.pw@),
    {
        build_obj2("username", self.username.as_str(), "pw", self.pw.as_str())
    }

    /// Decide the session's fate from the status code and the decoded
    /// answer: only a success status with a well-formed body yields a
    /// token, and it is exactly that body's access token.
    pub fn accept(status: u16, decoded: Option<UserAuthJson>) -> (r: Result<String, FatalError>)
        ensures
            status != STATUS_OK ==> r == Err::<String, FatalError>(FatalError::AuthFailed),
            status == STATUS_OK && decoded is None ==> r == Err::<String, FatalError>(
                FatalError::DecodeFailure,
            ),
            status == STATUS_OK && decoded is Some ==> (r matches Ok(t) && t
                == decoded.unwrap().access_token),
    {
        if status != STATUS_OK {
            Err(FatalError::AuthFailed)
        } else {
            match decoded {
                Some(a) => Ok(a.access_token),
                None => Err(FatalError::DecodeFailure),
            }
        }
    }

    /// Exchange the credentials for a session token. Any status but
    /// success is a fatal precondition failure: no token is ever returned
    /// for it, whatever the body held.
    pub fn auth_user(self, status: u16, body: &str) -> (r: Result<String, FatalError>)
        ensures
            status != STATUS_OK ==> r == Err::<String, FatalError>(FatalError::AuthFailed),
            r is Ok ==> status == STATUS_OK,
            status == STATUS_OK ==> match spec_auth_of(body@) {
                Some(p) => r matches Ok(t) && t@ == p.0,
                None => r == Err::<String, FatalError>(FatalError::DecodeFailure),
            },
    {
        let decoded = decode_auth(body);
        Self::accept(status, decoded)
    }
}

/// Round trip for the user-creation request body: a parser reading it
/// back recovers exactly the name and password the caller supplied, with
/// no transformation and no truncation.
pub proof fn lemma_create_user_body_round_trip(name: Seq<char>, password: Seq<char>)
    ensures
        crate::json::parse_obj2(json_obj2("name"@, name, "password"@, password)) == Some(
            ("name"@, name, "password"@, password),
        ),
{
    crate::json::lemma_obj2_round_trip("name"@, name, "password"@, password);
}

/// Where in a sequence of records a name first occurs, and the id found
/// there.
pub open spec fn spec_find_user_id(users: Seq<User>, name: Seq<char>) -> Option<Seq<char>>
    decreases users.len(),
{
    if users.len() == 0 {
        None
    } else if users[0].name@ == name {
        Some(users[0].id@)
    } else {
        spec_find_user_id(users.skip(1), name)
    }
}

/// The user-directory operations, all against one configured endpoint
/// under one authenticated credential.
#[derive(Clone)]
pub struct UserList {
    pub server_url: String,
    pub api_key: String,
}

impl UserList {
    pub fn new(endpoint: String, server_url: String, api_key: String) -> (r: UserList)
        ensures
            r.server_url@ == server_url@ + endpoint@,
            r.api_key@ == api_key@,
    {
        let url = server_url.concat(endpoint.as_str());
        UserList { server_url: url, api_key }
    }

    /// The names of the listed users, in server-returned order.
    pub fn list_users(self, users: Vec<User>) -> (r: Vec<String>)
        ensures
            r@.len() == users@.len(),
            forall|i: int| 0 <= i < users@.len() ==> r@[i]@ == users@[i].name@,
    {
        let mut names: Vec<String> = Vec::new();
        let mut i: usize = 0;
        while i < users.len()
            invariant
                i <= users@.len(),
                names@.len() == i,
                forall|k: int| 0 <= k < i ==> names@[k]@ == users@[k].name@,
            decreases users@.len() - i,
        {
            names.push(users[i].name.clone());
            i = i + 1;
        }
        names
    }

    /// Resolve a username to the id of the first record whose name equals
    /// the query exactly; a name that matches no record is fatal, and no
    /// id is returned for it.
    pub fn get_user_id(self, users: Vec<User>, username: &String) -> (r: Result<
        String,
        FatalError,
    >)
        ensures
            match spec_find_user_id(users@, username@) {
                Some(id) => r matches Ok(rid) && rid@ == id,
                None => r == Err::<String, FatalError>(FatalError::NotFound),
            },
    {
        let mut i: usize = 0;
        proof {
            assert(users@.skip(0) =~= users@);
        }
        while i < users.len()
            invariant
                i <= users@.len(),
                spec_find_user_id(users@, username@) == spec_find_user_id(
                    users@.skip(i as int),
                    username@,
                ),
            decreases users@.len() - i,
        {
            proof {
                assert(users@.skip(i as int)[0] == users@[i as int]);
            }
            if users[i].name == *username {
                return Ok(users[i].id.clone());
            }
            proof {
                assert(users@.skip(i as int).skip(1) =~= users@.skip(i as int + 1));
            }
            i = i + 1;
        }
        proof {
            assert(users@.skip(users@.len() as int).len() == 0);
        }
        Err(FatalError::NotFound)
    }

    /// The templated per-user endpoint with `{userId}` substituted.
    pub fn config_url(&self, id: &String) -> (r: String)
        ensures
            r@ == spec_replace_first(self.server_url@, "{userId}"@, id@),
    {
        proof {
            reveal_strlit("{userId}");
        }
        replace_first(self.server_url.as_str(), "{userId}", id.as_str())
    }

    /// Prepare the boolean-configuration update: the substituted URL and
    /// the body holding the flag under its key plus exactly two extra
    /// caller-supplied fields, in their given order.
    pub fn update_user_config_bool(
        self,
        id: &String,
        config_key: &String,
        config_value: bool,
        req_json_keys: &Vec<String>,
        req_json_values: &Vec<String>,
    ) -> (r: (String, String))
        requires
            req_json_keys@.len() == 2,
            req_json_values@.len() == 2,
        ensures
            r.0@ == spec_replace_first(self.server_url@, "{userId}"@, id@),
            r.1@ == json_obj_bool3(
                config_key@,
                config_value,
                req_json_keys@[0]@,
                req_json_values@[0]@,
                req_json_keys@[1]@,
                req_json_values@[1]@,
            ),
    {
        let url = self.config_url(id);
        let body = build_obj_bool3(
            config_key.as_str(),
            config_value,
            req_json_keys[0].as_str(),
            req_json_values[0].as_str(),
            req_json_keys[1].as_str(),
            req_json_values[1].as_str(),
        );
        (url, body)
    }

    /// Classify the server's answer to the configuration update; like the
    /// other mutations on a single user, its success code is "no content"
    /// and a rejected credential is uniformly `Unauthorized`.
    pub fn config_update_outcome(&self, status: u16) -> (r: Outcome)
        ensures
            r == spec_interpret(status, STATUS_NO_CONTENT),
    {
        interpret(status, STATUS_NO_CONTENT)
    }

    /// Fetch-and-extract of the provider pair: a success answer must
    /// decode to a record, the pair then comes from `provider_ids`; the
    /// credentials being rejected, or any other status, is fatal for the
    /// lookups that depend on this call.
    pub fn get_user_providers_vec(self, status: u16, body: &str) -> (r: Result<
        Vec<String>,
        FatalError,
    >)
        ensures
            status == STATUS_UNAUTHORIZED ==> r == Err::<Vec<String>, FatalError>(
                FatalError::Unauthorized,
            ),
            status != STATUS_OK && status != STATUS_UNAUTHORIZED ==> r == Err::<
                Vec<String>,
                FatalError,
            >(FatalError::UnexpectedStatus(status)),
            r matches Ok(v) ==> status == STATUS_OK && v@.len() == 2,
            status == STATUS_OK ==> match spec_user_of(body@) {
                Some(t) => r matches Ok(v) && v@.len() == 2 && v@[0]@ == t.3 && v@[1]@ == t.4,
                None => r == Err::<Vec<String>, FatalError>(FatalError::DecodeFailure),
            },
    {
        if status == STATUS_OK {
            match decode_user(body) {
                Some(u) => Ok(u.provider_ids()),
                None => Err(FatalError::DecodeFailure),
            }
        } else if status == STATUS_UNAUTHORIZED {
            Err(FatalError::Unauthorized)
        } else {
            Err(FatalError::UnexpectedStatus(status))
        }
    }
}

} // verus!
