//! Apple sign-in as the app sees it off iOS: the credential result, the
//! request sent to the backend (with the full name split into first and
//! last name), the backend's reply and the errors a failed sign-in is
//! reported with, and the fields that the native iOS layer hands back.

use vstd::prelude::*;
use crate::text::{concat, join_from, join_spaced, owned, split_words, words};

verus! {

/// What Apple hands back after a successful sign-in.
#[derive(Debug)]
pub struct AppleAuthResult {
    pub user_id: String,
    pub email: Option<String>,
    pub full_name: Option<String>,
    pub identity_token: String,
    pub authorization_code: String,
}

/// What the backend is told about the user.
#[derive(Debug)]
pub struct AppleUserInfo {
    pub email: Option<String>,
    pub name: Option<AppleUserName>,
}

/// A name split into first and last name.
#[derive(Debug)]
pub struct AppleUserName {
    pub first_name: Option<String>,
    pub last_name: Option<String>,
}

/// The sign-in request sent to the backend.
#[derive(Debug)]
pub struct AppleSignInRequest {
    pub identity_token: String,
    pub authorization_code: Option<String>,
    pub user_info: Option<AppleUserInfo>,
}

/// The state of an Apple ID credential.
#[derive(Debug, Clone, Copy, PartialEq, Eq, Structural)]
pub enum CredentialState {
    Revoked,
    Authorized,
    NotFound,
    Transferred,
    Unknown,
}

/// The credential state for the code that the native layer reports.
pub open spec fn credential_state_for(code: i32) -> CredentialState {
    if code == 0 {
        CredentialState::Revoked
    } else if code == 1 {
        CredentialState::Authorized
    } else if code == 2 {
        CredentialState::NotFound
    } else if code == 3 {
        CredentialState::Transferred
    } else {
        CredentialState::Unknown
    }
}

/// The credential state for the code that the native layer reports:
/// 0 revoked, 1 authorized, 2 not found, 3 transferred, anything else
/// unknown.
pub fn credential_state_from_code(code: i32) -> (r: CredentialState)
    ensures
        r == credential_state_for(code),
{
    match code {
        0 => CredentialState::Revoked,
        1 => CredentialState::Authorized,
        2 => CredentialState::NotFound,
        3 => CredentialState::Transferred,
        _ => CredentialState::Unknown,
    }
}

/// The credential state of a user. Off iOS every credential counts as
/// authorized.
pub fn check_credential_state(user_id: &str) -> (r: CredentialState)
    ensures
        r == CredentialState::Authorized,
{
    CredentialState::Authorized
}

/// Whether Apple sign-in can be offered. Off iOS it always can, with the
/// stand-in result of `sign_in_with_apple`.
pub fn is_apple_signin_available() -> (r: bool)
    ensures
        r,
{
    true
}

/// Signs in with Apple. Off iOS this is a stand-in that always succeeds
/// with a fixed test user.
pub fn sign_in_with_apple() -> (r: Result<AppleAuthResult, String>)
    ensures
        r is Ok,
        r->Ok_0.user_id@ == "mock_user_123"@,
        r->Ok_0.email is Some && r->Ok_0.email->Some_0@ == "mock@example.com"@,
        r->Ok_0.full_name is Some && r->Ok_0.full_name->Some_0@ == "Mock User"@,
        r->Ok_0.identity_token@ == "mock_identity_token"@,
        r->Ok_0.authorization_code@ == "mock_auth_code"@,
{
    Ok(
        AppleAuthResult {
            user_id: owned("mock_user_123"),
            email: Some(owned("mock@example.com")),
            full_name: Some(owned("Mock User")),
            identity_token: owned("mock_identity_token"),
            authorization_code: owned("mock_auth_code"),
        },
    )
}

/// `n` is the name split from `full`: the first word as first name, the
/// remaining words joined by single spaces as last name (none for a single
/// word).
pub open spec fn name_split(n: AppleUserName, full: Seq<char>) -> bool {
    let ws = words(full);
    &&& ws.len() > 0
    &&& n.first_name matches Some(f) && f@ == ws[0]
    &&& if ws.len() == 1 {
        n.last_name is None
    } else {
        n.last_name matches Some(l) && l@ == join_spaced(ws.skip(1))
    }
}

/// Splits a full name into first and last name; nothing for a name with no
/// words.
pub fn name_parts(full_name: &str) -> (r: Option<AppleUserName>)
    ensures
        r is None <==> words(full_name@).len() == 0,
        r matches Some(n) ==> name_split(n, full_name@),
{
    let parts = split_words(full_name);
    if parts.len() == 0 {
        None
    } else if parts.len() == 1 {
        Some(AppleUserName { first_name: Some(parts[0].clone()), last_name: None })
    } else {
        let last = join_from(&parts, 1);
        Some(AppleUserName { first_name: Some(parts[0].clone()), last_name: Some(last) })
    }
}

/// `info` tells the backend the email and split name of `a`.
pub open spec fn user_info_of(info: AppleUserInfo, a: AppleAuthResult) -> bool {
    &&& info.email == a.email
    &&& match a.full_name {
        Some(full) => match info.name {
            Some(n) => name_split(n, full@),
            None => words(full@).len() == 0,
        },
        None => info.name is None,
    }
}

/// The request that sends a sign-in result to the backend: the tokens, and
/// the user's email and split name when Apple gave either.
pub fn sign_in_request(auth_result: AppleAuthResult) -> (r: AppleSignInRequest)
    ensures
        r.identity_token == auth_result.identity_token,
        r.authorization_code == Some(auth_result.authorization_code),
        auth_result.email is None && auth_result.full_name is None ==> r.user_info is None,
        auth_result.email is Some || auth_result.full_name is Some ==> (r.user_info matches Some(info)
            && user_info_of(info, auth_result)),
{
    let user_info = if auth_result.email.is_some() || auth_result.full_name.is_some() {
        let name = match &auth_result.full_name {
            Some(full_name) => name_parts(full_name.as_str()),
            None => None,
        };
        Some(AppleUserInfo { email: auth_result.email.clone(), name })
    } else {
        None
    };
    AppleSignInRequest {
        identity_token: auth_result.identity_token,
        authorization_code: Some(auth_result.authorization_code),
        user_info,
    }
}

/// The fields that the native iOS sign-in hands back, each absent where the
/// native layer gave a null pointer.
#[derive(Debug)]
pub struct IOSAuthResult {
    pub user_id: Option<String>,
    pub email: Option<String>,
    pub full_name: Option<String>,
    pub identity_token: Option<String>,
    pub authorization_code: Option<String>,
    pub error: Option<String>,
}

/// The result that the native fields stand for: the native error when
/// there is one; otherwise a failure naming the first missing required
/// field; otherwise the sign-in result.
pub open spec fn native_outcome(n: IOSAuthResult) -> Result<(), Seq<char>> {
    match n.error {
        Some(e) => Err(e@),
        None => if n.user_id is None {
            Err("No user ID returned"@)
        } else if n.identity_token is None {
            Err("No identity token returned"@)
        } else if n.authorization_code is None {
            Err("No authorization code returned"@)
        } else {
            Ok(())
        },
    }
}

impl IOSAuthResult {
    /// The sign-in result that the native fields stand for.
    pub fn to_rust_result(&self) -> (r: Result<AppleAuthResult, String>)
        ensures
            native_outcome(*self) matches Err(msg) ==> (r matches Err(e) && e@ == msg),
            native_outcome(*self) is Ok ==> (r matches Ok(a) && Some(a.user_id) == self.user_id && a.email
                == self.email && a.full_name == self.full_name && Some(a.identity_token) == self.identity_token
                && Some(a.authorization_code) == self.authorization_code),
    {
        if let Some(error) = &self.error {
            return Err(error.clone());
        }
        let user_id = match &self.user_id {
            Some(u) => u.clone(),
            None => return Err(owned("No user ID returned")),
        };
        let identity_token = match &self.identity_token {
            Some(t) => t.clone(),
            None => return Err(owned("No identity token returned")),
        };
        let authorization_code = match &self.authorization_code {
            Some(c) => c.clone(),
            None => return Err(owned("No authorization code returned")),
        };
        Ok(
            AppleAuthResult {
                user_id,
                email: self.email.clone(),
                full_name: self.full_name.clone(),
                identity_token,
                authorization_code,
            },
        )
    }
}

/// How a sign-in request to the backend failed.
#[derive(Debug)]
pub enum SignInFailure {
    /// The request did not reach the backend; the network's error text.
    Network(String),
    /// The backend accepted the sign-in but its reply did not parse; the
    /// parser's error text.
    Unparsable(String),
    /// The backend refused the sign-in; its reply text, when it could be
    /// read.
    Rejected(Option<String>),
}

/// The message a failed backend sign-in is reported with.
pub open spec fn sign_in_failure_text(f: SignInFailure) -> Seq<char> {
    match f {
        SignInFailure::Network(e) => "Network error: "@ + e@,
        SignInFailure::Unparsable(e) => "Failed to parse response: "@ + e@,
        SignInFailure::Rejected(body) => "Authentication failed: "@ + match body {
            Some(t) => t@,
            None => "Unknown error"@,
        },
    }
}

/// The message a failed backend sign-in is reported with: the network's or
/// the parser's error, or the backend's reply ("Unknown error" when it could
/// not be read).
pub fn sign_in_failure_message(failure: &SignInFailure) -> (r: String)
    ensures
        r@ == sign_in_failure_text(*failure),
{
    match failure {
        SignInFailure::Network(e) => concat("Network error: ", e.as_str()),
        SignInFailure::Unparsable(e) => concat("Failed to parse response: ", e.as_str()),
        SignInFailure::Rejected(body) => match body {
            Some(t) => concat("Authentication failed: ", t.as_str()),
            None => concat("Authentication failed: ", "Unknown error"),
        },
    }
}

/// The backend's account record, as a sign-in reply carries it; times are
/// milliseconds since the Unix epoch and the metadata is its JSON text.
#[derive(Debug)]
pub struct UserResponse {
    pub id: String,
    pub email: String,
    pub username: String,
    pub created_at_ms: i64,
    pub updated_at_ms: i64,
    pub metadata_json: Option<String>,
}

/// The backend's reply to a successful Apple sign-in.
#[derive(Debug)]
pub struct AppleSignInResponse {
    pub token: String,
    pub user: UserResponse,
    pub is_new_user: bool,
}

/// What came back from sending a sign-in to the backend.
#[derive(Debug)]
pub enum SignInReply {
    /// The request did not reach the backend; the network's error text.
    Network(String),
    /// The backend accepted the sign-in and its reply parsed.
    Accepted(AppleSignInResponse),
    /// The backend accepted the sign-in but its reply did not parse; the
    /// parser's error text.
    Unparsable(String),
    /// The backend refused the sign-in; its reply text, when it could be
    /// read.
    Rejected(Option<String>),
}

/// The outcome of a sign-in with the backend: the accepted reply, or the
/// error it is reported with.
pub fn sign_in_outcome(reply: SignInReply) -> (r: Result<AppleSignInResponse, String>)
    ensures
        match reply {
            SignInReply::Accepted(resp) => r == Ok::<AppleSignInResponse, String>(resp),
            SignInReply::Network(e) => r matches Err(m) && m@ == sign_in_failure_text(SignInFailure::Network(e)),
            SignInReply::Unparsable(e) => r matches Err(m) && m@ == sign_in_failure_text(
                SignInFailure::Unparsable(e),
            ),
            SignInReply::Rejected(body) => r matches Err(m) && m@ == sign_in_failure_text(SignInFailure::Rejected(body)),
        },
{
    match reply {
        SignInReply::Accepted(resp) => Ok(resp),
        SignInReply::Network(e) => Err(sign_in_failure_message(&SignInFailure::Network(e))),
        SignInReply::Unparsable(e) => Err(sign_in_failure_message(&SignInFailure::Unparsable(e))),
        SignInReply::Rejected(body) => Err(sign_in_failure_message(&SignInFailure::Rejected(body))),
    }
}

} // verus!
