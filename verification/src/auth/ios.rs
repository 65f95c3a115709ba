//! The bridge to the native iOS sign-in. Off iOS every call reports that
//! sign-in is unavailable; the conversion of what the native layer hands
//! back is shared by both.

use vstd::prelude::*;
use crate::text::owned;

verus! {

/// What the native iOS sign-in hands back, each text absent where the
/// native layer gave a null pointer.
#[derive(Debug)]
pub struct IOSAuthResult {
    pub success: bool,
    pub user_id: Option<String>,
    pub email: Option<String>,
    pub given_name: Option<String>,
    pub family_name: Option<String>,
    pub is_private_email: bool,
    pub error_message: Option<String>,
}

/// The result of Apple sign-in through the bridge.
#[derive(Debug)]
pub struct AppleSignInResult {
    pub user_id: String,
    pub email: Option<String>,
    pub given_name: Option<String>,
    pub family_name: Option<String>,
    pub is_private_email: bool,
}

/// The state of an Apple ID credential.
#[derive(Debug, Clone, Copy, PartialEq, Eq, Structural)]
pub enum CredentialState {
    Revoked,
    Authorized,
    NotFound,
    Transferred,
    Unknown,
}

/// The credential state for the code that the native layer reports.
pub open spec fn credential_state_for(code: i32) -> CredentialState {
    if code == 0 {
        CredentialState::Revoked
    } else if code == 1 {
        CredentialState::Authorized
    } else if code == 2 {
        CredentialState::NotFound
    } else if code == 3 {
        CredentialState::Transferred
    } else {
        CredentialState::Unknown
    }
}

/// The credential state for the code that the native layer reports:
/// 0 revoked, 1 authorized, 2 not found, 3 transferred, anything else
/// unknown.
pub fn credential_state_from_code(code: i32) -> (r: CredentialState)
    ensures
        r == credential_state_for(code),
{
    match code {
        0 => CredentialState::Revoked,
        1 => CredentialState::Authorized,
        2 => CredentialState::NotFound,
        3 => CredentialState::Transferred,
        _ => CredentialState::Unknown,
    }
}

/// The sign-in result for what the native layer handed back: its error
/// message ("Unknown error" when it gave none) on failure; otherwise the
/// user's details, with an empty user id where it gave none.
pub fn sign_in_result_from_native(native: &IOSAuthResult) -> (r: Result<AppleSignInResult, String>)
    ensures
        !native.success ==> (r matches Err(e) && e@ == match native.error_message {
            Some(m) => m@,
            None => "Unknown error"@,
        }),
        native.success ==> (r matches Ok(a) && a.user_id@ == match native.user_id {
            Some(u) => u@,
            None => Seq::<char>::empty(),
        } && a.email == native.email && a.given_name == native.given_name && a.family_name == native.family_name
            && a.is_private_email == native.is_private_email),
{
    if !native.success {
        return match &native.error_message {
            Some(m) => Err(m.clone()),
            None => Err(owned("Unknown error")),
        };
    }
    let user_id = match &native.user_id {
        Some(u) => u.clone(),
        None => String::new(),
    };
    Ok(
        AppleSignInResult {
            user_id,
            email: native.email.clone(),
            given_name: native.given_name.clone(),
            family_name: native.family_name.clone(),
            is_private_email: native.is_private_email,
        },
    )
}

/// The bridge between the app and the native iOS sign-in.
#[derive(Debug, Clone, Copy)]
pub struct IOSAuthBridge;

impl IOSAuthBridge {
    pub fn new() -> (r: Self)
        ensures
            r == IOSAuthBridge,
    {
        IOSAuthBridge
    }

    /// Starts Apple sign-in; off iOS it is not available.
    pub fn apple_sign_in(&self) -> (r: Result<AppleSignInResult, String>)
        ensures
            r matches Err(e) && e@ == "Apple Sign In is only available on iOS"@,
    {
        Err(owned("Apple Sign In is only available on iOS"))
    }

    /// Whether Apple sign-in is available; off iOS it is not.
    pub fn is_available(&self) -> (r: bool)
        ensures
            !r,
    {
        false
    }

    /// The credential state of a user; off iOS it is unknown.
    pub fn get_credential_state(&self, user_id: &str) -> (r: CredentialState)
        ensures
            r == CredentialState::Unknown,
    {
        CredentialState::Unknown
    }
}

} // verus!
