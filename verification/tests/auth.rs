use abcdeez_app::auth::apple::{
    check_credential_state, credential_state_from_code, is_apple_signin_available, name_parts, sign_in_request,
    sign_in_failure_message, sign_in_outcome, sign_in_with_apple, AppleAuthResult, AppleSignInResponse,
    CredentialState, IOSAuthResult, SignInFailure, SignInReply, UserResponse,
};
use abcdeez_app::auth::ios;

fn native(error: Option<&str>, user: Option<&str>, token: Option<&str>, code: Option<&str>) -> IOSAuthResult {
    IOSAuthResult {
        user_id: user.map(|s| s.to_string()),
        email: Some("a@b.c".to_string()),
        full_name: None,
        identity_token: token.map(|s| s.to_string()),
        authorization_code: code.map(|s| s.to_string()),
        error: error.map(|s| s.to_string()),
    }
}

#[test]
fn credential_codes() {
    assert_eq!(credential_state_from_code(0), CredentialState::Revoked);
    assert_eq!(credential_state_from_code(1), CredentialState::Authorized);
    assert_eq!(credential_state_from_code(2), CredentialState::NotFound);
    assert_eq!(credential_state_from_code(3), CredentialState::Transferred);
    assert_eq!(credential_state_from_code(4), CredentialState::Unknown);
    assert_eq!(credential_state_from_code(-1), CredentialState::Unknown);
    assert_eq!(ios::credential_state_from_code(1), ios::CredentialState::Authorized);
    assert_eq!(ios::credential_state_from_code(9), ios::CredentialState::Unknown);
}

#[test]
fn desktop_stand_ins() {
    assert_eq!(check_credential_state("anyone"), CredentialState::Authorized);
    assert!(is_apple_signin_available());
    let r = sign_in_with_apple().unwrap();
    assert_eq!(r.user_id, "mock_user_123");
    assert_eq!(r.email.as_deref(), Some("mock@example.com"));
    assert_eq!(r.full_name.as_deref(), Some("Mock User"));
    assert_eq!(r.identity_token, "mock_identity_token");
    assert_eq!(r.authorization_code, "mock_auth_code");
}

#[test]
fn full_names_split_into_first_and_last() {
    let n = name_parts("John Ronald Reuel Tolkien").unwrap();
    assert_eq!(n.first_name.as_deref(), Some("John"));
    assert_eq!(n.last_name.as_deref(), Some("Ronald Reuel Tolkien"));
    let n = name_parts("  Ada   Lovelace ").unwrap();
    assert_eq!(n.first_name.as_deref(), Some("Ada"));
    assert_eq!(n.last_name.as_deref(), Some("Lovelace"));
    let n = name_parts("Cher").unwrap();
    assert_eq!(n.first_name.as_deref(), Some("Cher"));
    assert_eq!(n.last_name, None);
    assert!(name_parts("").is_none());
    assert!(name_parts(" \t\n").is_none());
}

#[test]
fn sign_in_request_carries_tokens_and_user_info() {
    let req = sign_in_request(sign_in_with_apple().unwrap());
    assert_eq!(req.identity_token, "mock_identity_token");
    assert_eq!(req.authorization_code.as_deref(), Some("mock_auth_code"));
    let info = req.user_info.unwrap();
    assert_eq!(info.email.as_deref(), Some("mock@example.com"));
    let name = info.name.unwrap();
    assert_eq!(name.first_name.as_deref(), Some("Mock"));
    assert_eq!(name.last_name.as_deref(), Some("User"));

    let bare = AppleAuthResult {
        user_id: "u".to_string(),
        email: None,
        full_name: None,
        identity_token: "tok".to_string(),
        authorization_code: "code".to_string(),
    };
    let req = sign_in_request(bare);
    assert!(req.user_info.is_none());

    let nameless = AppleAuthResult {
        user_id: "u".to_string(),
        email: None,
        full_name: Some("   ".to_string()),
        identity_token: "tok".to_string(),
        authorization_code: "code".to_string(),
    };
    let info = sign_in_request(nameless).user_info.unwrap();
    assert!(info.email.is_none());
    assert!(info.name.is_none());
}

#[test]
fn native_fields_become_a_result() {
    let ok = native(None, Some("uid"), Some("tok"), Some("code")).to_rust_result().unwrap();
    assert_eq!(ok.user_id, "uid");
    assert_eq!(ok.identity_token, "tok");
    assert_eq!(ok.authorization_code, "code");
    assert_eq!(ok.email.as_deref(), Some("a@b.c"));

    let err = |n: IOSAuthResult| n.to_rust_result().err().unwrap();
    assert_eq!(err(native(Some("cancelled"), Some("uid"), Some("tok"), Some("code"))), "cancelled");
    assert_eq!(err(native(None, None, Some("tok"), Some("code"))), "No user ID returned");
    assert_eq!(err(native(None, Some("uid"), None, Some("code"))), "No identity token returned");
    assert_eq!(err(native(None, Some("uid"), Some("tok"), None)), "No authorization code returned");
    assert_eq!(err(native(None, None, None, None)), "No user ID returned");
}

#[test]
fn ios_bridge_results() {
    let failed = ios::IOSAuthResult {
        success: false,
        user_id: None,
        email: None,
        given_name: None,
        family_name: None,
        is_private_email: false,
        error_message: None,
    };
    assert_eq!(ios::sign_in_result_from_native(&failed).err().unwrap(), "Unknown error");
    let refused = ios::IOSAuthResult { error_message: Some("denied".to_string()), ..failed };
    assert_eq!(ios::sign_in_result_from_native(&refused).err().unwrap(), "denied");

    let good = ios::IOSAuthResult {
        success: true,
        user_id: Some("001.abc".to_string()),
        email: Some("x@privaterelay.appleid.com".to_string()),
        given_name: Some("Grace".to_string()),
        family_name: Some("Hopper".to_string()),
        is_private_email: true,
        error_message: None,
    };
    let r = ios::sign_in_result_from_native(&good).unwrap();
    assert_eq!(r.user_id, "001.abc");
    assert_eq!(r.given_name.as_deref(), Some("Grace"));
    assert!(r.is_private_email);
    let no_id = ios::IOSAuthResult { user_id: None, ..good };
    assert_eq!(ios::sign_in_result_from_native(&no_id).unwrap().user_id, "");

    let bridge = ios::IOSAuthBridge::new();
    assert_eq!(bridge.apple_sign_in().err().unwrap(), "Apple Sign In is only available on iOS");
    assert!(!bridge.is_available());
    assert_eq!(bridge.get_credential_state("u"), ios::CredentialState::Unknown);
}

#[test]
fn failed_backend_sign_in_messages() {
    assert_eq!(sign_in_failure_message(&SignInFailure::Network("timed out".to_string())), "Network error: timed out");
    assert_eq!(
        sign_in_failure_message(&SignInFailure::Unparsable("missing field `token`".to_string())),
        "Failed to parse response: missing field `token`"
    );
    assert_eq!(
        sign_in_failure_message(&SignInFailure::Rejected(Some("invalid token".to_string()))),
        "Authentication failed: invalid token"
    );
    assert_eq!(sign_in_failure_message(&SignInFailure::Rejected(None)), "Authentication failed: Unknown error");
}

#[test]
fn backend_sign_in_outcomes() {
    let reply = AppleSignInResponse {
        token: "t0k".to_string(),
        user: UserResponse {
            id: "u1".to_string(),
            email: "a@b.c".to_string(),
            username: "ada".to_string(),
            created_at_ms: 1,
            updated_at_ms: 2,
            metadata_json: None,
        },
        is_new_user: true,
    };
    let ok = sign_in_outcome(SignInReply::Accepted(reply)).unwrap();
    assert_eq!(ok.token, "t0k");
    assert_eq!(ok.user.username, "ada");
    assert!(ok.is_new_user);
    assert_eq!(
        sign_in_outcome(SignInReply::Network("down".to_string())).unwrap_err(),
        "Network error: down"
    );
    assert_eq!(
        sign_in_outcome(SignInReply::Unparsable("eof".to_string())).unwrap_err(),
        "Failed to parse response: eof"
    );
    assert_eq!(sign_in_outcome(SignInReply::Rejected(None)).unwrap_err(), "Authentication failed: Unknown error");
}
