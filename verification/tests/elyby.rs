use yggdrasil_auth::account::{Account, AccountType};
use yggdrasil_auth::elyby::{is_two_factor, login_new, login_new_request, read_elyby_login};
use yggdrasil_auth::error::{
    AccountResponseError, AuthError, InvaildResponse, JsonError, RequestError,
};
use yggdrasil_auth::wire::{Body, FieldValue, LoginResponse, Reply, SelectedProfile};

const ELYBY: &str = "https://authserver.ely.by/auth/authenticate";

fn use_mock() {
    keyring::set_default_credential_builder(keyring::mock::default_credential_builder());
}

fn refusal(error: &str, message: &str) -> AccountResponseError {
    AccountResponseError { error: error.to_owned(), errorMessage: message.to_owned() }
}

fn two_factor() -> AccountResponseError {
    refusal("ForbiddenOperationException", "Account protected with two factor auth.")
}

fn refused(code: u16, error: AccountResponseError) -> Reply {
    let text = format!(
        "{{\"error\":\"{}\",\"errorMessage\":\"{}\"}}",
        error.error, error.errorMessage
    );
    Reply::Arrived {
        code,
        url: ELYBY.to_owned(),
        body: Ok(Body { text, login: Err("missing field `accessToken`".to_owned()), error: Some(error) }),
    }
}

fn accepted(profile: Option<SelectedProfile>) -> Reply {
    Reply::Arrived {
        code: 200,
        url: ELYBY.to_owned(),
        body: Ok(Body {
            text: String::new(),
            login: Ok(LoginResponse {
                access_token: "T1".to_owned(),
                client_token: "C1".to_owned(),
                selected_profile: profile,
            }),
            error: None,
        }),
    }
}

#[test]
fn elyby_request_goes_to_the_fixed_address() {
    let request = login_new_request("alice@example.com", "hunter2");
    assert_eq!(request.url, ELYBY);
    assert_eq!(request.body.len(), 4);
    assert_eq!(request.body[1].name, "username");
    assert!(matches!(&request.body[1].value, FieldValue::Text(text) if text == "alice@example.com"));
    assert_eq!(request.body[2].name, "password");
    assert!(matches!(&request.body[2].value, FieldValue::Text(text) if text == "hunter2"));
}

#[test]
fn two_factor_refusal_asks_for_one_time_password() {
    use_mock();
    let result = login_new("alice".to_owned(), refused(403, two_factor()));
    assert!(matches!(result, Ok(Account::NeedsOTP)));
}

#[test]
fn two_factor_refusal_with_success_status_asks_for_one_time_password() {
    use_mock();
    let result = login_new("alice".to_owned(), refused(200, two_factor()));
    assert!(matches!(result, Ok(Account::NeedsOTP)));
}

#[test]
fn other_refusal_with_failure_status_is_a_status_error() {
    use_mock();
    let result = login_new(
        "alice".to_owned(),
        refused(401, refusal("ForbiddenOperationException", "Invalid credentials.")),
    );
    assert!(matches!(
        result,
        Err(AuthError::Request(RequestError::DownloadError { code: 401, url })) if url == ELYBY
    ));
}

#[test]
fn other_refusal_with_success_status_is_the_servers_refusal() {
    use_mock();
    let result = login_new(
        "alice".to_owned(),
        refused(
            200,
            refusal("ForbiddenOperationException", "Invalid credentials. Invalid nickname or password."),
        ),
    );
    match result {
        Err(AuthError::Response(refusal)) => {
            assert_eq!(refusal.error, "ForbiddenOperationException");
            assert_eq!(refusal.errorMessage, "Invalid credentials. Invalid nickname or password.");
        }
        other => panic!("unexpected: {:?}", other),
    }
}

#[test]
fn undecodable_body_with_success_status_is_a_decode_error() {
    use_mock();
    let reply = Reply::Arrived {
        code: 200,
        url: ELYBY.to_owned(),
        body: Ok(Body {
            text: "<html>".to_owned(),
            login: Err("expected value at line 1 column 1".to_owned()),
            error: None,
        }),
    };
    assert!(matches!(
        login_new("alice".to_owned(), reply),
        Err(AuthError::Json(JsonError { error, json }))
            if error == "expected value at line 1 column 1" && json == "<html>"
    ));
}

#[test]
fn elyby_accepted_login_gives_account() {
    use_mock();
    let profile = SelectedProfile { id: "U1".to_owned(), name: "Alice".to_owned() };
    match login_new("alice".to_owned(), accepted(Some(profile))).unwrap() {
        Account::Account(account) => {
            assert_eq!(account.access_token.as_deref(), Some("T1"));
            assert_eq!(account.refresh_token, "T1");
            assert_eq!(account.client_token, "C1");
            assert_eq!(account.uuid, "U1");
            assert_eq!(account.nice_username, "Alice");
            assert_eq!(account.username, "alice");
            assert!(!account.needs_refresh);
            assert!(matches!(account.account_type, AccountType::ElyBy));
            assert_eq!(account.get_username_modified(), "alice (elyby)");
        }
        Account::NeedsOTP => panic!("no second factor was asked for"),
    }
}

#[test]
fn elyby_missing_profile_is_a_failure() {
    use_mock();
    let result = login_new("alice".to_owned(), accepted(None));
    assert!(matches!(result, Err(AuthError::InvalidResponse(InvaildResponse::MissingProfile))));
}

#[test]
fn elyby_transport_failure() {
    let result = read_elyby_login(Reply::Failed("timed out".to_owned()));
    assert!(matches!(
        result,
        Err(AuthError::Request(RequestError::ReqwestError(text))) if text == "timed out"
    ));
    let unread = Reply::Arrived { code: 503, url: ELYBY.to_owned(), body: Err("reset".to_owned()) };
    assert!(matches!(
        read_elyby_login(unread),
        Err(AuthError::Request(RequestError::DownloadError { code: 503, .. }))
    ));
}

#[test]
fn two_factor_needs_both_texts() {
    assert!(is_two_factor(&two_factor()));
    assert!(!is_two_factor(&refusal("ForbiddenOperationException", "Invalid credentials.")));
    assert!(!is_two_factor(&refusal("IllegalArgumentException", "Account protected with two factor auth.")));
    assert!(!is_two_factor(&refusal("", "")));
}

#[test]
fn failure_status_with_body_of_both_shapes_is_a_status_error() {
    use_mock();
    let both = Body {
        text: String::new(),
        login: Ok(LoginResponse {
            access_token: "T1".to_owned(),
            client_token: "C1".to_owned(),
            selected_profile: Some(SelectedProfile { id: "U1".to_owned(), name: "Alice".to_owned() }),
        }),
        error: Some(two_factor()),
    };
    let reply = Reply::Arrived { code: 403, url: ELYBY.to_owned(), body: Ok(both) };
    assert!(matches!(
        login_new("alice".to_owned(), reply),
        Err(AuthError::Request(RequestError::DownloadError { code: 403, url })) if url == ELYBY
    ));
}

#[test]
fn success_status_with_body_of_both_shapes_is_an_accepted_login() {
    use_mock();
    let both = Body {
        text: String::new(),
        login: Ok(LoginResponse {
            access_token: "T1".to_owned(),
            client_token: "C1".to_owned(),
            selected_profile: Some(SelectedProfile { id: "U1".to_owned(), name: "Alice".to_owned() }),
        }),
        error: Some(two_factor()),
    };
    let reply = Reply::Arrived { code: 200, url: ELYBY.to_owned(), body: Ok(both) };
    assert!(matches!(login_new("alice".to_owned(), reply), Ok(Account::Account(_))));
}
