use serde_json::Value;
use yggdrasil_auth::account::{AccountData, AccountType};
use yggdrasil_auth::error::{
    AccountResponseError, AuthError, DrasilInputError, InvaildResponse, JsonError, KeyringError,
    KeyringErrorKind, RequestError,
};
use yggdrasil_auth::login::{
    deletion_warning, logout_outcome, make_account, make_request, read_invalidation, read_login,
    settle, stored_secret,
};
use yggdrasil_auth::provider::YggdrasilProvider;
use yggdrasil_auth::store::{
    no_entry, read_refresh_token, secret_read, service_name, store_answer,
};
use yggdrasil_auth::wire::{
    authenticate_fields, Body, Field, FieldValue, LoginResponse, Reply, SelectedProfile,
};

const SERVER: &str = "https://drasl.example.com/auth/authenticate";

fn use_mock_store() {
    keyring::set_default_credential_builder(keyring::mock::default_credential_builder());
}

fn text_at(value: &Value, key: &str) -> Option<String> {
    value.get(key).and_then(Value::as_str).map(str::to_owned)
}

fn login_of(value: &Value) -> Option<LoginResponse> {
    let profile = match value.get("selectedProfile") {
        None | Some(Value::Null) => None,
        Some(profile) => Some(SelectedProfile {
            id: text_at(profile, "id")?,
            name: text_at(profile, "name")?,
        }),
    };
    Some(LoginResponse {
        access_token: text_at(value, "accessToken")?,
        client_token: text_at(value, "clientToken")?,
        selected_profile: profile,
    })
}

fn refusal_of(value: &Value) -> Option<AccountResponseError> {
    Some(AccountResponseError {
        error: text_at(value, "error")?,
        errorMessage: text_at(value, "errorMessage")?,
    })
}

fn body_of(text: &str) -> Body {
    match serde_json::from_str::<Value>(text) {
        Ok(value) => Body {
            text: text.to_owned(),
            login: login_of(&value).ok_or_else(|| "missing field".to_owned()),
            error: refusal_of(&value),
        },
        Err(error) => Body { text: text.to_owned(), login: Err(error.to_string()), error: None },
    }
}

fn reply(code: u16, url: &str, text: &str) -> Reply {
    Reply::Arrived { code, url: url.to_owned(), body: Ok(body_of(text)) }
}

fn logged_in(provider: &YggdrasilProvider) -> AccountData {
    AccountData {
        access_token: Some("T1".to_owned()),
        client_token: "C1".to_owned(),
        uuid: "U1".to_owned(),
        refresh_token: "T1".to_owned(),
        needs_refresh: true,
        username: "alice".to_owned(),
        nice_username: "Alice".to_owned(),
        account_type: AccountType::Yggdrasil(provider.clone()),
    }
}

fn describe(fields: &[Field]) -> Vec<String> {
    fields
        .iter()
        .map(|field| match &field.value {
            FieldValue::Text(text) => format!("{}=\"{}\"", field.name, text),
            FieldValue::Flag(flag) => format!("{}={}", field.name, flag),
            FieldValue::Agent { name, version } => format!("{}={{{} {}}}", field.name, name, version),
        })
        .collect()
}

const ACCEPTED: &str =
    r#"{"accessToken":"T1","clientToken":"C1","selectedProfile":{"id":"U1","name":"Alice"}}"#;
const TWO_FACTOR: &str =
    r#"{"error":"ForbiddenOperationException","errorMessage":"Account protected with two factor auth."}"#;

#[test]
fn login_new_request_posts_credentials_to_authenticate() {
    let request = YggdrasilProvider::login_new_request(SERVER, "alice", "hunter2").unwrap();
    assert_eq!(request.url, "https://drasl.example.com/auth/authenticate");
    assert_eq!(
        describe(&request.body),
        vec![
            "agent={Minecraft 1}".to_owned(),
            "username=\"alice\"".to_owned(),
            "password=\"hunter2\"".to_owned(),
            "requestUser=true".to_owned(),
        ]
    );
    assert!(request.body.iter().all(|field| field.name != "clientToken"));
}

#[test]
fn login_new_request_refuses_bad_address() {
    let result = YggdrasilProvider::login_new_request("/relative", "alice", "hunter2");
    assert!(matches!(
        result,
        Err(AuthError::InputError(DrasilInputError::CantParseUrl(reason)))
            if reason == "relative URL without a base. Url must have a host for example: https://example.com/authenticate"
    ));
}

#[test]
fn authenticate_fields_are_in_order() {
    let fields = authenticate_fields("u", "p");
    let names: Vec<&str> = fields.iter().map(|field| field.name.as_str()).collect();
    assert_eq!(names, vec!["agent", "username", "password", "requestUser"]);
}

#[test]
fn accepted_login_gives_account() {
    use_mock_store();
    let account = YggdrasilProvider::login_new(
        SERVER.to_owned(),
        "alice".to_owned(),
        reply(200, SERVER, ACCEPTED),
    )
    .unwrap();
    assert_eq!(account.access_token.as_deref(), Some("T1"));
    assert_eq!(account.client_token, "C1");
    assert_eq!(account.uuid, "U1");
    assert_eq!(account.nice_username, "Alice");
    assert_eq!(account.refresh_token, "T1");
    assert_eq!(account.username, "alice");
    assert!(!account.needs_refresh);
    match &account.account_type {
        AccountType::Yggdrasil(provider) => {
            assert_eq!(provider.domain(), "drasl.example.com");
            assert_eq!(provider.url(), SERVER);
        }
        other => panic!("wrong family: {}", other.name()),
    }
}

#[test]
fn refusal_on_generic_path_carries_both_fields() {
    use_mock_store();
    let result = YggdrasilProvider::login_new(
        SERVER.to_owned(),
        "alice".to_owned(),
        reply(200, SERVER, TWO_FACTOR),
    );
    match result {
        Err(AuthError::Response(refusal)) => {
            assert_eq!(refusal.error, "ForbiddenOperationException");
            assert_eq!(refusal.errorMessage, "Account protected with two factor auth.");
        }
        other => panic!("unexpected: {:?}", other),
    }
}

#[test]
fn refusal_with_failure_status_on_generic_path_is_a_status_error() {
    use_mock_store();
    let result = YggdrasilProvider::login_new(
        SERVER.to_owned(),
        "alice".to_owned(),
        reply(403, SERVER, TWO_FACTOR),
    );
    match result {
        Err(AuthError::Request(RequestError::DownloadError { code, url })) => {
            assert_eq!(code, 403);
            assert_eq!(url, SERVER);
        }
        other => panic!("unexpected: {:?}", other),
    }
}

#[test]
fn missing_profile_is_a_failure() {
    use_mock_store();
    let result = YggdrasilProvider::login_new(
        SERVER.to_owned(),
        "alice".to_owned(),
        reply(200, SERVER, r#"{"accessToken":"T1","clientToken":"C1"}"#),
    );
    assert!(matches!(result, Err(AuthError::InvalidResponse(InvaildResponse::MissingProfile))));
    let result = YggdrasilProvider::login_new(
        SERVER.to_owned(),
        "alice".to_owned(),
        reply(200, SERVER, r#"{"accessToken":"T1","clientToken":"C1","selectedProfile":null}"#),
    );
    assert!(matches!(result, Err(AuthError::InvalidResponse(InvaildResponse::MissingProfile))));
}

#[test]
fn login_new_reports_bad_address() {
    use_mock_store();
    let result = YggdrasilProvider::login_new(
        "mailto:a@example.com".to_owned(),
        "alice".to_owned(),
        reply(200, SERVER, ACCEPTED),
    );
    assert!(matches!(
        result,
        Err(AuthError::InputError(DrasilInputError::CantParseUrl(reason)))
            if reason == "Url must have a host for example: https://example.com/authenticate"
    ));
}

#[test]
fn undecodable_body_is_a_json_error() {
    let result = read_login(reply(200, SERVER, "<html>"));
    match result {
        Err(AuthError::Json(JsonError { error, json })) => {
            assert_eq!(json, "<html>");
            assert!(!error.is_empty());
        }
        other => panic!("unexpected: {:?}", other),
    }
}

#[test]
fn transport_failures_are_request_errors() {
    let result = read_login(Reply::Failed("connection refused".to_owned()));
    assert!(matches!(
        result,
        Err(AuthError::Request(RequestError::ReqwestError(text))) if text == "connection refused"
    ));
    let unread = Reply::Arrived { code: 200, url: SERVER.to_owned(), body: Err("reset".to_owned()) };
    assert!(matches!(
        read_login(unread),
        Err(AuthError::Request(RequestError::ReqwestError(text))) if text == "reset"
    ));
}

#[test]
fn accepted_shape_wins_over_refusal_shape() {
    let body = Body {
        text: String::new(),
        login: Ok(LoginResponse {
            access_token: "T".to_owned(),
            client_token: "C".to_owned(),
            selected_profile: None,
        }),
        error: Some(AccountResponseError { error: "e".to_owned(), errorMessage: "m".to_owned() }),
    };
    let login = read_login(Reply::Arrived { code: 204, url: SERVER.to_owned(), body: Ok(body) }).unwrap();
    assert_eq!(login.access_token, "T");
}

#[test]
fn make_account_reads_the_profile() {
    let login = LoginResponse {
        access_token: "T9".to_owned(),
        client_token: "C9".to_owned(),
        selected_profile: Some(SelectedProfile { id: "U9".to_owned(), name: "Bob".to_owned() }),
    };
    let account = make_account(login, "bob@example.com".to_owned(), AccountType::ElyBy).unwrap();
    assert_eq!(account.access_token.as_deref(), Some("T9"));
    assert_eq!(account.refresh_token, "T9");
    assert_eq!(account.client_token, "C9");
    assert_eq!(account.uuid, "U9");
    assert_eq!(account.nice_username, "Bob");
    assert_eq!(account.username, "bob@example.com");
    assert!(!account.needs_refresh);
    assert!(account.is_elyby());
}

#[test]
fn settle_follows_the_store() {
    let provider = YggdrasilProvider::parse(SERVER).unwrap();
    let kept = settle(logged_in(&provider), Ok(())).unwrap();
    assert_eq!(kept.uuid, "U1");
    let refused = settle(logged_in(&provider), Err(AuthError::KeyringError(no_entry())));
    assert!(matches!(refused, Err(AuthError::KeyringError(error)) if error.kind == KeyringErrorKind::NoEntry));
}

#[test]
fn refresh_request_posts_tokens_to_refresh() {
    use_mock_store();
    let provider = YggdrasilProvider::parse(SERVER).unwrap();
    let mut account = logged_in(&provider);
    account.refresh_token = "R1".to_owned();
    let request = provider.login_refresh_request(&account).unwrap();
    assert_eq!(request.url, "https://drasl.example.com/auth/refresh");
    assert_eq!(
        describe(&request.body),
        vec!["accessToken=\"R1\"".to_owned(), "clientToken=\"C1\"".to_owned()]
    );
}

#[test]
fn refresh_replaces_what_the_server_sent() {
    use_mock_store();
    let provider = YggdrasilProvider::parse(SERVER).unwrap();
    let account = logged_in(&provider);
    let renewed = provider
        .login_refresh(
            &account,
            reply(
                200,
                SERVER,
                r#"{"accessToken":"T2","clientToken":"C2","selectedProfile":{"id":"U2","name":"alice_"}}"#,
            ),
        )
        .unwrap();
    assert_eq!(renewed.access_token.as_deref(), Some("T2"));
    assert_eq!(renewed.refresh_token, "T2");
    assert_eq!(renewed.client_token, "C2");
    assert_eq!(renewed.uuid, "U2");
    assert_eq!(renewed.nice_username, "alice_");
    assert_eq!(renewed.username, "alice");
    assert!(!renewed.needs_refresh);
    assert!(matches!(renewed.account_type, AccountType::Yggdrasil(_)));
    assert_eq!(account.access_token.as_deref(), Some("T1"));
}

#[test]
fn refresh_after_login_round_trip() {
    use_mock_store();
    let account = YggdrasilProvider::login_new(
        SERVER.to_owned(),
        "alice".to_owned(),
        reply(200, SERVER, ACCEPTED),
    )
    .unwrap();
    let provider = match &account.account_type {
        AccountType::Yggdrasil(provider) => provider.clone(),
        other => panic!("wrong family: {}", other.name()),
    };
    let renewed = provider
        .login_refresh(
            &account,
            reply(
                200,
                SERVER,
                r#"{"accessToken":"T2","clientToken":"C1","selectedProfile":{"id":"U1","name":"Alice"}}"#,
            ),
        )
        .unwrap();
    assert!(!renewed.needs_refresh);
    assert!(renewed.access_token.is_some());
    assert_eq!(renewed.access_token.as_deref(), Some("T2"));
}

#[test]
fn refresh_failures() {
    use_mock_store();
    let provider = YggdrasilProvider::parse(SERVER).unwrap();
    let account = logged_in(&provider);
    let result = provider.login_refresh(&account, reply(401, "https://drasl.example.com/auth/refresh", "{}"));
    assert!(matches!(
        result,
        Err(AuthError::Request(RequestError::DownloadError { code: 401, url }))
            if url == "https://drasl.example.com/auth/refresh"
    ));
    let result = provider.login_refresh(
        &account,
        reply(200, SERVER, r#"{"accessToken":"T2","clientToken":"C2"}"#),
    );
    assert!(matches!(result, Err(AuthError::InvalidResponse(InvaildResponse::MissingProfile))));
}

#[test]
fn invalidate_without_token_fails_at_once() {
    let provider = YggdrasilProvider::parse(SERVER).unwrap();
    let mut account = logged_in(&provider);
    account.access_token = None;
    match provider.invalidate_request(&account) {
        Err(AuthError::KeyringError(error)) => {
            assert_eq!(error.kind, KeyringErrorKind::NoEntry);
            assert_eq!(error.cause, "");
            assert_eq!(error.text, "No matching entry found in secure storage");
        }
        other => panic!("unexpected: {:?}", other),
    }
    let result = provider.invalidate(&mut account, reply(204, SERVER, ""));
    assert!(matches!(
        result,
        Err(AuthError::KeyringError(error)) if error.kind == KeyringErrorKind::NoEntry
    ));
}

#[test]
fn invalidate_request_posts_session_to_invalidate() {
    let provider = YggdrasilProvider::parse(SERVER).unwrap();
    let account = logged_in(&provider);
    let request = provider.invalidate_request(&account).unwrap();
    assert_eq!(request.url, "https://drasl.example.com/auth/invalidate");
    assert_eq!(
        describe(&request.body),
        vec![
            "agent={Minecraft 1}".to_owned(),
            "accessToken=\"T1\"".to_owned(),
            "clientToken=\"C1\"".to_owned(),
            "requestUser=true".to_owned(),
        ]
    );
}

#[test]
fn invalidate_succeeds_on_success_status_and_keeps_the_account() {
    let provider = YggdrasilProvider::parse(SERVER).unwrap();
    let mut account = logged_in(&provider);
    assert!(provider.invalidate(&mut account, reply(204, SERVER, "")).is_ok());
    assert_eq!(account.access_token.as_deref(), Some("T1"));
    assert!(account.needs_refresh);
}

#[test]
fn invalidate_reports_the_servers_refusal() {
    let provider = YggdrasilProvider::parse(SERVER).unwrap();
    let mut account = logged_in(&provider);
    let result = provider.invalidate(
        &mut account,
        reply(403, SERVER, r#"{"error":"ForbiddenOperationException","errorMessage":"Invalid token."}"#),
    );
    assert!(matches!(
        result,
        Err(AuthError::Response(AccountResponseError { error, errorMessage }))
            if error == "ForbiddenOperationException" && errorMessage == "Invalid token."
    ));
}

#[test]
fn invalidate_stands_in_for_unreadable_refusal() {
    let result = read_invalidation(reply(500, SERVER, "Internal Server Error"));
    assert!(matches!(
        result,
        Err(AuthError::Response(AccountResponseError { error, errorMessage }))
            if error == "Cant parse unsuccessful response"
                && errorMessage == "cant parse Error into AccountResponseError"
    ));
    let unread = Reply::Arrived { code: 500, url: SERVER.to_owned(), body: Err("reset".to_owned()) };
    assert!(matches!(
        read_invalidation(unread),
        Err(AuthError::Request(RequestError::ReqwestError(text))) if text == "reset"
    ));
    assert!(matches!(
        read_invalidation(Reply::Failed("down".to_owned())),
        Err(AuthError::Request(RequestError::ReqwestError(text))) if text == "down"
    ));
}

#[test]
fn logout_tolerates_absent_entry() {
    use_mock_store();
    let provider = YggdrasilProvider::parse(SERVER).unwrap();
    assert!(provider.logout("alice").is_ok());
    assert!(provider.logout("alice").is_ok());
}

#[test]
fn logout_outcome_is_always_done() {
    assert!(logout_outcome(Ok(())).is_ok());
    assert!(logout_outcome(Err(no_entry())).is_ok());
}

#[test]
fn read_refresh_token_reports_missing_entry() {
    use_mock_store();
    match read_refresh_token("nobody", "drasl.example.com") {
        Err(AuthError::KeyringError(error)) => {
            assert_eq!(error.kind, KeyringErrorKind::NoEntry);
            assert_eq!(error.cause, "");
            assert_eq!(error.text, "No matching entry found in secure storage");
        }
        other => panic!("unexpected: {:?}", other),
    }
}

#[test]
fn secret_read_hands_on_either_answer() {
    assert_eq!(secret_read(Ok("T1".to_owned())).unwrap(), "T1");
    assert!(matches!(
        secret_read(Err(no_entry())),
        Err(AuthError::KeyringError(error)) if error.kind == KeyringErrorKind::NoEntry
    ));
}

#[test]
fn store_answer_hands_on_either_answer() {
    assert_eq!(store_answer(Ok(7u8)).unwrap(), 7);
    assert!(store_answer(Ok(())).is_ok());
    let failure = KeyringError {
        kind: KeyringErrorKind::NoStorageAccess,
        cause: "locked".to_owned(),
        text: "Couldn't access platform secure storage: locked".to_owned(),
    };
    match store_answer::<String>(Err(failure)) {
        Err(AuthError::KeyringError(error)) => {
            assert_eq!(error.kind, KeyringErrorKind::NoStorageAccess);
            assert_eq!(error.cause, "locked");
            assert_eq!(error.text, "Couldn't access platform secure storage: locked");
        }
        other => panic!("unexpected: {:?}", other),
    }
}

#[test]
fn only_two_kinds_carry_a_cause() {
    assert!(KeyringErrorKind::PlatformFailure.carries_cause());
    assert!(KeyringErrorKind::NoStorageAccess.carries_cause());
    assert!(!KeyringErrorKind::NoEntry.carries_cause());
    assert!(!KeyringErrorKind::BadEncoding.carries_cause());
    assert!(!KeyringErrorKind::TooLong.carries_cause());
    assert!(!KeyringErrorKind::Invalid.carries_cause());
    assert!(!KeyringErrorKind::Ambiguous.carries_cause());
    assert!(!KeyringErrorKind::Other.carries_cause());
}

#[test]
fn no_entry_carries_no_cause() {
    let error = no_entry();
    assert_eq!(error.kind, KeyringErrorKind::NoEntry);
    assert!(!error.kind.carries_cause());
    assert_eq!(error.cause, "");
}

#[test]
fn no_entry_has_the_stores_text() {
    let error = no_entry();
    assert_eq!(error.text, "No matching entry found in secure storage");
    assert_eq!(
        error.message(false),
        "Account keyring error:\nNo matching entry found in secure storage"
    );
}

#[test]
fn service_name_is_fixed() {
    assert_eq!(service_name(), "QuantumLauncher");
}

#[test]
fn stored_secret_is_the_access_token_under_the_accounts_key() {
    let provider = YggdrasilProvider::parse(SERVER).unwrap();
    let mut account = logged_in(&provider);
    account.access_token = Some("ACCESS".to_owned());
    account.client_token = "CLIENT".to_owned();
    account.refresh_token = "REFRESH".to_owned();
    let (key, secret) = stored_secret(&account, "drasl.example.com").unwrap();
    assert_eq!(key, "alice#drasl_example_com");
    assert_eq!(secret, "ACCESS");
    account.access_token = None;
    assert!(stored_secret(&account, "drasl.example.com").is_none());
}

#[test]
fn make_request_needs_an_address() {
    let request = make_request(Some("https://a.example/refresh".to_owned()), authenticate_fields("u", "p")).unwrap();
    assert_eq!(request.url, "https://a.example/refresh");
    assert_eq!(request.body.len(), 4);
    assert!(matches!(
        make_request(None, Vec::new()),
        Err(AuthError::InputError(DrasilInputError::CantParseUrl(reason)))
            if reason == "Url cannot be joined with the path of an operation"
    ));
}

#[test]
fn deletion_warning_hands_the_failure_on() {
    assert!(deletion_warning(Ok(())).is_none());
    let warning = deletion_warning(Err(no_entry())).unwrap();
    assert_eq!(warning.kind, KeyringErrorKind::NoEntry);
    assert_eq!(warning.text, "No matching entry found in secure storage");
}

#[test]
fn forget_secret_warns_of_absent_entry() {
    use_mock_store();
    let provider = YggdrasilProvider::parse(SERVER).unwrap();
    let warning = provider.forget_secret("alice").unwrap().unwrap();
    assert_eq!(warning.kind, KeyringErrorKind::NoEntry);
    assert_eq!(warning.cause, "");
    let again = provider.forget_secret("alice").unwrap().unwrap();
    assert_eq!(again.kind, KeyringErrorKind::NoEntry);
}
