//! The platform's credential store, where the secret token of each account
//! is kept under a key made of the user's name and the provider's domain.

use crate::error::{AuthError, KeyringError, KeyringErrorKind, KeyringErrorView};
use crate::text::{join, replace, replace_char};
use vstd::prelude::*;

verus! {

/// Trusted: the type `keyring::Entry`, a handle on one credential of the
/// store. Nothing is known of what it holds.
#[verifier::external_type_specification]
#[verifier::external_body]
pub struct ExEntry(keyring::Entry);

/// Trusted: the type `keyring::Error`. Nothing is known of what it holds;
/// [`describe`] turns it into a [`KeyringError`].
#[verifier::external_type_specification]
#[verifier::external_body]
pub struct ExKeyringError(keyring::Error);

/// Trusted: `keyring::Entry::new`. It makes a handle for a service and a user
/// or refuses the two names; which, depends on the platform, so nothing is
/// promised.
#[verifier::external_body]
fn new_entry(service: &str, user: &str) -> (r: Result<keyring::Entry, keyring::Error>) {
    keyring::Entry::new(service, user)
}

/// Trusted: `keyring::Entry::set_password`. Whether the store takes the
/// secret depends on the store, so nothing is promised.
#[verifier::external_body]
fn set_password(entry: &keyring::Entry, password: &str) -> (r: Result<(), keyring::Error>) {
    entry.set_password(password)
}

/// Trusted: `keyring::Entry::get_password`. What comes back depends on what
/// the store holds, so nothing is promised.
#[verifier::external_body]
fn get_password(entry: &keyring::Entry) -> (r: Result<String, keyring::Error>) {
    entry.get_password()
}

/// Trusted: `keyring::Entry::delete_credential`. Whether there is anything to
/// delete depends on what the store holds, so nothing is promised.
#[verifier::external_body]
fn delete_credential(entry: &keyring::Entry) -> (r: Result<(), keyring::Error>) {
    entry.delete_credential()
}

/// Trusted: tells the variants of `keyring::Error` apart.
#[verifier::external_body]
fn error_kind(error: &keyring::Error) -> (r: KeyringErrorKind) {
    match error {
        keyring::Error::PlatformFailure(_) => KeyringErrorKind::PlatformFailure,
        keyring::Error::NoStorageAccess(_) => KeyringErrorKind::NoStorageAccess,
        keyring::Error::NoEntry => KeyringErrorKind::NoEntry,
        keyring::Error::BadEncoding(_) => KeyringErrorKind::BadEncoding,
        keyring::Error::TooLong(_, _) => KeyringErrorKind::TooLong,
        keyring::Error::Invalid(_, _) => KeyringErrorKind::Invalid,
        keyring::Error::Ambiguous(_) => KeyringErrorKind::Ambiguous,
        _ => KeyringErrorKind::Other,
    }
}

/// Trusted: the text of the platform error inside a `keyring::Error`, for
/// the two variants that carry one; empty for the others.
#[verifier::external_body]
fn error_cause(error: &keyring::Error) -> (r: String) {
    match error {
        keyring::Error::PlatformFailure(cause) => cause.to_string(),
        keyring::Error::NoStorageAccess(cause) => cause.to_string(),
        _ => String::new(),
    }
}

/// Trusted: the `Display` text of a `keyring::Error`.
#[verifier::external_body]
fn error_text(error: &keyring::Error) -> (r: String) {
    error.to_string()
}

/// What the store says where nothing is stored under a key.
pub open spec fn no_entry_message() -> Seq<char> {
    "No matching entry found in secure storage"@
}

/// Trusted: the `Display` text of `keyring::Error::NoEntry`, which the
/// store's source fixes.
#[verifier::external_body]
fn no_entry_text() -> (r: String)
    ensures
        r@ == no_entry_message(),
{
    keyring::Error::NoEntry.to_string()
}

/// Turns the store's error into the crate's own. The platform's words are
/// taken over only where the kind of the error comes with them.
fn describe(error: keyring::Error) -> (r: KeyringError)
    ensures
        r@.wf(),
{
    let kind = error_kind(&error);
    let cause = if kind.carries_cause() {
        error_cause(&error)
    } else {
        String::new()
    };
    KeyringError { kind, cause, text: error_text(&error) }
}

/// The store's failure where nothing is stored under a key.
pub open spec fn no_entry_failure() -> KeyringErrorView {
    KeyringErrorView {
        kind: KeyringErrorKind::NoEntry,
        cause: Seq::<char>::empty(),
        text: no_entry_message(),
    }
}

/// The error of an account that has nothing in the store.
pub fn no_entry() -> (r: KeyringError)
    ensures
        r@ == no_entry_failure(),
        r@.wf(),
{
    KeyringError { kind: KeyringErrorKind::NoEntry, cause: String::new(), text: no_entry_text() }
}

/// Whether an error is a failure of the store, soundly described.
pub open spec fn store_failure(error: AuthError) -> bool {
    error matches AuthError::KeyringError(failure) && failure@.wf()
}

/// What an answer of the store comes to: what the store gave, or the store's
/// failure as a login error.
pub fn store_answer<T>(answer: Result<T, KeyringError>) -> (r: Result<T, AuthError>)
    ensures
        match answer {
            Ok(given) => r == Ok::<T, AuthError>(given),
            Err(failure) => r == Err::<T, AuthError>(AuthError::KeyringError(failure)),
        },
{
    match answer {
        Ok(given) => Ok(given),
        Err(failure) => Err(AuthError::KeyringError(failure)),
    }
}

/// The name under which the store files every secret of this program.
pub open spec fn service() -> Seq<char> {
    "QuantumLauncher"@
}

/// Gives the name under which the store files every secret of this program.
pub fn service_name() -> (r: &'static str)
    ensures
        r@ == service(),
{
    "QuantumLauncher"
}

/// The key of an account in the store: the user's name, `#`, and the
/// provider's domain with each dot turned into an underscore.
pub open spec fn key_of(username: Seq<char>, provider_domain: Seq<char>) -> Seq<char> {
    username + seq!['#'] + replace_char(provider_domain, '.', seq!['_'])
}

/// Computes the key of an account in the store.
pub fn credential_key(username: &str, provider_domain: &str) -> (r: String)
    ensures
        r@ == key_of(username@, provider_domain@),
{
    proof {
        reveal_strlit("#");
        reveal_strlit("_");
    }
    assert("#"@ =~= seq!['#']);
    assert("_"@ =~= seq!['_']);
    let domain = replace(provider_domain, '.', "_");
    join(username, "#").concat(domain.as_str())
}

/// Opens the store's entry under a key, in this program's service. Whether
/// there is such an entry is up to the store; a failure is the store's,
/// soundly described.
fn open_entry(key: &str) -> (r: Result<keyring::Entry, AuthError>)
    ensures
        r matches Err(e) ==> store_failure(e),
{
    let answer = match new_entry(service_name(), key) {
        Ok(entry) => Ok(entry),
        Err(error) => Err(describe(error)),
    };
    store_answer(answer)
}

/// Opens the store's entry for an account: the entry of this program's
/// service under the account's key. Whether there is such an entry is up to
/// the store; a failure is the store's, soundly described.
pub(crate) fn get_keyring_entry(username: &str, provider_domain: &str) -> (r: Result<
    keyring::Entry,
    AuthError,
>)
    ensures
        r matches Err(e) ==> store_failure(e),
{
    let key = credential_key(username, provider_domain);
    open_entry(key.as_str())
}

/// What reading a secret comes to, given what the store answered: the secret,
/// or the store's error as a login error.
pub fn secret_read(answer: Result<String, KeyringError>) -> (r: Result<String, AuthError>)
    ensures
        match answer {
            Ok(secret) => r == Ok::<String, AuthError>(secret),
            Err(error) => r == Err::<String, AuthError>(AuthError::KeyringError(error)),
        },
{
    store_answer(answer)
}

/// Reads the secret token stored for an account. What comes back is up to
/// the store; a failure is the store's, soundly described.
pub fn read_refresh_token(username: &str, provider_domain: &str) -> (r: Result<String, AuthError>)
    ensures
        r matches Err(e) ==> store_failure(e),
{
    let entry = get_keyring_entry(username, provider_domain)?;
    let answer = match get_password(&entry) {
        Ok(secret) => Ok(secret),
        Err(error) => Err(describe(error)),
    };
    secret_read(answer)
}

/// Writes a secret token into the store, under the key of its account.
/// Whether the store takes it is up to the store; a failure is the store's,
/// soundly described.
pub(crate) fn write_token(key: &str, token: &str) -> (r: Result<(), AuthError>)
    ensures
        r matches Err(e) ==> store_failure(e),
{
    let entry = open_entry(key)?;
    let answer = match set_password(&entry, token) {
        Ok(()) => Ok(()),
        Err(error) => Err(describe(error)),
    };
    store_answer(answer)
}

/// Deletes the secret token of an account from the store. The outer failure
/// is that of opening the entry, the inner one that of the deletion itself;
/// both are the store's, soundly described.
pub(crate) fn delete_token(username: &str, provider_domain: &str) -> (r: Result<
    Result<(), KeyringError>,
    AuthError,
>)
    ensures
        r matches Err(e) ==> store_failure(e),
        r matches Ok(Err(failure)) ==> failure@.wf(),
{
    let entry = get_keyring_entry(username, provider_domain)?;
    match delete_credential(&entry) {
        Ok(()) => Ok(Ok(())),
        Err(error) => Ok(Err(describe(error))),
    }
}

} // verus!
