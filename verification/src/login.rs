//! The operations on an account at a Yggdrasil-protocol server: login,
//! refresh, invalidate and logout. Each operation that talks to the server
//! comes in two steps. The first says what to send; the second takes what
//! the transport brought back, decides what it means, and keeps the
//! credential store in step with the account it returns.

use crate::account::{AccountData, AccountDataView, AccountType, AccountTypeView};
use crate::error::{
    outcome, AccountResponseError, AccountResponseErrorView, AuthError, AuthErrorView,
    DrasilInputError, DrasilInputErrorView, InvaildResponse, JsonError, JsonErrorView,
    KeyringError, RequestError, RequestErrorView,
};
use crate::provider::{
    provider_of, url_join, url_parse, ProviderView, YggdrasilProvider,
};
use crate::store::{
    credential_key, delete_token, get_keyring_entry, key_of, no_entry, no_entry_failure,
    store_failure, write_token,
};
use crate::text::trimmed;
use crate::wire::{
    authenticate_body, authenticate_fields, fields_view, invalidate_body, invalidate_fields,
    is_success, refresh_body, refresh_fields, success, Field, FieldView, LoginResponse,
    LoginResponseView, Reply, ReplyView, Request, RequestView,
};
use vstd::prelude::*;

verus! {

/// What a reply to a login or a refresh means. No response, or a body that
/// could not be read, is a failure of the transport. A status that is no
/// success is reported with its code and address, whatever the body holds.
/// Else the body counts: as the answer to an accepted login where it has
/// that shape, else as the server's refusal where it has that shape, else as
/// undecodable, with the first decoder's complaint.
pub open spec fn login_answer(reply: ReplyView) -> Result<LoginResponseView, AuthErrorView> {
    match reply {
        ReplyView::Failed(text) => Err(AuthErrorView::Request(RequestErrorView::ReqwestError(text))),
        ReplyView::Arrived { code, url, body } => if !success(code) {
            Err(AuthErrorView::Request(RequestErrorView::DownloadError { code, url }))
        } else {
            match body {
                Err(text) => Err(AuthErrorView::Request(RequestErrorView::ReqwestError(text))),
                Ok(body) => match body.login {
                    Ok(login) => Ok(login),
                    Err(complaint) => match body.error {
                        Some(refusal) => Err(AuthErrorView::Response(refusal)),
                        None => Err(
                            AuthErrorView::Json(JsonErrorView { error: complaint, json: body.text }),
                        ),
                    },
                },
            }
        },
    }
}

/// The account that an accepted login describes. Without a selected profile
/// there is none. Else the profile gives the player's identifier and shown
/// name, and the access token also serves as the refresh token.
pub open spec fn account_of(
    login: LoginResponseView,
    username: Seq<char>,
    account_type: AccountTypeView,
) -> Result<AccountDataView, AuthErrorView> {
    match login.selected_profile {
        None => Err(AuthErrorView::InvalidResponse(InvaildResponse::MissingProfile)),
        Some(profile) => Ok(
            AccountDataView {
                access_token: Some(login.access_token),
                client_token: login.client_token,
                uuid: profile.id,
                refresh_token: login.access_token,
                needs_refresh: false,
                username,
                nice_username: profile.name,
                account_type,
            },
        ),
    }
}

/// The account that a reply gives to a user of one family, or why it gives
/// none.
pub open spec fn account_from_reply(
    reply: ReplyView,
    username: Seq<char>,
    account_type: AccountTypeView,
) -> Result<AccountDataView, AuthErrorView> {
    match login_answer(reply) {
        Err(error) => Err(error),
        Ok(login) => account_of(login, username, account_type),
    }
}

/// Decides what a reply to a login or a refresh means.
pub fn read_login(reply: Reply) -> (r: Result<LoginResponse, AuthError>)
    ensures
        outcome(r) == login_answer(reply@),
{
    match reply {
        Reply::Failed(text) => Err(AuthError::Request(RequestError::ReqwestError(text))),
        Reply::Arrived { code, url, body } => {
            if !is_success(code) {
                return Err(AuthError::Request(RequestError::DownloadError { code, url }));
            }
            match body {
                Err(text) => Err(AuthError::Request(RequestError::ReqwestError(text))),
                Ok(body) => match body.login {
                    Ok(login) => Ok(login),
                    Err(complaint) => match body.error {
                        Some(refusal) => Err(AuthError::Response(refusal)),
                        None => Err(
                            AuthError::Json(JsonError { error: complaint, json: body.text }),
                        ),
                    },
                },
            }
        },
    }
}

/// Makes the account that an accepted login describes.
pub fn make_account(login: LoginResponse, username: String, account_type: AccountType) -> (r:
    Result<AccountData, AuthError>)
    ensures
        outcome(r) == account_of(login@, username@, account_type@),
{
    match login.selected_profile {
        None => Err(AuthError::InvalidResponse(InvaildResponse::MissingProfile)),
        Some(profile) => Ok(
            AccountData {
                access_token: Some(login.access_token.clone()),
                client_token: login.client_token,
                uuid: profile.id,
                refresh_token: login.access_token,
                needs_refresh: false,
                username,
                nice_username: profile.name,
                account_type,
            },
        ),
    }
}

/// What a login comes to once the store has answered: the account where the
/// store took the secret, else the store's error and no account.
pub fn settle(account: AccountData, stored: Result<(), AuthError>) -> (r: Result<
    AccountData,
    AuthError,
>)
    ensures
        match stored {
            Ok(_) => r == Ok::<AccountData, AuthError>(account),
            Err(error) => r == Err::<AccountData, AuthError>(error),
        },
{
    match stored {
        Ok(_) => Ok(account),
        Err(error) => Err(error),
    }
}

/// What the store is to hold for an account at a provider: the account's
/// key, made of the user's name and the provider's domain, and the account's
/// access token as the secret. An account without an access token has
/// nothing to store.
pub open spec fn secret_of(account: AccountDataView, domain: Seq<char>) -> Option<
    (Seq<char>, Seq<char>),
> {
    match account.access_token {
        Some(token) => Some((key_of(account.username, domain), token)),
        None => None,
    }
}

/// Says what the store is to hold for an account at a provider: the key,
/// then the secret.
pub fn stored_secret(account: &AccountData, domain: &str) -> (r: Option<(String, String)>)
    ensures
        match r {
            Some((key, secret)) => secret_of(account@, domain@) == Some((key@, secret@)),
            None => secret_of(account@, domain@) is None,
        },
{
    match &account.access_token {
        Some(token) => Some((credential_key(account.username.as_str(), domain), token.clone())),
        None => None,
    }
}

/// Writes what the store is to hold for an account, and hands the account on
/// if the store took it.
pub(crate) fn keep(account: AccountData, domain: &str) -> (r: Result<AccountData, AuthError>)
    ensures
        match r {
            Ok(kept) => kept == account,
            Err(error) => store_failure(error),
        },
{
    let stored = match stored_secret(&account, domain) {
        Some((key, secret)) => write_token(key.as_str(), secret.as_str()),
        None => Ok(()),
    };
    settle(account, stored)
}

/// What is said of a server address against which the path of an operation
/// cannot be resolved.
pub open spec fn no_endpoint() -> Seq<char> {
    "Url cannot be joined with the path of an operation"@
}

/// The request that an operation sends to a provider: the body goes to the
/// operation's path, resolved against the provider's address. There is none
/// where there is no provider or no such address.
pub open spec fn request_to(
    provider: Result<ProviderView, DrasilInputErrorView>,
    path: Seq<char>,
    body: Seq<FieldView>,
) -> Result<RequestView, AuthErrorView> {
    match provider {
        Err(error) => Err(AuthErrorView::InputError(error)),
        Ok(provider) => request_at(url_join(provider.url, path), body),
    }
}

/// The request that goes to an operation's address, where the provider has
/// one.
pub open spec fn request_at(address: Option<Seq<char>>, body: Seq<FieldView>) -> Result<
    RequestView,
    AuthErrorView,
> {
    match address {
        None => Err(AuthErrorView::InputError(DrasilInputErrorView::CantParseUrl(no_endpoint()))),
        Some(address) => Ok(RequestView { url: address, body }),
    }
}

/// What a login at a provider comes to before the store is asked: without a
/// provider the address is at fault; else the reply decides.
pub open spec fn login_plan(
    provider: Result<ProviderView, DrasilInputErrorView>,
    username: Seq<char>,
    reply: ReplyView,
) -> Result<AccountDataView, AuthErrorView> {
    match provider {
        Err(error) => Err(AuthErrorView::InputError(error)),
        Ok(provider) => account_from_reply(reply, username, AccountTypeView::Yggdrasil(provider)),
    }
}

/// The refusal that stands in for a body that could not be read as one.
pub open spec fn unreadable_refusal() -> AccountResponseErrorView {
    AccountResponseErrorView {
        error: "Cant parse unsuccessful response"@,
        error_message: "cant parse Error into AccountResponseError"@,
    }
}

/// What a reply to an invalidation means. A status of success ends the
/// session, whatever the body holds. Else the server's refusal is reported
/// where the body has that shape, and a stand-in where it has not.
pub open spec fn invalidate_answer(reply: ReplyView) -> Result<(), AuthErrorView> {
    match reply {
        ReplyView::Failed(text) => Err(AuthErrorView::Request(RequestErrorView::ReqwestError(text))),
        ReplyView::Arrived { code, url, body } => if success(code) {
            Ok(())
        } else {
            match body {
                Err(text) => Err(AuthErrorView::Request(RequestErrorView::ReqwestError(text))),
                Ok(body) => match body.error {
                    Some(refusal) => Err(AuthErrorView::Response(refusal)),
                    None => Err(AuthErrorView::Response(unreadable_refusal())),
                },
            }
        },
    }
}

/// The model of a result that holds nothing on success.
pub open spec fn done(r: Result<(), AuthError>) -> Result<(), AuthErrorView> {
    match r {
        Ok(_) => Ok(()),
        Err(error) => Err(error@),
    }
}

/// Decides what a reply to an invalidation means.
pub fn read_invalidation(reply: Reply) -> (r: Result<(), AuthError>)
    ensures
        done(r) == invalidate_answer(reply@),
{
    match reply {
        Reply::Failed(text) => Err(AuthError::Request(RequestError::ReqwestError(text))),
        Reply::Arrived { code, url, body } => {
            if is_success(code) {
                return Ok(());
            }
            match body {
                Err(text) => Err(AuthError::Request(RequestError::ReqwestError(text))),
                Ok(body) => match body.error {
                    Some(refusal) => Err(AuthError::Response(refusal)),
                    None => Err(
                        AuthError::Response(
                            AccountResponseError {
                                error: String::from_str("Cant parse unsuccessful response"),
                                errorMessage: String::from_str(
                                    "cant parse Error into AccountResponseError",
                                ),
                            },
                        ),
                    ),
                },
            }
        },
    }
}

/// What a logout comes to once the store has answered: it is done, whether
/// or not the store had anything to delete.
pub fn logout_outcome(deleted: Result<(), KeyringError>) -> (r: Result<(), AuthError>)
    ensures
        r is Ok,
{
    Ok(())
}

/// The model of an address that may be missing.
pub open spec fn address_view(address: Option<String>) -> Option<Seq<char>> {
    match address {
        Some(address) => Some(address@),
        None => None,
    }
}

/// Makes the request that goes to an operation's address. Without an address
/// there is no request, and the provider's address is at fault.
pub fn make_request(address: Option<String>, body: Vec<Field>) -> (r: Result<Request, AuthError>)
    ensures
        outcome(r) == request_at(address_view(address), fields_view(body)),
{
    match address {
        None => Err(
            AuthError::InputError(
                DrasilInputError::CantParseUrl(
                    String::from_str("Url cannot be joined with the path of an operation"),
                ),
            ),
        ),
        Some(address) => Ok(Request { url: address, body }),
    }
}

/// The warning that a deletion leaves behind: the store's failure, if it
/// failed.
pub fn deletion_warning(deleted: Result<(), KeyringError>) -> (r: Option<KeyringError>)
    ensures
        match deleted {
            Ok(_) => r is None,
            Err(failure) => r == Some(failure),
        },
{
    match deleted {
        Ok(_) => None,
        Err(failure) => Some(failure),
    }
}

impl YggdrasilProvider {
    /// The request that an operation sends to this provider.
    fn request(&self, path: &str, body: Vec<Field>) -> (r: Result<Request, AuthError>)
        ensures
            outcome(r) == request_to(Ok(self@), path@, fields_view(body)),
    {
        make_request(self.endpoint(path), body)
    }

    /// The first step of a login: what to send to the server at `url` for a
    /// user name and password. Nothing is sent where `url` is no absolute
    /// URL with a host.
    pub fn login_new_request(url: &str, username: &str, password: &str) -> (r: Result<
        Request,
        AuthError,
    >)
        ensures
            outcome(r) == request_to(
                provider_of(url_parse(trimmed(url@))),
                "authenticate"@,
                authenticate_body(username@, password@),
            ),
    {
        match YggdrasilProvider::parse(url) {
            Err(error) => Err(AuthError::InputError(error)),
            Ok(provider) => {
                provider.request("authenticate", authenticate_fields(username, password))
            },
        }
    }

    /// The second step of a login: what the reply means for the user. An
    /// address that is no provider, a reply that is no accepted login and a
    /// login without a selected profile are failures, and nothing is written
    /// to the store. Else the access token is written to the store, under the
    /// user's name and the provider's domain, and the account is returned if
    /// the store took it; if not, the store's error is.
    pub fn login_new(url: String, username: String, reply: Reply) -> (r: Result<
        AccountData,
        AuthError,
    >)
        ensures
            match login_plan(provider_of(url_parse(trimmed(url@))), username@, reply@) {
                Err(error) => outcome(r) == Err::<AccountDataView, AuthErrorView>(error),
                Ok(account) => match r {
                    Ok(made) => made@ == account && made@.logged_in(),
                    Err(error) => store_failure(error),
                },
            },
    {
        let provider = match YggdrasilProvider::parse(url.as_str()) {
            Err(error) => {
                return Err(AuthError::InputError(error));
            },
            Ok(provider) => provider,
        };
        let domain = provider.domain();
        let login = read_login(reply)?;
        let account = make_account(login, username, AccountType::Yggdrasil(provider))?;
        keep(account, domain.as_str())
    }

    /// The first step of a refresh: what to send for an account. The store's
    /// entry for the account is opened first, and nothing is sent where the
    /// store refuses it.
    pub fn login_refresh_request(&self, account_data: &AccountData) -> (r: Result<
        Request,
        AuthError,
    >)
        ensures
            match r {
                Ok(request) => Ok::<RequestView, AuthErrorView>(request@) == request_to(
                    Ok(self@),
                    "refresh"@,
                    refresh_body(account_data@.refresh_token, account_data@.client_token),
                ),
                Err(error) => store_failure(error) || Err::<RequestView, AuthErrorView>(error@)
                    == request_to(
                    Ok(self@),
                    "refresh"@,
                    refresh_body(account_data@.refresh_token, account_data@.client_token),
                ),
            },
    {
        let domain = self.domain();
        let _entry = get_keyring_entry(account_data.username.as_str(), domain.as_str())?;
        let body = refresh_fields(
            account_data.refresh_token.as_str(),
            account_data.client_token.as_str(),
        );
        self.request("refresh", body)
    }

    /// The second step of a refresh: what the reply means for the account. A
    /// reply that is no accepted login, or one without a selected profile, is
    /// a failure, and nothing is written to the store. Else the new access
    /// token is written to the store and the renewed account is returned if
    /// the store took it: the user's name and the family are kept, the rest
    /// comes from the reply.
    pub fn login_refresh(&self, account_data: &AccountData, reply: Reply) -> (r: Result<
        AccountData,
        AuthError,
    >)
        ensures
            match account_from_reply(
                reply@,
                account_data@.username,
                account_data@.account_type,
            ) {
                Err(error) => outcome(r) == Err::<AccountDataView, AuthErrorView>(error),
                Ok(account) => match r {
                    Ok(made) => made@ == account && made@.logged_in(),
                    Err(error) => store_failure(error),
                },
            },
    {
        let login = read_login(reply)?;
        let account = make_account(
            login,
            account_data.username.clone(),
            account_data.account_type.clone(),
        )?;
        let domain = self.domain();
        keep(account, domain.as_str())
    }

    /// The first step of an invalidation: what to send for an account.
    /// Without an access token there is no session to end: nothing is sent,
    /// and the failure is that of a store without an entry.
    pub fn invalidate_request(&self, account_data: &AccountData) -> (r: Result<Request, AuthError>)
        ensures
            match account_data@.access_token {
                None => outcome(r) == Err::<RequestView, AuthErrorView>(
                    AuthErrorView::KeyringError(no_entry_failure()),
                ),
                Some(token) => outcome(r) == request_to(
                    Ok(self@),
                    "invalidate"@,
                    invalidate_body(token, account_data@.client_token),
                ),
            },
    {
        match &account_data.access_token {
            None => Err(AuthError::KeyringError(no_entry())),
            Some(token) => {
                let body = invalidate_fields(token.as_str(), account_data.client_token.as_str());
                self.request("invalidate", body)
            },
        }
    }

    /// The second step of an invalidation: what the reply means. The account
    /// is left as it is; to drop the access token is up to the caller.
    /// Without an access token the failure is that of a store without an
    /// entry, whatever the reply.
    pub fn invalidate(&self, account_data: &mut AccountData, reply: Reply) -> (r: Result<
        (),
        AuthError,
    >)
        ensures
            *final(account_data) == *old(account_data),
            match old(account_data)@.access_token {
                None => done(r) == Err::<(), AuthErrorView>(
                    AuthErrorView::KeyringError(no_entry_failure()),
                ),
                Some(_) => done(r) == invalidate_answer(reply@),
            },
    {
        if account_data.access_token.is_none() {
            return Err(AuthError::KeyringError(no_entry()));
        }
        read_invalidation(reply)
    }

    /// Forgets the secret of a user at this provider, and says what the
    /// store had against it: the store's entry is deleted. Only a key that
    /// the store refuses is a failure. That there was nothing to delete, or
    /// that the deletion failed, is not: it is handed back as a warning.
    pub fn forget_secret(&self, username: &str) -> (r: Result<Option<KeyringError>, AuthError>)
        ensures
            r matches Err(e) ==> store_failure(e),
            r matches Ok(Some(warning)) ==> warning@.wf(),
    {
        let domain = self.domain();
        let deleted = delete_token(username, domain.as_str())?;
        Ok(deletion_warning(deleted))
    }

    /// Forgets the secret of a user at this provider: the store's entry is
    /// deleted. Only a key that the store refuses is a failure; that there
    /// was nothing to delete, or that the deletion failed, is not.
    pub fn logout(&self, username: &str) -> (r: Result<(), AuthError>)
        ensures
            r matches Err(e) ==> store_failure(e),
    {
        let domain = self.domain();
        let deleted = delete_token(username, domain.as_str())?;
        logout_outcome(deleted)
    }
}

/// Every account that a reply gives is that of a running session: it holds
/// an access token, which is also its refresh token, and asks for no
/// refresh.
pub proof fn lemma_reply_account_logged_in(
    reply: ReplyView,
    username: Seq<char>,
    account_type: AccountTypeView,
)
    ensures
        account_from_reply(reply, username, account_type) matches Ok(account) ==> {
            &&& account.logged_in()
            &&& account.access_token == Some(account.refresh_token)
            &&& account.username == username
            &&& account.account_type == account_type
        },
{
}

/// A login that succeeds, followed by a refresh of the account it returned
/// that succeeds, gives an account of the same user at the same provider
/// that holds an access token and asks for no refresh.
pub proof fn lemma_refresh_after_login(
    provider: Result<ProviderView, DrasilInputErrorView>,
    username: Seq<char>,
    first: ReplyView,
    second: ReplyView,
)
    ensures
        login_plan(provider, username, first) matches Ok(account) ==> {
            &&& account.logged_in()
            &&& account_from_reply(second, account.username, account.account_type) matches Ok(
                renewed,
            ) ==> {
                &&& renewed.logged_in()
                &&& renewed.username == username
                &&& renewed.account_type == account.account_type
            }
        },
{
}

/// A reply without a selected profile never gives an account.
pub proof fn lemma_no_profile_no_account(
    reply: ReplyView,
    username: Seq<char>,
    account_type: AccountTypeView,
)
    requires
        login_answer(reply) matches Ok(login) && login.selected_profile is None,
    ensures
        account_from_reply(reply, username, account_type) == Err::<
            AccountDataView,
            AuthErrorView,
        >(AuthErrorView::InvalidResponse(InvaildResponse::MissingProfile)),
{
}

} // verus!
