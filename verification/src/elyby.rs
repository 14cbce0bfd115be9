//! Login at ElyBy: the Yggdrasil protocol at a fixed address, with one
//! answer of its own for accounts that a second factor protects.

use crate::account::{Account, AccountType, AccountTypeView, AccountView};
use crate::error::{
    AccountResponseError, AccountResponseErrorView, AuthError, AuthErrorView, JsonError,
    JsonErrorView, RequestError, RequestErrorView,
};
use crate::login::{account_of, keep, make_account};
use crate::provider::{ProviderView, YggdrasilProvider};
use crate::store::store_failure;
use crate::wire::{
    authenticate_body, authenticate_fields, is_success, success, Body, BodyView, LoginResponse,
    LoginResponseView, Reply, ReplyView, Request, RequestView,
};
use vstd::prelude::*;

verus! {

/// The address of ElyBy's login.
pub open spec fn elyby_url() -> Seq<char> {
    "https://authserver.ely.by/auth/authenticate"@
}

/// The host of ElyBy's login.
pub open spec fn elyby_domain() -> Seq<char> {
    "authserver.ely.by"@
}

/// The provider that ElyBy is.
pub fn get_elyby_provider() -> (r: YggdrasilProvider)
    ensures
        r@ == (ProviderView { url: elyby_url(), host: elyby_domain() }),
{
    YggdrasilProvider::known("https://authserver.ely.by/auth/authenticate", "authserver.ely.by")
}

/// Whether a refusal says that the account is protected by a second factor.
pub open spec fn two_factor(refusal: AccountResponseErrorView) -> bool {
    refusal.error == "ForbiddenOperationException"@ && refusal.error_message
        == "Account protected with two factor auth."@
}

/// Whether a body asks for a second factor: it is no accepted login, and it
/// reads as the refusal that says so.
pub open spec fn asks_second_factor(body: Result<BodyView, Seq<char>>) -> bool {
    match body {
        Ok(content) => content.login is Err && match content.error {
            Some(refusal) => two_factor(refusal),
            None => false,
        },
        Err(_) => false,
    }
}

/// What a reply to a login at ElyBy means: an accepted login, the demand for
/// a one-time password (`None`), or a failure. The demand is looked for only
/// in a body that is no accepted login, and is recognised there whatever the
/// status. Apart from it, a status that is no success is reported with its
/// code and address. Else the body counts: as an accepted login where it has
/// that shape, else as the server's refusal where it has that shape, else as
/// undecodable, with the first decoder's complaint.
pub open spec fn elyby_answer(reply: ReplyView) -> Result<Option<LoginResponseView>, AuthErrorView> {
    match reply {
        ReplyView::Failed(text) => Err(AuthErrorView::Request(RequestErrorView::ReqwestError(text))),
        ReplyView::Arrived { code, url, body } => if !success(code) {
            if asks_second_factor(body) {
                Ok(None)
            } else {
                Err(AuthErrorView::Request(RequestErrorView::DownloadError { code, url }))
            }
        } else {
            match body {
                Err(text) => Err(AuthErrorView::Request(RequestErrorView::ReqwestError(text))),
                Ok(content) => match content.login {
                    Ok(login) => Ok(Some(login)),
                    Err(complaint) => match content.error {
                        Some(refusal) => if two_factor(refusal) {
                            Ok(None)
                        } else {
                            Err(AuthErrorView::Response(refusal))
                        },
                        None => Err(
                            AuthErrorView::Json(
                                JsonErrorView { error: complaint, json: content.text },
                            ),
                        ),
                    },
                },
            }
        },
    }
}

/// What a login at ElyBy comes to before the store is asked.
pub open spec fn elyby_plan(reply: ReplyView, email: Seq<char>) -> Result<
    AccountView,
    AuthErrorView,
> {
    match elyby_answer(reply) {
        Err(error) => Err(error),
        Ok(None) => Ok(AccountView::NeedsOTP),
        Ok(Some(login)) => match account_of(login, email, AccountTypeView::ElyBy) {
            Err(error) => Err(error),
            Ok(account) => Ok(AccountView::Account(account)),
        },
    }
}

/// The model of what [`read_elyby_login`] returns.
pub open spec fn answer_view(r: Result<Option<LoginResponse>, AuthError>) -> Result<
    Option<LoginResponseView>,
    AuthErrorView,
> {
    match r {
        Ok(Some(login)) => Ok(Some(login@)),
        Ok(None) => Ok(None),
        Err(error) => Err(error@),
    }
}

/// The model of a body, or of the reason why there is none.
pub open spec fn body_view(body: Result<Body, String>) -> Result<BodyView, Seq<char>> {
    match body {
        Ok(content) => Ok(content@),
        Err(text) => Err(text@),
    }
}

/// Says whether a refusal asks for a second factor.
pub fn is_two_factor(refusal: &AccountResponseError) -> (r: bool)
    ensures
        r == two_factor(refusal@),
{
    let error = String::from_str("ForbiddenOperationException");
    let message = String::from_str("Account protected with two factor auth.");
    refusal.error == error && refusal.errorMessage == message
}

fn wants_second_factor(body: &Result<Body, String>) -> (r: bool)
    ensures
        r == asks_second_factor(body_view(*body)),
{
    match body {
        Ok(content) => match (&content.login, &content.error) {
            (Err(_), Some(refusal)) => is_two_factor(refusal),
            _ => false,
        },
        Err(_) => false,
    }
}

/// Decides what a reply to a login at ElyBy means.
pub fn read_elyby_login(reply: Reply) -> (r: Result<Option<LoginResponse>, AuthError>)
    ensures
        answer_view(r) == elyby_answer(reply@),
{
    match reply {
        Reply::Failed(text) => Err(AuthError::Request(RequestError::ReqwestError(text))),
        Reply::Arrived { code, url, body } => {
            if !is_success(code) {
                if wants_second_factor(&body) {
                    return Ok(None);
                }
                return Err(AuthError::Request(RequestError::DownloadError { code, url }));
            }
            match body {
                Err(text) => Err(AuthError::Request(RequestError::ReqwestError(text))),
                Ok(content) => match content.login {
                    Ok(login) => Ok(Some(login)),
                    Err(complaint) => match content.error {
                        Some(refusal) => if is_two_factor(&refusal) {
                            Ok(None)
                        } else {
                            Err(AuthError::Response(refusal))
                        },
                        None => Err(
                            AuthError::Json(JsonError { error: complaint, json: content.text }),
                        ),
                    },
                },
            }
        },
    }
}

/// The first step of a login at ElyBy: what to send for a user. `email` may
/// be the user's name or their address.
pub fn login_new_request(email: &str, password: &str) -> (r: Request)
    ensures
        r@ == (RequestView { url: elyby_url(), body: authenticate_body(email@, password@) }),
{
    Request {
        url: String::from_str("https://authserver.ely.by/auth/authenticate"),
        body: authenticate_fields(email, password),
    }
}

/// The second step of a login at ElyBy: what the reply means for the user.
/// A reply that asks for a second factor gives [`Account::NeedsOTP`]; a
/// failure of the transport, a login that the server refused for another
/// reason, an undecodable body and a login without a selected profile are
/// failures. In all these nothing is written to the store. Else the access token is written to the store, under the
/// user's name and ElyBy's domain, and the account is returned if the store
/// took it; if not, the store's error is.
pub fn login_new(email: String, reply: Reply) -> (r: Result<Account, AuthError>)
    ensures
        match elyby_plan(reply@, email@) {
            Err(error) => r matches Err(e) && e@ == error,
            Ok(AccountView::NeedsOTP) => r matches Ok(Account::NeedsOTP),
            Ok(AccountView::Account(account)) => match r {
                Ok(made) => made@ == AccountView::Account(account) && account.logged_in(),
                Err(error) => store_failure(error),
            },
        },
{
    let login = match read_elyby_login(reply)? {
        None => {
            return Ok(Account::NeedsOTP);
        },
        Some(login) => login,
    };
    let account = make_account(login, email, AccountType::ElyBy)?;
    let domain = get_elyby_provider().domain();
    let kept = keep(account, domain.as_str())?;
    Ok(Account::Account(kept))
}

/// A reply asks for a one-time password exactly when a response arrived
/// whose body is no accepted login and reads as the two-factor refusal,
/// whatever its status; and then, and only then, the login gives
/// [`Account::NeedsOTP`].
pub proof fn lemma_one_time_password_exactly(reply: ReplyView, email: Seq<char>)
    ensures
        elyby_answer(reply) == Ok::<Option<LoginResponseView>, AuthErrorView>(None) <==> (
        reply matches ReplyView::Arrived { body, .. } && asks_second_factor(body)),
        elyby_plan(reply, email) == Ok::<AccountView, AuthErrorView>(AccountView::NeedsOTP) <==> (
        reply matches ReplyView::Arrived { body, .. } && asks_second_factor(body)),
{
}

} // verus!
