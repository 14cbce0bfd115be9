//! The failures of a login, whichever part reported them.

use crate::text::{contains, contains_text, decimal, decimal_text, join};
use vstd::prelude::*;

verus! {

/// What a server says when it refuses a request.
#[allow(non_snake_case)]
#[derive(Debug)]
pub struct AccountResponseError {
    pub error: String,
    pub errorMessage: String,
}

/// The model of an [`AccountResponseError`].
pub struct AccountResponseErrorView {
    pub error: Seq<char>,
    pub error_message: Seq<char>,
}

impl View for AccountResponseError {
    type V = AccountResponseErrorView;

    open spec fn view(&self) -> AccountResponseErrorView {
        AccountResponseErrorView { error: self.error@, error_message: self.errorMessage@ }
    }
}

impl Clone for AccountResponseError {
    fn clone(&self) -> (r: Self)
        ensures
            r == *self,
    {
        AccountResponseError { error: self.error.clone(), errorMessage: self.errorMessage.clone() }
    }
}

impl AccountResponseErrorView {
    /// The error's name, a colon, and the server's explanation.
    pub open spec fn message(self) -> Seq<char> {
        self.error + ": "@ + self.error_message
    }
}

impl AccountResponseError {
    /// The text shown for this error.
    pub fn message(&self) -> (r: String)
        ensures
            r@ == self@.message(),
    {
        join(self.error.as_str(), ": ").concat(self.errorMessage.as_str())
    }
}

/// A request that brought no usable response.
#[derive(Debug)]
pub enum RequestError {
    /// The server answered with a status that is no success.
    DownloadError { code: u16, url: String },
    /// The transport failed; the text is its own account of why.
    ReqwestError(String),
}

/// The model of a [`RequestError`].
pub enum RequestErrorView {
    DownloadError { code: u16, url: Seq<char> },
    ReqwestError(Seq<char>),
}

impl View for RequestError {
    type V = RequestErrorView;

    open spec fn view(&self) -> RequestErrorView {
        match self {
            RequestError::DownloadError { code, url } => RequestErrorView::DownloadError {
                code: *code,
                url: url@,
            },
            RequestError::ReqwestError(text) => RequestErrorView::ReqwestError(text@),
        }
    }
}

impl RequestErrorView {
    pub open spec fn message(self) -> Seq<char> {
        match self {
            RequestErrorView::DownloadError { code, url } => "Download Error (code "@ + decimal(
                code as nat,
            ) + "), url "@ + url,
            RequestErrorView::ReqwestError(text) => "Network Request Error: "@ + text,
        }
    }
}

impl RequestError {
    /// The text shown for this error.
    pub fn message(&self) -> (r: String)
        ensures
            r@ == self@.message(),
    {
        match self {
            RequestError::DownloadError { code, url } => {
                let number = decimal_text(*code);
                join("Download Error (code ", number.as_str()).concat("), url ").concat(
                    url.as_str(),
                )
            },
            RequestError::ReqwestError(text) => join("Network Request Error: ", text.as_str()),
        }
    }
}

/// A body that did not decode: the decoder's complaint and the body itself.
#[derive(Debug)]
pub struct JsonError {
    pub error: String,
    pub json: String,
}

/// The model of a [`JsonError`].
pub struct JsonErrorView {
    pub error: Seq<char>,
    pub json: Seq<char>,
}

impl View for JsonError {
    type V = JsonErrorView;

    open spec fn view(&self) -> JsonErrorView {
        JsonErrorView { error: self.error@, json: self.json@ }
    }
}

impl JsonErrorView {
    pub open spec fn message(self) -> Seq<char> {
        "Json Error: "@ + self.error + "\n"@ + self.json
    }
}

impl JsonError {
    /// The text shown for this error.
    pub fn message(&self) -> (r: String)
        ensures
            r@ == self@.message(),
    {
        join("Json Error: ", self.error.as_str()).concat("\n").concat(self.json.as_str())
    }
}

/// A provider address that the user typed and that cannot be used.
#[derive(Debug)]
pub enum DrasilInputError {
    /// The address is no absolute URL with a host; the text says why.
    CantParseUrl(String),
}

/// The model of a [`DrasilInputError`].
pub enum DrasilInputErrorView {
    CantParseUrl(Seq<char>),
}

impl View for DrasilInputError {
    type V = DrasilInputErrorView;

    open spec fn view(&self) -> DrasilInputErrorView {
        match self {
            DrasilInputError::CantParseUrl(reason) => DrasilInputErrorView::CantParseUrl(reason@),
        }
    }
}

impl DrasilInputErrorView {
    pub open spec fn message(self) -> Seq<char> {
        match self {
            DrasilInputErrorView::CantParseUrl(reason) => "Invalid provider URL: "@ + reason,
        }
    }
}

impl DrasilInputError {
    /// The text shown for this error.
    pub fn message(&self) -> (r: String)
        ensures
            r@ == self@.message(),
    {
        match self {
            DrasilInputError::CantParseUrl(reason) => join(
                "Invalid provider URL: ",
                reason.as_str(),
            ),
        }
    }
}

/// A response that decoded but lacks what a login needs.
#[derive(Debug, PartialEq, Eq, Structural, Clone, Copy)]
pub enum InvaildResponse {
    /// The account has no selected profile.
    MissingProfile,
}

impl InvaildResponse {
    pub open spec fn spec_message(self) -> Seq<char> {
        "Invalid Response from server: MissingProfile"@
    }

    /// The text shown for this error.
    pub fn message(&self) -> (r: String)
        ensures
            r@ == self.spec_message(),
    {
        String::from_str("Invalid Response from server: MissingProfile")
    }
}

/// The kinds of failure that the credential store reports.
#[derive(Debug, PartialEq, Eq, Structural, Clone, Copy)]
pub enum KeyringErrorKind {
    /// The platform's storage failed while it worked.
    PlatformFailure,
    /// The platform's storage could not be reached, for instance when locked.
    NoStorageAccess,
    /// Nothing is stored under the key.
    NoEntry,
    /// What is stored is no UTF-8 text.
    BadEncoding,
    /// A part of the key is longer than the platform allows.
    TooLong,
    /// A part of the key is not acceptable to the platform.
    Invalid,
    /// More than one stored credential matches the key.
    Ambiguous,
    /// A kind that the store added after this list was written.
    Other,
}

impl KeyringErrorKind {
    /// Whether failures of this kind come with the platform's own words.
    pub open spec fn has_cause(self) -> bool {
        self == KeyringErrorKind::PlatformFailure || self == KeyringErrorKind::NoStorageAccess
    }

    /// Says whether failures of this kind come with the platform's own words.
    pub fn carries_cause(&self) -> (r: bool)
        ensures
            r == self.has_cause(),
    {
        matches!(self, KeyringErrorKind::PlatformFailure | KeyringErrorKind::NoStorageAccess)
    }
}

/// A failure of the credential store.
#[derive(Debug)]
pub struct KeyringError {
    pub kind: KeyringErrorKind,
    /// The platform's own words, for the two kinds that carry them; else empty.
    pub cause: String,
    /// The store's description of the failure.
    pub text: String,
}

/// The model of a [`KeyringError`].
pub struct KeyringErrorView {
    pub kind: KeyringErrorKind,
    pub cause: Seq<char>,
    pub text: Seq<char>,
}

impl View for KeyringError {
    type V = KeyringErrorView;

    open spec fn view(&self) -> KeyringErrorView {
        KeyringErrorView { kind: self.kind, cause: self.cause@, text: self.text@ }
    }
}

impl KeyringErrorView {
    /// Whether the description hangs together: it holds the platform's words
    /// only where its kind comes with them.
    pub open spec fn wf(self) -> bool {
        !self.kind.has_cause() ==> self.cause.len() == 0
    }

    /// Whether the failure is the one that a missing keyring service causes
    /// on Linux.
    pub open spec fn lacks_service(self, linux: bool) -> bool {
        linux && self.kind == KeyringErrorKind::PlatformFailure && contains_text(
            self.cause,
            "The name is not activatable"@,
        )
    }

    /// Whether the failure is the one that a missing default keyring causes
    /// on Linux.
    pub open spec fn lacks_default_keyring(self, linux: bool) -> bool {
        linux && self.kind == KeyringErrorKind::NoStorageAccess && contains_text(
            self.cause,
            "no result found"@,
        )
    }

    /// The text shown for the failure: a heading, then either the store's
    /// description or, for the two failures above, the platform's words and
    /// advice on how to mend the setup.
    pub open spec fn message(self, linux: bool) -> Seq<char> {
        if self.lacks_service(linux) {
            "Account keyring error:\n"@ + self.cause
                + "\n\nTry installing gnome-keyring and libsecret packages\n(may be called differently depending on your distro)"@
        } else if self.lacks_default_keyring(linux) {
            "Account keyring error:\n"@ + self.cause
                + "\n\nInstall the \"seahorse\" app and open it,\nCheck for \"Login\" in the sidebar.\nIf it's there, make sure it's unlocked (right-click -> Unlock)\n\nIf it's not there, click on + then \"Password Keyring\",\nand name it \"Login\" and put your preferred password\n\nNow after this, in the sidebar, right click it and click \"Set as Default\""@
        } else {
            "Account keyring error:\n"@ + self.text
        }
    }
}

impl KeyringError {
    /// The text shown for this error. `linux` says whether the program runs
    /// on Linux, where two common failures get advice attached.
    pub fn message(&self, linux: bool) -> (r: String)
        ensures
            r@ == self@.message(linux),
    {
        let platform = matches!(self.kind, KeyringErrorKind::PlatformFailure);
        let access = matches!(self.kind, KeyringErrorKind::NoStorageAccess);
        if linux && platform && contains(self.cause.as_str(), "The name is not activatable") {
            join("Account keyring error:\n", self.cause.as_str()).concat(
                "\n\nTry installing gnome-keyring and libsecret packages\n(may be called differently depending on your distro)",
            )
        } else if linux && access && contains(self.cause.as_str(), "no result found") {
            join("Account keyring error:\n", self.cause.as_str()).concat(
                "\n\nInstall the \"seahorse\" app and open it,\nCheck for \"Login\" in the sidebar.\nIf it's there, make sure it's unlocked (right-click -> Unlock)\n\nIf it's not there, click on + then \"Password Keyring\",\nand name it \"Login\" and put your preferred password\n\nNow after this, in the sidebar, right click it and click \"Set as Default\"",
            )
        } else {
            join("Account keyring error:\n", self.text.as_str())
        }
    }
}

/// Everything that can go wrong while logging in.
#[derive(Debug)]
pub enum AuthError {
    Request(RequestError),
    Json(JsonError),
    Response(AccountResponseError),
    KeyringError(KeyringError),
    InvalidResponse(InvaildResponse),
    InputError(DrasilInputError),
}

/// The model of an [`AuthError`].
pub enum AuthErrorView {
    Request(RequestErrorView),
    Json(JsonErrorView),
    Response(AccountResponseErrorView),
    KeyringError(KeyringErrorView),
    InvalidResponse(InvaildResponse),
    InputError(DrasilInputErrorView),
}

impl View for AuthError {
    type V = AuthErrorView;

    open spec fn view(&self) -> AuthErrorView {
        match self {
            AuthError::Request(e) => AuthErrorView::Request(e@),
            AuthError::Json(e) => AuthErrorView::Json(e@),
            AuthError::Response(e) => AuthErrorView::Response(e@),
            AuthError::KeyringError(e) => AuthErrorView::KeyringError(e@),
            AuthError::InvalidResponse(e) => AuthErrorView::InvalidResponse(*e),
            AuthError::InputError(e) => AuthErrorView::InputError(e@),
        }
    }
}

impl AuthErrorView {
    /// The text shown for the error: the banner of this subsystem, then the
    /// text of the failure itself.
    pub open spec fn message(self, linux: bool) -> Seq<char> {
        match self {
            AuthErrorView::Request(e) => "while logging into yggdrasil account:\n"@ + e.message(),
            AuthErrorView::Json(e) => "while logging into yggdrasil account:\n"@ + e.message(),
            AuthErrorView::Response(e) => "while logging into yggdrasil account:\n\n"@ + e.message(),
            AuthErrorView::KeyringError(e) => "while logging into yggdrasil account:\n\n"@ + e.message(
                linux,
            ),
            AuthErrorView::InvalidResponse(e) => "while logging into yggdrasil account:\n\n"@
                + e.spec_message(),
            AuthErrorView::InputError(e) => "while logging into yggdrasil account:\n\n"@ + e.message(),
        }
    }
}

impl AuthError {
    /// The text shown for this error. It always starts with the banner
    /// `while logging into yggdrasil account:`. `linux` is handed on to
    /// [`KeyringError::message`].
    pub fn message(&self, linux: bool) -> (r: String)
        ensures
            r@ == self@.message(linux),
    {
        match self {
            AuthError::Request(e) => {
                let inner = e.message();
                join("while logging into yggdrasil account:\n", inner.as_str())
            },
            AuthError::Json(e) => {
                let inner = e.message();
                join("while logging into yggdrasil account:\n", inner.as_str())
            },
            AuthError::Response(e) => {
                let inner = e.message();
                join("while logging into yggdrasil account:\n\n", inner.as_str())
            },
            AuthError::KeyringError(e) => {
                let inner = e.message(linux);
                join("while logging into yggdrasil account:\n\n", inner.as_str())
            },
            AuthError::InvalidResponse(e) => {
                let inner = e.message();
                join("while logging into yggdrasil account:\n\n", inner.as_str())
            },
            AuthError::InputError(e) => {
                let inner = e.message();
                join("while logging into yggdrasil account:\n\n", inner.as_str())
            },
        }
    }
}

/// The model of a result: the model of what it holds, on either side.
pub open spec fn outcome<T: View, E: View>(r: Result<T, E>) -> Result<T::V, E::V> {
    match r {
        Ok(value) => Ok(value@),
        Err(error) => Err(error@),
    }
}

impl From<RequestError> for AuthError {
    fn from(value: RequestError) -> (r: Self) {
        AuthError::Request(value)
    }
}

impl vstd::std_specs::convert::FromSpecImpl<RequestError> for AuthError {
    open spec fn obeys_from_spec() -> bool {
        true
    }

    open spec fn from_spec(value: RequestError) -> Self {
        AuthError::Request(value)
    }
}

impl From<JsonError> for AuthError {
    fn from(value: JsonError) -> (r: Self) {
        AuthError::Json(value)
    }
}

impl vstd::std_specs::convert::FromSpecImpl<JsonError> for AuthError {
    open spec fn obeys_from_spec() -> bool {
        true
    }

    open spec fn from_spec(value: JsonError) -> Self {
        AuthError::Json(value)
    }
}

impl From<AccountResponseError> for AuthError {
    fn from(value: AccountResponseError) -> (r: Self) {
        AuthError::Response(value)
    }
}

impl vstd::std_specs::convert::FromSpecImpl<AccountResponseError> for AuthError {
    open spec fn obeys_from_spec() -> bool {
        true
    }

    open spec fn from_spec(value: AccountResponseError) -> Self {
        AuthError::Response(value)
    }
}

impl From<KeyringError> for AuthError {
    fn from(value: KeyringError) -> (r: Self) {
        AuthError::KeyringError(value)
    }
}

impl vstd::std_specs::convert::FromSpecImpl<KeyringError> for AuthError {
    open spec fn obeys_from_spec() -> bool {
        true
    }

    open spec fn from_spec(value: KeyringError) -> Self {
        AuthError::KeyringError(value)
    }
}

/// The banner that every error's text starts with.
pub open spec fn banner() -> Seq<char> {
    "while logging into yggdrasil account:\n"@
}

/// The text of every error starts with the banner.
pub proof fn lemma_message_starts_with_banner(error: AuthErrorView, linux: bool)
    ensures
        banner().is_prefix_of(error.message(linux)),
{
    reveal_strlit("while logging into yggdrasil account:\n");
    reveal_strlit("while logging into yggdrasil account:\n\n");
    let short = "while logging into yggdrasil account:\n"@;
    let long = "while logging into yggdrasil account:\n\n"@;
    assert(long =~= short + seq!['\n']);
    assert forall|rest: Seq<char>| short.is_prefix_of(#[trigger] (short + rest)) by {
        assert((short + rest).subrange(0, short.len() as int) =~= short);
    }
    assert forall|rest: Seq<char>| short.is_prefix_of(#[trigger] (long + rest)) by {
        assert(long + rest =~= short + (seq!['\n'] + rest));
    }
}

} // verus!
