//! The wire protocol: what is sent to a server and what comes back, as plain
//! values. The caller's transport turns a [`Request`] into an HTTP POST with
//! a JSON body and the answer into a [`Reply`].

use crate::error::{AccountResponseError, AccountResponseErrorView};
use vstd::prelude::*;

verus! {

/// The value of one member of a request's JSON object.
#[derive(Debug)]
pub enum FieldValue {
    /// A JSON string.
    Text(String),
    /// A JSON boolean.
    Flag(bool),
    /// The object that names the game and the version of its protocol.
    Agent { name: String, version: u64 },
}

/// The model of a [`FieldValue`].
pub enum FieldValueView {
    Text(Seq<char>),
    Flag(bool),
    Agent { name: Seq<char>, version: u64 },
}

impl View for FieldValue {
    type V = FieldValueView;

    open spec fn view(&self) -> FieldValueView {
        match self {
            FieldValue::Text(text) => FieldValueView::Text(text@),
            FieldValue::Flag(flag) => FieldValueView::Flag(*flag),
            FieldValue::Agent { name, version } => FieldValueView::Agent {
                name: name@,
                version: *version,
            },
        }
    }
}

/// One member of a request's JSON object.
#[derive(Debug)]
pub struct Field {
    pub name: String,
    pub value: FieldValue,
}

/// The model of a [`Field`].
pub struct FieldView {
    pub name: Seq<char>,
    pub value: FieldValueView,
}

impl View for Field {
    type V = FieldView;

    open spec fn view(&self) -> FieldView {
        FieldView { name: self.name@, value: self.value@ }
    }
}

/// A POST to make: the address, and the members of the JSON object to send,
/// in order.
#[derive(Debug)]
pub struct Request {
    pub url: String,
    pub body: Vec<Field>,
}

/// The model of a [`Request`].
pub struct RequestView {
    pub url: Seq<char>,
    pub body: Seq<FieldView>,
}

impl View for Request {
    type V = RequestView;

    open spec fn view(&self) -> RequestView {
        RequestView { url: self.url@, body: fields_view(self.body) }
    }
}

/// The member that names the game: `"agent": {"name": "Minecraft", "version": 1}`.
pub open spec fn agent_field() -> FieldView {
    FieldView {
        name: "agent"@,
        value: FieldValueView::Agent { name: "Minecraft"@, version: 1 },
    }
}

/// A member that holds a string.
pub open spec fn text_field(name: Seq<char>, text: Seq<char>) -> FieldView {
    FieldView { name, value: FieldValueView::Text(text) }
}

/// A member that holds a boolean.
pub open spec fn flag_field(name: Seq<char>, flag: bool) -> FieldView {
    FieldView { name, value: FieldValueView::Flag(flag) }
}

/// The body of a login: the game, the user's name and password, and the wish
/// to be told about the user. It names no client token, so the server issues
/// one.
pub open spec fn authenticate_body(username: Seq<char>, password: Seq<char>) -> Seq<FieldView> {
    seq![
        agent_field(),
        text_field("username"@, username),
        text_field("password"@, password),
        flag_field("requestUser"@, true),
    ]
}

/// The body of a refresh: the token to renew and the client's identifier.
pub open spec fn refresh_body(refresh_token: Seq<char>, client_token: Seq<char>) -> Seq<
    FieldView,
> {
    seq![text_field("accessToken"@, refresh_token), text_field("clientToken"@, client_token)]
}

/// The body that ends a session: the game, the session's token, the client's
/// identifier, and the wish to be told about the user.
pub open spec fn invalidate_body(access_token: Seq<char>, client_token: Seq<char>) -> Seq<
    FieldView,
> {
    seq![
        agent_field(),
        text_field("accessToken"@, access_token),
        text_field("clientToken"@, client_token),
        flag_field("requestUser"@, true),
    ]
}

fn make_agent() -> (r: Field)
    ensures
        r@ == agent_field(),
{
    Field {
        name: String::from_str("agent"),
        value: FieldValue::Agent { name: String::from_str("Minecraft"), version: 1 },
    }
}

fn make_text(name: &str, text: &str) -> (r: Field)
    ensures
        r@ == text_field(name@, text@),
{
    Field { name: String::from_str(name), value: FieldValue::Text(String::from_str(text)) }
}

fn make_flag(name: &str, flag: bool) -> (r: Field)
    ensures
        r@ == flag_field(name@, flag),
{
    Field { name: String::from_str(name), value: FieldValue::Flag(flag) }
}

/// The model of the members of a JSON object.
pub open spec fn fields_view(fields: Vec<Field>) -> Seq<FieldView> {
    Seq::new(fields@.len(), |i: int| fields@[i]@)
}

/// The members of the body of a login.
pub fn authenticate_fields(username: &str, password: &str) -> (r: Vec<Field>)
    ensures
        fields_view(r) == authenticate_body(username@, password@),
{
    let mut body: Vec<Field> = Vec::new();
    body.push(make_agent());
    body.push(make_text("username", username));
    body.push(make_text("password", password));
    body.push(make_flag("requestUser", true));
    assert(fields_view(body) =~= authenticate_body(username@, password@));
    body
}

/// The members of the body of a refresh.
pub fn refresh_fields(refresh_token: &str, client_token: &str) -> (r: Vec<Field>)
    ensures
        fields_view(r) == refresh_body(refresh_token@, client_token@),
{
    let mut body: Vec<Field> = Vec::new();
    body.push(make_text("accessToken", refresh_token));
    body.push(make_text("clientToken", client_token));
    assert(fields_view(body) =~= refresh_body(refresh_token@, client_token@));
    body
}

/// The members of the body that ends a session.
pub fn invalidate_fields(access_token: &str, client_token: &str) -> (r: Vec<Field>)
    ensures
        fields_view(r) == invalidate_body(access_token@, client_token@),
{
    let mut body: Vec<Field> = Vec::new();
    body.push(make_agent());
    body.push(make_text("accessToken", access_token));
    body.push(make_text("clientToken", client_token));
    body.push(make_flag("requestUser", true));
    assert(fields_view(body) =~= invalidate_body(access_token@, client_token@));
    body
}

/// The profile that a server selected for an account.
#[derive(Debug)]
pub struct SelectedProfile {
    pub id: String,
    pub name: String,
}

/// The model of a [`SelectedProfile`].
pub struct SelectedProfileView {
    pub id: Seq<char>,
    pub name: Seq<char>,
}

impl View for SelectedProfile {
    type V = SelectedProfileView;

    open spec fn view(&self) -> SelectedProfileView {
        SelectedProfileView { id: self.id@, name: self.name@ }
    }
}

impl Clone for SelectedProfile {
    fn clone(&self) -> (r: Self)
        ensures
            r == *self,
    {
        SelectedProfile { id: self.id.clone(), name: self.name.clone() }
    }
}

/// What a server answers to a login or a refresh that it accepts.
#[derive(Debug)]
pub struct LoginResponse {
    pub access_token: String,
    pub client_token: String,
    pub selected_profile: Option<SelectedProfile>,
}

/// The model of a [`LoginResponse`].
pub struct LoginResponseView {
    pub access_token: Seq<char>,
    pub client_token: Seq<char>,
    pub selected_profile: Option<SelectedProfileView>,
}

impl View for LoginResponse {
    type V = LoginResponseView;

    open spec fn view(&self) -> LoginResponseView {
        LoginResponseView {
            access_token: self.access_token@,
            client_token: self.client_token@,
            selected_profile: match self.selected_profile {
                Some(profile) => Some(profile@),
                None => None,
            },
        }
    }
}

impl Clone for LoginResponse {
    fn clone(&self) -> (r: Self)
        ensures
            r == *self,
    {
        LoginResponse {
            access_token: self.access_token.clone(),
            client_token: self.client_token.clone(),
            selected_profile: match &self.selected_profile {
                Some(profile) => Some(profile.clone()),
                None => None,
            },
        }
    }
}

/// The body of a response, read in both shapes that a server may use.
#[derive(Debug)]
pub struct Body {
    /// The body as text.
    pub text: String,
    /// The body read as the answer to an accepted login, or the decoder's
    /// complaint.
    pub login: Result<LoginResponse, String>,
    /// The body read as a refusal, where it has that shape.
    pub error: Option<AccountResponseError>,
}

/// The model of a [`Body`].
pub struct BodyView {
    pub text: Seq<char>,
    pub login: Result<LoginResponseView, Seq<char>>,
    pub error: Option<AccountResponseErrorView>,
}

impl View for Body {
    type V = BodyView;

    open spec fn view(&self) -> BodyView {
        BodyView {
            text: self.text@,
            login: match self.login {
                Ok(login) => Ok(login@),
                Err(complaint) => Err(complaint@),
            },
            error: match self.error {
                Some(error) => Some(error@),
                None => None,
            },
        }
    }
}

/// What the transport brought back for a request.
#[derive(Debug)]
pub enum Reply {
    /// No response arrived; the text is the transport's account of why.
    Failed(String),
    /// A response arrived.
    Arrived {
        /// The HTTP status.
        code: u16,
        /// The address that answered.
        url: String,
        /// The body, or the transport's account of why it could not be read.
        body: Result<Body, String>,
    },
}

/// The model of a [`Reply`].
pub enum ReplyView {
    Failed(Seq<char>),
    Arrived { code: u16, url: Seq<char>, body: Result<BodyView, Seq<char>> },
}

impl View for Reply {
    type V = ReplyView;

    open spec fn view(&self) -> ReplyView {
        match self {
            Reply::Failed(text) => ReplyView::Failed(text@),
            Reply::Arrived { code, url, body } => ReplyView::Arrived {
                code: *code,
                url: url@,
                body: match body {
                    Ok(body) => Ok(body@),
                    Err(text) => Err(text@),
                },
            },
        }
    }
}

/// Whether an HTTP status reports success: the codes from 200 to 299.
pub open spec fn success(code: u16) -> bool {
    200 <= code < 300
}

/// Whether an HTTP status reports success.
pub fn is_success(code: u16) -> (r: bool)
    ensures
        r == success(code),
{
    200 <= code && code < 300
}

} // verus!
