//! The account record that every kind of login produces.

use crate::provider::{ProviderView, YggdrasilProvider};
use crate::text::join;
use vstd::prelude::*;

verus! {

/// The family of server that an account belongs to.
#[derive(Debug)]
pub enum AccountType {
    Microsoft,
    ElyBy,
    Yggdrasil(YggdrasilProvider),
}

/// The model of an [`AccountType`].
pub enum AccountTypeView {
    Microsoft,
    ElyBy,
    Yggdrasil(ProviderView),
}

impl View for AccountType {
    type V = AccountTypeView;

    open spec fn view(&self) -> AccountTypeView {
        match self {
            AccountType::Microsoft => AccountTypeView::Microsoft,
            AccountType::ElyBy => AccountTypeView::ElyBy,
            AccountType::Yggdrasil(provider) => AccountTypeView::Yggdrasil(provider@),
        }
    }
}

impl Clone for AccountType {
    fn clone(&self) -> (r: Self)
        ensures
            r == *self,
    {
        match self {
            AccountType::Microsoft => AccountType::Microsoft,
            AccountType::ElyBy => AccountType::ElyBy,
            AccountType::Yggdrasil(provider) => AccountType::Yggdrasil(provider.clone()),
        }
    }
}

impl AccountTypeView {
    /// The name of the family.
    pub open spec fn name(self) -> Seq<char> {
        match self {
            AccountTypeView::Microsoft => "Microsoft"@,
            AccountTypeView::ElyBy => "ElyBy"@,
            AccountTypeView::Yggdrasil(_) => "Drasl"@,
        }
    }

    /// What is put behind a user's name to tell the families apart: nothing
    /// for Microsoft, else the family or the server's address in brackets.
    pub open spec fn suffix(self) -> Seq<char> {
        match self {
            AccountTypeView::Microsoft => ""@,
            AccountTypeView::ElyBy => " (elyby)"@,
            AccountTypeView::Yggdrasil(provider) => " ("@ + provider.url + ")"@,
        }
    }
}

impl AccountType {
    /// The name of the family, as shown to the user.
    pub fn name(&self) -> (r: String)
        ensures
            r@ == self@.name(),
    {
        match self {
            AccountType::Microsoft => String::from_str("Microsoft"),
            AccountType::ElyBy => String::from_str("ElyBy"),
            AccountType::Yggdrasil(_) => String::from_str("Drasl"),
        }
    }
}

/// One account, logged in or not.
#[derive(Debug)]
pub struct AccountData {
    /// The secret of the running session; `None` where there is none.
    pub access_token: Option<String>,
    /// The identifier of this client, issued by the server.
    pub client_token: String,
    /// The player's identifier, from the selected profile.
    pub uuid: String,
    /// The token that renews the session without a password.
    pub refresh_token: String,
    /// Set when the server refused the access token: refresh before the next
    /// try.
    pub needs_refresh: bool,
    /// The name the user logged in with.
    pub username: String,
    /// The name the server shows for the player.
    pub nice_username: String,
    pub account_type: AccountType,
}

/// The model of an [`AccountData`].
pub struct AccountDataView {
    pub access_token: Option<Seq<char>>,
    pub client_token: Seq<char>,
    pub uuid: Seq<char>,
    pub refresh_token: Seq<char>,
    pub needs_refresh: bool,
    pub username: Seq<char>,
    pub nice_username: Seq<char>,
    pub account_type: AccountTypeView,
}

impl View for AccountData {
    type V = AccountDataView;

    open spec fn view(&self) -> AccountDataView {
        AccountDataView {
            access_token: match self.access_token {
                Some(token) => Some(token@),
                None => None,
            },
            client_token: self.client_token@,
            uuid: self.uuid@,
            refresh_token: self.refresh_token@,
            needs_refresh: self.needs_refresh,
            username: self.username@,
            nice_username: self.nice_username@,
            account_type: self.account_type@,
        }
    }
}

impl Clone for AccountData {
    fn clone(&self) -> (r: Self)
        ensures
            r == *self,
    {
        AccountData {
            access_token: match &self.access_token {
                Some(token) => Some(token.clone()),
                None => None,
            },
            client_token: self.client_token.clone(),
            uuid: self.uuid.clone(),
            refresh_token: self.refresh_token.clone(),
            needs_refresh: self.needs_refresh,
            username: self.username.clone(),
            nice_username: self.nice_username.clone(),
            account_type: self.account_type.clone(),
        }
    }
}

impl AccountDataView {
    /// Whether the record is that of a running session: it holds an access
    /// token and asks for no refresh.
    pub open spec fn logged_in(self) -> bool {
        self.access_token is Some && !self.needs_refresh
    }
}

impl AccountData {
    /// The user's name with the mark of the account's family behind it.
    pub fn get_username_modified(&self) -> (r: String)
        ensures
            r@ == self@.username + self@.account_type.suffix(),
    {
        match &self.account_type {
            AccountType::Microsoft => {
                let r = join(self.username.as_str(), "");
                proof {
                    reveal_strlit("");
                }
                assert(r@ =~= self@.username + ""@);
                r
            },
            AccountType::ElyBy => join(self.username.as_str(), " (elyby)"),
            AccountType::Yggdrasil(provider) => {
                let r = join(self.username.as_str(), " (").concat(provider.url()).concat(")");
                assert(r@ =~= self@.username + (" ("@ + provider@.url + ")"@));
                r
            },
        }
    }

    /// Whether the account is one of ElyBy.
    #[must_use]
    pub fn is_elyby(&self) -> (r: bool)
        ensures
            r == (self@.account_type == AccountTypeView::ElyBy),
    {
        matches!(self.account_type, AccountType::ElyBy)
    }
}

/// What a login at ElyBy comes to.
#[derive(Debug)]
pub enum Account {
    /// The account is logged in.
    Account(AccountData),
    /// The account is protected by a second factor: a one-time password has
    /// to follow.
    NeedsOTP,
}

/// The model of an [`Account`].
pub enum AccountView {
    Account(AccountDataView),
    NeedsOTP,
}

impl View for Account {
    type V = AccountView;

    open spec fn view(&self) -> AccountView {
        match self {
            Account::Account(data) => AccountView::Account(data@),
            Account::NeedsOTP => AccountView::NeedsOTP,
        }
    }
}

impl Clone for Account {
    fn clone(&self) -> (r: Self)
        ensures
            r == *self,
    {
        match self {
            Account::Account(data) => Account::Account(data.clone()),
            Account::NeedsOTP => Account::NeedsOTP,
        }
    }
}

} // verus!
