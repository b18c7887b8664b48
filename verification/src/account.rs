//! The accounts that the vault holds.
use vstd::prelude::*;

use crate::crypto::{base64_encoded, encode_base64};
use crate::text::{decimal, decimal_text};

verus! {

/// The two session tokens of a signed-in account.
#[derive(Debug, PartialEq, Eq)]
pub struct Tokens {
    pub access_token: String,
    pub refresh_token: String,
}

/// The mobile authenticator of an account: its secrets, and its session if the
/// account is signed in.
#[derive(Debug, PartialEq, Eq)]
pub struct MobileAccount {
    pub account_name: String,
    pub steam_id: u64,
    pub serial_number: String,
    pub revocation_code: String,
    pub shared_secret: [u8; 20],
    pub token_gid: String,
    pub identity_secret: String,
    pub uri: String,
    pub device_id: String,
    pub secret_1: String,
    pub tokens: Option<Tokens>,
}

/// One entry of the vault. The shared secret is in Base64.
#[derive(Debug, PartialEq, Eq)]
pub struct Account {
    pub name: String,
    pub steam_id: Option<String>,
    pub shared_secret: String,
    pub mobile: Option<MobileAccount>,
}

/// The mathematical form of the session tokens.
pub struct TokensView {
    pub access_token: Seq<char>,
    pub refresh_token: Seq<char>,
}

impl View for Tokens {
    type V = TokensView;

    open spec fn view(&self) -> TokensView {
        TokensView { access_token: self.access_token@, refresh_token: self.refresh_token@ }
    }
}

/// The mathematical form of an authenticator.
pub struct MobileView {
    pub account_name: Seq<char>,
    pub steam_id: u64,
    pub serial_number: Seq<char>,
    pub revocation_code: Seq<char>,
    pub shared_secret: Seq<u8>,
    pub token_gid: Seq<char>,
    pub identity_secret: Seq<char>,
    pub uri: Seq<char>,
    pub device_id: Seq<char>,
    pub secret_1: Seq<char>,
    pub tokens: Option<TokensView>,
}

impl View for MobileAccount {
    type V = MobileView;

    open spec fn view(&self) -> MobileView {
        MobileView {
            account_name: self.account_name@,
            steam_id: self.steam_id,
            serial_number: self.serial_number@,
            revocation_code: self.revocation_code@,
            shared_secret: self.shared_secret@,
            token_gid: self.token_gid@,
            identity_secret: self.identity_secret@,
            uri: self.uri@,
            device_id: self.device_id@,
            secret_1: self.secret_1@,
            tokens: match self.tokens {
                Some(tokens) => Some(tokens@),
                None => None,
            },
        }
    }
}

/// The mathematical form of a vault entry.
pub struct AccountView {
    pub name: Seq<char>,
    pub steam_id: Option<Seq<char>>,
    pub shared_secret: Seq<char>,
    pub mobile: Option<MobileView>,
}

impl View for Account {
    type V = AccountView;

    open spec fn view(&self) -> AccountView {
        AccountView {
            name: self.name@,
            steam_id: match self.steam_id {
                Some(id) => Some(id@),
                None => None,
            },
            shared_secret: self.shared_secret@,
            mobile: match self.mobile {
                Some(mobile) => Some(mobile@),
                None => None,
            },
        }
    }
}

impl Clone for Tokens {
    fn clone(&self) -> (r: Self)
        ensures
            r == *self,
    {
        Tokens {
            access_token: self.access_token.clone(),
            refresh_token: self.refresh_token.clone(),
        }
    }
}

impl Clone for MobileAccount {
    fn clone(&self) -> (r: Self)
        ensures
            r == *self,
    {
        MobileAccount {
            account_name: self.account_name.clone(),
            steam_id: self.steam_id,
            serial_number: self.serial_number.clone(),
            revocation_code: self.revocation_code.clone(),
            shared_secret: self.shared_secret,
            token_gid: self.token_gid.clone(),
            identity_secret: self.identity_secret.clone(),
            uri: self.uri.clone(),
            device_id: self.device_id.clone(),
            secret_1: self.secret_1.clone(),
            tokens: self.tokens.clone(),
        }
    }
}

impl Clone for Account {
    fn clone(&self) -> (r: Self)
        ensures
            r == *self,
    {
        Account {
            name: self.name.clone(),
            steam_id: self.steam_id.clone(),
            shared_secret: self.shared_secret.clone(),
            mobile: self.mobile.clone(),
        }
    }
}

impl Default for MobileAccount {
    /// An authenticator without a name, secrets or session.
    fn default() -> (r: Self)
        ensures
            r.account_name@ == ""@,
            r.steam_id == 0,
            r.serial_number@ == ""@,
            r.revocation_code@ == ""@,
            r.shared_secret@ == Seq::new(20, |i: int| 0u8),
            r.token_gid@ == ""@,
            r.identity_secret@ == ""@,
            r.uri@ == ""@,
            r.device_id@ == ""@,
            r.secret_1@ == ""@,
            r.tokens is None,
    {
        let shared_secret: [u8; 20] = [0u8; 20];
        assert(shared_secret@ =~= Seq::new(20, |i: int| 0u8));
        MobileAccount {
            account_name: "".to_owned(),
            steam_id: 0,
            serial_number: "".to_owned(),
            revocation_code: "".to_owned(),
            shared_secret,
            token_gid: "".to_owned(),
            identity_secret: "".to_owned(),
            uri: "".to_owned(),
            device_id: "".to_owned(),
            secret_1: "".to_owned(),
            tokens: None,
        }
    }
}

impl MobileAccount {
    /// Whether the account has a session.
    pub fn is_logged_in(&self) -> (r: bool)
        ensures
            r == self.tokens is Some,
    {
        self.tokens.is_some()
    }
}

/// Whether a vault entry is that of an authenticator: its name, its number in
/// decimal and its shared secret in Base64.
pub open spec fn is_entry_of(entry: Account, account: MobileAccount) -> bool {
    &&& entry.name == account.account_name
    &&& entry.steam_id is Some
    &&& entry.steam_id->0@ == decimal(account.steam_id as nat)
    &&& entry.shared_secret@ == base64_encoded(account.shared_secret@)
    &&& entry.mobile == Some(account)
}

/// The vault entry of an authenticator.
pub fn account_from_steam(account: MobileAccount) -> (r: Account)
    ensures
        is_entry_of(r, account),
{
    Account {
        name: account.account_name.clone(),
        steam_id: Some(decimal_text(account.steam_id)),
        shared_secret: encode_base64(account.shared_secret.as_slice()),
        mobile: Some(account),
    }
}

/// The vault entry of an authenticator tells the account's own name, its number
/// in decimal and its shared secret in Base64, and holds the authenticator
/// whole.
pub proof fn entries_tell_their_authenticator(entry: Account, account: MobileAccount)
    requires
        is_entry_of(entry, account),
    ensures
        entry.name@ == account.account_name@,
        entry.steam_id matches Some(id) && id@ == decimal(account.steam_id as nat),
        entry.shared_secret@ == base64_encoded(account.shared_secret@),
        entry.mobile == Some(account),
{
}

} // verus!
