//! The verified core of Morty Steam Auth.

pub mod account;
pub mod address;
pub mod cards;
pub mod confirmation;
pub mod crypto;
pub mod dialog;
pub mod enrollment;
pub mod events;
pub mod guard;
pub mod import;
pub mod json;
pub mod list_load;
pub mod login;
pub mod login_load;
pub mod mafile;
pub mod mobile;
pub mod pages;
pub mod request;
pub mod state;
pub mod steam;
pub mod text;
pub mod trade;
pub mod trade_extras;
pub mod trade_load;
pub mod trade_page;
pub mod tray;
pub mod vault;
pub mod vault_save;
pub mod worker;
