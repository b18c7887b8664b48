//! What the window and the worker that talks to Steam tell each other.
use vstd::prelude::*;

use crate::account::{Account, MobileAccount};
use crate::confirmation::{ConfirmationGroup, ConfirmationRow, ConfirmationTarget};
use crate::login::LoginRequestRow;
use crate::trade::TradeDetails;

verus! {

/// What the window asks of the worker. An account that is signed in again comes
/// with its number in the vault.
#[derive(Debug, PartialEq, Eq)]
pub enum SteamRequest {
    BeginEnrollment {
        username: String,
        password: String,
        existing: Option<(usize, MobileAccount)>,
    },
    SubmitGuardCode(String),
    BeginTransfer,
    SubmitTransferCode(String),
    FinalizeEnrollment(String),
    LoadConfirmations(Vec<(usize, MobileAccount)>),
    RespondConfirmation { account: MobileAccount, id: String, nonce: String, accept: bool },
    RespondConfirmations { groups: Vec<ConfirmationGroup>, accept: bool },
    LoadLoginRequests(Vec<(usize, MobileAccount)>),
    RespondLogin { account: MobileAccount, client_id: u64, version: u16, accept: bool },
}

/// What the worker tells the window.
#[derive(Debug, PartialEq, Eq)]
pub enum SteamEvent {
    Working(String),
    NeedGuardCode { device_code: bool, message: String },
    NeedExternalApproval(String),
    NeedEnrollmentCode { destination: String, recovery_code: String, draft_account: Account },
    AuthenticatorAlreadyPresent,
    NeedTransferCode,
    EnrollmentComplete { replace_index: Option<usize>, account: Account, recovery_code: String },
    ConfirmationsLoaded(Vec<ConfirmationRow>),
    TradeDetailsLoaded { load_id: u64, id: String, details: Result<TradeDetails, String> },
    LoginRequestsLoaded(Vec<LoginRequestRow>),
    ActionComplete(String),
    ConfirmationsBatchComplete { completed: Vec<ConfirmationTarget>, errors: Vec<String> },
    Error(String),
}

} // verus!
