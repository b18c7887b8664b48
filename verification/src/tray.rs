//! The tray: what its icon and its popup do, and what the popup shows.
use vstd::prelude::*;

use crate::account::Account;
use crate::crypto::base64_decoded;
use crate::guard::{guard_code, steam_guard_code};
use crate::state::{AppState, Screen};
use crate::text::{chars_of, text_of};

verus! {

/// Which of the two mouse buttons a reading speaks of.
#[derive(Clone, Copy, Debug, PartialEq, Eq)]
pub struct MouseButtons {
    pub left: bool,
    pub right: bool,
}

/// One reading of the mouse and of the popup's rectangle on the screen. The
/// exit row of the popup begins at `footer_top`.
#[derive(Clone, Copy, Debug, PartialEq, Eq)]
pub struct PointerPoll {
    pub down: MouseButtons,
    pub pressed_since_last_poll: MouseButtons,
    pub x: i32,
    pub y: i32,
    pub left: i32,
    pub top: i32,
    pub right: i32,
    pub bottom: i32,
    pub footer_top: i32,
}

/// What a mouse reading asks of the popup.
#[derive(Clone, Copy, Debug, PartialEq, Eq, Structural)]
pub enum TrayPointerAction {
    Ignore,
    Close,
    Exit,
}

impl PointerPoll {
    /// Whether the pointer is over the popup.
    pub open spec fn inside(self) -> bool {
        self.left <= self.x < self.right && self.top <= self.y < self.bottom
    }

    /// Whether the left button went down since `old` was read.
    pub open spec fn left_pressed(self, old: MouseButtons) -> bool {
        self.pressed_since_last_poll.left || (self.down.left && !old.left)
    }

    /// Whether the right button went down since `old` was read.
    pub open spec fn right_pressed(self, old: MouseButtons) -> bool {
        self.pressed_since_last_poll.right || (self.down.right && !old.right)
    }
}

/// What a mouse reading asks of the popup, given the buttons that the reading
/// before found down: a press outside closes it, a press of the left button on
/// the exit row ends the application, and anything else is for the popup's own
/// widgets.
pub open spec fn pointer_action(old: MouseButtons, poll: PointerPoll) -> TrayPointerAction {
    if !poll.left_pressed(old) && !poll.right_pressed(old) {
        TrayPointerAction::Ignore
    } else if !poll.inside() {
        TrayPointerAction::Close
    } else if poll.left_pressed(old) && poll.y >= poll.footer_top {
        TrayPointerAction::Exit
    } else {
        TrayPointerAction::Ignore
    }
}

/// What a mouse reading asks of the popup, given the buttons that the reading
/// before found down.
pub fn tray_pointer_action(old: MouseButtons, poll: &PointerPoll) -> (r: TrayPointerAction)
    ensures
        r == pointer_action(old, *poll),
{
    let left = poll.pressed_since_last_poll.left || (poll.down.left && !old.left);
    let right = poll.pressed_since_last_poll.right || (poll.down.right && !old.right);
    if !left && !right {
        return TrayPointerAction::Ignore;
    }
    let inside = poll.x >= poll.left && poll.x < poll.right && poll.y >= poll.top && poll.y
        < poll.bottom;
    if !inside {
        return TrayPointerAction::Close;
    }
    if left && poll.y >= poll.footer_top {
        return TrayPointerAction::Exit;
    }
    TrayPointerAction::Ignore
}

/// The buttons that are remembered for the next reading: those that a reading
/// found down, and where there was no reading those from before.
pub open spec fn remembered(old: MouseButtons, poll: Option<PointerPoll>) -> MouseButtons {
    match poll {
        Some(poll) => poll.down,
        None => old,
    }
}

/// The buttons that are remembered for the next reading.
pub fn remembered_buttons(old: MouseButtons, poll: Option<&PointerPoll>) -> (r: MouseButtons)
    ensures
        r == remembered(
            old,
            match poll {
                Some(poll) => Some(*poll),
                None => None,
            },
        ),
{
    match poll {
        Some(poll) => poll.down,
        None => old,
    }
}

/// What a reading asks of the popup and the buttons that are remembered after
/// it. Where the mouse or the popup could not be read, nothing is asked and the
/// buttons stay.
pub fn poll_pointer(old: MouseButtons, poll: Option<PointerPoll>) -> (r: (
    TrayPointerAction,
    MouseButtons,
))
    ensures
        r.0 == match poll {
            Some(poll) => pointer_action(old, poll),
            None => TrayPointerAction::Ignore,
        },
        r.1 == remembered(old, poll),
{
    match poll {
        Some(poll) => (tray_pointer_action(old, &poll), remembered_buttons(old, Some(&poll))),
        None => (TrayPointerAction::Ignore, remembered_buttons(old, None)),
    }
}

/// A held button acts once: a reading that finds no button down but those that
/// the reading before it found, and none pressed in between, asks nothing.
pub proof fn held_buttons_act_once(old: MouseButtons, first: PointerPoll, second: PointerPoll)
    requires
        second.down.left ==> first.down.left,
        second.down.right ==> first.down.right,
        !second.pressed_since_last_poll.left,
        !second.pressed_since_last_poll.right,
    ensures
        pointer_action(remembered(old, Some(first)), second) == TrayPointerAction::Ignore,
{
}

/// The most characters of a login that a tray row shows.
pub const LOGIN_CHARS: usize = 20;

/// A login as a tray row shows it: whole where it has at most 20 characters,
/// else its first 19 and an ellipsis.
pub open spec fn short_login(login: Seq<char>) -> Seq<char> {
    if login.len() <= LOGIN_CHARS {
        login
    } else {
        login.take(LOGIN_CHARS - 1).push('…')
    }
}

/// A login as a tray row shows it.
pub fn shortened_login(login: &str) -> (r: String)
    ensures
        r@ == short_login(login@),
{
    let chars = chars_of(login);
    if chars.len() <= LOGIN_CHARS {
        login.to_owned()
    } else {
        let mut out = text_of(chars.as_slice(), 0, LOGIN_CHARS - 1);
        out.push('…');
        out
    }
}

/// No tray row shows more than 20 characters of a login.
pub proof fn short_login_fits(login: Seq<char>)
    ensures
        short_login(login).len() <= LOGIN_CHARS,
{
}

// ---------------------------------------------------------------------------
// The popup
// ---------------------------------------------------------------------------

/// The height of one account's row in the popup.
pub const ROW_HEIGHT: u32 = 48;

/// The most rows that the popup shows without scrolling.
pub const SHOWN_ROWS: usize = 6;

/// The height of the popup: that of the note that the vault is locked, or that
/// there are no accounts, or of as many rows as it shows at once.
pub open spec fn popup_height(screen: Screen, accounts: nat) -> nat {
    if screen != Screen::Ready {
        280
    } else if accounts == 0 {
        225
    } else {
        150 + ROW_HEIGHT as nat * if accounts < SHOWN_ROWS {
            accounts
        } else {
            SHOWN_ROWS as nat
        }
    }
}

/// The height of the popup.
pub fn tray_popup_height(screen: Screen, account_count: usize) -> (r: u32)
    ensures
        r == popup_height(screen, account_count as nat),
{
    if screen != Screen::Ready {
        280
    } else if account_count == 0 {
        225
    } else {
        let rows: u32 = if account_count < SHOWN_ROWS {
            account_count as u32
        } else {
            SHOWN_ROWS as u32
        };
        150 + ROW_HEIGHT * rows
    }
}

/// A row of the popup: the login as it is shown, and the code to be copied,
/// where the secret yields one.
#[derive(Debug, PartialEq, Eq)]
pub struct TrayRow {
    pub login: String,
    pub code: Option<String>,
}

/// Whether a row shows an account at that time.
pub open spec fn shows_in_tray(row: TrayRow, account: Account, timestamp: u64) -> bool {
    &&& row.login@ == short_login(account.name@)
    &&& match base64_decoded(account.shared_secret@) {
        Some(secret) => row.code matches Some(code) && code@ == guard_code(secret, timestamp),
        None => row.code is None,
    }
}

impl TrayRow {
    /// The text in the place of the code: dashes where there is none.
    pub fn code_text(&self) -> (r: &str)
        ensures
            r@ == match self.code {
                Some(code) => code@,
                None => "-----"@,
            },
    {
        match &self.code {
            Some(code) => code.as_str(),
            None => "-----",
        }
    }
}

impl AppState {
    /// The rows of the popup at that time: one for each account of an open
    /// vault, and none of a locked one.
    pub fn tray_rows(&self, timestamp: u64) -> (r: Vec<TrayRow>)
        ensures
            self.screen != Screen::Ready ==> r@.len() == 0,
            self.screen == Screen::Ready ==> r@.len() == self.accounts@.len() && forall|i: int|
                0 <= i < r@.len() ==> shows_in_tray(
                    #[trigger] r@[i],
                    self.accounts@[i],
                    timestamp,
                ),
    {
        let mut rows: Vec<TrayRow> = Vec::new();
        if self.screen != Screen::Ready {
            return rows;
        }
        let mut i: usize = 0;
        while i < self.accounts.len()
            invariant
                i <= self.accounts@.len(),
                rows@.len() == i,
                forall|k: int|
                    0 <= k < i ==> shows_in_tray(
                        #[trigger] rows@[k],
                        self.accounts@[k],
                        timestamp,
                    ),
            decreases self.accounts@.len() - i,
        {
            let account = &self.accounts[i];
            rows.push(
                TrayRow {
                    login: shortened_login(account.name.as_str()),
                    code: match steam_guard_code(account.shared_secret.as_str(), timestamp) {
                        Ok(code) => Some(code),
                        Err(_) => None,
                    },
                },
            );
            i = i + 1;
        }
        rows
    }
}

/// What the popup asks of the window.
#[derive(Clone, Copy, Debug, PartialEq, Eq, Structural)]
pub enum TrayAction {
    ClosePopup,
    RestoreWindow,
}

/// Whether the window is told of an action of the popup, given whether it has
/// been told before that the popup closes: it is told that only once.
pub fn passes_on(action: TrayAction, close_sent: bool) -> (r: bool)
    ensures
        r == !(action == TrayAction::ClosePopup && close_sent),
{
    match action {
        TrayAction::ClosePopup => !close_sent,
        TrayAction::RestoreWindow => true,
    }
}

// ---------------------------------------------------------------------------
// The window
// ---------------------------------------------------------------------------

/// Whether the popup is open, the window is hidden, and the application is
/// about to end.
#[derive(Clone, Copy, Debug, PartialEq, Eq, Structural)]
pub struct WindowState {
    pub popup_open: bool,
    pub hidden: bool,
    pub exiting: bool,
}

/// What is done with the window itself.
#[derive(Clone, Copy, Debug, PartialEq, Eq, Structural)]
pub enum WindowCommand {
    Keep,
    Hide,
    Restore,
    Close,
}

/// A click on the icon in the tray, once the button is up again.
#[derive(Clone, Copy, Debug, PartialEq, Eq, Structural)]
pub enum TrayClick {
    Left,
    Right,
    Elsewhere,
}

impl WindowState {
    /// What becomes of the wish to close the window: with an icon in the tray
    /// it is only hidden, and without one the application ends.
    pub open spec fn closed(self, has_tray: bool) -> (WindowState, WindowCommand) {
        if self.exiting {
            (self, WindowCommand::Close)
        } else if has_tray {
            (WindowState { popup_open: false, hidden: true, ..self }, WindowCommand::Hide)
        } else {
            (WindowState { exiting: true, ..self }, WindowCommand::Close)
        }
    }

    /// What becomes of a click on the icon in the tray: the right button opens
    /// the popup, and the left one brings the window back.
    pub open spec fn clicked(self, click: TrayClick) -> (WindowState, WindowCommand) {
        match click {
            TrayClick::Right => (WindowState { popup_open: true, ..self }, WindowCommand::Keep),
            TrayClick::Left => (
                WindowState { popup_open: false, hidden: false, ..self },
                WindowCommand::Restore,
            ),
            TrayClick::Elsewhere => (self, WindowCommand::Keep),
        }
    }

    /// What becomes of an action of the popup, which closes it either way.
    pub open spec fn acted(self, action: TrayAction) -> (WindowState, WindowCommand) {
        match action {
            TrayAction::ClosePopup => (
                WindowState { popup_open: false, ..self },
                WindowCommand::Keep,
            ),
            TrayAction::RestoreWindow => (
                WindowState { popup_open: false, hidden: false, ..self },
                WindowCommand::Restore,
            ),
        }
    }

    /// A window that has just opened.
    pub fn new() -> (r: Self)
        ensures
            r == (WindowState { popup_open: false, hidden: false, exiting: false }),
    {
        WindowState { popup_open: false, hidden: false, exiting: false }
    }

    /// What becomes of the wish to close the window.
    pub fn close_requested(self, has_tray: bool) -> (r: (WindowState, WindowCommand))
        ensures
            r == self.closed(has_tray),
    {
        if self.exiting {
            (self, WindowCommand::Close)
        } else if has_tray {
            (WindowState { popup_open: false, hidden: true, ..self }, WindowCommand::Hide)
        } else {
            (WindowState { exiting: true, ..self }, WindowCommand::Close)
        }
    }

    /// What becomes of a click on the icon in the tray.
    pub fn tray_clicked(self, click: TrayClick) -> (r: (WindowState, WindowCommand))
        ensures
            r == self.clicked(click),
    {
        match click {
            TrayClick::Right => (WindowState { popup_open: true, ..self }, WindowCommand::Keep),
            TrayClick::Left => (
                WindowState { popup_open: false, hidden: false, ..self },
                WindowCommand::Restore,
            ),
            TrayClick::Elsewhere => (self, WindowCommand::Keep),
        }
    }

    /// What becomes of an action of the popup.
    pub fn popup_acted(self, action: TrayAction) -> (r: (WindowState, WindowCommand))
        ensures
            r == self.acted(action),
    {
        match action {
            TrayAction::ClosePopup => (
                WindowState { popup_open: false, ..self },
                WindowCommand::Keep,
            ),
            TrayAction::RestoreWindow => (
                WindowState { popup_open: false, hidden: false, ..self },
                WindowCommand::Restore,
            ),
        }
    }
}

/// With an icon in the tray, closing the window ends nothing: a click on the
/// icon, or the popup's button, brings the same window back.
pub proof fn hidden_window_comes_back(window: WindowState)
    requires
        !window.exiting,
    ensures
        !window.closed(true).0.exiting,
        window.closed(true).0.clicked(TrayClick::Left) == (
            WindowState { popup_open: false, hidden: false, exiting: false },
            WindowCommand::Restore,
        ),
        window.closed(true).0.clicked(TrayClick::Right).0.acted(TrayAction::RestoreWindow) == (
            WindowState { popup_open: false, hidden: false, exiting: false },
            WindowCommand::Restore,
        ),
{
}

/// The milliseconds after which the window is drawn again: often while codes
/// run down, seldom while the vault is locked.
pub fn repaint_interval(screen: Screen) -> (r: u64)
    ensures
        r == if screen == Screen::Ready {
            16u64
        } else {
            250u64
        },
{
    if screen == Screen::Ready {
        16
    } else {
        250
    }
}

/// A press outside the popup closes it, whichever button it was; a press of the
/// left button on the exit row ends the application; a right press inside, and
/// a press above that row, do nothing of the kind.
pub proof fn presses_act_where_they_fall(old: MouseButtons, poll: PointerPoll)
    ensures
        pointer_action(old, poll) == TrayPointerAction::Close <==> {
            &&& poll.pressed_since_last_poll.left || poll.pressed_since_last_poll.right || (
            poll.down.left && !old.left) || (poll.down.right && !old.right)
            &&& poll.x < poll.left || poll.x >= poll.right || poll.y < poll.top || poll.y
                >= poll.bottom
        },
        pointer_action(old, poll) == TrayPointerAction::Exit <==> {
            &&& poll.pressed_since_last_poll.left || (poll.down.left && !old.left)
            &&& poll.left <= poll.x < poll.right
            &&& poll.top <= poll.y < poll.bottom
            &&& poll.footer_top <= poll.y
        },
{
}

/// After a reading the buttons that it found down are remembered, and after
/// none the ones from before.
pub proof fn buttons_are_remembered_as_read(old: MouseButtons, poll: PointerPoll)
    ensures
        remembered(old, Some(poll)) == poll.down,
        remembered(old, None) == old,
{
}

/// A login of up to twenty characters is shown whole; a longer one as its first
/// nineteen and an ellipsis.
pub proof fn long_logins_are_cut(login: Seq<char>)
    ensures
        login.len() <= 20 ==> short_login(login) == login,
        login.len() > 20 ==> {
            &&& short_login(login).len() == 20
            &&& short_login(login)[19] == '…'
            &&& forall|i: int| 0 <= i < 19 ==> (#[trigger] short_login(login)[i]) == login[i]
        },
{
}

/// The popup grows by 48 for each account up to the sixth, from 198 for one to
/// 438; a locked vault and an empty one have heights of their own.
pub proof fn popup_grows_with_the_accounts(screen: Screen, accounts: nat)
    ensures
        screen != Screen::Ready ==> popup_height(screen, accounts) == 280,
        screen == Screen::Ready && accounts == 0 ==> popup_height(screen, accounts) == 225,
        screen == Screen::Ready && 1 <= accounts <= 6 ==> popup_height(screen, accounts) == 150 + 48
            * accounts,
        screen == Screen::Ready && accounts > 6 ==> popup_height(screen, accounts) == 438,
{
}

/// A row of the popup shows its own account's login, cut as any other, and the
/// code that the account's own secret makes at that time.
pub proof fn rows_show_their_account(
    row: TrayRow,
    account: Account,
    timestamp: u64,
    secret: Seq<u8>,
)
    requires
        shows_in_tray(row, account, timestamp),
    ensures
        account.name@.len() <= 20 ==> row.login@ == account.name@,
        account.name@.len() > 20 ==> row.login@ == account.name@.take(19).push('…'),
        base64_decoded(account.shared_secret@) == Some(secret) ==> (row.code matches Some(code)
            && code@ == guard_code(secret, timestamp)),
        base64_decoded(account.shared_secret@) is None ==> row.code is None,
{
}

/// Closing the window hides it where there is an icon in the tray, and ends the
/// application where there is none, or where it is about to end anyway.
pub proof fn closing_hides_or_ends(window: WindowState, has_tray: bool)
    ensures
        window.closed(has_tray).1 == WindowCommand::Close <==> window.exiting || !has_tray,
        window.closed(has_tray).1 == WindowCommand::Hide <==> !window.exiting && has_tray,
        window.closed(has_tray).0.exiting <==> window.exiting || !has_tray,
        !window.exiting && has_tray ==> window.closed(has_tray).0.hidden && !window.closed(
            has_tray,
        ).0.popup_open,
{
}

/// The right button opens the popup and leaves the window as it is; the left
/// button, and the popup's own button, bring the window back and close the
/// popup; closing the popup leaves the window hidden if it was.
pub proof fn buttons_of_the_tray(window: WindowState)
    ensures
        window.clicked(TrayClick::Right).0.popup_open,
        window.clicked(TrayClick::Right).0.hidden == window.hidden,
        window.clicked(TrayClick::Right).1 == WindowCommand::Keep,
        !window.clicked(TrayClick::Left).0.popup_open,
        !window.clicked(TrayClick::Left).0.hidden,
        window.clicked(TrayClick::Left).1 == WindowCommand::Restore,
        window.clicked(TrayClick::Elsewhere) == (window, WindowCommand::Keep),
        !window.acted(TrayAction::ClosePopup).0.popup_open,
        window.acted(TrayAction::ClosePopup).0.hidden == window.hidden,
        window.acted(TrayAction::ClosePopup).1 == WindowCommand::Keep,
        !window.acted(TrayAction::RestoreWindow).0.popup_open,
        !window.acted(TrayAction::RestoreWindow).0.hidden,
        window.acted(TrayAction::RestoreWindow).1 == WindowCommand::Restore,
{
}

} // verus!
