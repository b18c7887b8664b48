//! What the pages show, before it is drawn.
use vstd::prelude::*;
use vstd::string::StringExecFns;

use crate::account::Account;
use crate::address::steam_image_url;
use crate::confirmation::{count_in, count_rows, ConfirmationRow, ConfirmationScope};
use crate::crypto::base64_decoded;
use crate::guard::{guard_code, steam_guard_code, CODE_SECONDS};
use crate::login::LoginRequestRow;
use crate::state::AppState;
use crate::text::{
    concat2, concat3, contains_text, decimal, decimal_text, lowercased, occurs_in, trim, trimmed,
};
use crate::trade::{either, item_views, text_option, ItemView, TradeDetails, TradeItem};
use crate::trade_extras::icon_image;

verus! {

// ---------------------------------------------------------------------------
// The page of codes
// ---------------------------------------------------------------------------

/// Whether an account is found by what was entered in the search field: its
/// name holds the text, whatever the case, or nothing was entered.
pub open spec fn is_found(account: Account, search: Seq<char>) -> bool {
    let query = lowercased(trimmed(search));
    query.len() == 0 || occurs_in(query, lowercased(account.name@))
}

/// The places of the accounts that are found, in order.
pub open spec fn found_accounts(accounts: Seq<Account>, search: Seq<char>) -> Seq<usize>
    decreases accounts.len(),
{
    if accounts.len() == 0 {
        Seq::empty()
    } else {
        let before = found_accounts(accounts.drop_last(), search);
        if is_found(accounts.last(), search) {
            before.push((accounts.len() - 1) as usize)
        } else {
            before
        }
    }
}

/// The seconds for which the code of a time stays the same.
pub open spec fn seconds_left(now: u64) -> u64 {
    (CODE_SECONDS - now % CODE_SECONDS) as u64
}

/// A shown code stays good for as many seconds as are shown beside it.
pub proof fn shown_code_stays_good(secret: Seq<u8>, now: u64, passed: u64)
    requires
        passed < seconds_left(now),
        now + passed <= u64::MAX,
    ensures
        1 <= seconds_left(now) <= CODE_SECONDS,
        guard_code(secret, (now + passed) as u64) == guard_code(secret, now),
{
    assert((now + passed) as u64 / 30 == now / 30);
}

/// What the card of an account shows. There is no code where the secret is no
/// Base64, and no session where there is no authenticator.
#[derive(Debug, PartialEq, Eq)]
pub struct AccountCard {
    pub name: String,
    pub id_line: String,
    pub has_id: bool,
    pub code: Option<String>,
    pub seconds_line: String,
    pub session: Option<bool>,
}

/// Whether a card shows an account at that time.
pub open spec fn shows_account(card: AccountCard, account: Account, now: u64) -> bool {
    &&& card.name == account.name
    &&& match account.steam_id {
        Some(id) => card.has_id && card.id_line == id,
        None => !card.has_id && card.id_line@ == "SteamID не указан"@,
    }
    &&& match base64_decoded(account.shared_secret@) {
        Some(secret) => card.code matches Some(code) && code@ == guard_code(secret, now),
        None => card.code is None,
    }
    &&& card.seconds_line@ == decimal(seconds_left(now) as nat) + "с"@
    &&& card.session == match account.mobile {
        Some(mobile) => Some(mobile.tokens is Some),
        None => None,
    }
}

/// What the card of an account shows at that time.
pub fn account_card(account: &Account, now: u64) -> (r: AccountCard)
    ensures
        shows_account(r, *account, now),
{
    let left: u64 = CODE_SECONDS - now % CODE_SECONDS;
    AccountCard {
        name: account.name.clone(),
        has_id: account.steam_id.is_some(),
        id_line: match &account.steam_id {
            Some(id) => id.clone(),
            None => "SteamID не указан".to_owned(),
        },
        code: match steam_guard_code(account.shared_secret.as_str(), now) {
            Ok(code) => Some(code),
            Err(_) => None,
        },
        seconds_line: concat2(decimal_text(left).as_str(), "с"),
        session: match &account.mobile {
            Some(mobile) => Some(mobile.is_logged_in()),
            None => None,
        },
    }
}

impl AppState {
    /// The places of the accounts that the search field leaves.
    pub fn visible_accounts(&self) -> (r: Vec<usize>)
        ensures
            r@ == found_accounts(self.accounts@, self.search@),
    {
        let query = trim(self.search.as_str()).as_str().to_lowercase();
        let mut out: Vec<usize> = Vec::new();
        let mut i: usize = 0;
        assert(self.accounts@.take(0) =~= Seq::<Account>::empty());
        while i < self.accounts.len()
            invariant
                i <= self.accounts@.len(),
                query@ == lowercased(trimmed(self.search@)),
                out@ == found_accounts(self.accounts@.take(i as int), self.search@),
            decreases self.accounts@.len() - i,
        {
            assert(self.accounts@.take(i + 1).drop_last() =~= self.accounts@.take(i as int));
            assert(self.accounts@.take(i + 1).last() == self.accounts@[i as int]);
            let found = query.as_str().is_empty() || contains_text(
                self.accounts[i].name.as_str().to_lowercase().as_str(),
                query.as_str(),
            );
            if found {
                out.push(i);
            }
            i = i + 1;
        }
        assert(self.accounts@.take(i as int) =~= self.accounts@);
        out
    }

    /// The name under which a row shows the account that it belongs to.
    pub fn account_name(&self, index: usize) -> (r: String)
        ensures
            r@ == shown_name(self.accounts@, index as nat),
    {
        if index < self.accounts.len() {
            self.accounts[index].name.clone()
        } else {
            "Steam".to_owned()
        }
    }

    /// The heading of the page of confirmations.
    pub fn confirmations_title(&self) -> (r: String)
        ensures
            r@ == confirmations_heading(
                self.accounts@,
                self.confirmation_account_filter,
                self.confirmations@.len(),
            ),
    {
        let number = decimal_text(self.confirmations.len() as u64);
        let mut title = "Подтверждения · ".to_owned();
        if let Some(index) = self.confirmation_account_filter {
            if index < self.accounts.len() {
                title.append(self.accounts[index].name.as_str());
                title.append(" · ");
            }
        }
        title.append(number.as_str());
        title
    }
}

/// A number with at least two digits.
pub open spec fn two_digits(n: nat) -> Seq<char> {
    if n < 10 {
        "0"@ + decimal(n)
    } else {
        decimal(n)
    }
}

/// The number of accounts as the window's edge shows it.
pub fn count_label(count: usize) -> (r: String)
    ensures
        r@ == two_digits(count as nat),
{
    let number = decimal_text(count as u64);
    if count < 10 {
        concat2("0", number.as_str())
    } else {
        number
    }
}

/// The name of the account at that place, or Steam's where there is none.
pub open spec fn shown_name(accounts: Seq<Account>, index: nat) -> Seq<char> {
    if index < accounts.len() {
        accounts[index as int].name@
    } else {
        "Steam"@
    }
}

/// The heading of the page of confirmations: the account that it is for, if it
/// is for one, and how many there are.
pub open spec fn confirmations_heading(
    accounts: Seq<Account>,
    filter: Option<usize>,
    count: nat,
) -> Seq<char> {
    match filter {
        Some(index) if index < accounts.len() => "Подтверждения · "@ + accounts[index as int].name@
            + " · "@ + decimal(count),
        _ => "Подтверждения · "@ + decimal(count),
    }
}

// ---------------------------------------------------------------------------
// The menu of bulk answers
// ---------------------------------------------------------------------------

/// An entry of the menu of bulk answers. It can be chosen where there are rows
/// in its scope.
#[derive(Debug, PartialEq, Eq)]
pub struct BulkOption {
    pub label: String,
    pub scope: ConfirmationScope,
    pub accept: bool,
    pub enabled: bool,
}

/// Whether an entry offers to answer the rows of a scope.
pub open spec fn offers(
    option: BulkOption,
    rows: Seq<ConfirmationRow>,
    title: Seq<char>,
    scope: ConfirmationScope,
    accept: bool,
) -> bool {
    &&& option.label@ == title + " · "@ + decimal(count_in(rows, scope))
    &&& option.scope == scope
    &&& option.accept == accept
    &&& option.enabled == (count_in(rows, scope) > 0)
}

fn bulk_option(rows: &[ConfirmationRow], title: &str, scope: ConfirmationScope, accept: bool) -> (r:
    BulkOption)
    ensures
        offers(r, rows@, title@, scope, accept),
{
    let count = count_rows(rows, scope);
    BulkOption {
        label: concat3(title, " · ", decimal_text(count as u64).as_str()),
        scope,
        accept,
        enabled: count > 0,
    }
}

/// The entries of the menu of bulk answers.
pub fn bulk_menu(rows: &[ConfirmationRow]) -> (r: Vec<BulkOption>)
    ensures
        r@.len() == 5,
        offers(r@[0], rows@, "Принять все"@, ConfirmationScope::All, true),
        offers(r@[1], rows@, "Принять все трейды"@, ConfirmationScope::Trades, true),
        offers(r@[2], rows@, "Принять все продажи"@, ConfirmationScope::Sales, true),
        offers(r@[3], rows@, "Отклонить все трейды"@, ConfirmationScope::Trades, false),
        offers(r@[4], rows@, "Отклонить все продажи"@, ConfirmationScope::Sales, false),
{
    let mut menu: Vec<BulkOption> = Vec::new();
    menu.push(bulk_option(rows, "Принять все", ConfirmationScope::All, true));
    menu.push(bulk_option(rows, "Принять все трейды", ConfirmationScope::Trades, true));
    menu.push(bulk_option(rows, "Принять все продажи", ConfirmationScope::Sales, true));
    menu.push(bulk_option(rows, "Отклонить все трейды", ConfirmationScope::Trades, false));
    menu.push(bulk_option(rows, "Отклонить все продажи", ConfirmationScope::Sales, false));
    menu
}

// ---------------------------------------------------------------------------
// The card of a confirmation
// ---------------------------------------------------------------------------

/// How many items a row of items counts.
pub open spec fn total(items: Seq<ItemView>) -> nat
    decreases items.len(),
{
    if items.len() == 0 {
        0
    } else {
        total(items.drop_last()) + items.last().amount as nat
    }
}

proof fn lemma_total_grows(items: Seq<ItemView>, n: int)
    requires
        0 <= n <= items.len(),
    ensures
        total(items.take(n)) <= total(items),
    decreases items.len(),
{
    if n == items.len() {
        assert(items.take(n) =~= items);
    } else {
        assert(items.drop_last().take(n) =~= items.take(n));
        lemma_total_grows(items.drop_last(), n);
    }
}

/// How many items a row of items counts, where the number fits 64 bits.
pub fn total_amount(items: &[TradeItem]) -> (r: Option<u64>)
    ensures
        match r {
            Some(count) => total(item_views(items@)) == count,
            None => total(item_views(items@)) > u64::MAX,
        },
{
    let ghost all = item_views(items@);
    let mut count: u64 = 0;
    let mut i: usize = 0;
    assert(all.take(0) =~= Seq::<ItemView>::empty());
    while i < items.len()
        invariant
            i <= items@.len(),
            all == item_views(items@),
            count == total(all.take(i as int)),
        decreases items@.len() - i,
    {
        assert(all.take(i + 1).drop_last() =~= all.take(i as int));
        assert(all.take(i + 1).last() == items@[i as int]@);
        proof {
            lemma_total_grows(all, i + 1);
        }
        if items[i].amount > u64::MAX - count {
            return None;
        }
        count = count + items[i].amount;
        i = i + 1;
    }
    assert(all.take(i as int) =~= all);
    Some(count)
}

/// The label of an item: its name, and how many there are of it.
pub open spec fn label_of_item(item: ItemView) -> Seq<char> {
    if item.amount > 1 {
        item.name + " ×"@ + decimal(item.amount as nat)
    } else {
        item.name
    }
}

/// The label of an item.
pub fn item_label(item: &TradeItem) -> (r: String)
    ensures
        r@ == label_of_item(item@),
{
    if item.amount > 1 {
        concat3(item.name.as_str(), " ×", decimal_text(item.amount).as_str())
    } else {
        item.name.clone()
    }
}

/// The heading over one side of a trade, where the number of its items fits 64
/// bits.
pub fn side_heading(title: &str, items: &[TradeItem]) -> (r: Option<String>)
    ensures
        match r {
            Some(heading) => total(item_views(items@)) <= u64::MAX && heading@ == title@ + " · "@
                + decimal(total(item_views(items@))),
            None => total(item_views(items@)) > u64::MAX,
        },
{
    match total_amount(items) {
        Some(count) => Some(concat3(title, " · ", decimal_text(count).as_str())),
        None => None,
    }
}

/// Whether the items of both sides of a trade can be counted in 64 bits.
pub open spec fn is_countable(trade: Option<Result<TradeDetails, String>>) -> bool {
    match trade {
        Some(Ok(details)) => total(details@.giving) <= u64::MAX && total(details@.receiving)
            <= u64::MAX,
        _ => true,
    }
}

/// The line that the items of a trade unfold from.
pub open spec fn items_line_of(trade: Option<Result<TradeDetails, String>>) -> Seq<char> {
    match trade {
        Some(Ok(details)) => "Предметы · Отдаёте: "@ + decimal(total(details@.giving))
            + " · Получаете: "@ + decimal(total(details@.receiving)),
        _ => "Предметы обмена"@,
    }
}

/// The line that the items of a trade unfold from, where their numbers fit 64
/// bits.
pub fn items_line(trade: &Option<Result<TradeDetails, String>>) -> (r: Option<String>)
    ensures
        match r {
            Some(line) => is_countable(*trade) && line@ == items_line_of(*trade),
            None => !is_countable(*trade),
        },
{
    match trade {
        Some(Ok(details)) => {
            let giving: u64 = match total_amount(details.giving.as_slice()) {
                Some(count) => count,
                None => return None,
            };
            let receiving: u64 = match total_amount(details.receiving.as_slice()) {
                Some(count) => count,
                None => return None,
            };
            let mut line = "Предметы · Отдаёте: ".to_owned();
            line.append(decimal_text(giving).as_str());
            line.append(" · Получаете: ");
            line.append(decimal_text(receiving).as_str());
            Some(line)
        },
        _ => Some("Предметы обмена".to_owned()),
    }
}

/// What the card of a confirmation shows above the items: whether there is a
/// picture, its address where it is known, the lines, and what is told of the
/// last line when it is pointed at.
#[derive(Debug, PartialEq, Eq)]
pub struct ConfirmationCard {
    pub has_picture: bool,
    pub picture: Option<String>,
    pub kind_line: String,
    pub summary: Option<(String, String)>,
}

/// The address of the picture of a confirmation: its icon, or the partner's
/// picture where its icon may not be loaded.
pub open spec fn card_picture(row: ConfirmationRow) -> Option<Seq<char>> {
    let avatar = match row.trade {
        Some(Ok(details)) => details@.avatar,
        _ => None,
    };
    either(icon_image(text_option(row.icon)), avatar)
}

/// What is told of a confirmation when its summary is pointed at: the summary,
/// and when it was created, where that is known.
pub open spec fn summary_tip(row: ConfirmationRow) -> Seq<char> {
    if row.created > 0 {
        row.summary@ + "\nСоздано: "@ + decimal(row.created as nat)
    } else {
        row.summary@
    }
}

/// Whether a card shows a confirmation.
pub open spec fn shows_confirmation(
    card: ConfirmationCard,
    row: ConfirmationRow,
    account_name: Seq<char>,
) -> bool {
    &&& card.has_picture == (row.is_trade || row.is_market_sale)
    &&& text_option(card.picture) == if card.has_picture {
        card_picture(row)
    } else {
        None
    }
    &&& card.kind_line@ == account_name + " · "@ + row.kind@
    &&& if row.summary@.len() > 0 {
        card.summary matches Some((line, tip)) && line == row.summary && tip@ == summary_tip(row)
    } else {
        card.summary is None
    }
}

fn read_card_picture(row: &ConfirmationRow) -> (r: Option<String>)
    ensures
        text_option(r) == card_picture(*row),
{
    if let Some(icon) = &row.icon {
        if let Some(address) = steam_image_url(icon.as_str()) {
            return Some(address);
        }
    }
    match &row.trade {
        Some(Ok(details)) => details.avatar.clone(),
        _ => None,
    }
}

/// What the card of a confirmation shows.
pub fn confirmation_card(row: &ConfirmationRow, account_name: &str) -> (r: ConfirmationCard)
    ensures
        shows_confirmation(r, *row, account_name@),
{
    let has_picture = row.is_trade || row.is_market_sale;
    ConfirmationCard {
        has_picture,
        picture: if has_picture {
            read_card_picture(row)
        } else {
            None
        },
        kind_line: concat3(account_name, " · ", row.kind.as_str()),
        summary: if row.summary.as_str().is_empty() {
            None
        } else if row.created > 0 {
            Some(
                (
                    row.summary.clone(),
                    concat3(
                        row.summary.as_str(),
                        "\nСоздано: ",
                        decimal_text(row.created).as_str(),
                    ),
                ),
            )
        } else {
            Some((row.summary.clone(), row.summary.clone()))
        },
    }
}

/// The line and the address that lead to the profile of a trade's partner.
pub fn partner_link(partner_id: &str) -> (r: (String, String))
    ensures
        r.0@ == "Steam ID: "@ + partner_id@,
        r.1@ == "https://steamcommunity.com/profiles/"@ + partner_id@,
{
    (
        concat2("Steam ID: ", partner_id),
        concat2("https://steamcommunity.com/profiles/", partner_id),
    )
}

// ---------------------------------------------------------------------------
// The card of a sign-in
// ---------------------------------------------------------------------------

/// What the card of a sign-in shows below the device.
#[derive(Debug, PartialEq, Eq)]
pub struct LoginCard {
    pub ip_line: String,
    pub location_line: Option<String>,
    pub warning: Option<&'static str>,
}

/// What the card of a sign-in shows below the device.
pub fn login_card(row: &LoginRequestRow) -> (r: LoginCard)
    ensures
        r.ip_line@ == "IP: "@ + row.ip@,
        match r.location_line {
            Some(line) => row.location@.len() > 0 && line@ == "Местоположение: "@ + row.location@,
            None => row.location@.len() == 0,
        },
        match r.warning {
            Some(text) => row.warning && text@
                == "Steam отметил необычное местоположение или активность"@,
            None => !row.warning,
        },
{
    LoginCard {
        ip_line: concat2("IP: ", row.ip.as_str()),
        location_line: if row.location.as_str().is_empty() {
            None
        } else {
            Some(concat2("Местоположение: ", row.location.as_str()))
        },
        warning: if row.warning {
            Some("Steam отметил необычное местоположение или активность")
        } else {
            None
        },
    }
}

proof fn lemma_found_accounts(accounts: Seq<Account>, search: Seq<char>, index: usize)
    requires
        accounts.len() <= usize::MAX,
    ensures
        found_accounts(accounts, search).contains(index) <==> index < accounts.len() && is_found(
            accounts[index as int],
            search,
        ),
        forall|i: int|
            0 <= i < found_accounts(accounts, search).len() ==> (#[trigger] found_accounts(
                accounts,
                search,
            )[i]) < accounts.len(),
        forall|i: int, j: int|
            0 <= i < j < found_accounts(accounts, search).len() ==> (#[trigger] found_accounts(
                accounts,
                search,
            )[i]) < (#[trigger] found_accounts(accounts, search)[j]),
    decreases accounts.len(),
{
    if accounts.len() > 0 {
        let fore = accounts.drop_last();
        lemma_found_accounts(fore, search, index);
        let before = found_accounts(fore, search);
        let all = found_accounts(accounts, search);
        if is_found(accounts.last(), search) {
            let last = (accounts.len() - 1) as usize;
            assert(all == before.push(last));
            if before.contains(index) {
                let k = choose|k: int| 0 <= k < before.len() && before[k] == index;
                assert(all[k] == index);
            }
            if index == last {
                assert(all[all.len() - 1] == index);
            }
            if all.contains(index) {
                let k = choose|k: int| 0 <= k < all.len() && all[k] == index;
                if k < before.len() {
                    assert(before[k] == index);
                }
            }
        }
    }
}

/// The search leaves every account whose name holds the entered text, whatever
/// the case and the blanks around it, and no other, in the order of the vault.
/// A blank search leaves them all.
pub proof fn searches_find_by_name(accounts: Seq<Account>, search: Seq<char>, index: usize)
    requires
        accounts.len() <= usize::MAX,
    ensures
        found_accounts(accounts, search).contains(index) <==> index < accounts.len() && (lowercased(
            trimmed(search),
        ).len() == 0 || exists|at: int|
            0 <= at && at + lowercased(trimmed(search)).len() <= lowercased(
                accounts[index as int].name@,
            ).len() && #[trigger] lowercased(accounts[index as int].name@).subrange(
                at,
                at + lowercased(trimmed(search)).len(),
            ) == lowercased(trimmed(search))),
        forall|i: int, j: int|
            0 <= i < j < found_accounts(accounts, search).len() ==> (#[trigger] found_accounts(
                accounts,
                search,
            )[i]) < (#[trigger] found_accounts(accounts, search)[j]),
{
    lemma_found_accounts(accounts, search, index);
    if index < accounts.len() {
        let query = lowercased(trimmed(search));
        let name = lowercased(accounts[index as int].name@);
        if occurs_in(query, name) {
            let at = choose|at: int| crate::text::occurs_at(query, name, at);
            assert(name.subrange(at, at + query.len()) == query);
        }
        if exists|at: int|
            0 <= at && at + query.len() <= name.len() && #[trigger] name.subrange(
                at,
                at + query.len(),
            ) == query {
            let at = choose|at: int|
                0 <= at && at + query.len() <= name.len() && #[trigger] name.subrange(
                    at,
                    at + query.len(),
                ) == query;
            assert(crate::text::occurs_at(query, name, at));
        }
    }
}

/// The seconds beside a code count down to the next multiple of thirty, from
/// thirty to one.
pub proof fn seconds_run_to_the_next_code(now: u64)
    ensures
        1 <= seconds_left(now) <= 30,
        (now + seconds_left(now)) % 30 == 0,
{
    assert(seconds_left(now) == 30 - now % 30);
}

/// A card shows the code that the account's own secret makes at that time, the
/// account's name and number, the seconds that the code stays good, and whether
/// the account has a session.
pub proof fn cards_show_their_account(card: AccountCard, account: Account, now: u64, secret: Seq<u8>)
    requires
        shows_account(card, account, now),
    ensures
        card.name@ == account.name@,
        base64_decoded(account.shared_secret@) == Some(secret) ==> (card.code matches Some(code)
            && code@ == guard_code(secret, now)),
        base64_decoded(account.shared_secret@) is None ==> card.code is None,
        account.steam_id matches Some(id) ==> card.has_id && card.id_line@ == id@,
        account.steam_id is None ==> !card.has_id && card.id_line@ == "SteamID не указан"@,
        card.seconds_line@ == decimal((30 - now % 30) as nat) + "с"@,
        account.mobile is None ==> card.session is None,
        account.mobile matches Some(mobile) ==> card.session == Some(mobile.tokens is Some),
{
}

/// The number of accounts is shown with a leading zero below ten, and as it is
/// from there on.
pub proof fn counts_have_two_digits(n: nat)
    ensures
        n < 10 ==> two_digits(n) == "0"@ + decimal(n),
        n >= 10 ==> two_digits(n) == decimal(n),
{
}

/// A row tells the name of the account at its place, and a page for one account
/// tells that account's name before the number of its confirmations.
pub proof fn pages_name_their_account(accounts: Seq<Account>, index: usize, count: nat)
    ensures
        index < accounts.len() ==> shown_name(accounts, index as nat) == accounts[index as int].name@
            && confirmations_heading(accounts, Some(index), count) == "Подтверждения · "@
            + accounts[index as int].name@ + " · "@ + decimal(count),
        index >= accounts.len() ==> shown_name(accounts, index as nat) == "Steam"@
            && confirmations_heading(accounts, Some(index), count) == "Подтверждения · "@ + decimal(
            count,
        ),
        confirmations_heading(accounts, None, count) == "Подтверждения · "@ + decimal(count),
{
}

/// An entry of the menu can be chosen exactly where there is a row in its scope,
/// and tells how many there are.
pub proof fn menu_entries_count_their_rows(
    option: BulkOption,
    rows: Seq<ConfirmationRow>,
    title: Seq<char>,
    scope: ConfirmationScope,
    accept: bool,
)
    requires
        offers(option, rows, title, scope, accept),
    ensures
        option.enabled <==> count_in(rows, scope) > 0,
        option.label@ == title + " · "@ + decimal(count_in(rows, scope)),
        option.scope == scope,
        option.accept == accept,
{
}

/// The items of a side are counted with their amounts: one more item adds its
/// amount, and none add nothing.
pub proof fn amounts_add_up(items: Seq<ItemView>, item: ItemView)
    ensures
        items.len() == 0 ==> total(items) == 0,
        total(items.push(item)) == total(items) + item.amount,
{
    assert(items.push(item).drop_last() =~= items);
}

/// An item tells how many there are of it only where there is more than one.
pub proof fn items_tell_their_number(item: ItemView)
    ensures
        item.amount <= 1 ==> label_of_item(item) == item.name,
        item.amount > 1 ==> label_of_item(item) == item.name + " ×"@ + decimal(item.amount as nat),
{
}

/// The line of a trade counts what is given first and what is received second;
/// where the items are not known, it counts nothing.
pub proof fn trades_are_counted_by_side(trade: Option<Result<TradeDetails, String>>)
    ensures
        trade matches Some(Ok(details)) ==> items_line_of(trade) == "Предметы · Отдаёте: "@
            + decimal(total(item_views(details.giving@))) + " · Получаете: "@ + decimal(
            total(item_views(details.receiving@)),
        ),
        trade is None || (trade matches Some(known) && known is Err) ==> items_line_of(trade)
            == "Предметы обмена"@,
{
}

/// The card of a confirmation has a picture for a trade or a sale alone. It
/// tells the account and the kind, the summary where there is one, and with it
/// the time of creation where that is known.
pub proof fn cards_show_their_confirmation(
    card: ConfirmationCard,
    row: ConfirmationRow,
    account_name: Seq<char>,
)
    requires
        shows_confirmation(card, row, account_name),
    ensures
        card.has_picture <==> row.is_trade || row.is_market_sale,
        !card.has_picture ==> card.picture is None,
        card.kind_line@ == account_name + " · "@ + row.kind@,
        card.summary is Some <==> row.summary@.len() > 0,
        card.summary matches Some(shown) ==> shown.0@ == row.summary@ && (row.created == 0
            ==> shown.1@ == row.summary@) && (row.created > 0 ==> shown.1@ == row.summary@
            + "\nСоздано: "@ + decimal(row.created as nat)),
{
}

/// The picture of a confirmation is its own icon where that may be loaded, and
/// the partner's picture only where it may not.
pub proof fn own_icons_come_first(row: ConfirmationRow, icon: String, address: Seq<char>)
    requires
        row.icon == Some(icon),
    ensures
        crate::address::image_address(icon@) == Some(address) ==> card_picture(row) == Some(address),
        crate::address::image_address(icon@) is None ==> (row.trade matches Some(Ok(details))
            ==> card_picture(row) == text_option(details.avatar)),
        crate::address::image_address(icon@) is None && row.trade is None ==> card_picture(row)
            is None,
{
}

} // verus!
