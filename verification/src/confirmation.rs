//! The confirmations that wait for an answer, and the bulk answers to them.
use vstd::prelude::*;

use crate::account::{Account, MobileAccount};
use crate::mobile::{Confirmation, ConfirmationKind};
use crate::text::{concat3, join, joined, same_text, texts};
use crate::trade::TradeDetails;

verus! {

/// A confirmation as the list shows it. `load_id` numbers the load that it came
/// with; `trade` holds the trade's items once they are known, or why they are
/// not.
#[derive(Clone, Debug, PartialEq, Eq)]
pub struct ConfirmationRow {
    pub account_index: usize,
    pub id: String,
    pub nonce: String,
    pub kind: String,
    pub headline: String,
    pub summary: String,
    pub created: u64,
    pub icon: Option<String>,
    pub is_trade: bool,
    pub is_market_sale: bool,
    pub load_id: u64,
    pub trade: Option<Result<TradeDetails, String>>,
}

/// What an answer needs of a confirmation.
#[derive(Debug, PartialEq, Eq)]
pub struct ConfirmationTarget {
    pub load_id: u64,
    pub id: String,
    pub nonce: String,
}

/// The confirmations of one account that get the same answer.
#[derive(Debug, PartialEq, Eq)]
pub struct ConfirmationGroup {
    pub account: MobileAccount,
    pub targets: Vec<ConfirmationTarget>,
}

/// Which rows a bulk answer is for.
#[derive(Clone, Copy, Debug, PartialEq, Eq)]
pub enum ConfirmationScope {
    All,
    Trades,
    Sales,
}

impl ConfirmationScope {
    /// Whether a row is in the scope.
    pub open spec fn covers(self, row: ConfirmationRow) -> bool {
        match self {
            ConfirmationScope::All => true,
            ConfirmationScope::Trades => row.is_trade,
            ConfirmationScope::Sales => row.is_market_sale,
        }
    }

    /// Whether a row is in the scope.
    pub fn matches(self, row: &ConfirmationRow) -> (r: bool)
        ensures
            r == self.covers(*row),
    {
        match self {
            ConfirmationScope::All => true,
            ConfirmationScope::Trades => row.is_trade,
            ConfirmationScope::Sales => row.is_market_sale,
        }
    }
}

/// The mathematical form of what an answer needs.
pub struct TargetView {
    pub load_id: u64,
    pub id: Seq<char>,
    pub nonce: Seq<char>,
}

impl View for ConfirmationTarget {
    type V = TargetView;

    open spec fn view(&self) -> TargetView {
        TargetView { load_id: self.load_id, id: self.id@, nonce: self.nonce@ }
    }
}

/// The mathematical form of a row of targets.
pub open spec fn target_views(targets: Seq<ConfirmationTarget>) -> Seq<TargetView> {
    targets.map_values(|target: ConfirmationTarget| target@)
}

impl ConfirmationRow {
    /// What an answer to this row needs.
    pub open spec fn target_view(self) -> TargetView {
        TargetView { load_id: self.load_id, id: self.id@, nonce: self.nonce@ }
    }

    /// What an answer to this row needs.
    pub fn target(&self) -> (r: ConfirmationTarget)
        ensures
            r@ == self.target_view(),
    {
        ConfirmationTarget {
            load_id: self.load_id,
            id: self.id.clone(),
            nonce: self.nonce.clone(),
        }
    }
}

// ---------------------------------------------------------------------------
// The list
// ---------------------------------------------------------------------------

/// A trade whose items are still to be loaded.
#[derive(Debug, PartialEq, Eq)]
pub struct TradeJob {
    pub account: MobileAccount,
    pub id: String,
    pub creator_id: String,
    pub icon: Option<String>,
}

/// Whether the confirmations of an account are loaded: it has a session, and a
/// secret to sign with.
pub fn has_confirmations(account: &MobileAccount) -> (r: bool)
    ensures
        r == (account.tokens is Some && account.identity_secret@.len() > 0),
{
    account.tokens.is_some() && !account.identity_secret.as_str().is_empty()
}

/// An error with the name of the account that it is about.
pub fn account_error(account_name: &str, error: &str) -> (r: String)
    ensures
        r@ == account_name@ + ": "@ + error@,
{
    concat3(account_name, ": ", error)
}

/// Whether a row shows a confirmation of an account.
pub open spec fn shows(
    row: ConfirmationRow,
    confirmation: Confirmation,
    account_index: usize,
    load_id: u64,
) -> bool {
    &&& row.account_index == account_index
    &&& row.id == confirmation.listed.id
    &&& row.nonce == confirmation.listed.nonce
    &&& row.kind == confirmation.label
    &&& row.headline == confirmation.listed.headline
    &&& row.summary@ == joined(texts(confirmation.listed.summary@), " · "@)
    &&& row.created == confirmation.listed.creation_time
    &&& row.icon == confirmation.listed.icon
    &&& row.is_trade == (confirmation.listed.kind == ConfirmationKind::Trade)
    &&& row.is_market_sale == (confirmation.listed.kind == ConfirmationKind::MarketSell)
    &&& row.load_id == load_id
    &&& row.trade is None
}

/// Whether a job loads the items of a trade.
pub open spec fn loads(job: TradeJob, confirmation: Confirmation, account: MobileAccount) -> bool {
    &&& job.account == account
    &&& job.id == confirmation.listed.id
    &&& job.creator_id == confirmation.listed.creator_id
    &&& job.icon == confirmation.listed.icon
}

/// The trades among a row of confirmations, in order.
pub open spec fn trades_of(confirmations: Seq<Confirmation>) -> Seq<Confirmation>
    decreases confirmations.len(),
{
    if confirmations.len() == 0 {
        Seq::empty()
    } else {
        let before = trades_of(confirmations.drop_last());
        if confirmations.last().listed.kind == ConfirmationKind::Trade {
            before.push(confirmations.last())
        } else {
            before
        }
    }
}

/// Whether `rows` are the rows before with one for each confirmation behind
/// them, in order.
pub open spec fn adds_rows(
    before: Seq<ConfirmationRow>,
    rows: Seq<ConfirmationRow>,
    confirmations: Seq<Confirmation>,
    account_index: usize,
    load_id: u64,
) -> bool {
    &&& rows.len() == before.len() + confirmations.len()
    &&& rows.take(before.len() as int) == before
    &&& forall|i: int|
        0 <= i < confirmations.len() ==> shows(
            rows[before.len() + i],
            #[trigger] confirmations[i],
            account_index,
            load_id,
        )
}

/// Whether `jobs` are the jobs before with one for each trade behind them, in
/// order.
pub open spec fn adds_jobs(
    before: Seq<TradeJob>,
    jobs: Seq<TradeJob>,
    trades: Seq<Confirmation>,
    account: MobileAccount,
) -> bool {
    &&& jobs.len() == before.len() + trades.len()
    &&& jobs.take(before.len() as int) == before
    &&& forall|i: int|
        0 <= i < trades.len() ==> loads(jobs[before.len() + i], #[trigger] trades[i], account)
}

fn row_of(confirmation: Confirmation, account_index: usize, load_id: u64) -> (r: ConfirmationRow)
    ensures
        shows(r, confirmation, account_index, load_id),
{
    let listed = confirmation.listed;
    let is_trade = match listed.kind {
        ConfirmationKind::Trade => true,
        _ => false,
    };
    let is_market_sale = match listed.kind {
        ConfirmationKind::MarketSell => true,
        _ => false,
    };
    ConfirmationRow {
        account_index,
        id: listed.id,
        nonce: listed.nonce,
        kind: confirmation.label,
        headline: listed.headline,
        summary: join(listed.summary.as_slice(), " · "),
        created: listed.creation_time,
        icon: listed.icon,
        is_trade,
        is_market_sale,
        load_id,
        trade: None,
    }
}

/// Adds the confirmations of an account to the list, and the trades among them
/// to what is still to be loaded.
pub fn add_confirmations(
    rows: &mut Vec<ConfirmationRow>,
    jobs: &mut Vec<TradeJob>,
    confirmations: Vec<Confirmation>,
    account_index: usize,
    account: &MobileAccount,
    load_id: u64,
)
    ensures
        adds_rows(old(rows)@, final(rows)@, confirmations@, account_index, load_id),
        adds_jobs(old(jobs)@, final(jobs)@, trades_of(confirmations@), *account),
        forall|i: int|
            0 <= i < confirmations@.len() ==> {
                let row = final(rows)@[old(rows)@.len() + i];
                &&& row.id@ == (#[trigger] confirmations@[i]).listed.id@
                &&& row.nonce@ == confirmations@[i].listed.nonce@
                &&& row.account_index == account_index
                &&& row.load_id == load_id
            },
{
    let ghost first_rows = rows@;
    let ghost first_jobs = jobs@;
    let ghost all = confirmations@;
    assert(first_rows.take(first_rows.len() as int) =~= first_rows);
    assert(first_jobs.take(first_jobs.len() as int) =~= first_jobs);
    for confirmation in it: confirmations
        invariant
            it.seq() == all,
            adds_rows(first_rows, rows@, all.take(it.index() as int), account_index, load_id),
            adds_jobs(first_jobs, jobs@, trades_of(all.take(it.index() as int)), *account),
    {
        let ghost at = it.index() as int;
        let ghost listed = all.take(at);
        let ghost trades = trades_of(listed);
        let ghost rows_before = rows@;
        let ghost jobs_before = jobs@;
        assert(all.take(at + 1) =~= listed.push(confirmation));
        assert(all.take(at + 1).drop_last() =~= listed);
        if let ConfirmationKind::Trade = confirmation.listed.kind {
            jobs.push(
                TradeJob {
                    account: account.clone(),
                    id: confirmation.listed.id.clone(),
                    creator_id: confirmation.listed.creator_id.clone(),
                    icon: confirmation.listed.icon.clone(),
                },
            );
            assert(jobs@.take(first_jobs.len() as int) =~= jobs_before.take(first_jobs.len() as int));
            assert forall|i: int| 0 <= i < trades.push(confirmation).len() implies loads(
                jobs@[first_jobs.len() + i],
                #[trigger] trades.push(confirmation)[i],
                *account,
            ) by {
                if i < trades.len() {
                    assert(loads(jobs_before[first_jobs.len() + i], trades[i], *account));
                }
            }
        }
        rows.push(row_of(confirmation, account_index, load_id));
        assert(rows@.take(first_rows.len() as int) =~= rows_before.take(first_rows.len() as int));
        assert forall|i: int| 0 <= i < all.take(at + 1).len() implies shows(
            rows@[first_rows.len() + i],
            #[trigger] all.take(at + 1)[i],
            account_index,
            load_id,
        ) by {
            if i < at {
                assert(shows(rows_before[first_rows.len() + i], listed[i], account_index, load_id));
            }
        }
    }
    assert(all.take(all.len() as int) =~= all);
}

// ---------------------------------------------------------------------------
// Bulk answers
// ---------------------------------------------------------------------------

/// The authenticator of the account number `index`, if there is one.
pub open spec fn mobile_at(accounts: Seq<Account>, index: nat) -> Option<MobileAccount> {
    if index < accounts.len() {
        accounts[index as int].mobile
    } else {
        None
    }
}

/// What the answers to the rows of one account and scope need, in order.
pub open spec fn targets_of(rows: Seq<ConfirmationRow>, index: nat, scope: ConfirmationScope) -> Seq<
    TargetView,
>
    decreases rows.len(),
{
    if rows.len() == 0 {
        Seq::empty()
    } else {
        let before = targets_of(rows.drop_last(), index, scope);
        if rows.last().account_index == index && scope.covers(rows.last()) {
            before.push(rows.last().target_view())
        } else {
            before
        }
    }
}

/// The mathematical form of a group.
pub struct GroupView {
    pub account: MobileAccount,
    pub targets: Seq<TargetView>,
}

impl View for ConfirmationGroup {
    type V = GroupView;

    open spec fn view(&self) -> GroupView {
        GroupView { account: self.account, targets: target_views(self.targets@) }
    }
}

/// The mathematical form of a row of groups.
pub open spec fn group_views(groups: Seq<ConfirmationGroup>) -> Seq<GroupView> {
    groups.map_values(|group: ConfirmationGroup| group@)
}

/// The groups of the rows in a scope, one for each of the first `count`
/// accounts that has any, in the order of the accounts.
pub open spec fn grouped(
    accounts: Seq<Account>,
    rows: Seq<ConfirmationRow>,
    scope: ConfirmationScope,
    count: nat,
) -> Seq<GroupView>
    decreases count,
{
    if count == 0 {
        Seq::empty()
    } else {
        let index = (count - 1) as nat;
        let before = grouped(accounts, rows, scope, index);
        let targets = targets_of(rows, index, scope);
        if targets.len() > 0 {
            before.push(GroupView { account: mobile_at(accounts, index)->0, targets })
        } else {
            before
        }
    }
}

/// Whether every row in a scope belongs to an account that can answer.
pub open spec fn all_available(
    accounts: Seq<Account>,
    rows: Seq<ConfirmationRow>,
    scope: ConfirmationScope,
) -> bool {
    forall|i: int|
        0 <= i < rows.len() && scope.covers(#[trigger] rows[i]) ==> mobile_at(
            accounts,
            rows[i].account_index as nat,
        ) is Some
}

fn has_mobile(accounts: &[Account], index: usize) -> (r: bool)
    ensures
        r == mobile_at(accounts@, index as nat) is Some,
{
    index < accounts.len() && accounts[index].mobile.is_some()
}

fn collect_targets(rows: &[ConfirmationRow], index: usize, scope: ConfirmationScope) -> (r: Vec<
    ConfirmationTarget,
>)
    ensures
        target_views(r@) == targets_of(rows@, index as nat, scope),
{
    let mut targets: Vec<ConfirmationTarget> = Vec::new();
    let mut i: usize = 0;
    assert(rows@.take(0) =~= Seq::<ConfirmationRow>::empty());
    assert(target_views(targets@) =~= targets_of(rows@.take(0), index as nat, scope));
    while i < rows.len()
        invariant
            i <= rows@.len(),
            target_views(targets@) == targets_of(rows@.take(i as int), index as nat, scope),
        decreases rows@.len() - i,
    {
        assert(rows@.take(i + 1).drop_last() =~= rows@.take(i as int));
        assert(rows@.take(i + 1).last() == rows@[i as int]);
        let ghost before = target_views(targets@);
        if rows[i].account_index == index && scope.matches(&rows[i]) {
            let target = rows[i].target();
            targets.push(target);
            assert(target_views(targets@) =~= before.push(target@));
        }
        i = i + 1;
    }
    assert(rows@.take(i as int) =~= rows@);
    targets
}

proof fn lemma_targets_available(
    accounts: Seq<Account>,
    rows: Seq<ConfirmationRow>,
    scope: ConfirmationScope,
    index: nat,
)
    requires
        all_available(accounts, rows, scope),
        targets_of(rows, index, scope).len() > 0,
    ensures
        mobile_at(accounts, index) is Some,
    decreases rows.len(),
{
    if rows.last().account_index == index && scope.covers(rows.last()) {
        assert(rows[rows.len() - 1] == rows.last());
    } else {
        assert forall|i: int|
            0 <= i < rows.drop_last().len() && scope.covers(
                #[trigger] rows.drop_last()[i],
            ) implies mobile_at(accounts, rows.drop_last()[i].account_index as nat) is Some by {
            assert(rows[i] == rows.drop_last()[i]);
        }
        lemma_targets_available(accounts, rows.drop_last(), scope, index);
    }
}

/// The groups in which the rows of a scope are answered: one for each account,
/// in the order of the accounts, with the rows in their order. If one of the
/// rows belongs to no account that can answer, none is.
pub fn group_confirmations(
    accounts: &[Account],
    rows: &[ConfirmationRow],
    scope: ConfirmationScope,
) -> (r: Result<Vec<ConfirmationGroup>, String>)
    ensures
        match r {
            Ok(groups) => all_available(accounts@, rows@, scope) && group_views(groups@) == grouped(
                accounts@,
                rows@,
                scope,
                accounts@.len(),
            ),
            Err(message) => !all_available(accounts@, rows@, scope) && message@
                == "Аккаунт подтверждения недоступен. Обновите список"@,
        },
{
    let mut i: usize = 0;
    while i < rows.len()
        invariant
            i <= rows@.len(),
            forall|k: int|
                0 <= k < i && scope.covers(#[trigger] rows@[k]) ==> mobile_at(
                    accounts@,
                    rows@[k].account_index as nat,
                ) is Some,
        decreases rows@.len() - i,
    {
        if scope.matches(&rows[i]) && !has_mobile(accounts, rows[i].account_index) {
            assert(scope.covers(rows@[i as int]));
            return Err("Аккаунт подтверждения недоступен. Обновите список".to_owned());
        }
        i = i + 1;
    }
    let mut groups: Vec<ConfirmationGroup> = Vec::new();
    let mut index: usize = 0;
    assert(group_views(groups@) =~= grouped(accounts@, rows@, scope, 0));
    while index < accounts.len()
        invariant
            index <= accounts@.len(),
            all_available(accounts@, rows@, scope),
            group_views(groups@) == grouped(accounts@, rows@, scope, index as nat),
        decreases accounts@.len() - index,
    {
        let ghost before = group_views(groups@);
        let targets = collect_targets(rows, index, scope);
        if targets.len() > 0 {
            proof {
                lemma_targets_available(accounts@, rows@, scope, index as nat);
            }
            if let Some(account) = &accounts[index].mobile {
                let group = ConfirmationGroup { account: account.clone(), targets };
                groups.push(group);
                assert(group_views(groups@) =~= before.push(group@));
            }
        }
        index = index + 1;
    }
    Ok(groups)
}

/// The groups in which all rows are answered.
pub fn prepare_confirmation_groups(accounts: &[Account], rows: &[ConfirmationRow]) -> (r: Result<
    Vec<ConfirmationGroup>,
    String,
>)
    ensures
        match r {
            Ok(groups) => all_available(accounts@, rows@, ConfirmationScope::All) && group_views(
                groups@,
            ) == grouped(accounts@, rows@, ConfirmationScope::All, accounts@.len()),
            Err(message) => !all_available(accounts@, rows@, ConfirmationScope::All) && message@
                == "Аккаунт подтверждения недоступен. Обновите список"@,
        },
{
    group_confirmations(accounts, rows, ConfirmationScope::All)
}

/// How many rows of a scope belong to the first `count` accounts.
pub open spec fn rows_below(
    rows: Seq<ConfirmationRow>,
    scope: ConfirmationScope,
    count: nat,
) -> nat
    decreases rows.len(),
{
    if rows.len() == 0 {
        0
    } else {
        rows_below(rows.drop_last(), scope, count) + if rows.last().account_index < count
            && scope.covers(rows.last()) {
            1nat
        } else {
            0nat
        }
    }
}

/// How many rows are in a scope.
pub open spec fn count_in(rows: Seq<ConfirmationRow>, scope: ConfirmationScope) -> nat
    decreases rows.len(),
{
    if rows.len() == 0 {
        0
    } else {
        count_in(rows.drop_last(), scope) + if scope.covers(rows.last()) {
            1nat
        } else {
            0nat
        }
    }
}

/// How many confirmations a row of groups answers.
pub open spec fn answered(groups: Seq<GroupView>) -> nat
    decreases groups.len(),
{
    if groups.len() == 0 {
        0
    } else {
        answered(groups.drop_last()) + groups.last().targets.len()
    }
}

/// A bulk answer reaches each row of its scope exactly once.
pub proof fn groups_answer_every_row(
    accounts: Seq<Account>,
    rows: Seq<ConfirmationRow>,
    scope: ConfirmationScope,
)
    requires
        all_available(accounts, rows, scope),
    ensures
        answered(grouped(accounts, rows, scope, accounts.len())) == count_in(rows, scope),
{
    lemma_answered_below(accounts, rows, scope, accounts.len());
    lemma_all_below(accounts, rows, scope);
}

proof fn lemma_targets_count(rows: Seq<ConfirmationRow>, scope: ConfirmationScope, index: nat)
    ensures
        rows_below(rows, scope, index + 1) == rows_below(rows, scope, index) + targets_of(
            rows,
            index,
            scope,
        ).len(),
    decreases rows.len(),
{
    if rows.len() > 0 {
        lemma_targets_count(rows.drop_last(), scope, index);
    }
}

proof fn lemma_none_below(rows: Seq<ConfirmationRow>, scope: ConfirmationScope)
    ensures
        rows_below(rows, scope, 0) == 0,
    decreases rows.len(),
{
    if rows.len() > 0 {
        lemma_none_below(rows.drop_last(), scope);
    }
}

proof fn lemma_answered_below(
    accounts: Seq<Account>,
    rows: Seq<ConfirmationRow>,
    scope: ConfirmationScope,
    count: nat,
)
    ensures
        answered(grouped(accounts, rows, scope, count)) == rows_below(rows, scope, count),
    decreases count,
{
    if count == 0 {
        lemma_none_below(rows, scope);
    } else {
        let index = (count - 1) as nat;
        lemma_answered_below(accounts, rows, scope, index);
        lemma_targets_count(rows, scope, index);
        let before = grouped(accounts, rows, scope, index);
        let groups = grouped(accounts, rows, scope, count);
        if targets_of(rows, index, scope).len() > 0 {
            assert(groups.drop_last() =~= before);
        }
    }
}

proof fn lemma_all_below(
    accounts: Seq<Account>,
    rows: Seq<ConfirmationRow>,
    scope: ConfirmationScope,
)
    requires
        all_available(accounts, rows, scope),
    ensures
        rows_below(rows, scope, accounts.len()) == count_in(rows, scope),
    decreases rows.len(),
{
    if rows.len() > 0 {
        assert forall|i: int|
            0 <= i < rows.drop_last().len() && scope.covers(
                #[trigger] rows.drop_last()[i],
            ) implies mobile_at(accounts, rows.drop_last()[i].account_index as nat) is Some by {
            assert(rows[i] == rows.drop_last()[i]);
        }
        lemma_all_below(accounts, rows.drop_last(), scope);
        assert(rows[rows.len() - 1] == rows.last());
    }
}

/// How many rows are in a scope.
pub fn count_rows(rows: &[ConfirmationRow], scope: ConfirmationScope) -> (r: usize)
    ensures
        r == count_in(rows@, scope),
{
    let count: usize = rows.len();
    let mut found: usize = 0;
    let mut i: usize = 0;
    assert(rows@.take(0) =~= Seq::<ConfirmationRow>::empty());
    while i < count
        invariant
            i <= count == rows@.len(),
            found <= i,
            found == count_in(rows@.take(i as int), scope),
        decreases count - i,
    {
        assert(rows@.take(i + 1).drop_last() =~= rows@.take(i as int));
        assert(rows@.take(i + 1).last() == rows@[i as int]);
        if scope.matches(&rows[i]) {
            found = found + 1;
        }
        i = i + 1;
    }
    assert(rows@.take(i as int) =~= rows@);
    found
}

/// Trades and sales are answered apart: a row is in the scope of both only
/// where it is both, and every row is in the scope of all.
pub proof fn scopes_tell_rows_apart(row: ConfirmationRow)
    requires
        !(row.is_trade && row.is_market_sale),
    ensures
        ConfirmationScope::All.covers(row),
        !(ConfirmationScope::Trades.covers(row) && ConfirmationScope::Sales.covers(row)),
{
}

// ---------------------------------------------------------------------------
// After a bulk answer
// ---------------------------------------------------------------------------

/// Whether a row is among those that were answered.
pub open spec fn is_answered(row: ConfirmationRow, completed: Seq<TargetView>) -> bool {
    completed.contains(row.target_view())
}

/// The rows that were not answered, in order.
pub open spec fn unanswered(rows: Seq<ConfirmationRow>, completed: Seq<TargetView>) -> Seq<
    ConfirmationRow,
>
    decreases rows.len(),
{
    if rows.len() == 0 {
        Seq::empty()
    } else {
        let before = unanswered(rows.drop_last(), completed);
        if is_answered(rows.last(), completed) {
            before
        } else {
            before.push(rows.last())
        }
    }
}

fn was_answered(row: &ConfirmationRow, completed: &[ConfirmationTarget]) -> (r: bool)
    ensures
        r == is_answered(*row, target_views(completed@)),
{
    let ghost done = target_views(completed@);
    let mut i: usize = 0;
    while i < completed.len()
        invariant
            i <= completed@.len(),
            done == target_views(completed@),
            forall|k: int| 0 <= k < i ==> #[trigger] done[k] != row.target_view(),
        decreases completed@.len() - i,
    {
        let target = &completed[i];
        assert(done[i as int] == target@);
        if target.load_id == row.load_id && same_text(target.id.as_str(), row.id.as_str())
            && same_text(target.nonce.as_str(), row.nonce.as_str()) {
            assert(done[i as int] == row.target_view());
            return true;
        }
        i = i + 1;
    }
    false
}

/// The rows that were not answered.
pub fn remaining_rows(rows: Vec<ConfirmationRow>, completed: &[ConfirmationTarget]) -> (r: Vec<
    ConfirmationRow,
>)
    ensures
        r@ == unanswered(rows@, target_views(completed@)),
{
    let mut out: Vec<ConfirmationRow> = Vec::new();
    let ghost all = rows@;
    assert(all.take(0) =~= Seq::<ConfirmationRow>::empty());
    for row in it: rows
        invariant
            it.seq() == all,
            out@ == unanswered(all.take(it.index() as int), target_views(completed@)),
    {
        let ghost at = it.index() as int;
        assert(all.take(at + 1).drop_last() =~= all.take(at));
        assert(all.take(at + 1).last() == row);
        if !was_answered(&row, completed) {
            out.push(row);
        }
    }
    assert(all.take(all.len() as int) =~= all);
    out
}

/// After a bulk answer none of the rows that it answered is left, and every
/// other row is.
pub proof fn answered_rows_leave(
    rows: Seq<ConfirmationRow>,
    completed: Seq<TargetView>,
    row: ConfirmationRow,
)
    requires
        rows.contains(row),
    ensures
        unanswered(rows, completed).contains(row) <==> !is_answered(row, completed),
    decreases rows.len(),
{
    let left = unanswered(rows, completed);
    let before = unanswered(rows.drop_last(), completed);
    if rows.drop_last().contains(row) {
        answered_rows_leave(rows.drop_last(), completed, row);
        if before.contains(row) {
            let at = choose|at: int| 0 <= at < before.len() && before[at] == row;
            assert(left[at] == row);
        } else {
            lemma_left_is_unanswered(rows, completed, row);
        }
    } else {
        let at = choose|at: int| 0 <= at < rows.len() && rows[at] == row;
        if at < rows.len() - 1 {
            assert(rows.drop_last()[at] == row);
        }
        assert(rows.last() == row);
        if is_answered(row, completed) {
            lemma_left_is_unanswered(rows, completed, row);
        } else {
            assert(left[left.len() - 1] == row);
        }
    }
}

proof fn lemma_left_is_unanswered(
    rows: Seq<ConfirmationRow>,
    completed: Seq<TargetView>,
    row: ConfirmationRow,
)
    ensures
        unanswered(rows, completed).contains(row) ==> !is_answered(row, completed),
    decreases rows.len(),
{
    if rows.len() > 0 {
        lemma_left_is_unanswered(rows.drop_last(), completed, row);
        let left = unanswered(rows, completed);
        let before = unanswered(rows.drop_last(), completed);
        if left.contains(row) && is_answered(row, completed) {
            let at = choose|at: int| 0 <= at < left.len() && left[at] == row;
            if at < before.len() {
                assert(before[at] == row);
            }
        }
    }
}

// ---------------------------------------------------------------------------
// What a list is good for
// ---------------------------------------------------------------------------

/// What is shown of a confirmation, and what an answer to it needs, is what
/// Steam listed: the answer carries the identifier and the key of the list, and
/// goes to the account that the list was of.
pub proof fn loaded_rows_keep_the_list(
    before: Seq<ConfirmationRow>,
    rows: Seq<ConfirmationRow>,
    confirmations: Seq<Confirmation>,
    account_index: usize,
    load_id: u64,
    i: int,
)
    requires
        adds_rows(before, rows, confirmations, account_index, load_id),
        0 <= i < confirmations.len(),
    ensures
        ({
            let row = rows[before.len() + i];
            let told = confirmations[i].listed;
            let answer = row.target_view();
            &&& rows.len() == before.len() + confirmations.len()
            &&& answer.id == told.id@ && answer.nonce == told.nonce@ && answer.load_id == load_id
            &&& row.id@ == told.id@ && row.nonce@ == told.nonce@
            &&& row.account_index == account_index
            &&& row.headline@ == told.headline@
            &&& row.kind@ == confirmations[i].label@
            &&& row.created == told.creation_time
            &&& row.icon == told.icon
            &&& row.is_trade <==> told.kind is Trade
            &&& row.is_market_sale <==> told.kind is MarketSell
            &&& row.trade is None
            &&& told.summary@.len() == 0 ==> row.summary@.len() == 0
            &&& told.summary@.len() == 1 ==> row.summary@ == told.summary@[0]@
            &&& told.summary@.len() == 2 ==> row.summary@ == told.summary@[0]@ + " · "@
                + told.summary@[1]@
        }),
{
    assert(shows(rows[before.len() + i], confirmations[i], account_index, load_id));
    let parts = texts(confirmations[i].listed.summary@);
    reveal_with_fuel(joined, 3);
}

/// The rows that were there stay as they were and where they were.
pub proof fn earlier_rows_stay(
    before: Seq<ConfirmationRow>,
    rows: Seq<ConfirmationRow>,
    confirmations: Seq<Confirmation>,
    account_index: usize,
    load_id: u64,
    i: int,
)
    requires
        adds_rows(before, rows, confirmations, account_index, load_id),
        0 <= i < before.len(),
    ensures
        rows[i] == before[i],
{
    assert(rows.take(before.len() as int)[i] == rows[i]);
}

/// The items of every listed trade are loaded, and of nothing else, each with
/// the number of its offer and for the account that it was listed for.
pub proof fn every_trade_is_loaded(
    before: Seq<TradeJob>,
    jobs: Seq<TradeJob>,
    confirmations: Seq<Confirmation>,
    account: MobileAccount,
    i: int,
    k: int,
)
    requires
        adds_jobs(before, jobs, trades_of(confirmations), account),
    ensures
        0 <= i < confirmations.len() && confirmations[i].listed.kind is Trade ==> exists|j: int|
            before.len() <= j < jobs.len() && (#[trigger] jobs[j]).id@
                == confirmations[i].listed.id@ && jobs[j].creator_id@
                == confirmations[i].listed.creator_id@ && jobs[j].icon
                == confirmations[i].listed.icon && jobs[j].account == account,
        before.len() <= k < jobs.len() ==> exists|j: int|
            0 <= j < confirmations.len() && (#[trigger] confirmations[j]).listed.kind is Trade
                && jobs[k].id@ == confirmations[j].listed.id@ && jobs[k].creator_id@
                == confirmations[j].listed.creator_id@ && jobs[k].account == account,
{
    let trades = trades_of(confirmations);
    if 0 <= i < confirmations.len() && confirmations[i].listed.kind is Trade {
        let at = lemma_trade_is_kept(confirmations, i);
        assert(loads(jobs[before.len() + at], trades[at], account));
    }
    if before.len() <= k < jobs.len() {
        let at = k - before.len();
        assert(loads(jobs[before.len() + at], trades[at], account));
        let from = lemma_trade_is_listed(confirmations, at);
        assert(confirmations[from] == trades[at]);
    }
}

proof fn lemma_trade_is_kept(confirmations: Seq<Confirmation>, i: int) -> (at: int)
    requires
        0 <= i < confirmations.len(),
        confirmations[i].listed.kind is Trade,
    ensures
        0 <= at < trades_of(confirmations).len(),
        trades_of(confirmations)[at] == confirmations[i],
    decreases confirmations.len(),
{
    let before = trades_of(confirmations.drop_last());
    if i == confirmations.len() - 1 {
        before.len() as int
    } else {
        assert(confirmations.drop_last()[i] == confirmations[i]);
        lemma_trade_is_kept(confirmations.drop_last(), i)
    }
}

proof fn lemma_trade_is_listed(confirmations: Seq<Confirmation>, at: int) -> (from: int)
    requires
        0 <= at < trades_of(confirmations).len(),
    ensures
        0 <= from < confirmations.len(),
        trades_of(confirmations)[at] == confirmations[from],
        confirmations[from].listed.kind is Trade,
    decreases confirmations.len(),
{
    let before = trades_of(confirmations.drop_last());
    if at < before.len() {
        let from = lemma_trade_is_listed(confirmations.drop_last(), at);
        assert(confirmations.drop_last()[from] == confirmations[from]);
        from
    } else {
        confirmations.len() - 1
    }
}

/// A bulk answer is for the rows that its name says: all of them, the trades,
/// or the sales.
pub proof fn scopes_are_what_they_say(row: ConfirmationRow)
    ensures
        ConfirmationScope::All.covers(row),
        ConfirmationScope::Trades.covers(row) <==> row.is_trade,
        ConfirmationScope::Sales.covers(row) <==> row.is_market_sale,
{
}

/// Every group of a bulk answer is signed by the account whose rows it answers:
/// each of its targets is the identifier and the key of a row of that account
/// that is in the scope.
pub proof fn groups_answer_for_their_accounts(
    accounts: Seq<Account>,
    rows: Seq<ConfirmationRow>,
    scope: ConfirmationScope,
    count: nat,
    g: int,
    t: int,
)
    requires
        count <= accounts.len(),
        all_available(accounts, rows, scope),
        0 <= g < grouped(accounts, rows, scope, count).len(),
        0 <= t < grouped(accounts, rows, scope, count)[g].targets.len(),
    ensures
        ({
            let group = grouped(accounts, rows, scope, count)[g];
            exists|i: int|
                0 <= i < rows.len() && (#[trigger] rows[i]).id@ == group.targets[t].id
                    && rows[i].nonce@ == group.targets[t].nonce && rows[i].load_id
                    == group.targets[t].load_id && rows[i].account_index < accounts.len()
                    && accounts[rows[i].account_index as int].mobile == Some(group.account) && (
                scope is Trades ==> rows[i].is_trade) && (scope is Sales
                    ==> rows[i].is_market_sale)
        }),
    decreases count,
{
    let index = (count - 1) as nat;
    let before = grouped(accounts, rows, scope, index);
    if g < before.len() {
        groups_answer_for_their_accounts(accounts, rows, scope, index, g, t);
    } else {
        lemma_targets_available(accounts, rows, scope, index);
        let i = lemma_target_is_of_row(rows, index, scope, t);
        assert(rows[i].id@ == targets_of(rows, index, scope)[t].id);
    }
}

proof fn lemma_target_is_of_row(
    rows: Seq<ConfirmationRow>,
    index: nat,
    scope: ConfirmationScope,
    t: int,
) -> (i: int)
    requires
        0 <= t < targets_of(rows, index, scope).len(),
    ensures
        0 <= i < rows.len(),
        rows[i].account_index == index,
        rows[i].id@ == targets_of(rows, index, scope)[t].id,
        rows[i].nonce@ == targets_of(rows, index, scope)[t].nonce,
        rows[i].load_id == targets_of(rows, index, scope)[t].load_id,
        scope is Trades ==> rows[i].is_trade,
        scope is Sales ==> rows[i].is_market_sale,
    decreases rows.len(),
{
    let before = targets_of(rows.drop_last(), index, scope);
    if t < before.len() {
        let i = lemma_target_is_of_row(rows.drop_last(), index, scope, t);
        assert(rows.drop_last()[i] == rows[i]);
        i
    } else {
        rows.len() - 1
    }
}

/// A row leaves the list exactly where its own load, identifier and key were
/// answered.
pub proof fn only_the_answered_row_leaves(
    rows: Seq<ConfirmationRow>,
    completed: Seq<TargetView>,
    row: ConfirmationRow,
)
    requires
        rows.contains(row),
    ensures
        !unanswered(rows, completed).contains(row) <==> exists|i: int|
            0 <= i < completed.len() && (#[trigger] completed[i]).load_id == row.load_id
                && completed[i].id == row.id@ && completed[i].nonce == row.nonce@,
{
    answered_rows_leave(rows, completed, row);
    if exists|i: int|
        0 <= i < completed.len() && (#[trigger] completed[i]).load_id == row.load_id
            && completed[i].id == row.id@ && completed[i].nonce == row.nonce@ {
        let i = choose|i: int|
            0 <= i < completed.len() && (#[trigger] completed[i]).load_id == row.load_id
                && completed[i].id == row.id@ && completed[i].nonce == row.nonce@;
        assert(completed[i] == row.target_view());
    }
}

/// A scope counts its rows one by one: every row counts among all, a trade among
/// the trades, a sale among the sales.
pub proof fn scopes_count_their_rows(rows: Seq<ConfirmationRow>, row: ConfirmationRow)
    ensures
        rows.len() == 0 ==> count_in(rows, ConfirmationScope::All) == 0 && count_in(
            rows,
            ConfirmationScope::Trades,
        ) == 0 && count_in(rows, ConfirmationScope::Sales) == 0,
        count_in(rows.push(row), ConfirmationScope::All) == count_in(rows, ConfirmationScope::All)
            + 1,
        count_in(rows.push(row), ConfirmationScope::Trades) == count_in(
            rows,
            ConfirmationScope::Trades,
        ) + (if row.is_trade {
            1int
        } else {
            0int
        }),
        count_in(rows.push(row), ConfirmationScope::Sales) == count_in(
            rows,
            ConfirmationScope::Sales,
        ) + (if row.is_market_sale {
            1int
        } else {
            0int
        }),
{
    assert(rows.push(row).drop_last() =~= rows);
}

/// A bulk answer can be given exactly where every row that it is for belongs to
/// an account of the vault that has an authenticator.
pub proof fn bulk_answers_need_every_account(
    accounts: Seq<Account>,
    rows: Seq<ConfirmationRow>,
    scope: ConfirmationScope,
)
    ensures
        all_available(accounts, rows, scope) <==> forall|i: int|
            0 <= i < rows.len() && (scope is All || (scope is Trades && rows[i].is_trade) || (scope
                is Sales && rows[i].is_market_sale)) ==> (#[trigger] rows[i]).account_index
                < accounts.len() && accounts[rows[i].account_index as int].mobile is Some,
{
    if all_available(accounts, rows, scope) {
        assert forall|i: int|
            0 <= i < rows.len() && (scope is All || (scope is Trades && rows[i].is_trade) || (scope
                is Sales && rows[i].is_market_sale)) implies (#[trigger] rows[i]).account_index
            < accounts.len() && accounts[rows[i].account_index as int].mobile is Some by {
            assert(scope.covers(rows[i]));
        }
    } else {
        let i = choose|i: int|
            0 <= i < rows.len() && scope.covers(#[trigger] rows[i]) && !(mobile_at(
                accounts,
                rows[i].account_index as nat,
            ) is Some);
        assert(rows[i].account_index < accounts.len() ==> accounts[rows[i].account_index as int].mobile
            is None);
    }
}

} // verus!
