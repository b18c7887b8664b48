//! How imported accounts join those of the vault.
use vstd::prelude::*;
use vstd::string::StringExecFns;

use crate::account::Account;
use crate::state::{shows_notice, AfterSave, AppState};
use crate::text::{decimal, decimal_text, same_text};

verus! {

/// The first account from `from` on that has that shared secret.
pub open spec fn same_secret(accounts: Seq<Account>, secret: Seq<char>, from: nat) -> Option<nat>
    decreases accounts.len() - from,
{
    if from >= accounts.len() {
        None
    } else if accounts[from as int].shared_secret@ == secret {
        Some(from)
    } else {
        same_secret(accounts, secret, from + 1)
    }
}

/// What a row of imported files makes of the accounts, how many of the files
/// were new, upgraded an account or were skipped, and the last error.
pub struct Imports {
    pub accounts: Seq<Account>,
    pub imported: nat,
    pub upgraded: nat,
    pub skipped: nat,
    pub last_error: Option<Seq<char>>,
}

/// What one more file does: an account with a new secret is added, one with a
/// known secret takes the place of an entry without an authenticator if it has
/// one, and everything else is skipped.
pub open spec fn import_one(before: Imports, file: Result<Account, String>) -> Imports {
    match file {
        Err(message) => Imports {
            skipped: before.skipped + 1,
            last_error: Some(message@),
            ..before
        },
        Ok(account) => match same_secret(before.accounts, account.shared_secret@, 0) {
            None => Imports {
                accounts: before.accounts.push(account),
                imported: before.imported + 1,
                ..before
            },
            Some(index) => if before.accounts[index as int].mobile is None && account.mobile
                is Some {
                Imports {
                    accounts: before.accounts.update(index as int, account),
                    upgraded: before.upgraded + 1,
                    ..before
                }
            } else {
                Imports { skipped: before.skipped + 1, ..before }
            },
        },
    }
}

/// What a row of files does, one after the other.
pub open spec fn import_all(accounts: Seq<Account>, files: Seq<Result<Account, String>>) -> Imports
    decreases files.len(),
{
    if files.len() == 0 {
        Imports { accounts, imported: 0, upgraded: 0, skipped: 0, last_error: None }
    } else {
        import_one(import_all(accounts, files.drop_last()), files.last())
    }
}

/// Whether no two accounts have the same shared secret.
pub open spec fn secrets_differ(accounts: Seq<Account>) -> bool {
    forall|i: int, j: int|
        0 <= i < j < accounts.len() ==> (#[trigger] accounts[i]).shared_secret@ != (
        #[trigger] accounts[j]).shared_secret@
}

proof fn lemma_same_secret(accounts: Seq<Account>, secret: Seq<char>, from: nat)
    ensures
        match same_secret(accounts, secret, from) {
            Some(index) => from <= index < accounts.len() && accounts[index as int].shared_secret@
                == secret,
            None => forall|i: int|
                from <= i < accounts.len() ==> (#[trigger] accounts[i]).shared_secret@ != secret,
        },
    decreases accounts.len() - from,
{
    if from < accounts.len() && accounts[from as int].shared_secret@ != secret {
        lemma_same_secret(accounts, secret, from + 1);
    }
}

/// An import loses no account: every entry stays where it is, with its secret,
/// and keeps its authenticator if it has one.
pub proof fn import_keeps_accounts(
    accounts: Seq<Account>,
    files: Seq<Result<Account, String>>,
    i: int,
)
    requires
        0 <= i < accounts.len(),
    ensures
        ({
            let after = import_all(accounts, files).accounts;
            &&& accounts.len() <= after.len()
            &&& after[i].shared_secret@ == accounts[i].shared_secret@
            &&& after[i] == accounts[i] || (accounts[i].mobile is None && after[i].mobile is Some)
        }),
    decreases files.len(),
{
    if files.len() > 0 {
        import_keeps_accounts(accounts, files.drop_last(), i);
        let before = import_all(accounts, files.drop_last());
        if let Ok(account) = files.last() {
            lemma_same_secret(before.accounts, account.shared_secret@, 0);
        }
    }
}

/// An import never enters an account twice.
pub proof fn import_keeps_secrets_apart(
    accounts: Seq<Account>,
    files: Seq<Result<Account, String>>,
)
    requires
        secrets_differ(accounts),
    ensures
        secrets_differ(import_all(accounts, files).accounts),
    decreases files.len(),
{
    if files.len() > 0 {
        import_keeps_secrets_apart(accounts, files.drop_last());
        let before = import_all(accounts, files.drop_last()).accounts;
        let after = import_all(accounts, files).accounts;
        if let Ok(account) = files.last() {
            lemma_same_secret(before, account.shared_secret@, 0);
            assert forall|i: int, j: int| 0 <= i < j < after.len() implies (
            #[trigger] after[i]).shared_secret@ != (#[trigger] after[j]).shared_secret@ by {
                if after.len() == before.len() {
                    assert(after[i].shared_secret@ == before[i].shared_secret@);
                    assert(after[j].shared_secret@ == before[j].shared_secret@);
                } else {
                    assert(after[i] == before[i]);
                    if j < before.len() {
                        assert(after[j] == before[j]);
                    }
                }
            }
        }
    }
}

/// Every file is counted once.
pub proof fn import_counts_every_file(accounts: Seq<Account>, files: Seq<Result<Account, String>>)
    ensures
        ({
            let done = import_all(accounts, files);
            done.imported + done.upgraded + done.skipped == files.len()
        }),
    decreases files.len(),
{
    if files.len() > 0 {
        import_counts_every_file(accounts, files.drop_last());
    }
}

fn find_secret(accounts: &Vec<Account>, secret: &str) -> (r: Option<usize>)
    ensures
        match r {
            Some(index) => index < accounts@.len() && same_secret(accounts@, secret@, 0) == Some(
                index as nat,
            ),
            None => same_secret(accounts@, secret@, 0) is None,
        },
{
    let mut i: usize = 0;
    while i < accounts.len()
        invariant
            i <= accounts@.len(),
            same_secret(accounts@, secret@, 0) == same_secret(accounts@, secret@, i as nat),
        decreases accounts@.len() - i,
    {
        if same_text(accounts[i].shared_secret.as_str(), secret) {
            return Some(i);
        }
        i = i + 1;
    }
    None
}

/// What the user is told of an import.
pub open spec fn import_summary(imported: nat, upgraded: nat, skipped: nat) -> Seq<char> {
    "Импортировано: "@ + decimal(imported) + ", обновлено для подтверждений: "@ + decimal(upgraded)
        + ", пропущено: "@ + decimal(skipped)
}

/// What the user is told of an import.
pub fn import_text(imported: usize, upgraded: usize, skipped: usize) -> (r: String)
    ensures
        r@ == import_summary(imported as nat, upgraded as nat, skipped as nat),
{
    let mut text = "Импортировано: ".to_owned();
    text.append(decimal_text(imported as u64).as_str());
    text.append(", обновлено для подтверждений: ");
    text.append(decimal_text(upgraded as u64).as_str());
    text.append(", пропущено: ");
    text.append(decimal_text(skipped as u64).as_str());
    text
}

impl AppState {
    /// Adds the accounts of imported files, and tells what is to be told once
    /// the vault has been stored. Where nothing was added there is nothing to
    /// store, and the user is told why.
    pub fn import_accounts(&mut self, files: Vec<Result<Account, String>>) -> (r: Option<AfterSave>)
        ensures
            ({
                let done = import_all(old(self).accounts@, files@);
                &&& final(self).accounts@ == done.accounts
                &&& *final(self) == (AppState {
                    accounts: final(self).accounts,
                    notice: final(self).notice,
                    ..*old(self)
                })
                &&& if done.imported > 0 || done.upgraded > 0 {
                    &&& r matches Some(AfterSave::Imported { imported, upgraded, skipped })
                        && imported == done.imported && upgraded == done.upgraded && skipped
                        == done.skipped
                    &&& final(self).notice == old(self).notice
                } else {
                    &&& r is None
                    &&& shows_notice(
                        *final(self),
                        match done.last_error {
                            Some(message) => message,
                            None => "Новых аккаунтов не найдено"@,
                        },
                        true,
                    )
                }
            }),
    {
        let count: usize = files.len();
        let mut imported: usize = 0;
        let mut upgraded: usize = 0;
        let mut skipped: usize = 0;
        let mut last_error: Option<String> = None;
        let ghost all = files@;
        let ghost first = self.accounts@;
        assert(all.take(0) =~= Seq::<Result<Account, String>>::empty());
        for file in it: files
            invariant
                it.seq() == all,
                all.len() == count,
                *self == (AppState { accounts: self.accounts, ..*old(self) }),
                ({
                    let done = import_all(first, all.take(it.index() as int));
                    &&& self.accounts@ == done.accounts
                    &&& imported == done.imported
                    &&& upgraded == done.upgraded
                    &&& skipped == done.skipped
                    &&& done.last_error == match last_error {
                        Some(message) => Some(message@),
                        None => None,
                    }
                    &&& imported + upgraded + skipped == it.index()
                }),
        {
            let ghost at = it.index() as int;
            assert(at < count);
            assert(all.take(at + 1).drop_last() =~= all.take(at));
            assert(all.take(at + 1).last() == file);
            match file {
                Ok(account) => match find_secret(&self.accounts, account.shared_secret.as_str()) {
                    Some(index) => {
                        if self.accounts[index].mobile.is_none() && account.mobile.is_some() {
                            self.accounts.set(index, account);
                            upgraded = upgraded + 1;
                        } else {
                            skipped = skipped + 1;
                        }
                    },
                    None => {
                        self.accounts.push(account);
                        imported = imported + 1;
                    },
                },
                Err(message) => {
                    skipped = skipped + 1;
                    last_error = Some(message);
                },
            }
        }
        assert(all.take(all.len() as int) =~= all);
        if imported > 0 || upgraded > 0 {
            return Some(AfterSave::Imported { imported, upgraded, skipped });
        }
        match last_error {
            Some(message) => self.show_notice(message, true),
            None => self.show_notice("Новых аккаунтов не найдено".to_owned(), true),
        }
        None
    }
}

/// A file whose secret no account has is added behind the others, whole. One
/// whose secret an account has changes nothing, but where that account has no
/// authenticator and the file has one: then the file takes its place.
pub proof fn files_join_by_their_secret(before: Imports, account: Account)
    ensures
        (forall|i: int|
            0 <= i < before.accounts.len() ==> (#[trigger] before.accounts[i]).shared_secret@
                != account.shared_secret@) ==> import_one(before, Ok(account)) == (Imports {
            accounts: before.accounts.push(account),
            imported: before.imported + 1,
            ..before
        }),
        forall|i: int|
            0 <= i < before.accounts.len() && (#[trigger] before.accounts[i]).shared_secret@
                == account.shared_secret@ && (before.accounts[i].mobile is Some || account.mobile
                is None) && (forall|j: int|
                0 <= j < i ==> (#[trigger] before.accounts[j]).shared_secret@
                    != account.shared_secret@) ==> import_one(before, Ok(account)) == (Imports {
                skipped: before.skipped + 1,
                ..before
            }),
        forall|i: int|
            0 <= i < before.accounts.len() && (#[trigger] before.accounts[i]).shared_secret@
                == account.shared_secret@ && before.accounts[i].mobile is None && account.mobile
                is Some && (forall|j: int|
                0 <= j < i ==> (#[trigger] before.accounts[j]).shared_secret@
                    != account.shared_secret@) ==> import_one(before, Ok(account)) == (Imports {
                accounts: before.accounts.update(i, account),
                upgraded: before.upgraded + 1,
                ..before
            }),
{
    lemma_same_secret(before.accounts, account.shared_secret@, 0);
    assert forall|i: int|
        0 <= i < before.accounts.len() && (#[trigger] before.accounts[i]).shared_secret@
            == account.shared_secret@ && (forall|j: int|
            0 <= j < i ==> (#[trigger] before.accounts[j]).shared_secret@
                != account.shared_secret@) implies same_secret(
        before.accounts,
        account.shared_secret@,
        0,
    ) == Some(i as nat) by {
        lemma_secret_is_first(before.accounts, account.shared_secret@, 0, i);
    }
}

proof fn lemma_secret_is_first(accounts: Seq<Account>, secret: Seq<char>, from: nat, i: int)
    requires
        from <= i < accounts.len(),
        accounts[i].shared_secret@ == secret,
        forall|j: int| from <= j < i ==> (#[trigger] accounts[j]).shared_secret@ != secret,
    ensures
        same_secret(accounts, secret, from) == Some(i as nat),
    decreases i - from,
{
    if from < i {
        assert(accounts[from as int].shared_secret@ != secret);
        lemma_secret_is_first(accounts, secret, from + 1, i);
    }
}

/// A file that cannot be read changes no account; it is counted as skipped, and
/// the last such error is the one that is kept.
pub proof fn unreadable_files_are_skipped(before: Imports, message: String)
    ensures
        ({
            let after = import_one(before, Err(message));
            &&& after.accounts == before.accounts
            &&& after.imported == before.imported
            &&& after.upgraded == before.upgraded
            &&& after.skipped == before.skipped + 1
            &&& after.last_error == Some(message@)
        }),
{
}

/// Files with secrets of their own all join, in order, whatever their names.
pub proof fn new_files_all_join(accounts: Seq<Account>, files: Seq<Result<Account, String>>)
    requires
        forall|i: int| 0 <= i < files.len() ==> (#[trigger] files[i]) is Ok,
        forall|i: int, j: int|
            0 <= i < j < files.len() ==> (#[trigger] files[i])->Ok_0.shared_secret@ != (
            #[trigger] files[j])->Ok_0.shared_secret@,
        forall|i: int, k: int|
            0 <= i < files.len() && 0 <= k < accounts.len() ==> (
            #[trigger] files[i])->Ok_0.shared_secret@ != (
            #[trigger] accounts[k]).shared_secret@,
    ensures
        import_all(accounts, files).accounts.len() == accounts.len() + files.len(),
        forall|k: int|
            0 <= k < accounts.len() ==> (#[trigger] import_all(accounts, files).accounts[k])
                == accounts[k],
        forall|i: int|
            0 <= i < files.len() ==> import_all(accounts, files).accounts[accounts.len() + i] == (
            #[trigger] files[i])->Ok_0,
        import_all(accounts, files).imported == files.len(),
    decreases files.len(),
{
    if files.len() > 0 {
        let fore = files.drop_last();
        assert forall|i: int| 0 <= i < fore.len() implies (#[trigger] fore[i]) == files[i] by {}
        new_files_all_join(accounts, fore);
        let before = import_all(accounts, fore);
        let account = files.last()->Ok_0;
        assert forall|k: int| 0 <= k < before.accounts.len() implies (
        #[trigger] before.accounts[k]).shared_secret@ != account.shared_secret@ by {
            if k < accounts.len() {
                assert(before.accounts[k] == accounts[k]);
                assert(files[files.len() - 1] is Ok);
            } else {
                let i = k - accounts.len();
                assert(fore[i] == files[i]);
                assert(before.accounts[accounts.len() + i] == fore[i]->Ok_0);
                assert(files[files.len() - 1] is Ok);
            }
        }
        files_join_by_their_secret(before, account);
        let after = import_all(accounts, files);
        assert(files.last() == Ok::<Account, String>(account));
        assert(after.accounts == before.accounts.push(account));
        assert forall|i: int| 0 <= i < files.len() implies after.accounts[accounts.len() + i] == (
        #[trigger] files[i])->Ok_0 by {
            if i < fore.len() {
                assert(fore[i] == files[i]);
            }
        }
        assert forall|k: int| 0 <= k < accounts.len() implies (#[trigger] after.accounts[k])
            == accounts[k] by {
            assert(before.accounts[k] == accounts[k]);
        }
    }
}

/// The counts of an import are told in their order: new, upgraded, skipped.
pub proof fn imports_are_counted_out(imported: nat, upgraded: nat, skipped: nat)
    ensures
        import_summary(imported, upgraded, skipped) == "Импортировано: "@ + decimal(imported)
            + ", обновлено для подтверждений: "@ + decimal(upgraded) + ", пропущено: "@ + decimal(
            skipped,
        ),
{
}

} // verus!
