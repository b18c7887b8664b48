//! How a vault is stored without ever losing it.
//!
//! The new vault is written beside the old one, the old one is set aside, and
//! the new one takes its place. The caller carries the steps out one by one
//! and tells how each went.
use vstd::prelude::*;

use crate::text::concat2;

verus! {

/// What is to be done next.
#[derive(Debug, PartialEq, Eq)]
pub enum SaveStep {
    /// Create the folder that the vault lies in.
    CreateFolder,
    /// Write the new vault to the temporary file.
    WriteTemporary,
    /// Look whether there is a vault.
    LookForVault,
    /// Look whether there is a backup.
    LookForBackup,
    /// Remove the backup of an earlier save.
    RemoveOldBackup,
    /// Rename the vault to the backup.
    SetVaultAside,
    /// Rename the temporary file to the vault, which has been set aside.
    PutInPlace,
    /// Rename the temporary file to the vault, of which there was none.
    PutFirstInPlace,
    /// Rename the backup to the vault again, since the new vault could not be
    /// put in place.
    PutBack { error: String },
    /// Remove the backup.
    RemoveBackup,
    /// Nothing: the new vault is stored.
    Saved,
    /// Nothing: the new vault is not stored.
    Failed { message: String },
}

/// How a step went. Whether something is there is told only by the steps that
/// look.
#[derive(Debug, PartialEq, Eq)]
pub enum SaveReply {
    Done,
    Found(bool),
    Error(String),
}

/// The first step, given whether the vault's path names a folder.
pub fn first_save_step(has_folder: bool) -> (r: SaveStep)
    ensures
        r == if has_folder {
            SaveStep::CreateFolder
        } else {
            SaveStep::WriteTemporary
        },
{
    if has_folder {
        SaveStep::CreateFolder
    } else {
        SaveStep::WriteTemporary
    }
}

/// Whether a reply is one that a step can have: the steps that look cannot
/// fail, and the others find nothing.
pub open spec fn is_reply(step: SaveStep, reply: SaveReply) -> bool {
    match step {
        SaveStep::LookForVault | SaveStep::LookForBackup => reply is Found,
        SaveStep::Saved | SaveStep::Failed { .. } => false,
        _ => !(reply is Found),
    }
}

/// Whether the message of a failure is `before` and the error.
pub open spec fn fails_with(next: SaveStep, before: Seq<char>, error: Seq<char>) -> bool {
    next is Failed && next->message@ == before + error
}

/// Whether `next` is what is to be done after a step that went as the reply
/// says.
pub open spec fn follows(step: SaveStep, reply: SaveReply, next: SaveStep) -> bool {
    match (step, reply) {
        (SaveStep::CreateFolder, SaveReply::Error(error)) => fails_with(
            next,
            "Не удалось создать папку хранилища: "@,
            error@,
        ),
        (SaveStep::CreateFolder, _) => next == SaveStep::WriteTemporary,
        (SaveStep::WriteTemporary, SaveReply::Error(error)) => fails_with(
            next,
            "Не удалось сохранить хранилище: "@,
            error@,
        ),
        (SaveStep::WriteTemporary, _) => next == SaveStep::LookForVault,
        (SaveStep::LookForVault, SaveReply::Found(true)) => next == SaveStep::LookForBackup,
        (SaveStep::LookForVault, _) => next == SaveStep::PutFirstInPlace,
        (SaveStep::LookForBackup, SaveReply::Found(true)) => next == SaveStep::RemoveOldBackup,
        (SaveStep::LookForBackup, _) => next == SaveStep::SetVaultAside,
        (SaveStep::RemoveOldBackup, SaveReply::Error(error)) => fails_with(
            next,
            "Не удалось очистить резервную копию: "@,
            error@,
        ),
        (SaveStep::RemoveOldBackup, _) => next == SaveStep::SetVaultAside,
        (SaveStep::SetVaultAside, SaveReply::Error(error)) => fails_with(
            next,
            "Не удалось подготовить обновление: "@,
            error@,
        ),
        (SaveStep::SetVaultAside, _) => next == SaveStep::PutInPlace,
        (SaveStep::PutInPlace, SaveReply::Error(error)) => next == (SaveStep::PutBack { error }),
        (SaveStep::PutInPlace, _) => next == SaveStep::RemoveBackup,
        (SaveStep::PutFirstInPlace, SaveReply::Error(error)) => fails_with(
            next,
            "Не удалось завершить сохранение: "@,
            error@,
        ),
        (SaveStep::PutFirstInPlace, _) => next == SaveStep::Saved,
        (SaveStep::PutBack { error }, _) => fails_with(
            next,
            "Не удалось завершить сохранение: "@,
            error@,
        ),
        (SaveStep::RemoveBackup, _) => next == SaveStep::Saved,
        (SaveStep::Saved, _) => next == step,
        (SaveStep::Failed { .. }, _) => next == step,
    }
}

fn failed(before: &str, error: &str) -> (r: SaveStep)
    ensures
        fails_with(r, before@, error@),
{
    SaveStep::Failed { message: concat2(before, error) }
}

/// What is to be done after a step that went as the reply says.
pub fn next_save_step(step: SaveStep, reply: SaveReply) -> (r: SaveStep)
    ensures
        follows(step, reply, r),
{
    match (step, reply) {
        (SaveStep::CreateFolder, SaveReply::Error(error)) => failed(
            "Не удалось создать папку хранилища: ",
            error.as_str(),
        ),
        (SaveStep::CreateFolder, _) => SaveStep::WriteTemporary,
        (SaveStep::WriteTemporary, SaveReply::Error(error)) => failed(
            "Не удалось сохранить хранилище: ",
            error.as_str(),
        ),
        (SaveStep::WriteTemporary, _) => SaveStep::LookForVault,
        (SaveStep::LookForVault, SaveReply::Found(true)) => SaveStep::LookForBackup,
        (SaveStep::LookForVault, _) => SaveStep::PutFirstInPlace,
        (SaveStep::LookForBackup, SaveReply::Found(true)) => SaveStep::RemoveOldBackup,
        (SaveStep::LookForBackup, _) => SaveStep::SetVaultAside,
        (SaveStep::RemoveOldBackup, SaveReply::Error(error)) => failed(
            "Не удалось очистить резервную копию: ",
            error.as_str(),
        ),
        (SaveStep::RemoveOldBackup, _) => SaveStep::SetVaultAside,
        (SaveStep::SetVaultAside, SaveReply::Error(error)) => failed(
            "Не удалось подготовить обновление: ",
            error.as_str(),
        ),
        (SaveStep::SetVaultAside, _) => SaveStep::PutInPlace,
        (SaveStep::PutInPlace, SaveReply::Error(error)) => SaveStep::PutBack { error },
        (SaveStep::PutInPlace, _) => SaveStep::RemoveBackup,
        (SaveStep::PutFirstInPlace, SaveReply::Error(error)) => failed(
            "Не удалось завершить сохранение: ",
            error.as_str(),
        ),
        (SaveStep::PutFirstInPlace, _) => SaveStep::Saved,
        (SaveStep::PutBack { error }, _) => failed(
            "Не удалось завершить сохранение: ",
            error.as_str(),
        ),
        (SaveStep::RemoveBackup, _) => SaveStep::Saved,
        (SaveStep::Saved, _) => SaveStep::Saved,
        (SaveStep::Failed { message }, _) => SaveStep::Failed { message },
    }
}

// ---------------------------------------------------------------------------
// What the steps do to the files
// ---------------------------------------------------------------------------

/// What the three files hold, where they are there.
pub struct Files {
    pub vault: Option<Seq<u8>>,
    pub backup: Option<Seq<u8>>,
    pub temporary: Option<Seq<u8>>,
}

/// Whether carrying a step out can turn `before` into `after` and give that
/// reply: a rename moves a file over the one of the new name, a removal removes
/// it, and what fails changes nothing but, perhaps, the file being written.
pub open spec fn carries_out(
    step: SaveStep,
    new: Seq<u8>,
    before: Files,
    reply: SaveReply,
    after: Files,
) -> bool {
    &&& is_reply(step, reply)
    &&& match (step, reply) {
        (SaveStep::WriteTemporary, SaveReply::Error(_)) => after.vault == before.vault
            && after.backup == before.backup,
        (SaveStep::WriteTemporary, _) => after == Files { temporary: Some(new), ..before },
        (SaveStep::LookForVault, SaveReply::Found(there)) => after == before && there
            == before.vault is Some,
        (SaveStep::LookForBackup, SaveReply::Found(there)) => after == before && there
            == before.backup is Some,
        (_, SaveReply::Error(_)) => after == before,
        (SaveStep::RemoveOldBackup, _) => after == Files { backup: None, ..before },
        (SaveStep::RemoveBackup, _) => after == Files { backup: None, ..before },
        (SaveStep::SetVaultAside, _) => after == Files {
            vault: None,
            backup: before.vault,
            ..before
        },
        (SaveStep::PutInPlace, _) => after == Files {
            vault: before.temporary,
            temporary: None,
            ..before
        },
        (SaveStep::PutFirstInPlace, _) => after == Files {
            vault: before.temporary,
            temporary: None,
            ..before
        },
        (SaveStep::PutBack { .. }, _) => after == Files {
            vault: before.backup,
            backup: None,
            ..before
        },
        _ => after == before,
    }
}

/// What holds of the files before a step of a save of `new` over `old`.
pub open spec fn keeps_vault(
    step: SaveStep,
    files: Files,
    old: Option<Seq<u8>>,
    new: Seq<u8>,
) -> bool {
    match step {
        SaveStep::CreateFolder | SaveStep::WriteTemporary => files.vault == old,
        SaveStep::LookForVault => files.vault == old && files.temporary == Some(new),
        SaveStep::PutFirstInPlace => files.vault == old && old is None && files.temporary == Some(
            new,
        ),
        SaveStep::LookForBackup | SaveStep::RemoveOldBackup | SaveStep::SetVaultAside => files.vault
            == old && old is Some && files.temporary == Some(new),
        SaveStep::PutInPlace => files.vault is None && files.backup == old && old is Some
            && files.temporary == Some(new),
        SaveStep::PutBack { .. } => files.vault is None && files.backup == old && old is Some,
        SaveStep::RemoveBackup | SaveStep::Saved => files.vault == Some(new),
        SaveStep::Failed { .. } => files.vault == old || (files.vault is None && files.backup == old),
    }
}

/// A save begins with what it has to keep.
pub proof fn save_begins_safely(files: Files, new: Seq<u8>, has_folder: bool)
    ensures
        has_folder ==> keeps_vault(SaveStep::CreateFolder, files, files.vault, new),
        !has_folder ==> keeps_vault(SaveStep::WriteTemporary, files, files.vault, new),
{
}

/// Whatever a step does and however it goes, the next step finds what the save
/// has to keep.
pub proof fn save_goes_on_safely(
    step: SaveStep,
    reply: SaveReply,
    next: SaveStep,
    before: Files,
    after: Files,
    old: Option<Seq<u8>>,
    new: Seq<u8>,
)
    requires
        keeps_vault(step, before, old, new),
        carries_out(step, new, before, reply, after),
        follows(step, reply, next),
    ensures
        keeps_vault(next, after, old, new),
{
}

/// At every moment of a save the old vault or the new one is there, whole, as
/// the vault or as its backup; a save that ends well leaves the new one as the
/// vault, and one that ends badly leaves the old one as the vault, or as the
/// backup where even putting it back failed.
pub proof fn save_never_loses_the_vault(
    step: SaveStep,
    files: Files,
    old: Seq<u8>,
    new: Seq<u8>,
)
    requires
        keeps_vault(step, files, Some(old), new),
    ensures
        files.vault == Some(old) || files.vault == Some(new) || files.backup == Some(old),
        step is Saved ==> files.vault == Some(new),
        step is Failed ==> files.vault == Some(old) || (files.vault is None && files.backup == Some(
            old,
        )),
{
}

/// The most steps that are still to be carried out.
pub open spec fn steps_left(step: SaveStep) -> nat {
    match step {
        SaveStep::CreateFolder => 8,
        SaveStep::WriteTemporary => 7,
        SaveStep::LookForVault => 6,
        SaveStep::LookForBackup => 5,
        SaveStep::RemoveOldBackup => 4,
        SaveStep::SetVaultAside => 3,
        SaveStep::PutInPlace => 2,
        SaveStep::PutFirstInPlace => 1,
        SaveStep::PutBack { .. } => 1,
        SaveStep::RemoveBackup => 1,
        SaveStep::Saved | SaveStep::Failed { .. } => 0,
    }
}

/// Every step brings a save nearer to its end: it takes at most eight.
pub proof fn save_ends(step: SaveStep, reply: SaveReply, next: SaveStep)
    requires
        !(step is Saved) && !(step is Failed),
        follows(step, reply, next),
    ensures
        steps_left(next) < steps_left(step) <= 8,
{
}

/// Whatever step fails for good, the save ends with a message that tells which
/// step it was and why.
pub proof fn failed_saves_tell_the_step(step: SaveStep, error: String, next: SaveStep)
    requires
        follows(step, SaveReply::Error(error), next),
    ensures
        step is CreateFolder ==> (next matches SaveStep::Failed { message } && message@
            == "Не удалось создать папку хранилища: "@ + error@),
        step is WriteTemporary ==> (next matches SaveStep::Failed { message } && message@
            == "Не удалось сохранить хранилище: "@ + error@),
        step is RemoveOldBackup ==> (next matches SaveStep::Failed { message } && message@
            == "Не удалось очистить резервную копию: "@ + error@),
        step is SetVaultAside ==> (next matches SaveStep::Failed { message } && message@
            == "Не удалось подготовить обновление: "@ + error@),
        step is PutFirstInPlace ==> (next matches SaveStep::Failed { message } && message@
            == "Не удалось завершить сохранение: "@ + error@),
{
}

/// A new vault that cannot be put in place has the old one put back, and the
/// save ends with the reason for which the new one could not be, however the
/// putting back goes.
pub proof fn unplaced_vaults_are_told(error: String, reply: SaveReply, back: SaveStep, next: SaveStep)
    requires
        follows(SaveStep::PutInPlace, SaveReply::Error(error), back),
        follows(back, reply, next),
    ensures
        back == (SaveStep::PutBack { error }),
        next matches SaveStep::Failed { message } && message@
            == "Не удалось завершить сохранение: "@ + error@,
{
}

/// A save in which nothing fails writes the new vault first, sets the old one
/// aside where there is one, and ends well; a backup that cannot be removed
/// afterwards is no failure.
pub proof fn smooth_saves_end_well(reply: SaveReply, next: SaveStep, found: bool)
    ensures
        follows(SaveStep::CreateFolder, SaveReply::Done, next) ==> next is WriteTemporary,
        follows(SaveStep::WriteTemporary, SaveReply::Done, next) ==> next is LookForVault,
        follows(SaveStep::LookForVault, SaveReply::Found(found), next) ==> (next is LookForBackup
            <==> found) && (next is PutFirstInPlace <==> !found),
        follows(SaveStep::LookForBackup, SaveReply::Found(found), next) ==> (next is RemoveOldBackup
            <==> found) && (next is SetVaultAside <==> !found),
        follows(SaveStep::RemoveOldBackup, SaveReply::Done, next) ==> next is SetVaultAside,
        follows(SaveStep::SetVaultAside, SaveReply::Done, next) ==> next is PutInPlace,
        follows(SaveStep::PutInPlace, SaveReply::Done, next) ==> next is RemoveBackup,
        follows(SaveStep::PutFirstInPlace, SaveReply::Done, next) ==> next is Saved,
        follows(SaveStep::RemoveBackup, reply, next) ==> next is Saved,
{
}

} // verus!
