//! The sign-ins on other devices that wait for an answer.
use vstd::prelude::*;

use crate::text::{join, joined, texts};

verus! {

/// What Steam tells of a sign-in that waits. `platform` is the kind of the
/// device, for where the device has no name.
#[derive(Debug, PartialEq, Eq)]
pub struct LoginInfo {
    pub version: i32,
    pub device_name: String,
    pub platform: String,
    pub ip: String,
    pub city: String,
    pub state: String,
    pub country: String,
    pub location_mismatch: bool,
    pub high_usage: bool,
}

/// A sign-in as the list shows it.
#[derive(Debug, PartialEq, Eq)]
pub struct LoginRequestRow {
    pub account_index: usize,
    pub client_id: u64,
    pub version: u16,
    pub device: String,
    pub ip: String,
    pub location: String,
    pub warning: bool,
}

impl Clone for LoginRequestRow {
    fn clone(&self) -> (r: Self)
        ensures
            r == *self,
    {
        LoginRequestRow {
            account_index: self.account_index,
            client_id: self.client_id,
            version: self.version,
            device: self.device.clone(),
            ip: self.ip.clone(),
            location: self.location.clone(),
            warning: self.warning,
        }
    }
}

/// The texts of a row that are not empty, in order.
pub open spec fn nonempty(parts: Seq<Seq<char>>) -> Seq<Seq<char>>
    decreases parts.len(),
{
    if parts.len() == 0 {
        Seq::empty()
    } else {
        let before = nonempty(parts.drop_last());
        if parts.last().len() > 0 {
            before.push(parts.last())
        } else {
            before
        }
    }
}

/// Where a sign-in comes from: the city, the state and the country, as far as
/// they are known.
pub open spec fn location_of(info: LoginInfo) -> Seq<char> {
    joined(nonempty(seq![info.city@, info.state@, info.country@]), ", "@)
}

/// The version of the protocol that an answer names: at least one, and the low
/// 16 bits of what Steam tells.
pub open spec fn answer_version(version: i32) -> int {
    if version < 1 {
        1
    } else {
        version as int % 65536
    }
}

fn version_of(version: i32) -> (r: u16)
    ensures
        r == answer_version(version),
{
    if version < 1 {
        1
    } else {
        (version % 65536) as u16
    }
}

fn read_location(info: &LoginInfo) -> (r: String)
    ensures
        r@ == location_of(*info),
{
    let mut parts: Vec<String> = Vec::new();
    let ghost all = seq![info.city@, info.state@, info.country@];
    proof {
        reveal_with_fuel(nonempty, 4);
        assert(all.drop_last() =~= seq![info.city@, info.state@]);
        assert(all.drop_last().drop_last() =~= seq![info.city@]);
        assert(all.drop_last().drop_last().drop_last() =~= Seq::<Seq<char>>::empty());
    }
    assert(texts(parts@) =~= Seq::<Seq<char>>::empty());
    if !info.city.as_str().is_empty() {
        parts.push(info.city.clone());
    }
    assert(texts(parts@) =~= nonempty(seq![info.city@]));
    let ghost first = texts(parts@);
    if !info.state.as_str().is_empty() {
        parts.push(info.state.clone());
        assert(texts(parts@) =~= first.push(info.state@));
    }
    assert(texts(parts@) =~= nonempty(seq![info.city@, info.state@]));
    let ghost second = texts(parts@);
    if !info.country.as_str().is_empty() {
        parts.push(info.country.clone());
        assert(texts(parts@) =~= second.push(info.country@));
    }
    assert(texts(parts@) =~= nonempty(all));
    join(parts.as_slice(), ", ")
}

/// Whether a row shows a sign-in.
pub open spec fn shows_login(
    row: LoginRequestRow,
    account_index: usize,
    client_id: u64,
    info: LoginInfo,
) -> bool {
    &&& row.account_index == account_index
    &&& row.client_id == client_id
    &&& row.version == answer_version(info.version)
    &&& row.device == if info.device_name@.len() == 0 {
        info.platform
    } else {
        info.device_name
    }
    &&& row.ip == info.ip
    &&& row.location@ == location_of(info)
    &&& row.warning == (info.location_mismatch || info.high_usage)
}

/// The row that shows a sign-in.
pub fn login_row(account_index: usize, client_id: u64, info: LoginInfo) -> (r: LoginRequestRow)
    ensures
        shows_login(r, account_index, client_id, info),
        info.location_mismatch ==> r.warning,
        info.high_usage ==> r.warning,
        !info.location_mismatch && !info.high_usage ==> !r.warning,
        r.account_index == account_index,
        r.client_id == client_id,
        r.ip@ == info.ip@,
        info.device_name@.len() > 0 ==> r.device@ == info.device_name@,
        info.device_name@.len() == 0 ==> r.device@ == info.platform@,
{
    let version = version_of(info.version);
    let location = read_location(&info);
    LoginRequestRow {
        account_index,
        client_id,
        version,
        device: if info.device_name.as_str().is_empty() {
            info.platform
        } else {
            info.device_name
        },
        ip: info.ip,
        location,
        warning: info.location_mismatch || info.high_usage,
    }
}

/// A sign-in that Steam marks, for its place or for its use, is shown with a
/// warning, and any other is shown without.
pub proof fn marked_sign_ins_are_warned_of(
    row: LoginRequestRow,
    account_index: usize,
    client_id: u64,
    info: LoginInfo,
)
    requires
        shows_login(row, account_index, client_id, info),
    ensures
        info.location_mismatch ==> row.warning,
        info.high_usage ==> row.warning,
        row.warning ==> info.location_mismatch || info.high_usage,
{
}

/// The answer to a sign-in names the account, the client and the version that
/// Steam told: a version from 1 to 65535 as it is, and 1 for anything lower.
pub proof fn answers_name_the_sign_in(
    row: LoginRequestRow,
    account_index: usize,
    client_id: u64,
    info: LoginInfo,
)
    requires
        shows_login(row, account_index, client_id, info),
    ensures
        row.account_index == account_index,
        row.client_id == client_id,
        1 <= info.version <= 65535 ==> row.version == info.version,
        info.version <= 0 ==> row.version == 1,
        info.version > 65535 ==> (info.version - row.version) % 65536 == 0,
{
}

/// The place of a sign-in is told as city, state and country, as far as they
/// are known, with commas between them and none where one is missing.
pub proof fn places_are_told_in_order(info: LoginInfo)
    ensures
        ({
            let (city, state, country) = (info.city@, info.state@, info.country@);
            let comma = ", "@;
            let place = location_of(info);
            &&& city.len() > 0 && state.len() > 0 && country.len() > 0 ==> place == city + comma
                + state + comma + country
            &&& city.len() > 0 && state.len() > 0 && country.len() == 0 ==> place == city + comma
                + state
            &&& city.len() > 0 && state.len() == 0 && country.len() > 0 ==> place == city + comma
                + country
            &&& city.len() == 0 && state.len() > 0 && country.len() > 0 ==> place == state + comma
                + country
            &&& city.len() > 0 && state.len() == 0 && country.len() == 0 ==> place == city
            &&& city.len() == 0 && state.len() > 0 && country.len() == 0 ==> place == state
            &&& city.len() == 0 && state.len() == 0 ==> place == country
        }),
{
    let all = seq![info.city@, info.state@, info.country@];
    reveal_with_fuel(nonempty, 4);
    reveal_with_fuel(joined, 4);
    assert(all.drop_last() =~= seq![info.city@, info.state@]);
    assert(all.drop_last().drop_last() =~= seq![info.city@]);
    assert(all.drop_last().drop_last().drop_last() =~= Seq::<Seq<char>>::empty());
    let told = nonempty(all);
    if info.city@.len() > 0 && info.state@.len() > 0 && info.country@.len() > 0 {
        assert(told =~= all);
    } else if info.city@.len() > 0 && info.state@.len() > 0 {
        assert(told =~= seq![info.city@, info.state@]);
        assert(told.drop_last() =~= seq![info.city@]);
    } else if info.city@.len() > 0 && info.country@.len() > 0 {
        assert(told =~= seq![info.city@, info.country@]);
        assert(told.drop_last() =~= seq![info.city@]);
    } else if info.state@.len() > 0 && info.country@.len() > 0 {
        assert(told =~= seq![info.state@, info.country@]);
        assert(told.drop_last() =~= seq![info.state@]);
    } else if info.city@.len() > 0 {
        assert(told =~= seq![info.city@]);
    } else if info.state@.len() > 0 {
        assert(told =~= seq![info.state@]);
    } else if info.country@.len() > 0 {
        assert(told =~= seq![info.country@]);
    }
    if info.country@.len() == 0 {
        assert(info.country@ =~= Seq::<char>::empty());
    }
}

} // verus!
