//! What is added to a trade once its items are known: the partner's picture
//! and the names of the games.
use std::collections::HashMap;
use vstd::prelude::*;

use crate::address::{image_address, steam_image_url};
use crate::json::{field_or_null, text_field, Json, JsonTree};
use crate::text::{concat2, decimal, decimal_text, read_number, spelled_number};
use crate::trade::{
    either, item_views, text_option, ItemView, TradeDetails, TradeItem, TradeView, FIRST_STEAM_ID,
};

verus! {

// ---------------------------------------------------------------------------
// The partner's picture
// ---------------------------------------------------------------------------

/// The address of an icon, if there is one that may be loaded.
pub open spec fn icon_image(icon: Option<Seq<char>>) -> Option<Seq<char>> {
    match icon {
        Some(icon) => image_address(icon),
        None => None,
    }
}

/// A trade with the icon of its confirmation as the partner's picture, or with
/// the picture that it has where the icon may not be loaded.
pub fn with_icon(details: TradeDetails, icon: Option<&str>) -> (r: TradeDetails)
    ensures
        r@ == (TradeView {
            avatar: either(
                icon_image(
                    match icon {
                        Some(icon) => Some(icon@),
                        None => None,
                    },
                ),
                details@.avatar,
            ),
            ..details@
        }),
{
    let image = match icon {
        Some(icon) => steam_image_url(icon),
        None => None,
    };
    TradeDetails {
        giving: details.giving,
        receiving: details.receiving,
        partner_id: details.partner_id,
        avatar: match image {
            Some(image) => Some(image),
            None => details.avatar,
        },
    }
}

/// The account whose profile is asked for the partner's picture: the partner's,
/// where there is no picture yet and the partner's number is one of an
/// individual account.
pub open spec fn profile_account(details: TradeView) -> Option<u64> {
    match (details.avatar, details.partner_id) {
        (None, Some(id)) => match spelled_number(id) {
            Some(id) if id >= FIRST_STEAM_ID => Some((id - FIRST_STEAM_ID) as u64),
            _ => None,
        },
        _ => None,
    }
}

/// The account whose profile is asked for the partner's picture.
pub fn profile_to_ask(details: &TradeDetails) -> (r: Option<u64>)
    ensures
        r == profile_account(details@),
{
    if details.avatar.is_some() {
        return None;
    }
    let id = match &details.partner_id {
        Some(id) => id.as_str(),
        None => return None,
    };
    match read_number(id) {
        Some(id) => if id >= FIRST_STEAM_ID {
            Some(id - FIRST_STEAM_ID)
        } else {
            None
        },
        None => None,
    }
}

/// The picture that a profile shows, if it may be loaded.
pub fn profile_avatar(body: &Json) -> (r: Option<String>)
    ensures
        text_option(r) == icon_image(text_field(body.tree(), "avatar_url"@)),
{
    match body.text("avatar_url") {
        Some(address) => steam_image_url(address.as_str()),
        None => None,
    }
}

/// The partner of an offer that the trade service told of has a profile to ask
/// for, and it is that of the account in the offer.
pub proof fn offered_partner_has_profile(details: TradeView, account: u64)
    requires
        crate::trade::steam_id_of(account) <= u64::MAX,
        details.partner_id == Some(decimal(crate::trade::steam_id_of(account))),
        details.avatar is None,
    ensures
        profile_account(details) == Some(account),
{
    crate::text::decimal_reads_back((FIRST_STEAM_ID + account) as u64);
}

// ---------------------------------------------------------------------------
// The names of the games
// ---------------------------------------------------------------------------

/// The games whose names are known without asking.
pub open spec fn famous_game(app_id: u64) -> Option<Seq<char>> {
    if app_id == 730 {
        Some("Counter-Strike 2"@)
    } else if app_id == 570 {
        Some("Dota 2"@)
    } else if app_id == 440 {
        Some("Team Fortress 2"@)
    } else if app_id == 753 {
        Some("Steam"@)
    } else if app_id == 252490 {
        Some("Rust"@)
    } else {
        None
    }
}

/// The name of a game that is known without asking.
pub fn known_game(app_id: u64) -> (r: Option<String>)
    ensures
        text_option(r) == famous_game(app_id),
{
    if app_id == 730 {
        Some("Counter-Strike 2".to_owned())
    } else if app_id == 570 {
        Some("Dota 2".to_owned())
    } else if app_id == 440 {
        Some("Team Fortress 2".to_owned())
    } else if app_id == 753 {
        Some("Steam".to_owned())
    } else if app_id == 252490 {
        Some("Rust".to_owned())
    } else {
        None
    }
}

/// The name of a game in an answer of the store.
pub open spec fn store_name(body: JsonTree, app_id: u64) -> Option<Seq<char>> {
    text_field(field_or_null(field_or_null(body, decimal(app_id as nat)), "data"@), "name"@)
}

/// The name of a game, given the answer of the store: the name in it, or the
/// number of the game where there is none.
pub open spec fn asked_game(body: Option<JsonTree>, app_id: u64) -> Seq<char> {
    let told = match body {
        Some(body) => store_name(body, app_id),
        None => None,
    };
    match told {
        Some(name) => name,
        None => "Игра Steam · App ID "@ + decimal(app_id as nat),
    }
}

/// The name of a game, given the answer of the store.
pub fn game_from_store(body: Option<&Json>, app_id: u64) -> (r: String)
    ensures
        r@ == asked_game(
            match body {
                Some(body) => Some(body.tree()),
                None => None,
            },
            app_id,
        ),
{
    let number = decimal_text(app_id);
    if let Some(body) = body {
        if let Some(entry) = body.field(number.as_str()) {
            if let Some(data) = entry.field("data") {
                if let Some(name) = data.text("name") {
                    return name.clone();
                }
            }
        }
    }
    concat2("Игра Steam · App ID ", number.as_str())
}

/// Whether the name of an item's game is missing: the item does not tell it,
/// and it is not among the names that were learned.
pub open spec fn is_unnamed(item: ItemView, games: Map<u64, String>) -> bool {
    item.game.len() == 0 && !games.contains_key(item.app_id)
}

/// Whether an item of a row is of that game and does not tell its name.
pub open spec fn needs_game(items: Seq<ItemView>, app_id: u64) -> bool {
    exists|i: int|
        0 <= i < items.len() && (#[trigger] items[i]).game.len() == 0 && items[i].app_id == app_id
}

/// Whether `after` are the names of `before` and those that are known without
/// asking, of the games that the items of a row do not tell. A name that was
/// learned before stays.
pub open spec fn enters_known(
    items: Seq<ItemView>,
    before: Map<u64, String>,
    after: Map<u64, String>,
) -> bool {
    forall|app_id: u64|
        if before.contains_key(app_id) {
            (#[trigger] after.contains_key(app_id)) && after[app_id] == before[app_id]
        } else if needs_game(items, app_id) && famous_game(app_id) is Some {
            after.contains_key(app_id) && famous_game(app_id) == Some(after[app_id]@)
        } else {
            !after.contains_key(app_id)
        }
}

proof fn lemma_needs_game_joins(a: Seq<ItemView>, b: Seq<ItemView>, app_id: u64)
    ensures
        needs_game(a + b, app_id) == (needs_game(a, app_id) || needs_game(b, app_id)),
{
    if needs_game(a, app_id) {
        let i = choose|i: int|
            0 <= i < a.len() && (#[trigger] a[i]).game.len() == 0 && a[i].app_id == app_id;
        assert((a + b)[i] == a[i]);
    }
    if needs_game(b, app_id) {
        let i = choose|i: int|
            0 <= i < b.len() && (#[trigger] b[i]).game.len() == 0 && b[i].app_id == app_id;
        assert((a + b)[a.len() + i] == b[i]);
    }
    if needs_game(a + b, app_id) {
        let i = choose|i: int|
            0 <= i < (a + b).len() && (#[trigger] (a + b)[i]).game.len() == 0 && (a + b)[i].app_id
                == app_id;
        if i < a.len() {
            assert(a[i] == (a + b)[i]);
        } else {
            assert(b[i - a.len()] == (a + b)[i]);
        }
    }
}

proof fn lemma_enters_known_joins(
    a: Seq<ItemView>,
    b: Seq<ItemView>,
    before: Map<u64, String>,
    between: Map<u64, String>,
    after: Map<u64, String>,
)
    requires
        enters_known(a, before, between),
        enters_known(b, between, after),
    ensures
        enters_known(a + b, before, after),
{
    assert forall|app_id: u64|
        if before.contains_key(app_id) {
            (#[trigger] after.contains_key(app_id)) && after[app_id] == before[app_id]
        } else if needs_game(a + b, app_id) && famous_game(app_id) is Some {
            after.contains_key(app_id) && famous_game(app_id) == Some(after[app_id]@)
        } else {
            !after.contains_key(app_id)
        } by {
        lemma_needs_game_joins(a, b, app_id);
        assert(between.contains_key(app_id) || !between.contains_key(app_id));
    }
}

fn enter_known_in(items: &Vec<TradeItem>, games: &mut HashMap<u64, String>)
    ensures
        enters_known(item_views(items@), old(games)@, final(games)@),
{
    broadcast use vstd::std_specs::hash::group_hash_axioms;

    let ghost all = item_views(items@);
    let ghost before = games@;
    let mut i: usize = 0;
    while i < items.len()
        invariant
            i <= items@.len(),
            all == item_views(items@),
            enters_known(all.take(i as int), before, games@),
        decreases items@.len() - i,
    {
        let item = &items[i];
        let ghost between = games@;
        assert(seq![item@][0] == item@);
        if item.game.as_str().is_empty() && !games.contains_key(&item.app_id) {
            if let Some(name) = known_game(item.app_id) {
                games.insert(item.app_id, name);
            }
        }
        assert(enters_known(seq![item@], between, games@));
        proof {
            lemma_enters_known_joins(all.take(i as int), seq![item@], before, between, games@);
        }
        assert(all.take(i as int) + seq![item@] =~= all.take(i + 1));
        i = i + 1;
    }
    assert(all.take(i as int) =~= all);
}

/// Enters the names that are known without asking, of the games that the items
/// of a trade do not tell.
pub fn enter_known_games(details: &TradeDetails, games: &mut HashMap<u64, String>)
    ensures
        enters_known(all_items(details@), old(games)@, final(games)@),
{
    let ghost before = games@;
    enter_known_in(&details.giving, games);
    let ghost between = games@;
    enter_known_in(&details.receiving, games);
    proof {
        lemma_enters_known_joins(
            details@.giving,
            details@.receiving,
            before,
            between,
            games@,
        );
    }
}

/// The game of the first item of a row whose name is missing.
pub open spec fn first_unnamed(items: Seq<ItemView>, games: Map<u64, String>) -> Option<u64>
    decreases items.len(),
{
    if items.len() == 0 {
        None
    } else if is_unnamed(items[0], games) {
        Some(items[0].app_id)
    } else {
        first_unnamed(items.skip(1), games)
    }
}

/// The items of both sides, those that are given first.
pub open spec fn all_items(details: TradeView) -> Seq<ItemView> {
    details.giving + details.receiving
}

fn unnamed_in(items: &Vec<TradeItem>, games: &HashMap<u64, String>) -> (r: Option<u64>)
    ensures
        r == first_unnamed(item_views(items@), games@),
{
    broadcast use vstd::std_specs::hash::group_hash_axioms;

    let ghost all = item_views(items@);
    let mut i: usize = 0;
    assert(all.skip(0) =~= all);
    while i < items.len()
        invariant
            i <= items@.len(),
            all == item_views(items@),
            first_unnamed(all, games@) == first_unnamed(all.skip(i as int), games@),
        decreases items@.len() - i,
    {
        let item = &items[i];
        assert(all.skip(i as int)[0] == item@);
        if item.game.as_str().is_empty() && !games.contains_key(&item.app_id) {
            return Some(item.app_id);
        }
        assert(all.skip(i as int).skip(1) =~= all.skip(i + 1));
        i = i + 1;
    }
    None
}

proof fn lemma_first_unnamed_joins(a: Seq<ItemView>, b: Seq<ItemView>, games: Map<u64, String>)
    ensures
        first_unnamed(a + b, games) == match first_unnamed(a, games) {
            Some(app_id) => Some(app_id),
            None => first_unnamed(b, games),
        },
    decreases a.len(),
{
    if a.len() == 0 {
        assert(a + b =~= b);
    } else {
        assert((a + b).skip(1) =~= a.skip(1) + b);
        lemma_first_unnamed_joins(a.skip(1), b, games);
    }
}

proof fn lemma_all_named(items: Seq<ItemView>, games: Map<u64, String>, i: int)
    requires
        first_unnamed(items, games) is None,
        0 <= i < items.len(),
    ensures
        !is_unnamed(items[i], games),
    decreases items.len(),
{
    if i > 0 {
        lemma_all_named(items.skip(1), games, i - 1);
        assert(items.skip(1)[i - 1] == items[i]);
    }
}

/// The next game whose name has to be asked for before a trade can be shown,
/// given the names that are known so far.
pub fn next_unnamed_game(details: &TradeDetails, games: &HashMap<u64, String>) -> (r: Option<u64>)
    ensures
        r == first_unnamed(all_items(details@), games@),
{
    proof {
        lemma_first_unnamed_joins(details@.giving, details@.receiving, games@);
    }
    match unnamed_in(&details.giving, games) {
        Some(app_id) => Some(app_id),
        None => unnamed_in(&details.receiving, games),
    }
}

/// The name of a game among those that were learned.
pub open spec fn settled_game(app_id: u64, games: Map<u64, String>) -> Option<Seq<char>> {
    if games.contains_key(app_id) {
        Some(games[app_id]@)
    } else {
        None
    }
}

/// An item with the name of its game: its own, or the settled one where its
/// description did not tell any.
pub open spec fn named(item: ItemView, games: Map<u64, String>) -> ItemView {
    match settled_game(item.app_id, games) {
        Some(game) if item.game.len() == 0 => ItemView { game, ..item },
        _ => item,
    }
}

fn read_settled_game(app_id: u64, games: &HashMap<u64, String>) -> (r: Option<String>)
    ensures
        text_option(r) == settled_game(app_id, games@),
{
    broadcast use vstd::std_specs::hash::group_hash_axioms;

    match games.get(&app_id) {
        Some(game) => Some(game.clone()),
        None => None,
    }
}

fn named_items(items: Vec<TradeItem>, games: &HashMap<u64, String>) -> (r: Vec<TradeItem>)
    ensures
        item_views(r@) == item_views(items@).map_values(|item: ItemView| named(item, games@)),
{
    let mut out: Vec<TradeItem> = Vec::new();
    let ghost all = item_views(items@);
    for item in it: items
        invariant
            it.seq() == items@,
            all == item_views(items@),
            out@.len() == it.index(),
            forall|k: int| 0 <= k < out@.len() ==> (#[trigger] out@[k])@ == named(all[k], games@),
    {
        let settled = if item.game.as_str().is_empty() {
            read_settled_game(item.app_id, games)
        } else {
            None
        };
        let game = match settled {
            Some(game) => game,
            None => item.game,
        };
        out.push(
            TradeItem {
                name: item.name,
                game,
                app_id: item.app_id,
                image: item.image,
                amount: item.amount,
            },
        );
    }
    assert(item_views(out@) =~= all.map_values(|item: ItemView| named(item, games@)));
    out
}

/// A trade with the settled names of the games that its items did not tell.
pub fn name_games(details: TradeDetails, games: &HashMap<u64, String>) -> (r: TradeDetails)
    ensures
        r@ == (TradeView {
            giving: details@.giving.map_values(|item: ItemView| named(item, games@)),
            receiving: details@.receiving.map_values(|item: ItemView| named(item, games@)),
            ..details@
        }),
{
    TradeDetails {
        giving: named_items(details.giving, games),
        receiving: named_items(details.receiving, games),
        partner_id: details.partner_id,
        avatar: details.avatar,
    }
}

/// Once no name is missing, every item has the name of a game: an item that
/// told its game keeps the name, and any other has the learned one.
pub proof fn named_trade_is_complete(details: TradeView, games: Map<u64, String>, i: int)
    requires
        first_unnamed(all_items(details), games) is None,
        0 <= i < all_items(details).len(),
    ensures
        ({
            let item = all_items(details)[i];
            if item.game.len() > 0 {
                named(item, games) == item
            } else {
                games.contains_key(item.app_id) && named(item, games).game == games[item.app_id]@
            }
        }),
{
    lemma_all_named(all_items(details), games, i);
}

/// A game whose name is known is never asked for: once the known names are
/// entered, only others are missing.
pub proof fn known_games_are_not_asked(
    items: Seq<ItemView>,
    before: Map<u64, String>,
    after: Map<u64, String>,
)
    requires
        enters_known(items, before, after),
    ensures
        first_unnamed(items, after) matches Some(app_id) ==> famous_game(app_id) is None,
{
    lemma_unnamed_is_needed(items, after);
    if let Some(app_id) = first_unnamed(items, after) {
        assert(!after.contains_key(app_id));
    }
}

/// The game whose name is missing first is one that an item does not tell, and
/// that was not learned.
pub proof fn lemma_unnamed_is_needed(items: Seq<ItemView>, games: Map<u64, String>)
    ensures
        first_unnamed(items, games) matches Some(app_id) ==> needs_game(items, app_id)
            && !games.contains_key(app_id),
    decreases items.len(),
{
    if items.len() > 0 {
        if is_unnamed(items[0], games) {
            assert(needs_game(items, items[0].app_id));
        } else {
            lemma_unnamed_is_needed(items.skip(1), games);
            if let Some(app_id) = first_unnamed(items.skip(1), games) {
                assert(seq![items[0]] + items.skip(1) =~= items);
                lemma_needs_game_joins(seq![items[0]], items.skip(1), app_id);
            }
        }
    }
}

/// How many items of a row have a game whose name is missing.
pub open spec fn unnamed_count(items: Seq<ItemView>, games: Map<u64, String>) -> nat
    decreases items.len(),
{
    if items.len() == 0 {
        0
    } else {
        unnamed_count(items.skip(1), games) + if is_unnamed(items[0], games) {
            1nat
        } else {
            0nat
        }
    }
}

/// Each answer settles its game: with it, and with whatever else is learned,
/// fewer items have a game whose name is missing, so that the asking ends.
pub proof fn asked_games_are_settled(
    details: TradeView,
    games: Map<u64, String>,
    more: Map<u64, String>,
)
    requires
        first_unnamed(all_items(details), games) is Some,
        forall|app_id: u64|
            games.contains_key(app_id) ==> #[trigger] more.contains_key(app_id),
        more.contains_key(first_unnamed(all_items(details), games)->0),
    ensures
        first_unnamed(all_items(details), more) != first_unnamed(all_items(details), games),
        unnamed_count(all_items(details), more) < unnamed_count(all_items(details), games),
{
    lemma_unnamed_is_needed(all_items(details), more);
    lemma_answer_settles(all_items(details), games, more);
}

proof fn lemma_answer_settles(
    items: Seq<ItemView>,
    games: Map<u64, String>,
    more: Map<u64, String>,
)
    requires
        forall|app_id: u64|
            games.contains_key(app_id) ==> #[trigger] more.contains_key(app_id),
    ensures
        unnamed_count(items, more) <= unnamed_count(items, games),
        first_unnamed(items, games) matches Some(app_id) && more.contains_key(app_id)
            ==> unnamed_count(items, more) < unnamed_count(items, games),
    decreases items.len(),
{
    if items.len() > 0 {
        lemma_answer_settles(items.skip(1), games, more);
    }
}

/// Five games are known by name without asking, each by its own number, and no
/// other.
pub proof fn known_games_are_five(app_id: u64)
    ensures
        famous_game(app_id) is Some <==> app_id == 730 || app_id == 570 || app_id == 440 || app_id
            == 753 || app_id == 252490,
        app_id == 730 ==> famous_game(app_id) == Some("Counter-Strike 2"@),
        app_id == 570 ==> famous_game(app_id) == Some("Dota 2"@),
        app_id == 440 ==> famous_game(app_id) == Some("Team Fortress 2"@),
        app_id == 753 ==> famous_game(app_id) == Some("Steam"@),
        app_id == 252490 ==> famous_game(app_id) == Some("Rust"@),
{
}

/// A profile is asked for exactly where there is no picture yet and the partner
/// has the number of an individual account, and it is asked for by that number
/// counted from the first such account.
pub proof fn partners_are_asked_for_by_account(details: TradeView, id: Seq<char>, number: u64)
    requires
        details.partner_id == Some(id),
        spelled_number(id) == Some(number),
    ensures
        profile_account(details) is Some <==> details.avatar is None && number
            >= 76_561_197_960_265_728,
        profile_account(details) matches Some(account) ==> account + 76_561_197_960_265_728
            == number,
{
}

/// The name of a game is what the store tells of that game: the `name` in the
/// `data` of the entry under the game's own number. Where it tells none, the
/// number stands in its place.
pub proof fn stores_name_their_games(
    body: JsonTree,
    app_id: u64,
    entry: JsonTree,
    data: JsonTree,
    name: Seq<char>,
)
    ensures
        crate::json::field_of(body, decimal(app_id as nat)) == Some(entry) && crate::json::field_of(
            entry,
            "data"@,
        ) == Some(data) && crate::json::field_of(data, "name"@) == Some(JsonTree::Text(name))
            ==> asked_game(Some(body), app_id) == name,
        crate::json::field_of(body, decimal(app_id as nat)) is None ==> asked_game(
            Some(body),
            app_id,
        ) == "Игра Steam · App ID "@ + decimal(app_id as nat),
        asked_game(None, app_id) == "Игра Steam · App ID "@ + decimal(app_id as nat),
{
}

/// The game that is asked for next is that of the first item that does not tell
/// its game and whose game was not learned; none is asked for where there is no
/// such item.
pub proof fn first_missing_games_are_asked_for(
    items: Seq<ItemView>,
    games: Map<u64, String>,
    at: int,
)
    requires
        0 <= at <= items.len(),
        forall|i: int|
            0 <= i < at ==> (#[trigger] items[i]).game.len() > 0 || games.contains_key(
                items[i].app_id,
            ),
        at < items.len() ==> items[at].game.len() == 0 && !games.contains_key(items[at].app_id),
    ensures
        first_unnamed(items, games) == if at < items.len() {
            Some(items[at].app_id)
        } else {
            None
        },
    decreases items.len(),
{
    if at > 0 {
        assert(items[0].game.len() > 0 || games.contains_key(items[0].app_id));
        let rest = items.skip(1);
        assert forall|i: int| 0 <= i < at - 1 implies (#[trigger] rest[i]).game.len() > 0
            || games.contains_key(rest[i].app_id) by {
            assert(rest[i] == items[i + 1]);
        }
        first_missing_games_are_asked_for(rest, games, at - 1);
    }
}

/// An item is named after its game alone: its own name, number, picture and
/// amount stay, and a game that it tells itself is never replaced.
pub proof fn naming_changes_the_game_alone(item: ItemView, games: Map<u64, String>)
    ensures
        named(item, games).name == item.name,
        named(item, games).app_id == item.app_id,
        named(item, games).image == item.image,
        named(item, games).amount == item.amount,
        item.game.len() > 0 ==> named(item, games).game == item.game,
        item.game.len() == 0 && games.contains_key(item.app_id) ==> named(item, games).game
            == games[item.app_id]@,
{
}

/// The icon of a confirmation is shown where it may be loaded, and only there.
pub proof fn icons_are_loaded_from_their_address(icon: Seq<char>)
    ensures
        icon_image(Some(icon)) == image_address(icon),
        icon_image(None) is None,
{
}

} // verus!
