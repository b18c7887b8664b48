//! What a trade offer holds, as Steam's trade service tells it.
use vstd::prelude::*;

use crate::address::{image_address, steam_image_url};
use crate::json::{array_field, field_or_null, text_field, trees, Json, JsonTree};
use crate::text::{
    begins_with, concat3, decimal, decimal_text, occurs_at, read_number, same_text, spelled_number,
};

verus! {

/// One kind of item on one side of a trade.
#[derive(Debug, PartialEq, Eq)]
pub struct TradeItem {
    pub name: String,
    pub game: String,
    pub app_id: u64,
    pub image: Option<String>,
    pub amount: u64,
}

/// The two sides of a trade and who offers it.
#[derive(Debug, PartialEq, Eq)]
pub struct TradeDetails {
    pub giving: Vec<TradeItem>,
    pub receiving: Vec<TradeItem>,
    pub partner_id: Option<String>,
    pub avatar: Option<String>,
}

/// The mathematical form of an item.
pub struct ItemView {
    pub name: Seq<char>,
    pub game: Seq<char>,
    pub app_id: u64,
    pub image: Option<Seq<char>>,
    pub amount: u64,
}

/// The mathematical form of a trade.
pub struct TradeView {
    pub giving: Seq<ItemView>,
    pub receiving: Seq<ItemView>,
    pub partner_id: Option<Seq<char>>,
    pub avatar: Option<Seq<char>>,
}

/// The characters of a text that may be missing.
pub open spec fn text_option(text: Option<String>) -> Option<Seq<char>> {
    match text {
        Some(text) => Some(text@),
        None => None,
    }
}

impl View for TradeItem {
    type V = ItemView;

    open spec fn view(&self) -> ItemView {
        ItemView {
            name: self.name@,
            game: self.game@,
            app_id: self.app_id,
            image: text_option(self.image),
            amount: self.amount,
        }
    }
}

/// The mathematical form of a row of items.
pub open spec fn item_views(items: Seq<TradeItem>) -> Seq<ItemView> {
    items.map_values(|item: TradeItem| item@)
}

impl View for TradeDetails {
    type V = TradeView;

    open spec fn view(&self) -> TradeView {
        TradeView {
            giving: item_views(self.giving@),
            receiving: item_views(self.receiving@),
            partner_id: text_option(self.partner_id),
            avatar: text_option(self.avatar),
        }
    }
}

impl Clone for TradeItem {
    fn clone(&self) -> (r: Self)
        ensures
            r == *self,
    {
        TradeItem {
            name: self.name.clone(),
            game: self.game.clone(),
            app_id: self.app_id,
            image: self.image.clone(),
            amount: self.amount,
        }
    }
}

fn clone_items(items: &Vec<TradeItem>) -> (r: Vec<TradeItem>)
    ensures
        r@ == items@,
{
    let mut out: Vec<TradeItem> = Vec::new();
    let mut i: usize = 0;
    while i < items.len()
        invariant
            i <= items@.len(),
            out@ == items@.take(i as int),
        decreases items@.len() - i,
    {
        out.push(items[i].clone());
        i = i + 1;
        assert(items@.take(i as int) =~= items@.take(i - 1).push(items@[i - 1]));
    }
    assert(items@.take(i as int) =~= items@);
    out
}

impl Clone for TradeDetails {
    fn clone(&self) -> (r: Self)
        ensures
            r@ == self@,
    {
        TradeDetails {
            giving: clone_items(&self.giving),
            receiving: clone_items(&self.receiving),
            partner_id: self.partner_id.clone(),
            avatar: self.avatar.clone(),
        }
    }
}

impl Default for TradeDetails {
    /// A trade of nothing.
    fn default() -> (r: Self)
        ensures
            r.giving@.len() == 0,
            r.receiving@.len() == 0,
            r.partner_id is None,
            r.avatar is None,
    {
        TradeDetails { giving: Vec::new(), receiving: Vec::new(), partner_id: None, avatar: None }
    }
}

// ---------------------------------------------------------------------------
// Numbers in Steam's JSON
// ---------------------------------------------------------------------------

/// The number that a value is or spells: Steam writes the same number now as a
/// JSON number, now as a text.
pub open spec fn number_in(value: JsonTree) -> Option<u64> {
    match value {
        JsonTree::Number { unsigned, .. } => unsigned,
        JsonTree::Text(text) => spelled_number(text),
        _ => None,
    }
}

/// The number in the field of that name.
pub open spec fn number_field(value: JsonTree, key: Seq<char>) -> Option<u64> {
    number_in(field_or_null(value, key))
}

/// The number that a value is or spells.
pub fn number(value: &Json) -> (r: Option<u64>)
    ensures
        r == number_in(value.tree()),
{
    match value {
        Json::Number(n) => n.unsigned,
        Json::Text(text) => read_number(text.as_str()),
        _ => None,
    }
}

/// The number in the field of that name.
pub fn number_at(value: &Json, key: &str) -> (r: Option<u64>)
    ensures
        r == number_field(value.tree(), key@),
{
    match value.field(key) {
        Some(field) => number(field),
        None => None,
    }
}

// ---------------------------------------------------------------------------
// One item
// ---------------------------------------------------------------------------

/// The application number of Steam's own inventory, which holds cards and
/// backgrounds of other games.
pub const STEAM_INVENTORY: u64 = 753;

/// The game that a described item belongs to. Cards and backgrounds lie in
/// Steam's own inventory but belong to the game that the market's fee goes to.
pub open spec fn owning_app(description: JsonTree, inventory: u64) -> u64 {
    if inventory == STEAM_INVENTORY {
        match number_field(description, "market_fee_app"@) {
            Some(app) if app > 0 => app,
            _ => STEAM_INVENTORY,
        }
    } else {
        inventory
    }
}

/// A text that is there and not empty.
pub open spec fn filled(text: Option<Seq<char>>) -> Option<Seq<char>> {
    match text {
        Some(text) if text.len() > 0 => Some(text),
        _ => None,
    }
}

/// The first text, or the second where the first is missing.
pub open spec fn either(first: Option<Seq<char>>, second: Option<Seq<char>>) -> Option<Seq<char>> {
    match first {
        Some(text) => Some(text),
        None => second,
    }
}

/// The name of a described item.
pub open spec fn described_name(description: JsonTree) -> Option<Seq<char>> {
    filled(either(text_field(description, "market_name"@), text_field(description, "name"@)))
}

/// Where a described item's icon is: a whole address, or the name of a picture
/// on Steam's own host.
pub open spec fn icon_address(icon: Seq<char>) -> Seq<char> {
    if occurs_at("http"@, icon, 0) || occurs_at("//"@, icon, 0) {
        icon
    } else {
        "https://community.fastly.steamstatic.com/economy/image/"@ + icon + "/128fx128f"@
    }
}

/// The address of a described item's picture, if it may be loaded.
pub open spec fn described_image(description: JsonTree) -> Option<Seq<char>> {
    match either(
        filled(text_field(description, "icon_url_large"@)),
        text_field(description, "icon_url"@),
    ) {
        Some(icon) => image_address(icon_address(icon)),
        None => None,
    }
}

/// The first tag of the category that names the game.
pub open spec fn game_tag(tags: Seq<JsonTree>) -> Option<JsonTree>
    decreases tags.len(),
{
    if tags.len() == 0 {
        None
    } else if text_field(tags[0], "category"@) == Some("Game"@) {
        Some(tags[0])
    } else {
        game_tag(tags.skip(1))
    }
}

/// The game's name in the tags of a described item.
pub open spec fn tagged_game(description: JsonTree) -> Option<Seq<char>> {
    match array_field(description, "tags"@) {
        Some(tags) => match game_tag(tags) {
            Some(tag) => text_field(tag, "localized_tag_name"@),
            None => None,
        },
        None => None,
    }
}

/// The name of the game that a described item belongs to, or an empty text
/// where the description does not tell it.
pub open spec fn described_game(description: JsonTree, inventory: u64) -> Seq<char> {
    let own = if owning_app(description, inventory) == inventory {
        text_field(description, "app_name"@)
    } else {
        None
    };
    match either(tagged_game(description), own) {
        Some(game) => game,
        None => Seq::empty(),
    }
}

/// The item that a description tells of, or why it tells of none.
pub open spec fn described_item(description: JsonTree, amount: u64) -> Result<ItemView, Seq<char>> {
    match number_field(description, "appid"@) {
        None => Err("Steam не вернул игру предмета"@),
        Some(inventory) => match described_name(description) {
            None => Err("Steam не вернул название предмета"@),
            Some(name) => Ok(
                ItemView {
                    name,
                    game: described_game(description, inventory),
                    app_id: owning_app(description, inventory),
                    image: described_image(description),
                    amount,
                },
            ),
        },
    }
}

fn read_game_tag(tags: &Vec<Json>) -> (r: Option<&Json>)
    ensures
        match r {
            Some(tag) => game_tag(trees(tags@)) == Some(tag.tree()),
            None => game_tag(trees(tags@)) is None,
        },
{
    let ghost all = trees(tags@);
    let mut i: usize = 0;
    assert(all.skip(0) =~= all);
    while i < tags.len()
        invariant
            i <= tags@.len(),
            all == trees(tags@),
            game_tag(all) == game_tag(all.skip(i as int)),
        decreases tags@.len() - i,
    {
        assert(all.skip(i as int)[0] == tags@[i as int].tree());
        if let Some(category) = tags[i].text("category") {
            if same_text(category.as_str(), "Game") {
                return Some(&tags[i]);
            }
        }
        assert(all.skip(i as int).skip(1) =~= all.skip(i + 1));
        i = i + 1;
    }
    None
}

fn read_game(description: &Json, inventory: u64, app_id: u64) -> (r: String)
    requires
        app_id == owning_app(description.tree(), inventory),
    ensures
        r@ == described_game(description.tree(), inventory),
{
    if let Some(tags) = description.array("tags") {
        if let Some(tag) = read_game_tag(tags) {
            if let Some(game) = tag.text("localized_tag_name") {
                return game.clone();
            }
        }
    }
    if app_id == inventory {
        if let Some(game) = description.text("app_name") {
            return game.clone();
        }
    }
    String::new()
}

fn read_image(description: &Json) -> (r: Option<String>)
    ensures
        text_option(r) == described_image(description.tree()),
{
    let large = match description.text("icon_url_large") {
        Some(icon) => if icon.as_str().is_empty() {
            None
        } else {
            Some(icon)
        },
        None => None,
    };
    let icon = match large {
        Some(icon) => icon.as_str(),
        None => match description.text("icon_url") {
            Some(icon) => icon.as_str(),
            None => return None,
        },
    };
    if begins_with(icon, "http") || begins_with(icon, "//") {
        steam_image_url(icon)
    } else {
        let address = concat3(
            "https://community.fastly.steamstatic.com/economy/image/",
            icon,
            "/128fx128f",
        );
        steam_image_url(address.as_str())
    }
}

/// The item that a description tells of.
pub fn item_from_description(description: &Json, amount: u64) -> (r: Result<TradeItem, String>)
    ensures
        match r {
            Ok(item) => described_item(description.tree(), amount) == Ok::<ItemView, Seq<char>>(item@),
            Err(message) => described_item(description.tree(), amount) == Err::<ItemView, Seq<char>>(
                message@,
            ),
        },
{
    let inventory: u64 = match number_at(description, "appid") {
        Some(inventory) => inventory,
        None => return Err("Steam не вернул игру предмета".to_owned()),
    };
    let app_id: u64 = if inventory == STEAM_INVENTORY {
        match number_at(description, "market_fee_app") {
            Some(app) => if app > 0 {
                app
            } else {
                STEAM_INVENTORY
            },
            None => STEAM_INVENTORY,
        }
    } else {
        inventory
    };
    let told = match description.text("market_name") {
        Some(name) => Some(name),
        None => description.text("name"),
    };
    let name = match told {
        Some(name) => if name.as_str().is_empty() {
            return Err("Steam не вернул название предмета".to_owned());
        } else {
            name.clone()
        },
        None => return Err("Steam не вернул название предмета".to_owned()),
    };
    Ok(
        TradeItem {
            name,
            game: read_game(description, inventory, app_id),
            app_id,
            image: read_image(description),
            amount,
        },
    )
}

// ---------------------------------------------------------------------------
// A whole offer
// ---------------------------------------------------------------------------

/// Steam's 64-bit number of the first individual account.
pub const FIRST_STEAM_ID: u64 = 76561197960265728;

/// Whether a description is of an asset: the same game, class and instance.
pub open spec fn describes(description: JsonTree, asset: JsonTree) -> bool {
    &&& number_field(description, "appid"@) == number_field(asset, "appid"@)
    &&& number_field(description, "classid"@) == number_field(asset, "classid"@)
    &&& instance_of(description) == instance_of(asset)
}

/// The instance of an asset or a description, zero where it is left out.
pub open spec fn instance_of(value: JsonTree) -> u64 {
    match number_field(value, "instanceid"@) {
        Some(instance) => instance,
        None => 0,
    }
}

/// The first description of an asset.
pub open spec fn description_of(descriptions: Seq<JsonTree>, asset: JsonTree) -> Option<JsonTree>
    decreases descriptions.len(),
{
    if descriptions.len() == 0 {
        None
    } else if describes(descriptions[0], asset) {
        Some(descriptions[0])
    } else {
        description_of(descriptions.skip(1), asset)
    }
}

/// How many of an asset are traded, one where it is left out.
pub open spec fn amount_of(asset: JsonTree) -> u64 {
    match number_field(asset, "amount"@) {
        Some(amount) => amount,
        None => 1,
    }
}

/// The item that an asset is.
pub open spec fn asset_item(descriptions: Seq<JsonTree>, asset: JsonTree) -> Result<
    ItemView,
    Seq<char>,
> {
    match description_of(descriptions, asset) {
        None => Err("Steam пока не вернул описание всех предметов"@),
        Some(description) => described_item(description, amount_of(asset)),
    }
}

/// A row of items in front of the items or the error that follow.
pub open spec fn followed(items: Seq<ItemView>, rest: Result<Seq<ItemView>, Seq<char>>) -> Result<
    Seq<ItemView>,
    Seq<char>,
> {
    match rest {
        Ok(more) => Ok(items + more),
        Err(message) => Err(message),
    }
}

/// The items of one side, in the order of the assets, or the first error.
pub open spec fn side_items(descriptions: Seq<JsonTree>, assets: Seq<JsonTree>) -> Result<
    Seq<ItemView>,
    Seq<char>,
>
    decreases assets.len(),
{
    if assets.len() == 0 {
        Ok(Seq::empty())
    } else {
        match asset_item(descriptions, assets[0]) {
            Err(message) => Err(message),
            Ok(item) => followed(seq![item], side_items(descriptions, assets.skip(1))),
        }
    }
}

/// The items of the side that stands in the field of that name.
pub open spec fn side_in(descriptions: Seq<JsonTree>, offer: JsonTree, field: Seq<char>) -> Result<
    Seq<ItemView>,
    Seq<char>,
> {
    match array_field(offer, field) {
        Some(assets) => side_items(descriptions, assets),
        None => Ok(Seq::empty()),
    }
}

/// The offer in an answer of the trade service.
pub open spec fn offer_in(body: JsonTree) -> JsonTree {
    field_or_null(field_or_null(body, "response"@), "offer"@)
}

/// The 64-bit number of an account, given its own.
pub open spec fn steam_id_of(account: u64) -> nat {
    FIRST_STEAM_ID as nat + account as nat
}

/// The trade that an answer of the trade service tells of, or why it tells of
/// none: it is of another offer, it has no descriptions, one of its items has
/// none or is described badly, or there are no items.
pub open spec fn offered_trade(body: JsonTree, expected_id: Seq<char>) -> Result<
    TradeView,
    Seq<char>,
> {
    let offer = offer_in(body);
    if text_field(offer, "tradeofferid"@) != Some(expected_id) {
        Err("Steam не вернул нужный обмен"@)
    } else {
        match array_field(field_or_null(body, "response"@), "descriptions"@) {
            None => Err("Нет описаний предметов"@),
            Some(descriptions) => match side_in(descriptions, offer, "items_to_give"@) {
                Err(message) => Err(message),
                Ok(giving) => match side_in(descriptions, offer, "items_to_receive"@) {
                    Err(message) => Err(message),
                    Ok(receiving) => if giving.len() == 0 && receiving.len() == 0 {
                        Err("Steam вернул пустой состав обмена"@)
                    } else {
                        Ok(
                            TradeView {
                                giving,
                                receiving,
                                partner_id: match number_field(offer, "accountid_other"@) {
                                    Some(account) => Some(decimal(steam_id_of(account))),
                                    None => None,
                                },
                                avatar: None,
                            },
                        )
                    },
                },
            },
        }
    }
}

/// Whether the 64-bit number of the other account fits 64 bits, where an answer
/// of the trade service tells of the wanted trade.
pub open spec fn partner_fits(body: JsonTree, expected_id: Seq<char>) -> bool {
    match number_field(offer_in(body), "accountid_other"@) {
        Some(account) => offered_trade(body, expected_id) is Ok ==> steam_id_of(account)
            <= u64::MAX,
        None => true,
    }
}

/// Both sides of an offer keep the assets, their order and their amounts, and
/// each item is what the first description of its asset tells of.
pub proof fn sides_keep_assets(descriptions: Seq<JsonTree>, assets: Seq<JsonTree>, i: int)
    requires
        side_items(descriptions, assets) is Ok,
        0 <= i < assets.len(),
    ensures
        side_items(descriptions, assets)->Ok_0.len() == assets.len(),
        asset_item(descriptions, assets[i]) == Ok::<ItemView, Seq<char>>(
            side_items(descriptions, assets)->Ok_0[i],
        ),
        side_items(descriptions, assets)->Ok_0[i].amount == amount_of(assets[i]),
    decreases assets.len(),
{
    let rest = assets.skip(1);
    lemma_side_length(descriptions, rest);
    if i > 0 {
        sides_keep_assets(descriptions, rest, i - 1);
        assert(rest[i - 1] == assets[i]);
    }
}

proof fn lemma_side_length(descriptions: Seq<JsonTree>, assets: Seq<JsonTree>)
    ensures
        side_items(descriptions, assets) matches Ok(items) ==> items.len() == assets.len(),
    decreases assets.len(),
{
    if assets.len() > 0 {
        lemma_side_length(descriptions, assets.skip(1));
    }
}

fn read_description<'a>(descriptions: &'a Vec<Json>, asset: &Json) -> (r: Option<&'a Json>)
    ensures
        match r {
            Some(description) => description_of(trees(descriptions@), asset.tree()) == Some(
                description.tree(),
            ),
            None => description_of(trees(descriptions@), asset.tree()) is None,
        },
{
    let app = number_at(asset, "appid");
    let class = number_at(asset, "classid");
    let instance: u64 = match number_at(asset, "instanceid") {
        Some(instance) => instance,
        None => 0,
    };
    let ghost all = trees(descriptions@);
    let mut i: usize = 0;
    assert(all.skip(0) =~= all);
    while i < descriptions.len()
        invariant
            i <= descriptions@.len(),
            all == trees(descriptions@),
            app == number_field(asset.tree(), "appid"@),
            class == number_field(asset.tree(), "classid"@),
            instance == instance_of(asset.tree()),
            description_of(all, asset.tree()) == description_of(all.skip(i as int), asset.tree()),
        decreases descriptions@.len() - i,
    {
        let description = &descriptions[i];
        assert(all.skip(i as int)[0] == description.tree());
        let its_instance: u64 = match number_at(description, "instanceid") {
            Some(instance) => instance,
            None => 0,
        };
        if number_at(description, "appid") == app && number_at(description, "classid") == class
            && its_instance == instance {
            return Some(description);
        }
        assert(all.skip(i as int).skip(1) =~= all.skip(i + 1));
        i = i + 1;
    }
    None
}

fn read_side(descriptions: &Vec<Json>, offer: &Json, field: &str) -> (r: Result<
    Vec<TradeItem>,
    String,
>)
    ensures
        match r {
            Ok(items) => side_in(trees(descriptions@), offer.tree(), field@) == Ok::<
                Seq<ItemView>,
                Seq<char>,
            >(item_views(items@)),
            Err(message) => side_in(trees(descriptions@), offer.tree(), field@) == Err::<
                Seq<ItemView>,
                Seq<char>,
            >(message@),
        },
{
    let mut items: Vec<TradeItem> = Vec::new();
    let assets = match offer.array(field) {
        Some(assets) => assets,
        None => {
            assert(item_views(items@) =~= Seq::<ItemView>::empty());
            return Ok(items);
        },
    };
    let ghost told = trees(descriptions@);
    let ghost all = trees(assets@);
    let mut i: usize = 0;
    assert(all.skip(0) =~= all);
    assert(followed(item_views(items@), side_items(told, all)) == side_items(told, all)) by {
        if let Ok(more) = side_items(told, all) {
            assert(item_views(items@) + more =~= more);
        }
    }
    while i < assets.len()
        invariant
            i <= assets@.len(),
            told == trees(descriptions@),
            all == trees(assets@),
            side_in(told, offer.tree(), field@) == side_items(told, all),
            side_items(told, all) == followed(
                item_views(items@),
                side_items(told, all.skip(i as int)),
            ),
        decreases assets@.len() - i,
    {
        let ghost before = items@;
        let ghost rest = all.skip(i as int);
        let asset = &assets[i];
        assert(rest[0] == asset.tree());
        assert(rest.skip(1) =~= all.skip(i + 1));
        let description = match read_description(descriptions, asset) {
            Some(description) => description,
            None => return Err("Steam пока не вернул описание всех предметов".to_owned()),
        };
        let amount: u64 = match number_at(asset, "amount") {
            Some(amount) => amount,
            None => 1,
        };
        match item_from_description(description, amount) {
            Ok(item) => {
                items.push(item);
                assert(item_views(items@) =~= item_views(before).push(item@));
                assert(side_items(told, all) == followed(
                    item_views(items@),
                    side_items(told, all.skip(i + 1)),
                )) by {
                    if let Ok(more) = side_items(told, all.skip(i + 1)) {
                        assert(item_views(before) + (seq![item@] + more) =~= item_views(items@)
                            + more);
                    }
                }
            },
            Err(message) => return Err(message),
        }
        i = i + 1;
    }
    assert(item_views(items@) + Seq::<ItemView>::empty() =~= item_views(items@));
    Ok(items)
}

/// The two sides of the wanted trade and the number of the other account.
fn read_offer(body: &Json, expected_id: &str) -> (r: Result<
    (Vec<TradeItem>, Vec<TradeItem>, Option<u64>),
    String,
>)
    ensures
        match r {
            Ok((giving, receiving, account)) => {
                &&& offered_trade(body.tree(), expected_id@) is Ok
                &&& account == number_field(offer_in(body.tree()), "accountid_other"@)
                &&& offered_trade(body.tree(), expected_id@)->Ok_0 == TradeView {
                    giving: item_views(giving@),
                    receiving: item_views(receiving@),
                    partner_id: match account {
                        Some(account) => Some(decimal(steam_id_of(account))),
                        None => None,
                    },
                    avatar: None,
                }
            },
            Err(message) => offered_trade(body.tree(), expected_id@) == Err::<TradeView, Seq<char>>(
                message@,
            ),
        },
{
    let response = match body.field("response") {
        Some(response) => response,
        None => return Err("Steam не вернул нужный обмен".to_owned()),
    };
    let offer = match response.field("offer") {
        Some(offer) => offer,
        None => return Err("Steam не вернул нужный обмен".to_owned()),
    };
    match offer.text("tradeofferid") {
        Some(id) => if !same_text(id.as_str(), expected_id) {
            return Err("Steam не вернул нужный обмен".to_owned());
        },
        None => return Err("Steam не вернул нужный обмен".to_owned()),
    }
    let descriptions = match response.array("descriptions") {
        Some(descriptions) => descriptions,
        None => return Err("Нет описаний предметов".to_owned()),
    };
    let giving = match read_side(descriptions, offer, "items_to_give") {
        Ok(items) => items,
        Err(message) => return Err(message),
    };
    let receiving = match read_side(descriptions, offer, "items_to_receive") {
        Ok(items) => items,
        Err(message) => return Err(message),
    };
    if giving.len() == 0 && receiving.len() == 0 {
        return Err("Steam вернул пустой состав обмена".to_owned());
    }
    Ok((giving, receiving, number_at(offer, "accountid_other")))
}

/// Whether the 64-bit number of the other account fits 64 bits, where an answer
/// of the trade service tells of the wanted trade.
pub fn partner_number_fits(body: &Json, expected_id: &str) -> (r: bool)
    ensures
        r == partner_fits(body.tree(), expected_id@),
{
    match read_offer(body, expected_id) {
        Ok((_, _, Some(account))) => account <= u64::MAX - FIRST_STEAM_ID,
        _ => true,
    }
}

/// The trade that an answer of the trade service tells of.
pub fn parse_api_offer(body: &Json, expected_id: &str) -> (r: Result<TradeDetails, String>)
    requires
        partner_fits(body.tree(), expected_id@),
    ensures
        match r {
            Ok(details) => offered_trade(body.tree(), expected_id@) == Ok::<TradeView, Seq<char>>(
                details@,
            ),
            Err(message) => offered_trade(body.tree(), expected_id@) == Err::<TradeView, Seq<char>>(
                message@,
            ),
        },
{
    match read_offer(body, expected_id) {
        Ok((giving, receiving, account)) => {
            let partner_id = match account {
                Some(account) => Some(decimal_text(FIRST_STEAM_ID + account)),
                None => None,
            };
            Ok(TradeDetails { giving, receiving, partner_id, avatar: None })
        },
        Err(message) => Err(message),
    }
}

// ---------------------------------------------------------------------------
// What is shown of an offer
// ---------------------------------------------------------------------------

/// The number in a field, zero where it is left out.
pub open spec fn number_or_zero(value: JsonTree, key: Seq<char>) -> u64 {
    match number_field(value, key) {
        Some(number) => number,
        None => 0,
    }
}

/// Every item of a side is described by a description of its own asset: the
/// game, the class and the instance, zero where it is left out, are those of the
/// asset, and no description before it is of the same three. The item has the
/// name, the game and the picture of that description, and the amount of the
/// asset.
pub proof fn items_are_described_by_their_own(
    descriptions: Seq<JsonTree>,
    assets: Seq<JsonTree>,
    i: int,
)
    requires
        side_items(descriptions, assets) is Ok,
        0 <= i < assets.len(),
    ensures
        side_items(descriptions, assets)->Ok_0.len() == assets.len(),
        exists|j: int|
            0 <= j < descriptions.len() && number_field(#[trigger] descriptions[j], "appid"@)
                == number_field(assets[i], "appid"@) && number_field(descriptions[j], "classid"@)
                == number_field(assets[i], "classid"@) && number_or_zero(
                descriptions[j],
                "instanceid"@,
            ) == number_or_zero(assets[i], "instanceid"@) && described_item(
                descriptions[j],
                match number_field(assets[i], "amount"@) {
                    Some(amount) => amount,
                    None => 1,
                },
            ) == Ok::<ItemView, Seq<char>>(side_items(descriptions, assets)->Ok_0[i]) && forall|
                k: int,
            |
                0 <= k < j ==> !(number_field(#[trigger] descriptions[k], "appid"@) == number_field(
                    assets[i],
                    "appid"@,
                ) && number_field(descriptions[k], "classid"@) == number_field(
                    assets[i],
                    "classid"@,
                ) && number_or_zero(descriptions[k], "instanceid"@) == number_or_zero(
                    assets[i],
                    "instanceid"@,
                )),
{
    sides_keep_assets(descriptions, assets, i);
    let j = lemma_first_description(descriptions, assets[i]);
    assert(number_field(descriptions[j], "appid"@) == number_field(assets[i], "appid"@));
}

proof fn lemma_first_description(descriptions: Seq<JsonTree>, asset: JsonTree) -> (j: int)
    requires
        description_of(descriptions, asset) is Some,
    ensures
        0 <= j < descriptions.len(),
        descriptions[j] == description_of(descriptions, asset)->0,
        describes(descriptions[j], asset),
        forall|k: int| 0 <= k < j ==> !describes(#[trigger] descriptions[k], asset),
    decreases descriptions.len(),
{
    if describes(descriptions[0], asset) {
        0
    } else {
        let j = lemma_first_description(descriptions.skip(1), asset) + 1;
        assert forall|k: int| 0 <= k < j implies !describes(#[trigger] descriptions[k], asset) by {
            if k > 0 {
                assert(descriptions.skip(1)[k - 1] == descriptions[k]);
            }
        }
        j
    }
}

/// An asset that no description is of makes the whole side fail: no item is
/// shown under the name of another.
pub proof fn undescribed_assets_are_refused(
    descriptions: Seq<JsonTree>,
    assets: Seq<JsonTree>,
    i: int,
)
    requires
        0 <= i < assets.len(),
        forall|j: int|
            0 <= j < descriptions.len() ==> number_field(#[trigger] descriptions[j], "appid"@)
                != number_field(assets[i], "appid"@) || number_field(descriptions[j], "classid"@)
                != number_field(assets[i], "classid"@) || number_or_zero(
                descriptions[j],
                "instanceid"@,
            ) != number_or_zero(assets[i], "instanceid"@),
    ensures
        side_items(descriptions, assets) is Err,
{
    if side_items(descriptions, assets) is Ok {
        sides_keep_assets(descriptions, assets, i);
        let j = lemma_first_description(descriptions, assets[i]);
        assert(number_field(descriptions[j], "appid"@) == number_field(assets[i], "appid"@));
    }
}

/// An item has a name, which is the market's where the description tells it and
/// else its own; and the amount that it was asked for with.
pub proof fn items_have_their_names(description: JsonTree, amount: u64)
    requires
        described_item(description, amount) is Ok,
    ensures
        ({
            let item = described_item(description, amount)->Ok_0;
            &&& item.name.len() > 0
            &&& text_field(description, "market_name"@) matches Some(name) ==> item.name == name
            &&& text_field(description, "market_name"@) is None ==> text_field(
                description,
                "name"@,
            ) == Some(item.name)
            &&& item.amount == amount
        }),
{
}

/// An item belongs to the game of its inventory. Only in Steam's own inventory,
/// which has the number 753, it belongs to the game that the market's fee goes
/// to, where there is one.
pub proof fn items_belong_to_their_games(description: JsonTree, amount: u64)
    requires
        described_item(description, amount) is Ok,
    ensures
        ({
            let item = described_item(description, amount)->Ok_0;
            let inventory = number_field(description, "appid"@);
            let fee = number_field(description, "market_fee_app"@);
            &&& inventory is Some
            &&& inventory->0 != 753 ==> item.app_id == inventory->0
            &&& inventory->0 == 753 && fee is Some && fee->0 > 0 ==> item.app_id == fee->0
            &&& inventory->0 == 753 && (fee is None || fee->0 == 0) ==> item.app_id == 753
        }),
{
}

/// The name of a game is that of the first tag of the category `Game`, and else
/// the application's own name, but never that of an inventory that the item does
/// not belong to.
pub proof fn games_are_named_by_their_tags(description: JsonTree, amount: u64, i: int)
    requires
        described_item(description, amount) is Ok,
    ensures
        ({
            let item = described_item(description, amount)->Ok_0;
            let tags = array_field(description, "tags"@);
            &&& tags is Some && 0 <= i < tags->0.len() && text_field(tags->0[i], "category"@)
                == Some("Game"@) && (forall|k: int|
                0 <= k < i ==> text_field(#[trigger] tags->0[k], "category"@) != Some("Game"@))
                && text_field(tags->0[i], "localized_tag_name"@) is Some ==> item.game
                == text_field(tags->0[i], "localized_tag_name"@)->0
            &&& tags is None && Some(item.app_id) == number_field(description, "appid"@)
                && text_field(description, "app_name"@) is Some ==> item.game == text_field(
                description,
                "app_name"@,
            )->0
            &&& tags is None && Some(item.app_id) != number_field(description, "appid"@)
                ==> item.game.len() == 0
            &&& tags is None && text_field(description, "app_name"@) is None ==> item.game.len()
                == 0
        }),
{
    if let Some(tags) = array_field(description, "tags"@) {
        if 0 <= i < tags.len() && text_field(tags[i], "category"@) == Some("Game"@) && (forall|
            k: int,
        |
            0 <= k < i ==> text_field(#[trigger] tags[k], "category"@) != Some("Game"@)) {
            lemma_first_tag(tags, i);
        }
    }
}

proof fn lemma_first_tag(tags: Seq<JsonTree>, i: int)
    requires
        0 <= i < tags.len(),
        text_field(tags[i], "category"@) == Some("Game"@),
        forall|k: int| 0 <= k < i ==> text_field(#[trigger] tags[k], "category"@) != Some("Game"@),
    ensures
        game_tag(tags) == Some(tags[i]),
    decreases tags.len(),
{
    if i > 0 {
        assert(text_field(tags[0], "category"@) != Some("Game"@));
        let rest = tags.skip(1);
        assert(rest[i - 1] == tags[i]);
        assert forall|k: int| 0 <= k < i - 1 implies text_field(#[trigger] rest[k], "category"@)
            != Some("Game"@) by {
            assert(rest[k] == tags[k + 1]);
        }
        lemma_first_tag(rest, i - 1);
    }
}

/// The picture of an item is its large icon where that is told and not empty,
/// and else its icon; a name that is no address is looked up on Steam's host.
pub proof fn pictures_are_the_icons(description: JsonTree, amount: u64)
    requires
        described_item(description, amount) is Ok,
    ensures
        ({
            let item = described_item(description, amount)->Ok_0;
            let large = text_field(description, "icon_url_large"@);
            let small = text_field(description, "icon_url"@);
            let icon = if large is Some && large->0.len() > 0 {
                large
            } else {
                small
            };
            &&& icon is None ==> item.image is None
            &&& icon is Some && (occurs_at("http"@, icon->0, 0) || occurs_at("//"@, icon->0, 0))
                ==> item.image == image_address(icon->0)
            &&& icon is Some && !occurs_at("http"@, icon->0, 0) && !occurs_at("//"@, icon->0, 0)
                ==> item.image == image_address(
                "https://community.fastly.steamstatic.com/economy/image/"@ + icon->0
                    + "/128fx128f"@,
            )
        }),
{
}

/// An answer of the trade service is read only where it is of the wanted offer.
/// What it lists as given is shown as given, what it lists as received is shown
/// as received, and the partner is the account that it names.
pub proof fn offers_keep_their_sides(body: JsonTree, expected_id: Seq<char>)
    requires
        offered_trade(body, expected_id) is Ok,
    ensures
        ({
            let answer = field_or_null(body, "response"@);
            let offer = field_or_null(answer, "offer"@);
            let descriptions = array_field(answer, "descriptions"@);
            let trade = offered_trade(body, expected_id)->Ok_0;
            let given = array_field(offer, "items_to_give"@);
            let received = array_field(offer, "items_to_receive"@);
            let partner = number_field(offer, "accountid_other"@);
            &&& text_field(offer, "tradeofferid"@) == Some(expected_id)
            &&& descriptions is Some
            &&& given is None ==> trade.giving.len() == 0
            &&& given is Some ==> side_items(descriptions->0, given->0) == Ok::<
                Seq<ItemView>,
                Seq<char>,
            >(trade.giving)
            &&& received is None ==> trade.receiving.len() == 0
            &&& received is Some ==> side_items(descriptions->0, received->0) == Ok::<
                Seq<ItemView>,
                Seq<char>,
            >(trade.receiving)
            &&& trade.giving.len() + trade.receiving.len() > 0
            &&& partner is None ==> trade.partner_id is None
            &&& partner is Some ==> trade.partner_id == Some(
                decimal((76561197960265728 + partner->0) as nat),
            )
            &&& trade.avatar is None
        }),
{
}

/// Steam writes a number now as a number, now as a text: both are read alike.
pub proof fn numbers_may_be_texts(n: u64, text: Seq<char>)
    ensures
        number_in(JsonTree::Number { unsigned: Some(n), text }) == Some(n),
        number_in(JsonTree::Text(decimal(n as nat))) == Some(n),
{
    crate::text::decimal_reads_back(n);
}

/// A described item is told exactly where its description names its inventory by
/// a number and has a name that is not empty; a market name that is empty does
/// not give way to the other.
pub proof fn named_items_are_told(description: JsonTree, amount: u64)
    ensures
        ({
            let market = text_field(description, "market_name"@);
            let own = text_field(description, "name"@);
            &&& described_item(description, amount) is Ok <==> number_field(description, "appid"@)
                is Some && ((market is Some && market->0.len() > 0) || (market is None && own is Some
                && own->0.len() > 0))
            &&& number_field(description, "appid"@) is None ==> described_item(description, amount)
                == Err::<ItemView, Seq<char>>("Steam не вернул игру предмета"@)
            &&& number_field(description, "appid"@) is Some && market is None && own is None
                ==> described_item(description, amount) == Err::<ItemView, Seq<char>>(
                "Steam не вернул название предмета"@,
            )
        }),
{
}

/// Where no tag tells the game, it is named as its application is, but never as
/// an inventory that the item does not belong to.
pub proof fn untagged_games_are_named_by_their_application(description: JsonTree, amount: u64)
    requires
        described_item(description, amount) is Ok,
        array_field(description, "tags"@) matches Some(tags) ==> forall|k: int|
            0 <= k < tags.len() ==> text_field(#[trigger] tags[k], "category"@) != Some("Game"@),
    ensures
        ({
            let item = described_item(description, amount)->Ok_0;
            let name = text_field(description, "app_name"@);
            &&& Some(item.app_id) == number_field(description, "appid"@) && name is Some
                ==> item.game == name->0
            &&& Some(item.app_id) != number_field(description, "appid"@) || name is None
                ==> item.game.len() == 0
        }),
{
    if let Some(tags) = array_field(description, "tags"@) {
        lemma_no_tag(tags);
    }
}

proof fn lemma_no_tag(tags: Seq<JsonTree>)
    requires
        forall|k: int|
            0 <= k < tags.len() ==> text_field(#[trigger] tags[k], "category"@) != Some("Game"@),
    ensures
        game_tag(tags) is None,
    decreases tags.len(),
{
    if tags.len() > 0 {
        assert(text_field(tags[0], "category"@) != Some("Game"@));
        let rest = tags.skip(1);
        assert forall|k: int| 0 <= k < rest.len() implies text_field(
            #[trigger] rest[k],
            "category"@,
        ) != Some("Game"@) by {
            assert(rest[k] == tags[k + 1]);
        }
        lemma_no_tag(rest);
    }
}

/// A side is told where each of its assets has a description that tells an item:
/// nothing else stands in the way.
pub proof fn described_sides_are_told(descriptions: Seq<JsonTree>, assets: Seq<JsonTree>)
    requires
        forall|i: int|
            0 <= i < assets.len() ==> asset_item(descriptions, #[trigger] assets[i]) is Ok,
    ensures
        side_items(descriptions, assets) is Ok,
        side_items(descriptions, assets)->Ok_0.len() == assets.len(),
        forall|i: int|
            0 <= i < assets.len() ==> asset_item(descriptions, #[trigger] assets[i]) == Ok::<
                ItemView,
                Seq<char>,
            >(side_items(descriptions, assets)->Ok_0[i]),
    decreases assets.len(),
{
    if assets.len() > 0 {
        let rest = assets.skip(1);
        assert(asset_item(descriptions, assets[0]) is Ok);
        assert forall|i: int| 0 <= i < rest.len() implies asset_item(
            descriptions,
            #[trigger] rest[i],
        ) is Ok by {
            assert(rest[i] == assets[i + 1]);
        }
        described_sides_are_told(descriptions, rest);
        let items = side_items(descriptions, assets)->Ok_0;
        let more = side_items(descriptions, rest)->Ok_0;
        let first = asset_item(descriptions, assets[0])->Ok_0;
        assert(items == seq![first] + more);
        assert forall|i: int| 0 <= i < assets.len() implies asset_item(
            descriptions,
            #[trigger] assets[i],
        ) == Ok::<ItemView, Seq<char>>(items[i]) by {
            if i > 0 {
                assert(rest[i - 1] == assets[i]);
                assert(items[i] == more[i - 1]);
            }
        }
    }
}

/// An answer of the trade service that is of the wanted offer, has descriptions
/// and lists an item on at least one side, all of them described, is told: a
/// gift, of which one side is empty, is told like any other.
pub proof fn good_offers_are_told(
    body: JsonTree,
    expected_id: Seq<char>,
    descriptions: Seq<JsonTree>,
    given: Seq<JsonTree>,
    received: Seq<JsonTree>,
)
    requires
        ({
            let answer = field_or_null(body, "response"@);
            let offer = field_or_null(answer, "offer"@);
            &&& text_field(offer, "tradeofferid"@) == Some(expected_id)
            &&& array_field(answer, "descriptions"@) == Some(descriptions)
            &&& array_field(offer, "items_to_give"@) == Some(given) || (array_field(
                offer,
                "items_to_give"@,
            ) is None && given.len() == 0)
            &&& array_field(offer, "items_to_receive"@) == Some(received) || (array_field(
                offer,
                "items_to_receive"@,
            ) is None && received.len() == 0)
        }),
        forall|i: int|
            0 <= i < given.len() ==> asset_item(descriptions, #[trigger] given[i]) is Ok,
        forall|i: int|
            0 <= i < received.len() ==> asset_item(descriptions, #[trigger] received[i]) is Ok,
    ensures
        given.len() + received.len() > 0 ==> {
            &&& offered_trade(body, expected_id) is Ok
            &&& offered_trade(body, expected_id)->Ok_0.giving.len() == given.len()
            &&& offered_trade(body, expected_id)->Ok_0.receiving.len() == received.len()
        },
        given.len() + received.len() == 0 ==> offered_trade(body, expected_id) == Err::<
            TradeView,
            Seq<char>,
        >("Steam вернул пустой состав обмена"@),
{
    described_sides_are_told(descriptions, given);
    described_sides_are_told(descriptions, received);
}

/// An answer of another offer, or without descriptions, is refused and told as
/// such.
pub proof fn other_answers_are_refused(body: JsonTree, expected_id: Seq<char>)
    ensures
        text_field(field_or_null(field_or_null(body, "response"@), "offer"@), "tradeofferid"@)
            != Some(expected_id) ==> offered_trade(body, expected_id) == Err::<TradeView, Seq<char>>(
            "Steam не вернул нужный обмен"@,
        ),
        text_field(field_or_null(field_or_null(body, "response"@), "offer"@), "tradeofferid"@)
            == Some(expected_id) && array_field(
            field_or_null(body, "response"@),
            "descriptions"@,
        ) is None ==> offered_trade(body, expected_id) == Err::<TradeView, Seq<char>>(
            "Нет описаний предметов"@,
        ),
{
}

/// A number is read of a number that fits and of a text that spells one, and of
/// nothing else.
pub proof fn only_numbers_are_numbers(value: JsonTree)
    ensures
        value matches JsonTree::Text(text) ==> number_in(value) == spelled_number(text),
        value matches JsonTree::Number { unsigned, .. } ==> number_in(value) == unsigned,
        !(value is Text) && !(value is Number) ==> number_in(value) is None,
{
}

} // verus!
