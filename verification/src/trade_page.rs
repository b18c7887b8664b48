//! What a trade offer holds, as the page of a confirmation shows it.
//!
//! The page lists the items of both sides as elements, and its scripts describe
//! them in calls of `BuildHover`. The scripts are read, never run.
use vstd::prelude::*;
use vstd::utf8::encode_utf8;

use crate::address::{image_address, steam_image_url};
use crate::json::{leading_json, parse_leading_json, text_field, Json, JsonTree};
use crate::text::{
    after_chars, begins_with, concat2, occurs_at, read_number, same_text, spelled_number, text_up_to,
    texts, trim, trim_leading, trim_start, trimmed, trimmed_start, up_to, without_leading,
};
use crate::trade::{
    described_item, item_from_description, item_views, number_at, number_field, text_option, ItemView,
    TradeDetails, TradeItem, TradeView,
};

verus! {

// ---------------------------------------------------------------------------
// Elements and patterns
// ---------------------------------------------------------------------------

/// What is read of an element of a page.
#[derive(Debug, PartialEq, Eq)]
pub struct PageElement {
    pub id: Option<String>,
    pub src: Option<String>,
    pub text: String,
}

/// The mathematical form of an element.
pub struct ElementView {
    pub id: Option<Seq<char>>,
    pub src: Option<Seq<char>>,
    pub text: Seq<char>,
}

impl View for PageElement {
    type V = ElementView;

    open spec fn view(&self) -> ElementView {
        ElementView { id: text_option(self.id), src: text_option(self.src), text: self.text@ }
    }
}

/// The mathematical form of a row of elements.
pub open spec fn element_views(elements: Seq<PageElement>) -> Seq<ElementView> {
    elements.map_values(|element: PageElement| element@)
}

/// The mathematical form of rows of elements.
pub open spec fn element_rows(rows: Seq<Vec<PageElement>>) -> Seq<Seq<ElementView>> {
    rows.map_values(|row: Vec<PageElement>| element_views(row@))
}

/// The size of the buffers in which the HTML library keeps the texts of a page.
pub const PAGE_BUFFER: u64 = 0x8000_0000;

/// The most bytes that a byte of a page takes in a text: a NUL may be kept as a
/// replacement character, and two references to characters are a byte shorter
/// than what they stand for.
pub open spec fn kept_size(byte: u8) -> nat {
    if byte == 0 {
        3
    } else if byte == 38 {
        2
    } else {
        1
    }
}

/// The most bytes that the texts of a page take together.
pub open spec fn page_size(bytes: Seq<u8>) -> nat
    decreases bytes.len(),
{
    if bytes.len() == 0 {
        0
    } else {
        page_size(bytes.drop_last()) + kept_size(bytes.last())
    }
}

/// Whether a page can be read: its texts fit the buffers, which also have to fit
/// the machine's address space when they double.
pub open spec fn is_page(html: Seq<char>) -> bool {
    page_size(encode_utf8(html)) <= PAGE_BUFFER && page_size(encode_utf8(html)) <= isize::MAX / 2
}

proof fn lemma_page_size_grows(bytes: Seq<u8>, at: int)
    requires
        0 <= at <= bytes.len(),
    ensures
        page_size(bytes.take(at)) <= page_size(bytes),
    decreases bytes.len(),
{
    if at < bytes.len() {
        assert(bytes.drop_last().take(at) =~= bytes.take(at));
        lemma_page_size_grows(bytes.drop_last(), at);
    } else {
        assert(bytes.take(at) =~= bytes);
    }
}

/// Whether a page can be read.
pub fn can_be_read(html: &str) -> (r: bool)
    ensures
        r == is_page(html@),
{
    let bytes = html.as_bytes();
    let most: u64 = if isize::MAX as u64 / 2 < PAGE_BUFFER {
        isize::MAX as u64 / 2
    } else {
        PAGE_BUFFER
    };
    let mut size: u64 = 0;
    let mut i: usize = 0;
    assert(bytes@.take(0) =~= Seq::<u8>::empty());
    while i < bytes.len()
        invariant
            i <= bytes@.len(),
            size == page_size(bytes@.take(i as int)),
            size <= most,
            most <= PAGE_BUFFER,
            most <= isize::MAX / 2,
            most == PAGE_BUFFER || most == isize::MAX / 2,
            bytes@ == encode_utf8(html@),
        decreases bytes@.len() - i,
    {
        let byte = bytes[i];
        assert(bytes@.take(i + 1).drop_last() =~= bytes@.take(i as int));
        assert(bytes@.take(i + 1).last() == byte);
        size = size + if byte == 0 {
            3
        } else if byte == 38 {
            2
        } else {
            1
        };
        i = i + 1;
        if size > most {
            proof {
                lemma_page_size_grows(bytes@, i as int);
            }
            return false;
        }
    }
    assert(bytes@.take(i as int) =~= bytes@);
    true
}

/// The CSS selectors by which a page is read.
pub open spec fn is_selector(selector: Seq<char>) -> bool {
    selector == ".tradeoffer"@ || selector == "script"@ || selector
        == ".trade_item, .tradeoffer_item"@ || selector == ".trade_item_amount, .item_amount"@
        || selector == "img"@ || selector == ".tradeoffer_avatar img, .playerAvatar img"@
}

/// The elements that a CSS selector selects in a page.
pub uninterp spec fn selected(html: Seq<char>, selector: Seq<char>) -> Seq<ElementView>;

/// The elements that `inner` selects below the element number `index` of those
/// that `outer` selects in a page.
pub uninterp spec fn selected_below(
    html: Seq<char>,
    outer: Seq<char>,
    index: nat,
    inner: Seq<char>,
) -> Seq<ElementView>;

/// For each of the elements that `inner` selects below the element number
/// `index` of those that `outer` selects in a page, the elements that `leaf`
/// selects below it.
pub uninterp spec fn selected_leaves(
    html: Seq<char>,
    outer: Seq<char>,
    index: nat,
    inner: Seq<char>,
    leaf: Seq<char>,
) -> Seq<Seq<ElementView>>;

/// The inner HTML of each element that a CSS selector selects in a page.
pub uninterp spec fn selected_html(html: Seq<char>, selector: Seq<char>) -> Seq<Seq<char>>;

/// `Html::select` of scraper on a page that `Html::parse_document` reads, with
/// what is read of each element. It is trusted to select the same elements in
/// the same page.
#[verifier::external_body]
fn select(html: &str, selector: &str) -> (r: Vec<PageElement>)
    requires
        is_page(html@),
        is_selector(selector@),
    ensures
        element_views(r@) == selected(html@, selector@),
{
    let page = scraper::Html::parse_document(html);
    let Ok(selector) = scraper::Selector::parse(selector) else {
        return Vec::new();
    };
    page.select(&selector).map(|e| PageElement {
        id: e.attr("id").map(str::to_owned),
        src: e.attr("src").map(str::to_owned),
        text: e.text().collect(),
    }).collect()
}

/// `ElementRef::select` of scraper below an element that `Html::select` found.
/// It is trusted to select the same elements in the same page; an element that
/// is not there gives none.
#[verifier::external_body]
fn select_below(html: &str, outer: &str, index: usize, inner: &str) -> (r: Vec<PageElement>)
    requires
        is_page(html@),
        is_selector(outer@),
        is_selector(inner@),
    ensures
        element_views(r@) == selected_below(html@, outer@, index as nat, inner@),
{
    let page = scraper::Html::parse_document(html);
    let (Ok(outer), Ok(inner)) = (scraper::Selector::parse(outer), scraper::Selector::parse(inner)) else {
        return Vec::new();
    };
    page.select(&outer).nth(index).into_iter().flat_map(|found| found.select(&inner)).map(|e| PageElement {
        id: e.attr("id").map(str::to_owned),
        src: e.attr("src").map(str::to_owned),
        text: e.text().collect(),
    }).collect()
}

/// `ElementRef::select` of scraper below each element of such a selection. It
/// is trusted to select the same elements in the same page; an element that is
/// not there gives none.
#[verifier::external_body]
fn select_leaves(html: &str, outer: &str, index: usize, inner: &str, leaf: &str) -> (r: Vec<
    Vec<PageElement>,
>)
    requires
        is_page(html@),
        is_selector(outer@),
        is_selector(inner@),
        is_selector(leaf@),
    ensures
        element_rows(r@) == selected_leaves(html@, outer@, index as nat, inner@, leaf@),
{
    let page = scraper::Html::parse_document(html);
    let [Ok(outer), Ok(inner), Ok(leaf)] = [outer, inner, leaf].map(scraper::Selector::parse) else {
        return Vec::new();
    };
    page.select(&outer).nth(index).into_iter().flat_map(|found| found.select(&inner)).map(|e| e.select(&leaf).map(|e| PageElement {
        id: e.attr("id").map(str::to_owned),
        src: e.attr("src").map(str::to_owned),
        text: e.text().collect(),
    }).collect()).collect()
}

/// `ElementRef::inner_html` of scraper on each element that `Html::select`
/// finds. It is trusted to give the same texts for the same page.
#[verifier::external_body]
fn select_html(html: &str, selector: &str) -> (r: Vec<String>)
    requires
        is_page(html@),
        is_selector(selector@),
    ensures
        texts(r@) == selected_html(html@, selector@),
{
    let page = scraper::Html::parse_document(html);
    match scraper::Selector::parse(selector) {
        Ok(selector) => page.select(&selector).map(|e| e.inner_html()).collect(),
        Err(_) => Vec::new(),
    }
}

/// One match of a pattern: the text before it, its first group and the text
/// behind it.
#[derive(Debug, PartialEq, Eq)]
pub struct PatternMatch {
    pub before: String,
    pub group: Option<String>,
    pub after: String,
}

/// The mathematical form of a match.
pub struct MatchView {
    pub before: Seq<char>,
    pub group: Option<Seq<char>>,
    pub after: Seq<char>,
}

impl View for PatternMatch {
    type V = MatchView;

    open spec fn view(&self) -> MatchView {
        MatchView { before: self.before@, group: text_option(self.group), after: self.after@ }
    }
}

/// The mathematical form of a row of matches.
pub open spec fn match_views(matches: Seq<PatternMatch>) -> Seq<MatchView> {
    matches.map_values(|m: PatternMatch| m@)
}

/// The matches of a regular expression in a text, one behind the other.
pub uninterp spec fn pattern_matches(pattern: Seq<char>, text: Seq<char>) -> Seq<MatchView>;

/// `Regex::captures_iter` of the regex crate. It is trusted to find the same
/// matches for the same pattern and text; a pattern that does not parse has
/// none.
#[verifier::external_body]
fn find_pattern(pattern: &str, text: &str) -> (r: Vec<PatternMatch>)
    ensures
        match_views(r@) == pattern_matches(pattern@, text@),
{
    let Ok(regex) = regex::Regex::new(pattern) else {
        return Vec::new();
    };
    regex.captures_iter(text).map(|found| PatternMatch {
        before: text[..found.get_match().start()].to_owned(),
        group: found.get(1).map(|group| group.as_str().to_owned()),
        after: text[found.get_match().end()..].to_owned(),
    }).collect()
}

/// The beginning of a call that describes an element: its name in quotes, and
/// the comma behind it.
pub open spec fn hover_pattern() -> Seq<char> {
    "BuildHover\\s*\\(\\s*['\"]([^'\"]+)['\"]\\s*,\\s*"@
}

/// The beginning of an assignment to the variable that a call may name.
pub open spec fn assign_pattern() -> Seq<char> {
    "\\boItem\\s*=\\s*\\{"@
}

// ---------------------------------------------------------------------------
// Descriptions in scripts
// ---------------------------------------------------------------------------

/// The owner that the arguments of a call name first.
pub open spec fn first_owner(arguments: Seq<char>) -> Seq<char> {
    trimmed(
        up_to(
            trimmed_start(without_leading(trimmed_start(up_to(arguments, ')')), ',')),
            ',',
        ),
    )
}

/// Whether an item is given away, given the arguments of its call behind the
/// description: it is the user's own, or the partner's, or neither is said.
pub open spec fn is_given(arguments: Seq<char>) -> Option<bool> {
    if first_owner(arguments) == "UserYou"@ {
        Some(true)
    } else if first_owner(arguments) == "UserThem"@ {
        Some(false)
    } else {
        None
    }
}

/// Whether an item is given away, given the arguments of its call behind the
/// description.
pub fn given_in(arguments: &str) -> (r: Option<bool>)
    ensures
        r == is_given(arguments@),
{
    let inside = text_up_to(arguments, ')');
    let listed = trim_start(trim_leading(trim_start(inside.as_str()).as_str(), ',').as_str());
    let owner = trim(text_up_to(listed.as_str(), ',').as_str());
    if same_text(owner.as_str(), "UserYou") {
        Some(true)
    } else if same_text(owner.as_str(), "UserThem") {
        Some(false)
    } else {
        None
    }
}

/// The text of the object that was last assigned to the variable before a
/// call: from its opening brace on.
pub open spec fn assigned_object(before: Seq<char>) -> Option<Seq<char>> {
    let assignments = pattern_matches(assign_pattern(), before);
    if assignments.len() == 0 {
        None
    } else {
        Some("{"@ + assignments.last().after)
    }
}

/// The description that a call carries and the arguments behind it: an object
/// written in the call, or the variable's last one.
pub open spec fn call_description(call: MatchView) -> Option<(JsonTree, Seq<char>)> {
    if occurs_at("{"@, call.after, 0) {
        leading_json(call.after)
    } else if occurs_at("oItem"@, call.after, 0) {
        match assigned_object(call.before) {
            Some(object) => match leading_json(object) {
                Some(found) => Some((found.0, call.after.skip(5))),
                None => None,
            },
            None => None,
        }
    } else {
        None
    }
}

/// What a script says of one element.
pub struct DescribedView {
    pub id: Seq<char>,
    pub description: JsonTree,
    pub giving: bool,
}

/// What a call says of its element, if it can be read.
pub open spec fn described_by(call: MatchView) -> Option<DescribedView> {
    match (call.group, call_description(call)) {
        (Some(id), Some(found)) => match is_given(found.1) {
            Some(giving) => Some(DescribedView { id, description: found.0, giving }),
            None => None,
        },
        _ => None,
    }
}

/// What a row of calls says, the calls that cannot be read left out.
pub open spec fn described_by_calls(calls: Seq<MatchView>) -> Seq<DescribedView>
    decreases calls.len(),
{
    if calls.len() == 0 {
        Seq::empty()
    } else {
        let before = described_by_calls(calls.drop_last());
        match described_by(calls.last()) {
            Some(described) => before.push(described),
            None => before,
        }
    }
}

/// What the scripts of a page say, in order.
pub open spec fn described_by_scripts(scripts: Seq<Seq<char>>) -> Seq<DescribedView>
    decreases scripts.len(),
{
    if scripts.len() == 0 {
        Seq::empty()
    } else {
        described_by_scripts(scripts.drop_last()) + described_by_calls(
            pattern_matches(hover_pattern(), scripts.last()),
        )
    }
}

/// What the scripts say last of an element.
pub open spec fn last_description(described: Seq<DescribedView>, id: Seq<char>) -> Option<
    DescribedView,
>
    decreases described.len(),
{
    if described.len() == 0 {
        None
    } else if described.last().id == id {
        Some(described.last())
    } else {
        last_description(described.drop_last(), id)
    }
}

/// What a script says of one element.
#[derive(Debug)]
pub struct Described {
    pub id: String,
    pub description: Json,
    pub giving: bool,
}

impl View for Described {
    type V = DescribedView;

    open spec fn view(&self) -> DescribedView {
        DescribedView { id: self.id@, description: self.description.tree(), giving: self.giving }
    }
}

/// The mathematical form of a row of descriptions.
pub open spec fn described_views(described: Seq<Described>) -> Seq<DescribedView> {
    described.map_values(|d: Described| d@)
}

fn read_call_description(call: &PatternMatch) -> (r: Option<(Json, String)>)
    ensures
        match r {
            Some(found) => call_description(call@) == Some((found.0.tree(), found.1@)),
            None => call_description(call@) is None,
        },
{
    proof {
        reveal_strlit("oItem");
    }
    let after = call.after.as_str();
    if begins_with(after, "{") {
        return parse_leading_json(after);
    }
    if !begins_with(after, "oItem") {
        return None;
    }
    let assignments = find_pattern("\\boItem\\s*=\\s*\\{", call.before.as_str());
    let count: usize = assignments.len();
    let ghost found = pattern_matches(assign_pattern(), call.before@);
    assert(found.len() == count);
    if count == 0 {
        return None;
    }
    assert(found.last() == assignments@[count - 1]@);
    let object = concat2("{", assignments[count - 1].after.as_str());
    match parse_leading_json(object.as_str()) {
        Some(found) => {
            let rest = after_chars(after, 5);
            assert(rest@ =~= after@.skip(5));
            Some((found.0, rest))
        },
        None => None,
    }
}

/// What a call says of its element, if it can be read.
pub fn read_call(call: &PatternMatch) -> (r: Option<Described>)
    ensures
        match r {
            Some(described) => described_by(call@) == Some(described@),
            None => described_by(call@) is None,
        },
{
    let id = match &call.group {
        Some(id) => id.clone(),
        None => return None,
    };
    let found = match read_call_description(call) {
        Some(found) => found,
        None => return None,
    };
    match given_in(found.1.as_str()) {
        Some(giving) => Some(Described { id, description: found.0, giving }),
        None => None,
    }
}

fn read_script(script: &str, described: &mut Vec<Described>)
    ensures
        described_views(final(described)@) == described_views(old(described)@)
            + described_by_calls(pattern_matches(hover_pattern(), script@)),
{
    let calls = find_pattern(
        "BuildHover\\s*\\(\\s*['\"]([^'\"]+)['\"]\\s*,\\s*",
        script,
    );
    let ghost all = pattern_matches(hover_pattern(), script@);
    let ghost before = described_views(described@);
    let mut i: usize = 0;
    assert(all.take(0) =~= Seq::<MatchView>::empty());
    assert(described_views(described@) =~= before + described_by_calls(all.take(0)));
    while i < calls.len()
        invariant
            i <= calls@.len(),
            all == match_views(calls@),
            described_views(described@) == before + described_by_calls(all.take(i as int)),
        decreases calls@.len() - i,
    {
        assert(all.take(i + 1).drop_last() =~= all.take(i as int));
        assert(all.take(i + 1).last() == calls@[i as int]@);
        if let Some(entry) = read_call(&calls[i]) {
            let ghost so_far = described_views(described@);
            described.push(entry);
            assert(described_views(described@) =~= so_far.push(entry@));
        }
        i = i + 1;
        assert(described_views(described@) =~= before + described_by_calls(all.take(i as int)));
    }
    assert(all.take(i as int) =~= all);
}

/// What the scripts of a page say of its elements.
pub fn read_scripts(html: &str) -> (r: Vec<Described>)
    requires
        is_page(html@),
    ensures
        described_views(r@) == described_by_scripts(selected_html(html@, "script"@)),
{
    let scripts = select_html(html, "script");
    let ghost all = selected_html(html@, "script"@);
    let mut described: Vec<Described> = Vec::new();
    let mut i: usize = 0;
    assert(all.take(0) =~= Seq::<Seq<char>>::empty());
    assert(described_views(described@) =~= described_by_scripts(all.take(0)));
    while i < scripts.len()
        invariant
            i <= scripts@.len(),
            all == texts(scripts@),
            described_views(described@) == described_by_scripts(all.take(i as int)),
        decreases scripts@.len() - i,
    {
        assert(all.take(i + 1).drop_last() =~= all.take(i as int));
        assert(all.take(i + 1).last() == scripts@[i as int]@);
        read_script(scripts[i].as_str(), &mut described);
        i = i + 1;
    }
    assert(all.take(i as int) =~= all);
    described
}

// ---------------------------------------------------------------------------
// The trade
// ---------------------------------------------------------------------------

/// Whether an element shows the offer of that number.
pub open spec fn shows_offer(element: ElementView, expected_id: Seq<char>) -> bool {
    element.id == Some("tradeoffer_"@ + expected_id) || element.id == Some(
        "tradeofferid_"@ + expected_id,
    )
}

/// The first element from `from` on that shows the offer of that number.
pub open spec fn offer_index(elements: Seq<ElementView>, expected_id: Seq<char>, from: nat) -> Option<
    nat,
>
    decreases elements.len() - from,
{
    if from >= elements.len() {
        None
    } else if shows_offer(elements[from as int], expected_id) {
        Some(from)
    } else {
        offer_index(elements, expected_id, from + 1)
    }
}

/// What the elements of an offer show: its items, the amounts and the pictures
/// in each, and the partner's pictures.
#[derive(Debug, PartialEq, Eq)]
pub struct OfferElements {
    pub items: Vec<PageElement>,
    pub amounts: Vec<Vec<PageElement>>,
    pub pictures: Vec<Vec<PageElement>>,
    pub avatars: Vec<PageElement>,
}

/// The mathematical form of what the elements of an offer show.
pub struct OfferView {
    pub items: Seq<ElementView>,
    pub amounts: Seq<Seq<ElementView>>,
    pub pictures: Seq<Seq<ElementView>>,
    pub avatars: Seq<ElementView>,
}

impl View for OfferElements {
    type V = OfferView;

    open spec fn view(&self) -> OfferView {
        OfferView {
            items: element_views(self.items@),
            amounts: element_rows(self.amounts@),
            pictures: element_rows(self.pictures@),
            avatars: element_views(self.avatars@),
        }
    }
}

/// The first element of the row number `i`, if there is one.
pub open spec fn first_in_row(rows: Seq<Seq<ElementView>>, i: int) -> Option<ElementView> {
    if 0 <= i < rows.len() && rows[i].len() > 0 {
        Some(rows[i][0])
    } else {
        None
    }
}

/// The amount that an element shows.
pub open spec fn shown_amount(element: Option<ElementView>) -> Option<u64> {
    match element {
        Some(element) => spelled_number(trimmed(element.text)),
        None => None,
    }
}

/// The address of the picture that an element shows, if it may be loaded.
pub open spec fn shown_picture(element: Option<ElementView>) -> Option<Seq<char>> {
    match element {
        Some(element) => match element.src {
            Some(src) => image_address(src),
            None => None,
        },
        None => None,
    }
}

/// How many of an item are traded: what its element shows, else what its
/// description says, else one.
pub open spec fn item_amount(shown: Option<u64>, description: JsonTree) -> u64 {
    match shown {
        Some(amount) => amount,
        None => match number_field(description, "amount"@) {
            Some(amount) => amount,
            None => 1,
        },
    }
}

/// The item number `i` of an offer and whether it is given away, or why it
/// cannot be told.
pub open spec fn shown_item(offer: OfferView, described: Seq<DescribedView>, i: int) -> Result<
    (ItemView, bool),
    Seq<char>,
> {
    match offer.items[i].id {
        None => Err("Steam не вернул ID предмета"@),
        Some(id) => match last_description(described, id) {
            None => Err(
                "Steam не вернул полное описание предметов. Нажмите «Обновить» и попробуйте снова"@,
            ),
            Some(entry) => {
                let amount = item_amount(
                    shown_amount(first_in_row(offer.amounts, i)),
                    entry.description,
                );
                match described_item(entry.description, amount) {
                    Err(message) => Err(message),
                    Ok(item) => Ok(
                        (
                            ItemView {
                                image: match item.image {
                                    Some(image) => Some(image),
                                    None => shown_picture(first_in_row(offer.pictures, i)),
                                },
                                ..item
                            },
                            entry.giving,
                        ),
                    ),
                }
            },
        },
    }
}

/// The items that are given and those that are received, in the order of the
/// page, up to the item number `count`; or the first error.
pub open spec fn shown_sides(offer: OfferView, described: Seq<DescribedView>, count: nat) -> Result<
    (Seq<ItemView>, Seq<ItemView>),
    Seq<char>,
>
    decreases count,
{
    if count == 0 {
        Ok((Seq::empty(), Seq::empty()))
    } else {
        match shown_sides(offer, described, (count - 1) as nat) {
            Err(message) => Err(message),
            Ok(sides) => match shown_item(offer, described, count - 1) {
                Err(message) => Err(message),
                Ok(found) => if found.1 {
                    Ok((sides.0.push(found.0), sides.1))
                } else {
                    Ok((sides.0, sides.1.push(found.0)))
                },
            },
        }
    }
}

/// The trade that the elements of an offer show, or why it cannot be told.
pub open spec fn shown_trade(offer: OfferView, described: Seq<DescribedView>) -> Result<
    TradeView,
    Seq<char>,
> {
    match shown_sides(offer, described, offer.items.len()) {
        Err(message) => Err(message),
        Ok(sides) => if sides.0.len() == 0 && sides.1.len() == 0 {
            Err("Steam пока не вернул состав обмена. Нажмите «Обновить» и попробуйте снова"@)
        } else {
            Ok(
                TradeView {
                    giving: sides.0,
                    receiving: sides.1,
                    partner_id: None,
                    avatar: shown_picture(
                        if offer.avatars.len() > 0 {
                            Some(offer.avatars[0])
                        } else {
                            None
                        },
                    ),
                },
            )
        },
    }
}

/// What the elements of the offer number `index` of a page show.
pub open spec fn offer_elements(html: Seq<char>, index: nat) -> OfferView {
    OfferView {
        items: selected_below(html, ".tradeoffer"@, index, ".trade_item, .tradeoffer_item"@),
        amounts: selected_leaves(
            html,
            ".tradeoffer"@,
            index,
            ".trade_item, .tradeoffer_item"@,
            ".trade_item_amount, .item_amount"@,
        ),
        pictures: selected_leaves(
            html,
            ".tradeoffer"@,
            index,
            ".trade_item, .tradeoffer_item"@,
            "img"@,
        ),
        avatars: selected_below(
            html,
            ".tradeoffer"@,
            index,
            ".tradeoffer_avatar img, .playerAvatar img"@,
        ),
    }
}

/// The trade that the page of a confirmation shows, or why it cannot be told.
pub open spec fn page_trade(html: Seq<char>, expected_id: Seq<char>) -> Result<
    TradeView,
    Seq<char>,
> {
    match offer_index(selected(html, ".tradeoffer"@), expected_id, 0) {
        None => Err(
            "Steam не вернул нужный обмен. Обновите подтверждения или авторизуйтесь заново"@,
        ),
        Some(index) => shown_trade(
            offer_elements(html, index),
            described_by_scripts(selected_html(html, "script"@)),
        ),
    }
}

proof fn lemma_first_error(offer: OfferView, described: Seq<DescribedView>, at: nat, count: nat)
    requires
        at <= count,
        shown_sides(offer, described, at) is Err,
    ensures
        shown_sides(offer, described, count) == shown_sides(offer, described, at),
    decreases count,
{
    if at < count {
        lemma_first_error(offer, described, at, (count - 1) as nat);
    }
}

/// A trade that a page shows has each item of the offer on exactly one side.
pub proof fn shown_trade_keeps_items(offer: OfferView, described: Seq<DescribedView>)
    requires
        shown_trade(offer, described) is Ok,
    ensures
        ({
            let trade = shown_trade(offer, described)->Ok_0;
            trade.giving.len() + trade.receiving.len() == offer.items.len()
        }),
{
    lemma_sides_length(offer, described, offer.items.len());
}

proof fn lemma_sides_length(offer: OfferView, described: Seq<DescribedView>, count: nat)
    ensures
        shown_sides(offer, described, count) matches Ok(sides) ==> sides.0.len() + sides.1.len()
            == count,
    decreases count,
{
    if count > 0 {
        lemma_sides_length(offer, described, (count - 1) as nat);
    }
}

/// A page that shows no element of the wanted offer is refused, whatever else
/// it shows.
pub proof fn other_offers_are_refused(html: Seq<char>, expected_id: Seq<char>)
    requires
        forall|i: int|
            0 <= i < selected(html, ".tradeoffer"@).len() ==> !shows_offer(
                #[trigger] selected(html, ".tradeoffer"@)[i],
                expected_id,
            ),
    ensures
        page_trade(html, expected_id) is Err,
{
    lemma_no_offer(selected(html, ".tradeoffer"@), expected_id, 0);
}

proof fn lemma_no_offer(elements: Seq<ElementView>, expected_id: Seq<char>, from: nat)
    requires
        forall|i: int|
            0 <= i < elements.len() ==> !shows_offer(#[trigger] elements[i], expected_id),
    ensures
        offer_index(elements, expected_id, from) is None,
    decreases elements.len() - from,
{
    if from < elements.len() {
        lemma_no_offer(elements, expected_id, from + 1);
    }
}

fn find_description<'a>(described: &'a Vec<Described>, id: &str) -> (r: Option<&'a Described>)
    ensures
        match r {
            Some(entry) => last_description(described_views(described@), id@) == Some(entry@),
            None => last_description(described_views(described@), id@) is None,
        },
{
    let ghost all = described_views(described@);
    let mut i: usize = described.len();
    assert(all.take(i as int) =~= all);
    while i > 0
        invariant
            i <= described@.len(),
            all == described_views(described@),
            last_description(all, id@) == last_description(all.take(i as int), id@),
        decreases i,
    {
        assert(all.take(i as int).last() == described@[i - 1]@);
        assert(all.take(i as int).drop_last() =~= all.take(i - 1));
        if same_text(described[i - 1].id.as_str(), id) {
            return Some(&described[i - 1]);
        }
        i = i - 1;
    }
    None
}

fn first_element(rows: &Vec<Vec<PageElement>>, i: usize) -> (r: Option<&PageElement>)
    ensures
        match r {
            Some(element) => first_in_row(element_rows(rows@), i as int) == Some(element@),
            None => first_in_row(element_rows(rows@), i as int) is None,
        },
{
    if i < rows.len() {
        assert(element_rows(rows@)[i as int] == element_views(rows@[i as int]@));
        if rows[i].len() > 0 {
            return Some(&rows[i][0]);
        }
    }
    None
}

fn read_picture(element: Option<&PageElement>) -> (r: Option<String>)
    ensures
        text_option(r) == shown_picture(
            match element {
                Some(element) => Some(element@),
                None => None,
            },
        ),
{
    match element {
        Some(element) => match &element.src {
            Some(src) => steam_image_url(src.as_str()),
            None => None,
        },
        None => None,
    }
}

fn read_item(offer: &OfferElements, described: &Vec<Described>, i: usize) -> (r: Result<
    (TradeItem, bool),
    String,
>)
    requires
        i < offer.items@.len(),
    ensures
        match r {
            Ok(found) => shown_item(offer@, described_views(described@), i as int) == Ok::<
                (ItemView, bool),
                Seq<char>,
            >((found.0@, found.1)),
            Err(message) => shown_item(offer@, described_views(described@), i as int) == Err::<
                (ItemView, bool),
                Seq<char>,
            >(message@),
        },
{
    assert(offer@.items[i as int] == offer.items@[i as int]@);
    let id = match &offer.items[i].id {
        Some(id) => id.as_str(),
        None => return Err("Steam не вернул ID предмета".to_owned()),
    };
    let entry = match find_description(described, id) {
        Some(entry) => entry,
        None => return Err(
            "Steam не вернул полное описание предметов. Нажмите «Обновить» и попробуйте снова".to_owned(),
        ),
    };
    let shown = match first_element(&offer.amounts, i) {
        Some(element) => read_number(trim(element.text.as_str()).as_str()),
        None => None,
    };
    let amount: u64 = match shown {
        Some(amount) => amount,
        None => match number_at(&entry.description, "amount") {
            Some(amount) => amount,
            None => 1,
        },
    };
    let item = match item_from_description(&entry.description, amount) {
        Ok(item) => item,
        Err(message) => return Err(message),
    };
    let image = match item.image {
        Some(image) => Some(image),
        None => read_picture(first_element(&offer.pictures, i)),
    };
    Ok(
        (
            TradeItem {
                name: item.name,
                game: item.game,
                app_id: item.app_id,
                image,
                amount: item.amount,
            },
            entry.giving,
        ),
    )
}

/// The trade that the elements of an offer show, given what the scripts of the
/// page say of them.
pub fn trade_from_elements(offer: &OfferElements, described: &Vec<Described>) -> (r: Result<
    TradeDetails,
    String,
>)
    ensures
        match r {
            Ok(details) => shown_trade(offer@, described_views(described@)) == Ok::<
                TradeView,
                Seq<char>,
            >(details@),
            Err(message) => shown_trade(offer@, described_views(described@)) == Err::<
                TradeView,
                Seq<char>,
            >(message@),
        },
{
    let ghost said = described_views(described@);
    let mut giving: Vec<TradeItem> = Vec::new();
    let mut receiving: Vec<TradeItem> = Vec::new();
    let mut i: usize = 0;
    assert(item_views(giving@) =~= Seq::<ItemView>::empty());
    assert(item_views(receiving@) =~= Seq::<ItemView>::empty());
    while i < offer.items.len()
        invariant
            i <= offer.items@.len(),
            said == described_views(described@),
            offer@.items.len() == offer.items@.len(),
            shown_sides(offer@, said, i as nat) == Ok::<(Seq<ItemView>, Seq<ItemView>), Seq<char>>(
                (item_views(giving@), item_views(receiving@)),
            ),
        decreases offer.items@.len() - i,
    {
        match read_item(offer, described, i) {
            Ok(found) => {
                let ghost sides = (item_views(giving@), item_views(receiving@));
                if found.1 {
                    giving.push(found.0);
                    assert(item_views(giving@) =~= sides.0.push(found.0@));
                } else {
                    receiving.push(found.0);
                    assert(item_views(receiving@) =~= sides.1.push(found.0@));
                }
            },
            Err(message) => {
                proof {
                    lemma_first_error(offer@, said, (i + 1) as nat, offer@.items.len());
                }
                return Err(message);
            },
        }
        i = i + 1;
    }
    if giving.len() == 0 && receiving.len() == 0 {
        return Err(
            "Steam пока не вернул состав обмена. Нажмите «Обновить» и попробуйте снова".to_owned(),
        );
    }
    let avatar = if offer.avatars.len() > 0 {
        assert(offer@.avatars[0] == offer.avatars@[0]@);
        read_picture(Some(&offer.avatars[0]))
    } else {
        None
    };
    Ok(TradeDetails { giving, receiving, partner_id: None, avatar })
}

/// The first of the elements that shows the offer of that number.
pub fn find_offer(elements: &Vec<PageElement>, expected_id: &str) -> (r: Option<usize>)
    ensures
        match r {
            Some(index) => offer_index(element_views(elements@), expected_id@, 0) == Some(
                index as nat,
            ),
            None => offer_index(element_views(elements@), expected_id@, 0) is None,
        },
{
    let first = concat2("tradeoffer_", expected_id);
    let second = concat2("tradeofferid_", expected_id);
    let ghost all = element_views(elements@);
    let mut i: usize = 0;
    while i < elements.len()
        invariant
            i <= elements@.len(),
            all == element_views(elements@),
            first@ == "tradeoffer_"@ + expected_id@,
            second@ == "tradeofferid_"@ + expected_id@,
            offer_index(all, expected_id@, 0) == offer_index(all, expected_id@, i as nat),
        decreases elements@.len() - i,
    {
        assert(all[i as int] == elements@[i as int]@);
        if let Some(id) = &elements[i].id {
            if same_text(id.as_str(), first.as_str()) || same_text(id.as_str(), second.as_str()) {
                return Some(i);
            }
        }
        i = i + 1;
    }
    None
}

/// The trade that the page of a confirmation shows.
pub fn parse_trade_html(html: &str, expected_id: &str) -> (r: Result<TradeDetails, String>)
    requires
        is_page(html@),
    ensures
        match r {
            Ok(details) => page_trade(html@, expected_id@) == Ok::<TradeView, Seq<char>>(details@),
            Err(message) => page_trade(html@, expected_id@) == Err::<TradeView, Seq<char>>(
                message@,
            ),
        },
{
    let offers = select(html, ".tradeoffer");
    let index: usize = match find_offer(&offers, expected_id) {
        Some(index) => index,
        None => return Err(
            "Steam не вернул нужный обмен. Обновите подтверждения или авторизуйтесь заново".to_owned(),
        ),
    };
    let described = read_scripts(html);
    let offer = OfferElements {
        items: select_below(html, ".tradeoffer", index, ".trade_item, .tradeoffer_item"),
        amounts: select_leaves(
            html,
            ".tradeoffer",
            index,
            ".trade_item, .tradeoffer_item",
            ".trade_item_amount, .item_amount",
        ),
        pictures: select_leaves(
            html,
            ".tradeoffer",
            index,
            ".trade_item, .tradeoffer_item",
            "img",
        ),
        avatars: select_below(
            html,
            ".tradeoffer",
            index,
            ".tradeoffer_avatar img, .playerAvatar img",
        ),
    };
    trade_from_elements(&offer, &described)
}

/// The page of a confirmation in an answer that carries it as a text.
pub fn page_in_answer(body: &Json) -> (r: Result<String, String>)
    ensures
        match r {
            Ok(html) => text_field(body.tree(), "html"@) == Some(html@),
            Err(message) => text_field(body.tree(), "html"@) is None && message@
                == "Steam не вернул состав обмена"@,
        },
{
    match body.text("html") {
        Some(html) => Ok(html.clone()),
        None => Err("Steam не вернул состав обмена".to_owned()),
    }
}

// ---------------------------------------------------------------------------
// What a page is good for
// ---------------------------------------------------------------------------

proof fn lemma_up_to_passes(a: Seq<char>, b: Seq<char>, stop: char)
    requires
        forall|i: int| 0 <= i < a.len() ==> (#[trigger] a[i]) != stop,
    ensures
        up_to(a + b, stop) == a + up_to(b, stop),
    decreases a.len(),
{
    if a.len() == 0 {
        assert(a + b =~= b);
        assert(a + up_to(b, stop) =~= up_to(b, stop));
    } else {
        let rest = a.skip(1);
        assert((a + b)[0] == a[0]);
        assert((a + b).skip(1) =~= rest + b);
        lemma_up_to_passes(rest, b, stop);
        assert(seq![a[0]] + (rest + up_to(b, stop)) =~= a + up_to(b, stop));
    }
}

/// The owner that a call names is the word between the comma behind the
/// description and the next comma or the closing bracket, and what comes behind
/// that counts for nothing.
pub proof fn owners_stand_behind_the_description(owner: Seq<char>, rest: Seq<char>)
    requires
        owner.len() > 0,
        forall|i: int|
            0 <= i < owner.len() ==> (#[trigger] owner[i]) != ',' && owner[i] != ')'
                && !crate::text::is_white(owner[i]),
        rest.len() > 0 ==> rest[0] == ',' || rest[0] == ')',
    ensures
        first_owner(seq![',', ' '] + owner + rest) == owner,
        first_owner(seq![','] + owner + rest) == owner,
        is_given(seq![',', ' '] + owner + rest) == if owner == "UserYou"@ {
            Some(true)
        } else if owner == "UserThem"@ {
            Some(false)
        } else {
            None
        },
{
    lemma_owner_behind(seq![' '], owner, rest);
    lemma_owner_behind(Seq::empty(), owner, rest);
    assert(seq![','] + seq![' '] + owner + rest =~= seq![',', ' '] + owner + rest);
    assert(seq![','] + Seq::<char>::empty() + owner + rest =~= seq![','] + owner + rest);
}

proof fn lemma_owner_behind(blank: Seq<char>, owner: Seq<char>, rest: Seq<char>)
    requires
        blank == seq![' '] || blank == Seq::<char>::empty(),
        owner.len() > 0,
        forall|i: int|
            0 <= i < owner.len() ==> (#[trigger] owner[i]) != ',' && owner[i] != ')'
                && !crate::text::is_white(owner[i]),
        rest.len() > 0 ==> rest[0] == ',' || rest[0] == ')',
    ensures
        first_owner(seq![','] + blank + owner + rest) == owner,
{
    let head = seq![','] + blank + owner;
    assert forall|i: int| 0 <= i < head.len() implies (#[trigger] head[i]) != ')' by {
        if i > blank.len() {
            assert(head[i] == owner[i - 1 - blank.len()]);
        } else if i > 0 {
            assert(head[i] == blank[i - 1]);
        }
    }
    lemma_up_to_passes(head, rest, ')');
    let tail = up_to(rest, ')');
    assert(tail.len() > 0 ==> tail[0] == ',');
    let inside = head + tail;
    assert(inside[0] == ',');
    assert(trimmed_start(inside) == inside);
    let listed = blank + owner + tail;
    assert(inside.skip(1) =~= listed);
    assert(listed[0] == if blank.len() > 0 {
        ' '
    } else {
        owner[0]
    });
    assert(without_leading(listed, ',') == listed);
    assert(without_leading(inside, ',') == listed);
    let named = owner + tail;
    assert(named[0] == owner[0]);
    assert(trimmed_start(named) == named);
    if blank.len() > 0 {
        assert(listed.skip(1) =~= named);
    } else {
        assert(listed =~= named);
    }
    assert(trimmed_start(listed) == named);
    lemma_up_to_passes(owner, tail, ',');
    assert(up_to(tail, ',') =~= Seq::<char>::empty());
    assert(owner + Seq::<char>::empty() =~= owner);
    assert(up_to(named, ',') == owner);
    assert(trimmed_start(owner) == owner);
    assert(owner.last() == owner[owner.len() - 1]);
    assert(trimmed(owner) == owner);
}

/// An item is given away exactly where its call names the user as its owner, and
/// received exactly where it names the partner; where it names neither, nothing
/// is said of it.
pub proof fn owners_tell_the_side(arguments: Seq<char>)
    ensures
        is_given(arguments) == Some(true) <==> first_owner(arguments) == "UserYou"@,
        is_given(arguments) == Some(false) <==> first_owner(arguments) == "UserThem"@,
{
    reveal_strlit("UserYou");
    reveal_strlit("UserThem");
    assert("UserYou"@.len() != "UserThem"@.len());
}

/// What a call says is of the element that it names in quotes, with the owner
/// that stands behind its description. The description is the object in the
/// call, or the last one that the variable was given before it.
pub proof fn calls_describe_their_element(call: MatchView, described: DescribedView)
    requires
        described_by(call) == Some(described),
    ensures
        call.group == Some(described.id),
        call.after.len() > 0,
        call.after[0] == '{' ==> (leading_json(call.after) matches Some(found) && found.0
            == described.description && is_given(found.1) == Some(described.giving)),
        call.after[0] != '{' ==> {
            let assignments = pattern_matches("\\boItem\\s*=\\s*\\{"@, call.before);
            &&& call.after.len() >= 5 && call.after.take(5) == "oItem"@
            &&& assignments.len() > 0
            &&& leading_json("{"@ + assignments[assignments.len() - 1].after) matches Some(found)
                && found.0 == described.description
            &&& is_given(call.after.skip(5)) == Some(described.giving)
        },
{
    reveal_strlit("{");
    reveal_strlit("oItem");
    if occurs_at("{"@, call.after, 0) {
        assert(call.after.subrange(0, 1)[0] == call.after[0]);
    } else {
        assert(call.after.subrange(0, 5) =~= call.after.take(5));
        if call.after[0] == '{' {
            assert(call.after.subrange(0, 1) =~= "{"@);
        }
    }
}

/// Calls are looked for by the name of the function and the quoted name of the
/// element behind it.
pub proof fn calls_are_found_in_every_script(scripts: Seq<Seq<char>>, script: Seq<char>)
    ensures
        described_by_scripts(scripts.push(script)) == described_by_scripts(scripts)
            + described_by_calls(
            pattern_matches("BuildHover\\s*\\(\\s*['\"]([^'\"]+)['\"]\\s*,\\s*"@, script),
        ),
{
    assert(scripts.push(script).drop_last() =~= scripts);
}

/// Every call that can be read says something, in the order of the script, and
/// one that cannot takes nothing from the others.
pub proof fn readable_calls_all_count(calls: Seq<MatchView>, call: MatchView)
    ensures
        described_by(call) matches Some(said) ==> described_by_calls(calls.push(call))
            == described_by_calls(calls).push(said),
        described_by(call) is None ==> described_by_calls(calls.push(call)) == described_by_calls(
            calls,
        ),
{
    assert(calls.push(call).drop_last() =~= calls);
}

/// Of several descriptions of an element, the last one counts.
pub proof fn last_descriptions_count(described: Seq<DescribedView>, id: Seq<char>, at: int)
    requires
        0 <= at < described.len(),
        described[at].id == id,
        forall|j: int| at < j < described.len() ==> (#[trigger] described[j]).id != id,
    ensures
        last_description(described, id) == Some(described[at]),
    decreases described.len(),
{
    if at < described.len() - 1 {
        let fore = described.drop_last();
        assert(described.last() == described[described.len() - 1]);
        assert(fore[at] == described[at]);
        assert forall|j: int| at < j < fore.len() implies (#[trigger] fore[j]).id != id by {
            assert(fore[j] == described[j]);
        }
        last_descriptions_count(fore, id, at);
    }
}

/// The offer that is read is the first whose element bears the wanted number
/// behind one of the two prefixes.
pub proof fn wanted_offers_are_found(elements: Seq<ElementView>, wanted: Seq<char>, from: nat, at: int)
    requires
        from <= at < elements.len(),
        elements[at].id == Some("tradeoffer_"@ + wanted) || elements[at].id == Some(
            "tradeofferid_"@ + wanted,
        ),
        forall|j: int|
            from <= j < at ==> (#[trigger] elements[j]).id != Some("tradeoffer_"@ + wanted)
                && elements[j].id != Some("tradeofferid_"@ + wanted),
    ensures
        offer_index(elements, wanted, from) == Some(at as nat),
    decreases at - from,
{
    if from < at {
        assert(elements[from as int].id != Some("tradeoffer_"@ + wanted));
        wanted_offers_are_found(elements, wanted, from + 1, at);
    }
}

/// An item has what the last description of its own element says of it, stands
/// on the side that this description names, and counts as often as its own
/// element shows, else as the description says, else once. Where the
/// description has no picture, that of its own element is taken.
pub proof fn items_are_of_their_own_element(
    offer: OfferView,
    described: Seq<DescribedView>,
    i: int,
    id: Seq<char>,
    at: int,
    amount: u64,
)
    requires
        offer.items[i].id == Some(id),
        0 <= at < described.len(),
        described[at].id == id,
        forall|j: int| at < j < described.len() ==> (#[trigger] described[j]).id != id,
        0 <= i < offer.amounts.len() && offer.amounts[i].len() > 0 && spelled_number(
            trimmed(offer.amounts[i][0].text),
        ) is Some ==> Some(amount) == spelled_number(trimmed(offer.amounts[i][0].text)),
        !(0 <= i < offer.amounts.len() && offer.amounts[i].len() > 0 && spelled_number(
            trimmed(offer.amounts[i][0].text),
        ) is Some) ==> amount == match number_field(described[at].description, "amount"@) {
            Some(told) => told,
            None => 1u64,
        },
    ensures
        match described_item(described[at].description, amount) {
            Err(message) => shown_item(offer, described, i) == Err::<(ItemView, bool), Seq<char>>(
                message,
            ),
            Ok(item) => shown_item(offer, described, i) matches Ok(found) && found.1
                == described[at].giving && found.0.name == item.name && found.0.game == item.game
                && found.0.app_id == item.app_id && found.0.amount == item.amount && (item.image
                is Some ==> found.0.image == item.image) && (item.image is None && 0 <= i
                < offer.pictures.len() && offer.pictures[i].len() > 0 ==> (
            offer.pictures[i][0].src matches Some(src) ==> found.0.image == image_address(src))),
        },
{
    last_descriptions_count(described, id, at);
}

proof fn lemma_sides_hold(offer: OfferView, described: Seq<DescribedView>, count: nat, i: int) -> (k:
    int)
    requires
        0 <= i < count,
        shown_sides(offer, described, count) is Ok,
    ensures
        ({
            let sides = shown_sides(offer, described, count)->Ok_0;
            &&& shown_item(offer, described, i) matches Ok(found)
            &&& found.1 ==> 0 <= k < sides.0.len() && sides.0[k] == found.0
            &&& !found.1 ==> 0 <= k < sides.1.len() && sides.1[k] == found.0
        }),
    decreases count,
{
    let before = shown_sides(offer, described, (count - 1) as nat)->Ok_0;
    if i < count - 1 {
        lemma_sides_hold(offer, described, (count - 1) as nat, i)
    } else if shown_item(offer, described, i)->Ok_0.1 {
        before.0.len() as int
    } else {
        before.1.len() as int
    }
}

/// Every item of an offer that is told stands on its own side: among those that
/// are given where its call names the user, among those that are received where
/// it names the partner.
pub proof fn items_stand_on_their_side(offer: OfferView, described: Seq<DescribedView>, i: int) -> (k:
    int)
    requires
        shown_trade(offer, described) is Ok,
        0 <= i < offer.items.len(),
    ensures
        ({
            let trade = shown_trade(offer, described)->Ok_0;
            &&& shown_item(offer, described, i) matches Ok(found)
            &&& found.1 ==> 0 <= k < trade.giving.len() && trade.giving[k] == found.0
            &&& !found.1 ==> 0 <= k < trade.receiving.len() && trade.receiving[k] == found.0
        }),
{
    lemma_sides_hold(offer, described, offer.items.len(), i)
}

/// An offer is told whole or not at all: an element without a name, or one that
/// no script describes, has the whole offer refused, and so has one without
/// items.
pub proof fn offers_are_told_whole(offer: OfferView, described: Seq<DescribedView>, i: int)
    requires
        0 <= i < offer.items.len(),
        offer.items[i].id is None || (offer.items[i].id matches Some(id) && forall|j: int|
            0 <= j < described.len() ==> (#[trigger] described[j]).id != id),
    ensures
        shown_trade(offer, described) is Err,
{
    if let Some(id) = offer.items[i].id {
        lemma_undescribed(described, id);
    }
    if shown_trade(offer, described) is Ok {
        lemma_sides_hold(offer, described, offer.items.len(), i);
    }
}

proof fn lemma_undescribed(described: Seq<DescribedView>, id: Seq<char>)
    requires
        forall|j: int| 0 <= j < described.len() ==> (#[trigger] described[j]).id != id,
    ensures
        last_description(described, id) is None,
    decreases described.len(),
{
    if described.len() > 0 {
        assert(described.last() == described[described.len() - 1]);
        let fore = described.drop_last();
        assert forall|j: int| 0 <= j < fore.len() implies (#[trigger] fore[j]).id != id by {
            assert(fore[j] == described[j]);
        }
        lemma_undescribed(fore, id);
    }
}

/// What is read of a page is what stands in the wanted offer: its items, and in
/// each of them its amounts and pictures, and its partner's picture, by their
/// classes. The partner's number is not on the page.
pub proof fn pages_are_read_by_their_classes(html: Seq<char>, wanted: Seq<char>, index: nat)
    requires
        page_trade(html, wanted) is Ok,
        offer_index(selected(html, ".tradeoffer"@), wanted, 0) == Some(index),
    ensures
        ({
            let trade = page_trade(html, wanted)->Ok_0;
            let items = selected_below(
                html,
                ".tradeoffer"@,
                index,
                ".trade_item, .tradeoffer_item"@,
            );
            let avatars = selected_below(
                html,
                ".tradeoffer"@,
                index,
                ".tradeoffer_avatar img, .playerAvatar img"@,
            );
            &&& trade.giving.len() + trade.receiving.len() == items.len()
            &&& items.len() > 0
            &&& trade.partner_id is None
            &&& avatars.len() > 0 ==> (avatars[0].src matches Some(src) ==> trade.avatar
                == image_address(src))
            &&& avatars.len() == 0 ==> trade.avatar is None
            &&& offer_elements(html, index).items == items
            &&& offer_elements(html, index).amounts == selected_leaves(
                html,
                ".tradeoffer"@,
                index,
                ".trade_item, .tradeoffer_item"@,
                ".trade_item_amount, .item_amount"@,
            )
            &&& offer_elements(html, index).pictures == selected_leaves(
                html,
                ".tradeoffer"@,
                index,
                ".trade_item, .tradeoffer_item"@,
                "img"@,
            )
        }),
{
    shown_trade_keeps_items(
        offer_elements(html, index),
        described_by_scripts(selected_html(html, "script"@)),
    );
}

/// A page of plain bytes counts as many as it has, and one with NULs or
/// ampersands at most three times as many.
pub proof fn pages_count_their_bytes(bytes: Seq<u8>)
    ensures
        bytes.len() <= page_size(bytes) <= 3 * bytes.len(),
        (forall|i: int| 0 <= i < bytes.len() ==> (#[trigger] bytes[i]) != 0 && bytes[i] != '&' as u8)
            ==> page_size(bytes) == bytes.len(),
    decreases bytes.len(),
{
    if bytes.len() > 0 {
        let fore = bytes.drop_last();
        pages_count_their_bytes(fore);
        if forall|i: int| 0 <= i < bytes.len() ==> (#[trigger] bytes[i]) != 0 && bytes[i] != '&' as u8 {
            assert forall|i: int| 0 <= i < fore.len() implies (#[trigger] fore[i]) != 0 && fore[i]
                != '&' as u8 by {
                assert(fore[i] == bytes[i]);
            }
            assert(bytes.last() == bytes[bytes.len() - 1]);
        }
    }
}

/// An offer on a page is told where each of its items is, and where it has any:
/// nothing else stands in the way.
pub proof fn described_offers_are_told(offer: OfferView, described: Seq<DescribedView>)
    requires
        forall|i: int|
            0 <= i < offer.items.len() ==> #[trigger] shown_item(offer, described, i) is Ok,
    ensures
        shown_trade(offer, described) is Ok <==> offer.items.len() > 0,
        offer.items.len() == 0 ==> shown_trade(offer, described) == Err::<TradeView, Seq<char>>(
            "Steam пока не вернул состав обмена. Нажмите «Обновить» и попробуйте снова"@,
        ),
{
    lemma_sides_are_told(offer, described, offer.items.len());
    lemma_sides_length(offer, described, offer.items.len());
}

proof fn lemma_sides_are_told(offer: OfferView, described: Seq<DescribedView>, count: nat)
    requires
        count <= offer.items.len(),
        forall|i: int|
            0 <= i < offer.items.len() ==> #[trigger] shown_item(offer, described, i) is Ok,
    ensures
        shown_sides(offer, described, count) is Ok,
    decreases count,
{
    if count > 0 {
        lemma_sides_are_told(offer, described, (count - 1) as nat);
        assert(shown_item(offer, described, count - 1) is Ok);
    }
}

} // verus!
