//! How Steam's mobile endpoints answer, and what an answer means.
use vstd::prelude::*;
use vstd::string::StringExecFns;

use steamguard::ConfirmationType as Listed;

use crate::json::{
    field_of, json_of, parsed_json, read_value, text_field, text_in, trees, true_field, value_field,
    value_tree, Json, JsonTree,
};
use crate::text::{concat2, concat3, contains_text, decimal, decimal_text, occurs_in, texts, trim, trimmed};

verus! {

/// Why a request got no usable answer, and whether asking again may help.
#[derive(Clone, Debug, PartialEq, Eq)]
pub struct MobileResponseError {
    pub message: String,
    pub retryable: bool,
}

impl MobileResponseError {
    /// An error with its message.
    pub fn new(message: String, retryable: bool) -> (r: Self)
        ensures
            r.message == message,
            r.retryable == retryable,
    {
        MobileResponseError { message, retryable }
    }
}

// ---------------------------------------------------------------------------
// The status of an answer
// ---------------------------------------------------------------------------

/// Why an answer with this HTTP status is refused before its body is read: the
/// message, and whether asking again may help.
pub open spec fn status_error(status: u16) -> Option<(Seq<char>, bool)> {
    if 300 <= status < 400 || status == 401 {
        Some(("Сессия Steam истекла. Выполните авторизацию Steam заново"@, false))
    } else if status == 429 {
        Some(
            (
                "Steam ограничил частоту запросов (HTTP 429). Подождите и обновите подтверждения"@,
                false,
            ),
        )
    } else if !(200 <= status < 300) {
        Some(
            (
                "Steam не принял запрос (HTTP "@ + decimal(status as nat)
                    + "). Попробуйте обновить подтверждения позже"@,
                500 <= status < 600 || status == 408,
            ),
        )
    } else {
        None
    }
}

/// Whether `error` carries that message and that hint.
pub open spec fn says(error: MobileResponseError, told: (Seq<char>, bool)) -> bool {
    error.message@ == told.0 && error.retryable == told.1
}

/// Whether an answer with this HTTP status may be read.
pub fn check_mobile_status(status: u16) -> (r: Result<(), MobileResponseError>)
    ensures
        match r {
            Ok(_) => status_error(status) is None,
            Err(error) => status_error(status) is Some && says(error, status_error(status)->0),
        },
{
    if (300 <= status && status < 400) || status == 401 {
        return Err(
            MobileResponseError::new(
                "Сессия Steam истекла. Выполните авторизацию Steam заново".to_owned(),
                false,
            ),
        );
    }
    if status == 429 {
        return Err(
            MobileResponseError::new(
                "Steam ограничил частоту запросов (HTTP 429). Подождите и обновите подтверждения".to_owned(),
                false,
            ),
        );
    }
    if !(200 <= status && status < 300) {
        return Err(
            MobileResponseError::new(
                concat3(
                    "Steam не принял запрос (HTTP ",
                    decimal_text(status as u64).as_str(),
                    "). Попробуйте обновить подтверждения позже",
                ),
                (500 <= status && status < 600) || status == 408,
            ),
        );
    }
    Ok(())
}

/// Only a status from 200 to 299 lets an answer be read, and a client error
/// other than a timeout is not worth asking again.
pub proof fn only_success_is_read(status: u16)
    ensures
        status_error(status) is None <==> 200 <= status < 300,
        400 <= status < 500 && status != 408 ==> !status_error(status)->Some_0.1,
        500 <= status < 600 ==> status_error(status)->Some_0.1,
{
}

/// The error of a request that could not be sent.
pub fn send_error(detail: &str, timed_out: bool, connecting: bool, in_body: bool) -> (r:
    MobileResponseError)
    ensures
        r.message@ == "Не удалось загрузить подтверждения Steam: "@ + detail@,
        r.retryable == (timed_out || connecting || in_body),
{
    MobileResponseError::new(
        concat2("Не удалось загрузить подтверждения Steam: ", detail),
        timed_out || connecting || in_body,
    )
}

/// Why the body of an answer is not looked at: its status, or that the body
/// could not be read.
pub open spec fn unread_error(status: u16, text: Result<String, String>) -> Option<
    (Seq<char>, bool),
> {
    match (status_error(status), text) {
        (Some(told), _) => Some(told),
        (None, Err(detail)) => Some(("Не удалось прочитать ответ Steam: "@ + detail@, true)),
        (None, Ok(_)) => None,
    }
}

/// The text of an answer, given its status and what was read of its body. The
/// status comes first: the body of a refused answer counts for nothing.
pub fn answer_text(status: u16, text: Result<String, String>) -> (r: Result<
    String,
    MobileResponseError,
>)
    ensures
        match unread_error(status, text) {
            Some(told) => r is Err && says(r->Err_0, told),
            None => r is Ok && r->Ok_0 == text->Ok_0,
        },
{
    match check_mobile_status(status) {
        Ok(_) => match text {
            Ok(text) => Ok(text),
            Err(detail) => Err(
                MobileResponseError::new(
                    concat2("Не удалось прочитать ответ Steam: ", detail.as_str()),
                    true,
                ),
            ),
        },
        Err(error) => Err(error),
    }
}

// ---------------------------------------------------------------------------
// The body of an answer
// ---------------------------------------------------------------------------

/// Why Steam refused what was asked, if its answer says so.
pub open spec fn refusal(body: JsonTree) -> Option<Seq<char>> {
    if true_field(body, "needauth"@) || true_field(body, "needsauth"@) {
        Some("Сессия Steam истекла. Выполните авторизацию Steam заново"@)
    } else if !true_field(body, "success"@) {
        let told = match text_field(body, "message"@) {
            Some(text) => Some(text),
            None => text_field(body, "detail"@),
        };
        match told {
            Some(text) if text.len() > 0 => Some(text),
            _ => Some(
                "Steam не выполнил действие. Обновите список: подтверждение могло быть обработано или отменено на другом устройстве"@,
            ),
        }
    } else {
        None
    }
}

/// The body of an answer, or why Steam refused what was asked.
pub fn validate_mobile_response(body: Json) -> (r: Result<Json, String>)
    ensures
        match r {
            Ok(same) => same == body && refusal(body.tree()) is None,
            Err(message) => refusal(body.tree()) == Some(message@),
        },
{
    if body.is_true("needauth") || body.is_true("needsauth") {
        return Err("Сессия Steam истекла. Выполните авторизацию Steam заново".to_owned());
    }
    if !body.is_true("success") {
        let told = match body.text("message") {
            Some(text) => Some(text),
            None => body.text("detail"),
        };
        if let Some(text) = told {
            if !text.as_str().is_empty() {
                return Err(text.clone());
            }
        }
        return Err(
            "Steam не выполнил действие. Обновите список: подтверждение могло быть обработано или отменено на другом устройстве".to_owned(),
        );
    }
    Ok(body)
}

/// Why the body of an answer is refused, given what its text reads as: the
/// message, and whether asking again may help.
pub open spec fn body_error(text: Seq<char>, parsed: Option<JsonTree>) -> Option<
    (Seq<char>, bool),
> {
    if trimmed(text).len() == 0 {
        Some(("Steam вернул пустой ответ. Попробуйте обновить подтверждения позже"@, true))
    } else {
        match parsed {
            None => Some(
                (
                    "Steam вернул ответ в неожиданном формате вместо JSON. Попробуйте позже; если ошибка повторяется, проверьте VPN или прокси"@,
                    true,
                ),
            ),
            Some(body) => match refusal(body) {
                Some(message) => Some((message, false)),
                None => None,
            },
        }
    }
}

/// The body of an answer, given what its text reads as.
pub fn checked_body(text: &str, parsed: Option<Json>) -> (r: Result<Json, MobileResponseError>)
    ensures
        ({
            let tree = match parsed {
                Some(json) => Some(json.tree()),
                None => None,
            };
            match r {
                Ok(json) => body_error(text@, tree) is None && parsed == Some(json),
                Err(error) => body_error(text@, tree) is Some && says(
                    error,
                    body_error(text@, tree)->0,
                ),
            }
        }),
{
    if trim(text).as_str().is_empty() {
        return Err(
            MobileResponseError::new(
                "Steam вернул пустой ответ. Попробуйте обновить подтверждения позже".to_owned(),
                true,
            ),
        );
    }
    let body = match parsed {
        Some(body) => body,
        None => return Err(
            MobileResponseError::new(
                "Steam вернул ответ в неожиданном формате вместо JSON. Попробуйте позже; если ошибка повторяется, проверьте VPN или прокси".to_owned(),
                true,
            ),
        ),
    };
    match validate_mobile_response(body) {
        Ok(body) => Ok(body),
        Err(message) => Err(MobileResponseError::new(message, false)),
    }
}

/// The body of an answer as JSON, if Steam did what was asked. Asking again may
/// help exactly where the text is no JSON, which a blank text never is.
pub fn parse_mobile_body(text: &str) -> (r: Result<Json, MobileResponseError>)
    ensures
        r is Ok <==> (parsed_json(text@) matches Some(body) && refusal(body) is None),
        r matches Err(error) ==> {
            &&& error.retryable <==> parsed_json(text@) is None
            &&& parsed_json(text@) matches Some(body) ==> refusal(body) == Some(error.message@)
        },
        match r {
            Ok(json) => body_error(text@, parsed_json(text@)) is None && parsed_json(text@) == Some(
                json.tree(),
            ),
            Err(error) => body_error(text@, parsed_json(text@)) is Some && says(
                error,
                body_error(text@, parsed_json(text@))->0,
            ),
        },
{
    checked_body(text, crate::json::parse_json(text))
}

/// Why an answer with that status and body is refused: the message, and whether
/// asking again may help.
pub open spec fn answer_error(status: u16, text: Result<String, String>) -> Option<
    (Seq<char>, bool),
> {
    match unread_error(status, text) {
        Some(told) => Some(told),
        None => body_error(text->Ok_0@, parsed_json(text->Ok_0@)),
    }
}

/// What an answer says, given its status and what was read of its body.
pub fn read_mobile_response_checked(status: u16, text: Result<String, String>) -> (r: Result<
    Json,
    MobileResponseError,
>)
    ensures
        match r {
            Ok(json) => answer_error(status, text) is None && parsed_json(text->Ok_0@) == Some(
                json.tree(),
            ),
            Err(error) => answer_error(status, text) is Some && says(
                error,
                answer_error(status, text)->0,
            ),
        },
{
    match answer_text(status, text) {
        Ok(text) => parse_mobile_body(text.as_str()),
        Err(error) => Err(error),
    }
}

/// What an answer says, given its status and what was read of its body, where
/// nobody will ask again.
pub fn read_mobile_response(status: u16, text: Result<String, String>) -> (r: Result<Json, String>)
    ensures
        match r {
            Ok(json) => answer_error(status, text) is None && parsed_json(text->Ok_0@) == Some(
                json.tree(),
            ),
            Err(message) => answer_error(status, text) is Some && message@ == answer_error(
                status,
                text,
            )->Some_0.0,
        },
{
    match read_mobile_response_checked(status, text) {
        Ok(json) => Ok(json),
        Err(error) => Err(error.message),
    }
}

/// An answer that asks for a new session is refused whatever else it says, with
/// the same words as an expired session's status, and asking again is not
/// offered.
pub proof fn needed_session_is_refused(text: Seq<char>, body: JsonTree)
    requires
        trimmed(text).len() > 0,
        true_field(body, "needauth"@) || true_field(body, "needsauth"@),
    ensures
        body_error(text, Some(body)) == status_error(401),
{
}

// ---------------------------------------------------------------------------
// The list of confirmations
// ---------------------------------------------------------------------------

/// What a confirmation is about.
#[derive(Clone, Copy, Debug, PartialEq, Eq, Structural)]
pub enum ConfirmationKind {
    Test,
    Trade,
    MarketSell,
    FeatureOptOut,
    PhoneNumberChange,
    AccountRecovery,
    ApiKeyCreation,
    JoinSteamFamily,
    Unknown(u32),
}

/// A confirmation as Steam lists it, without the label of its kind.
#[derive(Debug, PartialEq, Eq)]
pub struct ListedConfirmation {
    pub kind: ConfirmationKind,
    pub id: String,
    pub creator_id: String,
    pub nonce: String,
    pub creation_time: u64,
    pub icon: Option<String>,
    pub headline: String,
    pub summary: Vec<String>,
}

/// A confirmation as Steam lists it, with the label of its kind.
#[derive(Debug, PartialEq, Eq)]
pub struct Confirmation {
    pub label: String,
    pub listed: ListedConfirmation,
}

/// The mathematical form of a confirmation without the label of its kind.
pub struct ListedView {
    pub kind: ConfirmationKind,
    pub id: Seq<char>,
    pub creator_id: Seq<char>,
    pub nonce: Seq<char>,
    pub creation_time: u64,
    pub icon: Option<Seq<char>>,
    pub headline: Seq<char>,
    pub summary: Seq<Seq<char>>,
}

impl View for ListedConfirmation {
    type V = ListedView;

    open spec fn view(&self) -> ListedView {
        ListedView {
            kind: self.kind,
            id: self.id@,
            creator_id: self.creator_id@,
            nonce: self.nonce@,
            creation_time: self.creation_time,
            icon: match self.icon {
                Some(icon) => Some(icon@),
                None => None,
            },
            headline: self.headline@,
            summary: texts(self.summary@),
        }
    }
}

/// The mathematical form of a row of listed confirmations.
pub open spec fn listed_views(list: Seq<ListedConfirmation>) -> Seq<ListedView> {
    list.map_values(|c: ListedConfirmation| c@)
}

/// The list of confirmations that a JSON value is, if it is one.
pub uninterp spec fn confirmations_in(tree: JsonTree) -> Option<Seq<ListedView>>;

/// `serde_json::from_value` to a list of steamguard's `Confirmation`, with the
/// fields that are read here. It is trusted to give the same list for the same
/// value, with one entry for each of the array that the value then is; its
/// error counts as no list.
#[verifier::external_body]
fn read_confirmations(value: serde_json::Value) -> (r: Option<Vec<ListedConfirmation>>)
    ensures
        match r {
            Some(list) => confirmations_in(value_tree(value)) == Some(listed_views(list@)),
            None => confirmations_in(value_tree(value)) is None,
        },
        r matches Some(list) ==> value_tree(value) is Array && value_tree(value)->Array_0.len()
            == list@.len(),
{
    let list: Vec<steamguard::Confirmation> = serde_json::from_value(value).ok()?;
    Some(list.into_iter().map(|c| ListedConfirmation {
        kind: match c.conf_type {
            Listed::Test => ConfirmationKind::Test,
            Listed::Trade => ConfirmationKind::Trade,
            Listed::MarketSell => ConfirmationKind::MarketSell,
            Listed::FeatureOptOut => ConfirmationKind::FeatureOptOut,
            Listed::PhoneNumberChange => ConfirmationKind::PhoneNumberChange,
            Listed::AccountRecovery => ConfirmationKind::AccountRecovery,
            Listed::ApiKeyCreation => ConfirmationKind::ApiKeyCreation,
            Listed::JoinSteamFamily => ConfirmationKind::JoinSteamFamily,
            Listed::Unknown(n) => ConfirmationKind::Unknown(n),
        }, id: c.id, creator_id: c.creator_id, nonce: c.nonce, creation_time: c.creation_time, icon: c.icon, headline: c.headline, summary: c.summary,
    }).collect())
}

/// The label of a confirmation's kind: the field of an entry, or its second
/// part where the entry is written as a row.
pub open spec fn label_in(entry: JsonTree) -> Seq<char> {
    let told = match entry {
        JsonTree::Array(parts) => if parts.len() > 1 {
            text_in(parts[1])
        } else {
            None
        },
        _ => text_field(entry, "type_name"@),
    };
    match told {
        Some(label) => label,
        None => Seq::empty(),
    }
}

/// Whether `list` holds what `views` and the labels of `entries` say, in order.
pub open spec fn is_labelled(
    list: Seq<Confirmation>,
    views: Seq<ListedView>,
    entries: Seq<JsonTree>,
) -> bool {
    &&& list.len() == views.len()
    &&& forall|i: int|
        0 <= i < list.len() ==> (#[trigger] list[i]).listed@ == views[i] && list[i].label@
            == label_in(entries[i])
}

fn label_of(entry: &Json) -> (r: String)
    ensures
        r@ == label_in(entry.tree()),
{
    let told = match entry {
        Json::Array(parts) => if parts.len() > 1 {
            assert(entry.tree()->Array_0[1] == parts@[1].tree());
            match &parts[1] {
                Json::Text(text) => Some(text),
                _ => None,
            }
        } else {
            None
        },
        _ => entry.text("type_name"),
    };
    match told {
        Some(label) => label.clone(),
        None => String::new(),
    }
}

/// The confirmations of a list with the labels of their kinds, which the
/// entries of the list's JSON hold.
pub fn labelled_confirmations(list: Vec<ListedConfirmation>, entries: &[Json]) -> (r: Vec<
    Confirmation,
>)
    requires
        list@.len() == entries@.len(),
    ensures
        is_labelled(r@, listed_views(list@), trees(entries@)),
{
    let mut out: Vec<Confirmation> = Vec::new();
    let ghost views = listed_views(list@);
    for listed in it: list
        invariant
            it.seq() == list@,
            list@.len() == entries@.len(),
            views == listed_views(list@),
            out@.len() == it.index(),
            is_labelled(out@, views.take(it.index() as int), trees(entries@)),
    {
        let at: usize = out.len();
        out.push(Confirmation { label: label_of(&entries[at]), listed });
    }
    assert(views.take(views.len() as int) =~= views);
    out
}

/// The error of a list of confirmations that cannot be read.
pub open spec fn list_error() -> (Seq<char>, bool) {
    (
        "Steam вернул неподдерживаемый формат списка подтверждений. Попробуйте обновить подтверждения позже"@,
        false,
    )
}

/// The confirmations of a good answer, given its list: none where there is no
/// list, since Steam leaves an empty one out, and an error where the list
/// cannot be read.
pub fn listed_confirmations(list: Option<Option<Vec<Confirmation>>>) -> (r: Result<
    Vec<Confirmation>,
    MobileResponseError,
>)
    ensures
        match list {
            None => r is Ok && r->Ok_0@.len() == 0,
            Some(Some(confirmations)) => r == Ok::<Vec<Confirmation>, MobileResponseError>(
                confirmations,
            ),
            Some(None) => r is Err && says(r->Err_0, list_error()),
        },
{
    match list {
        None => Ok(Vec::new()),
        Some(Some(confirmations)) => Ok(confirmations),
        Some(None) => Err(
            MobileResponseError::new(
                "Steam вернул неподдерживаемый формат списка подтверждений. Попробуйте обновить подтверждения позже".to_owned(),
                false,
            ),
        ),
    }
}

/// Whether `r` is the list of confirmations in the body of an answer.
pub open spec fn lists_confirmations(
    text: Seq<char>,
    r: Result<Vec<Confirmation>, MobileResponseError>,
) -> bool {
    match body_error(text, parsed_json(text)) {
        Some(told) => r is Err && says(r->Err_0, told),
        None => match field_of(parsed_json(text)->0, "conf"@) {
            None => r is Ok && r->Ok_0@.len() == 0,
            Some(list) => match confirmations_in(list) {
                Some(views) => r is Ok && list is Array && is_labelled(
                    r->Ok_0@,
                    views,
                    list->Array_0,
                ),
                None => r is Err && says(r->Err_0, list_error()),
            },
        },
    }
}

/// The confirmations that the body of an answer lists.
pub fn parse_confirmations(text: &str) -> (r: Result<Vec<Confirmation>, MobileResponseError>)
    ensures
        lists_confirmations(text@, r),
{
    let value = match read_value(text) {
        Some(value) => value,
        None => {
            return match checked_body(text, None) {
                Ok(_) => listed_confirmations(None),
                Err(error) => Err(error),
            };
        },
    };
    let conf = value_field(&value, "conf");
    let body = match checked_body(text, Some(json_of(value))) {
        Ok(body) => body,
        Err(error) => return Err(error),
    };
    let list = match conf {
        None => None,
        Some(conf) => match (read_confirmations(conf), body.array("conf")) {
            (Some(list), Some(entries)) => Some(
                Some(labelled_confirmations(list, entries.as_slice())),
            ),
            _ => Some(None),
        },
    };
    listed_confirmations(list)
}

/// The milliseconds to wait before the list is asked for again after that many
/// attempts have failed before this one, or nothing where the error stands.
pub open spec fn retry_delay(attempt: nat, retryable: bool) -> Option<u64> {
    if !retryable {
        None
    } else if attempt == 0 {
        Some(400)
    } else if attempt == 1 {
        Some(900)
    } else {
        None
    }
}

/// The milliseconds to wait before asking again, or nothing where the error of
/// this attempt, the first being number zero, stands.
pub fn after_failed_attempt(attempt: usize, error: &MobileResponseError) -> (r: Option<u64>)
    ensures
        r == retry_delay(attempt as nat, error.retryable),
{
    if !error.retryable {
        None
    } else if attempt == 0 {
        Some(400)
    } else if attempt == 1 {
        Some(900)
    } else {
        None
    }
}

/// Nobody asks more than three times, and an error that is not worth asking
/// again stands at once.
pub proof fn retries_end(attempt: nat, retryable: bool)
    ensures
        attempt >= 2 || !retryable ==> retry_delay(attempt, retryable) is None,
        attempt < 2 && retryable ==> retry_delay(attempt, retryable) is Some,
{
}

// ---------------------------------------------------------------------------
// Errors with causes
// ---------------------------------------------------------------------------

/// An error's message followed by those of its causes, each but the ones that
/// the text already holds.
pub open spec fn chained(message: Seq<char>, causes: Seq<Seq<char>>) -> Seq<char>
    decreases causes.len(),
{
    if causes.len() == 0 {
        message
    } else {
        let before = chained(message, causes.drop_last());
        if occurs_in(causes.last(), before) {
            before
        } else {
            before + ": "@ + causes.last()
        }
    }
}

/// An error's message followed by those of its causes, the nearest first.
pub fn error_chain(error: &str, causes: &[String]) -> (r: String)
    ensures
        r@ == chained(error@, texts(causes@)),
{
    let mut message = error.to_owned();
    let mut i: usize = 0;
    assert(texts(causes@).take(0) =~= Seq::<Seq<char>>::empty());
    while i < causes.len()
        invariant
            i <= causes@.len(),
            message@ == chained(error@, texts(causes@).take(i as int)),
        decreases causes@.len() - i,
    {
        let ghost next = texts(causes@).take(i + 1);
        assert(next.drop_last() =~= texts(causes@).take(i as int));
        let detail = causes[i].as_str();
        assert(next.last() == detail@);
        if !contains_text(message.as_str(), detail) {
            message.append(": ");
            message.append(detail);
        }
        i = i + 1;
    }
    assert(texts(causes@).take(i as int) =~= texts(causes@));
    message
}

/// What is told where Steam does not tell the time.
pub open spec fn time_refusal(error: Seq<char>, causes: Seq<Seq<char>>) -> Seq<char> {
    "Не удалось получить время Steam: "@ + chained(error, causes)
}

/// What is told where Steam does not tell the time, given the error and its
/// causes, the nearest first.
pub fn time_error(error: &str, causes: &[String]) -> (r: String)
    ensures
        r@ == time_refusal(error@, texts(causes@)),
{
    concat2("Не удалось получить время Steam: ", error_chain(error, causes).as_str())
}

/// Every cause can be found in the chained message.
pub proof fn chained_tells_every_cause(message: Seq<char>, causes: Seq<Seq<char>>, i: int)
    requires
        0 <= i < causes.len(),
    ensures
        occurs_in(causes[i], chained(message, causes)),
    decreases causes.len(),
{
    let before = chained(message, causes.drop_last());
    let whole = chained(message, causes);
    if i < causes.len() - 1 {
        chained_tells_every_cause(message, causes.drop_last(), i);
        let at = choose|at: int| crate::text::occurs_at(causes[i], before, at);
        assert(whole.subrange(at, at + causes[i].len()) =~= before.subrange(
            at,
            at + causes[i].len(),
        ));
        assert(crate::text::occurs_at(causes[i], whole, at));
    } else if !occurs_in(causes.last(), before) {
        let at = (before.len() + ": "@.len()) as int;
        assert(whole.subrange(at, at + causes.last().len()) =~= causes.last());
        assert(crate::text::occurs_at(causes[i], whole, at));
    }
}

/// A redirect or status 401 means an expired session, status 429 too many
/// requests; any other refused status is named by its number. Asking again is
/// offered for a timeout and for the errors of the server, and for nothing else.
pub proof fn statuses_are_told_apart(status: u16)
    requires
        !(200 <= status < 300),
    ensures
        status_error(status) is Some,
        status_error(status)->Some_0.1 <==> status == 408 || 500 <= status < 600,
        300 <= status < 400 || status == 401 ==> status_error(status)->Some_0.0
            == "Сессия Steam истекла. Выполните авторизацию Steam заново"@,
        status == 429 ==> status_error(status)->Some_0.0
            == "Steam ограничил частоту запросов (HTTP 429). Подождите и обновите подтверждения"@,
        !(300 <= status < 400) && status != 401 && status != 429 ==> status_error(status)->Some_0.0
            == "Steam не принял запрос (HTTP "@ + decimal(status as nat)
            + "). Попробуйте обновить подтверждения позже"@,
{
}

/// An answer counts as done exactly where it says `success` and asks for no new
/// session. One that does not is told in its own words: its `message`, or its
/// `detail` where it has no message.
pub proof fn refusals_are_told_in_steams_words(body: JsonTree, told: Seq<char>)
    requires
        told.len() > 0,
    ensures
        refusal(body) is None <==> {
            &&& field_of(body, "success"@) == Some(JsonTree::Bool(true))
            &&& field_of(body, "needauth"@) != Some(JsonTree::Bool(true))
            &&& field_of(body, "needsauth"@) != Some(JsonTree::Bool(true))
        },
        field_of(body, "needauth"@) == Some(JsonTree::Bool(true)) || field_of(body, "needsauth"@)
            == Some(JsonTree::Bool(true)) ==> refusal(body) == Some(
            "Сессия Steam истекла. Выполните авторизацию Steam заново"@,
        ),
        field_of(body, "needauth"@) != Some(JsonTree::Bool(true)) && field_of(body, "needsauth"@)
            != Some(JsonTree::Bool(true)) && field_of(body, "success"@) != Some(
            JsonTree::Bool(true),
        ) ==> {
            &&& field_of(body, "message"@) == Some(JsonTree::Text(told)) ==> refusal(body) == Some(
                told,
            )
            &&& field_of(body, "message"@) is None && field_of(body, "detail"@) == Some(
                JsonTree::Text(told),
            ) ==> refusal(body) == Some(told)
        },
{
}

/// Asking again is offered where an answer is blank or is no JSON, and never
/// where Steam itself refused.
pub proof fn unreadable_answers_are_asked_for_again(text: Seq<char>, parsed: Option<JsonTree>)
    ensures
        trimmed(text).len() == 0 ==> body_error(text, parsed) == Some(
            ("Steam вернул пустой ответ. Попробуйте обновить подтверждения позже"@, true),
        ),
        trimmed(text).len() > 0 && parsed is None ==> (body_error(text, parsed) matches Some(told)
            && told.1),
        trimmed(text).len() > 0 ==> (parsed matches Some(body) ==> {
            &&& body_error(text, parsed) is Some <==> refusal(body) is Some
            &&& body_error(text, parsed) matches Some(told) ==> !told.1 && refusal(body) == Some(
                told.0,
            )
        }),
{
}

/// A good answer's list is taken over whole and in order: every confirmation
/// has the number, the creator and the nonce that Steam gave it, and the label
/// of its own entry. An answer without a list lists nothing.
pub proof fn lists_are_taken_over_whole(
    text: Seq<char>,
    body: JsonTree,
    r: Result<Vec<Confirmation>, MobileResponseError>,
)
    requires
        lists_confirmations(text, r),
        trimmed(text).len() > 0,
        parsed_json(text) == Some(body),
        refusal(body) is None,
    ensures
        field_of(body, "conf"@) is None ==> (r matches Ok(list) && list@.len() == 0),
        field_of(body, "conf"@) matches Some(list) ==> (confirmations_in(list) matches Some(views)
            ==> {
            &&& r is Ok
            &&& list is Array
            &&& r->Ok_0@.len() == views.len()
            &&& forall|i: int|
                0 <= i < views.len() ==> {
                    &&& (#[trigger] r->Ok_0@[i]).listed.id@ == views[i].id
                    &&& r->Ok_0@[i].listed.nonce@ == views[i].nonce
                    &&& r->Ok_0@[i].listed.creator_id@ == views[i].creator_id
                    &&& r->Ok_0@[i].listed.kind == views[i].kind
                    &&& r->Ok_0@[i].listed.creation_time == views[i].creation_time
                    &&& r->Ok_0@[i].listed.headline@ == views[i].headline
                    &&& field_of(list->Array_0[i], "type_name"@) matches Some(JsonTree::Text(label))
                        ==> r->Ok_0@[i].label@ == label
                }
        }),
        field_of(body, "conf"@) matches Some(list) ==> (confirmations_in(list) is None ==> r is Err
            && !r->Err_0.retryable),
{
    if let Some(list) = field_of(body, "conf"@) {
        if let Some(views) = confirmations_in(list) {
            assert forall|i: int| 0 <= i < views.len() implies {
                &&& (#[trigger] r->Ok_0@[i]).listed.id@ == views[i].id
                &&& r->Ok_0@[i].listed.nonce@ == views[i].nonce
                &&& r->Ok_0@[i].listed.creator_id@ == views[i].creator_id
                &&& r->Ok_0@[i].listed.kind == views[i].kind
                &&& r->Ok_0@[i].listed.creation_time == views[i].creation_time
                &&& r->Ok_0@[i].listed.headline@ == views[i].headline
                &&& field_of(list->Array_0[i], "type_name"@) matches Some(JsonTree::Text(label))
                    ==> r->Ok_0@[i].label@ == label
            } by {
                assert(r->Ok_0@[i].listed@ == views[i]);
            }
        }
    }
}

/// The first wait before asking again is four tenths of a second, the second
/// nine tenths; there is no third.
pub proof fn waits_grow(attempt: nat)
    ensures
        retry_delay(0, true) == Some(400u64),
        retry_delay(1, true) == Some(900u64),
        attempt > 1 ==> retry_delay(attempt, true) is None,
        retry_delay(attempt, false) is None,
{
}

/// A chained message begins with the error itself, and a cause that the message
/// already tells is not told twice.
pub proof fn chains_begin_with_the_error(message: Seq<char>, causes: Seq<Seq<char>>)
    ensures
        message.is_prefix_of(chained(message, causes)),
        causes.len() > 0 && occurs_in(causes.last(), chained(message, causes.drop_last()))
            ==> chained(message, causes) == chained(message, causes.drop_last()),
        causes.len() > 0 && !occurs_in(causes.last(), chained(message, causes.drop_last()))
            ==> chained(message, causes) == chained(message, causes.drop_last()) + ": "@
            + causes.last(),
    decreases causes.len(),
{
    if causes.len() > 0 {
        chains_begin_with_the_error(message, causes.drop_last());
        let before = chained(message, causes.drop_last());
        assert(message =~= before.subrange(0, message.len() as int));
        let whole = chained(message, causes);
        assert(message =~= whole.subrange(0, message.len() as int));
    }
}

} // verus!
