//! From JSON values to the shapes that the service answers with: a list of
//! feed URLs, and a list of subscriptions.

use crate::error::DecodeError;
use crate::json::{list_value, parse, parsed, Json, JsonValue, Member};
use crate::subscription::{optional_text, Subscription, SubscriptionView};
use vstd::prelude::*;

verus! {

/// The members of an object, each as a pair of mathematical values.
pub open spec fn member_views(members: Seq<Member>) -> Seq<(Seq<char>, JsonValue)> {
    Seq::new(members.len(), |i: int| members[i]@)
}

/// The value of the first member called `name`, where there is one.
pub open spec fn member(members: Seq<(Seq<char>, JsonValue)>, name: Seq<char>) -> Option<
    JsonValue,
>
    decreases members.len(),
{
    if members.len() == 0 {
        None
    } else if members[0].0 == name {
        Some(members[0].1)
    } else {
        member(members.skip(1), name)
    }
}

/// How many members are called `name`.
pub open spec fn occurrences(members: Seq<(Seq<char>, JsonValue)>, name: Seq<char>) -> nat
    decreases members.len(),
{
    if members.len() == 0 {
        0
    } else if members[0].0 == name {
        1 + occurrences(members.skip(1), name)
    } else {
        occurrences(members.skip(1), name)
    }
}

/// A member that must be there, once, and be a string.
pub open spec fn text_field(members: Seq<(Seq<char>, JsonValue)>, name: Seq<char>) -> Option<
    Seq<char>,
> {
    match member(members, name) {
        Some(JsonValue::Text(text)) if occurrences(members, name) == 1 => Some(text),
        _ => None,
    }
}

/// A member that may be missing or `null`, and is a string otherwise. The outer
/// `Option` is `None` where the member is there with another type, or more
/// than once.
pub open spec fn optional_text_field(
    members: Seq<(Seq<char>, JsonValue)>,
    name: Seq<char>,
) -> Option<Option<Seq<char>>> {
    if occurrences(members, name) > 1 {
        None
    } else {
        match member(members, name) {
            None => Some(None),
            Some(JsonValue::Null) => Some(None),
            Some(JsonValue::Text(text)) => Some(Some(text)),
            _ => None,
        }
    }
}

/// Whether `field` is what the optional member `name` gives: absent where the
/// member is missing or `null`, and the member's string otherwise.
pub open spec fn optional_member(
    members: Seq<(Seq<char>, JsonValue)>,
    name: Seq<char>,
    field: Option<Seq<char>>,
) -> bool {
    match field {
        None => member(members, name) is None || member(members, name) == Some(JsonValue::Null),
        Some(text) => member(members, name) == Some(JsonValue::Text(text)),
    }
}

/// A member that must be there, once, and be a count: a number written as an
/// integer that is not negative.
pub open spec fn count_field(members: Seq<(Seq<char>, JsonValue)>, name: Seq<char>) -> Option<
    u64,
> {
    match member(members, name) {
        Some(JsonValue::Number(Some(n))) if occurrences(members, name) == 1 => Some(n),
        _ => None,
    }
}

/// Whether `name` is the name of a field of a subscription.
pub open spec fn is_field_name(name: Seq<char>) -> bool {
    ||| name == "url"@
    ||| name == "title"@
    ||| name == "description"@
    ||| name == "subscribers"@
    ||| name == "subscribers_last_week"@
    ||| name == "logo_url"@
    ||| name == "scaled_logo_url"@
    ||| name == "website"@
    ||| name == "mygpo_link"@
}

/// The subscription that a JSON value describes: an object with every required
/// member of the right type, and none of a subscription's fields named twice.
/// Members with other names do not matter.
pub open spec fn subscription_of(value: JsonValue) -> Option<SubscriptionView> {
    match value {
        JsonValue::Object(m) => match (
            text_field(m, "url"@),
            text_field(m, "title"@),
            text_field(m, "description"@),
            count_field(m, "subscribers"@),
            count_field(m, "subscribers_last_week"@),
            optional_text_field(m, "logo_url"@),
            optional_text_field(m, "scaled_logo_url"@),
            optional_text_field(m, "website"@),
            text_field(m, "mygpo_link"@),
        ) {
            (
                Some(url),
                Some(title),
                Some(description),
                Some(subscribers),
                Some(subscribers_last_week),
                Some(logo_url),
                Some(scaled_logo_url),
                Some(website),
                Some(mygpo_link),
            ) => Some(
                SubscriptionView {
                    url,
                    title,
                    description,
                    subscribers,
                    subscribers_last_week,
                    logo_url,
                    scaled_logo_url,
                    website,
                    mygpo_link,
                },
            ),
            _ => None,
        },
        _ => None,
    }
}

/// The subscriptions that a JSON value lists: an array whose elements all
/// describe a subscription, in the array's order.
pub open spec fn subscriptions_of(value: JsonValue) -> Option<Seq<SubscriptionView>> {
    match value {
        JsonValue::Array(items) => {
            if forall|i: int| 0 <= i < items.len() ==> subscription_of(#[trigger] items[i]) is Some {
                Some(Seq::new(items.len(), |i: int| subscription_of(items[i]).unwrap()))
            } else {
                None
            }
        },
        _ => None,
    }
}

/// The strings that a JSON value lists: an array of strings, in the array's
/// order.
pub open spec fn texts_of(value: JsonValue) -> Option<Seq<Seq<char>>> {
    match value {
        JsonValue::Array(items) => {
            if forall|i: int| 0 <= i < items.len() ==> #[trigger] items[i] is Text {
                Some(Seq::new(items.len(), |i: int| items[i]->Text_0))
            } else {
                None
            }
        },
        _ => None,
    }
}

/// An array of strings is read as the list of those strings, in their order.
pub proof fn lemma_texts_of_list_value(items: Seq<Seq<char>>)
    ensures
        texts_of(list_value(items)) == Some(items),
{
    let elements = list_value(items)->Array_0;
    assert(forall|i: int| 0 <= i < elements.len() ==> #[trigger] elements[i] is Text);
    assert(Seq::new(elements.len(), |i: int| elements[i]->Text_0) =~= items);
}

/// An array whose elements all describe a subscription is read as a list of
/// the same length, each entry the subscription that the element at its place
/// describes.
pub proof fn lemma_subscriptions_of_array(items: Seq<JsonValue>)
    requires
        forall|i: int| 0 <= i < items.len() ==> subscription_of(#[trigger] items[i]) is Some,
    ensures
        subscriptions_of(JsonValue::Array(items)) matches Some(list) && list.len() == items.len()
            && forall|i: int|
            0 <= i < items.len() ==> subscription_of(items[i]) == Some(#[trigger] list[i]),
{
}

/// An object that describes a subscription gives every required field the
/// value of the member of that name, and leaves an optional field absent where
/// the object has no such member or has `null` there.
pub proof fn lemma_subscription_fields(members: Seq<(Seq<char>, JsonValue)>)
    requires
        subscription_of(JsonValue::Object(members)) is Some,
    ensures
        ({
            let s = subscription_of(JsonValue::Object(members))->Some_0;
            &&& member(members, "url"@) == Some(JsonValue::Text(s.url))
            &&& member(members, "title"@) == Some(JsonValue::Text(s.title))
            &&& member(members, "description"@) == Some(JsonValue::Text(s.description))
            &&& member(members, "subscribers"@) == Some(JsonValue::Number(Some(s.subscribers)))
            &&& member(members, "subscribers_last_week"@) == Some(
                JsonValue::Number(Some(s.subscribers_last_week)),
            )
            &&& member(members, "mygpo_link"@) == Some(JsonValue::Text(s.mygpo_link))
            &&& optional_member(members, "logo_url"@, s.logo_url)
            &&& optional_member(members, "scaled_logo_url"@, s.scaled_logo_url)
            &&& optional_member(members, "website"@, s.website)
        }),
{
}

/// A count is kept as it is written, whatever its size.
pub proof fn lemma_count_is_kept(members: Seq<(Seq<char>, JsonValue)>, name: Seq<char>, n: u64)
    requires
        occurrences(members, name) == 1,
        member(members, name) == Some(JsonValue::Number(Some(n))),
    ensures
        count_field(members, name) == Some(n),
{
}

/// An object that names one of a subscription's fields twice describes no
/// subscription, whatever the two members hold.
pub proof fn lemma_repeated_field_refused(members: Seq<(Seq<char>, JsonValue)>, name: Seq<char>)
    requires
        is_field_name(name),
        occurrences(members, name) > 1,
    ensures
        subscription_of(JsonValue::Object(members)) is None,
{
}

/// A value that is no array lists nothing: neither subscriptions nor strings.
/// An object in particular is rejected and not read as an empty list.
pub proof fn lemma_only_arrays_are_lists(value: JsonValue)
    requires
        !(value is Array),
    ensures
        subscriptions_of(value) is None,
        texts_of(value) is None,
{
}

/// What a response body gives as a list of feed URLs.
pub open spec fn device_list_of_body(body: Seq<u8>) -> Result<Seq<Seq<char>>, DecodeError> {
    match parsed(body) {
        None => Err(DecodeError::Syntax),
        Some(value) => match texts_of(value) {
            Some(list) => Ok(list),
            None => Err(DecodeError::Shape),
        },
    }
}

/// What a response body gives as a list of subscriptions.
pub open spec fn subscriptions_of_body(body: Seq<u8>) -> Result<
    Seq<SubscriptionView>,
    DecodeError,
> {
    match parsed(body) {
        None => Err(DecodeError::Syntax),
        Some(value) => match subscriptions_of(value) {
            Some(list) => Ok(list),
            None => Err(DecodeError::Shape),
        },
    }
}

/// What an object holds under a name.
#[derive(Debug, PartialEq, Eq)]
pub enum Lookup<'a> {
    /// No member has the name.
    Absent,
    /// One member has the name, with this value.
    Once(&'a Json),
    /// Two members or more have the name.
    Repeated,
}

/// Looks a member up by its name, and tells whether the name is there more
/// than once. (`parse` gives no such object: of the members that a text gives
/// one name, it keeps the last.)
pub fn find<'a>(members: &'a Vec<Member>, name: &str) -> (found: Lookup<'a>)
    ensures
        match found {
            Lookup::Absent => occurrences(member_views(members@), name@) == 0 && member(
                member_views(members@),
                name@,
            ) is None,
            Lookup::Once(value) => occurrences(member_views(members@), name@) == 1 && member(
                member_views(members@),
                name@,
            ) == Some(value@),
            Lookup::Repeated => occurrences(member_views(members@), name@) > 1,
        },
{
    let key = String::from_str(name);
    let ghost all = member_views(members@);
    let mut found: Lookup<'a> = Lookup::Absent;
    let mut i: usize = 0;
    assert(all.skip(0) =~= all);
    while i < members.len()
        invariant
            i <= members.len(),
            key@ == name@,
            all == member_views(members@),
            match found {
                Lookup::Absent => occurrences(all, name@) == occurrences(
                    all.skip(i as int),
                    name@,
                ) && member(all, name@) == member(all.skip(i as int), name@),
                Lookup::Once(value) => occurrences(all, name@) == 1 + occurrences(
                    all.skip(i as int),
                    name@,
                ) && member(all, name@) == Some(value@),
                Lookup::Repeated => false,
            },
        decreases members.len() - i,
    {
        assert(all.skip(i as int)[0] == members@[i as int]@);
        assert(all.skip(i as int).skip(1) =~= all.skip(i + 1));
        if members[i].name == key {
            match found {
                Lookup::Absent => {
                    found = Lookup::Once(&members[i].value);
                },
                _ => {
                    return Lookup::Repeated;
                },
            }
        }
        i += 1;
    }
    found
}

/// Reads a member that must be a string.
fn read_text(members: &Vec<Member>, name: &str) -> (text: Option<String>)
    ensures
        optional_text(text) == text_field(member_views(members@), name@),
{
    match find(members, name) {
        Lookup::Once(Json::Text(text)) => Some(text.clone()),
        _ => None,
    }
}

/// Reads a member that may be missing or `null`.
fn read_optional_text(members: &Vec<Member>, name: &str) -> (text: Option<Option<String>>)
    ensures
        match text {
            Some(t) => optional_text_field(member_views(members@), name@) == Some(optional_text(t)),
            None => optional_text_field(member_views(members@), name@) is None,
        },
{
    match find(members, name) {
        Lookup::Absent => Some(None),
        Lookup::Once(Json::Null) => Some(None),
        Lookup::Once(Json::Text(text)) => Some(Some(text.clone())),
        _ => None,
    }
}

/// Reads a member that must be a count.
fn read_count(members: &Vec<Member>, name: &str) -> (count: Option<u64>)
    ensures
        count == count_field(member_views(members@), name@),
{
    match find(members, name) {
        Lookup::Once(Json::Number(Some(n))) => Some(*n),
        _ => None,
    }
}

/// Decodes one subscription.
pub fn subscription_from_json(json: &Json) -> (subscription: Option<Subscription>)
    ensures
        match subscription {
            Some(s) => subscription_of(json@) == Some(s@),
            None => subscription_of(json@) is None,
        },
{
    match json {
        Json::Object(members) => {
            assert(json@ == JsonValue::Object(member_views(members@))) by {
                assert(json@->Object_0 =~= member_views(members@));
            }
            let url = read_text(members, "url");
            let title = read_text(members, "title");
            let description = read_text(members, "description");
            let subscribers = read_count(members, "subscribers");
            let subscribers_last_week = read_count(members, "subscribers_last_week");
            let logo_url = read_optional_text(members, "logo_url");
            let scaled_logo_url = read_optional_text(members, "scaled_logo_url");
            let website = read_optional_text(members, "website");
            let mygpo_link = read_text(members, "mygpo_link");
            match (
                url,
                title,
                description,
                subscribers,
                subscribers_last_week,
                logo_url,
                scaled_logo_url,
                website,
                mygpo_link,
            ) {
                (
                    Some(url),
                    Some(title),
                    Some(description),
                    Some(subscribers),
                    Some(subscribers_last_week),
                    Some(logo_url),
                    Some(scaled_logo_url),
                    Some(website),
                    Some(mygpo_link),
                ) => Some(
                    Subscription {
                        url,
                        title,
                        description,
                        subscribers,
                        subscribers_last_week,
                        logo_url,
                        scaled_logo_url,
                        website,
                        mygpo_link,
                    },
                ),
                _ => None,
            }
        },
        _ => None,
    }
}

/// Decodes a list of subscriptions. One element that is no subscription
/// spoils the whole list.
pub fn subscriptions_from_json(json: &Json) -> (list: Option<Vec<Subscription>>)
    ensures
        match list {
            Some(l) => subscriptions_of(json@) == Some(l.deep_view()),
            None => subscriptions_of(json@) is None,
        },
{
    match json {
        Json::Array(items) => {
            let ghost values = json@->Array_0;
            assert(values.len() == items.len());
            let mut list: Vec<Subscription> = Vec::new();
            let mut i: usize = 0;
            while i < items.len()
                invariant
                    i <= items.len(),
                    list.len() == i,
                    json@ == JsonValue::Array(values),
                    values.len() == items.len(),
                    forall|k: int| 0 <= k < items.len() ==> values[k] == #[trigger] items@[k]@,
                    forall|k: int|
                        0 <= k < i ==> subscription_of(#[trigger] values[k]) == Some(list@[k]@),
                decreases items.len() - i,
            {
                match subscription_from_json(&items[i]) {
                    Some(subscription) => {
                        list.push(subscription);
                    },
                    None => {
                        assert(subscription_of(values[i as int]) is None);
                        return None;
                    },
                }
                i += 1;
            }
            assert(list.deep_view() =~= Seq::new(
                values.len(),
                |k: int| subscription_of(values[k]).unwrap(),
            ));
            Some(list)
        },
        _ => None,
    }
}

/// Decodes a list of feed URLs. One element that is no string spoils the
/// whole list.
pub fn device_list_from_json(json: &Json) -> (list: Option<Vec<String>>)
    ensures
        match list {
            Some(l) => texts_of(json@) == Some(l.deep_view()),
            None => texts_of(json@) is None,
        },
{
    match json {
        Json::Array(items) => {
            let ghost values = json@->Array_0;
            assert(values.len() == items.len());
            let mut list: Vec<String> = Vec::new();
            let mut i: usize = 0;
            while i < items.len()
                invariant
                    i <= items.len(),
                    list.len() == i,
                    json@ == JsonValue::Array(values),
                    values.len() == items.len(),
                    forall|k: int| 0 <= k < items.len() ==> values[k] == #[trigger] items@[k]@,
                    forall|k: int| 0 <= k < i ==> #[trigger] values[k] == JsonValue::Text(list@[k]@),
                decreases items.len() - i,
            {
                assert(values[i as int] == items@[i as int]@);
                match &items[i] {
                    Json::Text(text) => {
                        list.push(text.clone());
                    },
                    _ => {
                        return None;
                    },
                }
                i += 1;
            }
            assert(list.deep_view() =~= Seq::new(values.len(), |k: int| values[k]->Text_0));
            Some(list)
        },
        _ => None,
    }
}

/// Decodes a response body as a list of feed URLs.
pub fn decode_device_list(body: &[u8]) -> (list: Result<Vec<String>, DecodeError>)
    ensures
        match list {
            Ok(l) => device_list_of_body(body@) == Ok::<Seq<Seq<char>>, DecodeError>(l.deep_view()),
            Err(e) => device_list_of_body(body@) == Err::<Seq<Seq<char>>, DecodeError>(e),
        },
{
    match parse(body) {
        None => Err(DecodeError::Syntax),
        Some(json) => match device_list_from_json(&json) {
            Some(list) => Ok(list),
            None => Err(DecodeError::Shape),
        },
    }
}

/// Decodes a response body as a list of subscriptions.
pub fn decode_subscriptions(body: &[u8]) -> (list: Result<Vec<Subscription>, DecodeError>)
    ensures
        match list {
            Ok(l) => subscriptions_of_body(body@) == Ok::<Seq<SubscriptionView>, DecodeError>(
                l.deep_view(),
            ),
            Err(e) => subscriptions_of_body(body@) == Err::<Seq<SubscriptionView>, DecodeError>(e),
        },
{
    match parse(body) {
        None => Err(DecodeError::Syntax),
        Some(json) => match subscriptions_from_json(&json) {
            Some(list) => Ok(list),
            None => Err(DecodeError::Shape),
        },
    }
}

} // verus!
