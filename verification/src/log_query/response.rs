//! The shapes in which the log service answers.
//!
//! The items of an answer stand under the member `data`, or at the top of
//! the answer, or nowhere. Which of the three it is gets decided once, here,
//! before anything is decoded.

use crate::json::{json_as_array, json_fields, json_get, json_items};
use vstd::prelude::*;

verus! {

/// The member that holds the payload of an answer.
pub const DATA_KEY: &'static str = "data";

/// The member that holds the items of a payload.
pub const ITEMS_KEY: &'static str = "items";

/// The member of an answer that describes the search.
pub const META_KEY: &'static str = "meta";

/// The member of an answer that lists its tags.
pub const TAG_INFOS_KEY: &'static str = "tag_infos";

/// Where the items of an answer stand.
#[derive(Debug, Clone, Copy, PartialEq, Eq, Structural)]
pub enum PayloadSource {
    /// Under the member `data`, which has a member `items`.
    Data,
    /// At the top of the answer, which has a member `items`.
    TopLevel,
    /// Nowhere: the answer has no items, which is no error.
    Nowhere,
}

/// Where the items of an answer stand, given the members of the answer:
/// under `data` where that has items, else at the top where the answer has
/// items itself, else nowhere.
pub open spec fn payload_in(answer: Map<Seq<char>, serde_json::Value>) -> PayloadSource {
    if answer.contains_key(DATA_KEY@) && json_fields(answer[DATA_KEY@]).contains_key(ITEMS_KEY@) {
        PayloadSource::Data
    } else if answer.contains_key(ITEMS_KEY@) {
        PayloadSource::TopLevel
    } else {
        PayloadSource::Nowhere
    }
}

/// The member `meta` of an answer, as it came.
pub open spec fn meta_in(answer: Map<Seq<char>, serde_json::Value>) -> Option<serde_json::Value> {
    if answer.contains_key(META_KEY@) {
        Some(answer[META_KEY@])
    } else {
        None
    }
}

/// The member `tag_infos` of an answer, where it is a list.
pub open spec fn tag_infos_in(answer: Map<Seq<char>, serde_json::Value>) -> Option<
    Seq<serde_json::Value>,
> {
    if answer.contains_key(TAG_INFOS_KEY@) {
        json_items(answer[TAG_INFOS_KEY@])
    } else {
        None
    }
}

/// Finds where the items of an answer stand.
pub fn locate_payload(answer: &serde_json::Value) -> (source: PayloadSource)
    ensures
        source == payload_in(json_fields(*answer)),
{
    if let Some(data) = json_get(answer, DATA_KEY) {
        if json_get(data, ITEMS_KEY).is_some() {
            return PayloadSource::Data;
        }
    }
    if json_get(answer, ITEMS_KEY).is_some() {
        PayloadSource::TopLevel
    } else {
        PayloadSource::Nowhere
    }
}

/// The part of an answer that is its payload: the member `data`, the answer
/// itself, or nothing.
pub open spec fn payload_part(answer: serde_json::Value) -> Option<serde_json::Value> {
    match payload_in(json_fields(answer)) {
        PayloadSource::Data => Some(json_fields(answer)[DATA_KEY@]),
        PayloadSource::TopLevel => Some(answer),
        PayloadSource::Nowhere => None,
    }
}

/// Finds the part of an answer that is to be decoded as its payload;
/// `None` where the answer has no items, whose payload is the empty one.
pub fn payload_of(answer: &serde_json::Value) -> (payload: Option<&serde_json::Value>)
    ensures
        match payload {
            Some(found) => payload_part(*answer) == Some(*found),
            None => payload_part(*answer) is None,
        },
{
    if let Some(data) = json_get(answer, DATA_KEY) {
        if json_get(data, ITEMS_KEY).is_some() {
            return Some(data);
        }
    }
    if json_get(answer, ITEMS_KEY).is_some() {
        Some(answer)
    } else {
        None
    }
}

/// Copies the member `meta` of an answer, if it has one.
pub fn response_meta(answer: &serde_json::Value) -> (meta: Option<serde_json::Value>)
    ensures
        meta == meta_in(json_fields(*answer)),
{
    match json_get(answer, META_KEY) {
        Some(meta) => Some(meta.clone()),
        None => None,
    }
}

/// Copies the member `tag_infos` of an answer, if it has one that is a list.
pub fn response_tag_infos(answer: &serde_json::Value) -> (tags: Option<Vec<serde_json::Value>>)
    ensures
        match tags {
            Some(list) => tag_infos_in(json_fields(*answer)) == Some(list@),
            None => tag_infos_in(json_fields(*answer)) is None,
        },
{
    let member = match json_get(answer, TAG_INFOS_KEY) {
        Some(member) => member,
        None => {
            return None;
        },
    };
    let items = match json_as_array(member) {
        Some(items) => items,
        None => {
            return None;
        },
    };
    let mut list: Vec<serde_json::Value> = Vec::new();
    let mut i: usize = 0;
    while i < items.len()
        invariant
            i <= items.len(),
            list@ == items@.take(i as int),
        decreases items.len() - i,
    {
        list.push(items[i].clone());
        assert(items@.take(i + 1) =~= items@.take(i as int).push(items@[i as int]));
        i += 1;
    }
    assert(items@.take(items.len() as int) =~= items@);
    Some(list)
}

/// An answer that has items at its top and no member `data` has its payload
/// at the top.
pub proof fn lemma_top_level_items(answer: Map<Seq<char>, serde_json::Value>)
    requires
        answer.contains_key(ITEMS_KEY@),
        !answer.contains_key(DATA_KEY@),
    ensures
        payload_in(answer) == PayloadSource::TopLevel,
{
}

} // verus!
