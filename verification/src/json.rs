//! The library's model of a decoded JSON document.
//!
//! A WebDriver server answers every command with a JSON body; the library
//! only ever reads booleans, strings, object members and array members out
//! of those bodies, so a response is modelled by the [`Json`] enum below.
//! Object members keep the order in which they appeared in the document,
//! which is what lets element-reference extraction pick "the first member"
//! without assuming any particular key name.

use vstd::prelude::*;

verus! {

/// A decoded JSON value.
///
/// Numbers carry no payload: no WebDriver response field read by this
/// client is numeric, so their value is irrelevant to every contract.
#[derive(Debug, PartialEq, Eq)]
pub enum Json {
    Null,
    Bool(bool),
    Num,
    Str(String),
    Arr(Vec<Json>),
    Obj(Vec<(String, Json)>),
}

/// The value of the first member named `key`, if any.
pub open spec fn lookup(fields: Seq<(String, Json)>, key: Seq<char>) -> Option<Json>
    decreases fields.len(),
{
    if fields.len() == 0 {
        None
    } else if fields[0].0@ == key {
        Some(fields[0].1)
    } else {
        lookup(fields.drop_first(), key)
    }
}

/// The payload under the `"value"` envelope key, if the document is an
/// object that has one.  Every WebDriver response wraps its payload this
/// way.
pub open spec fn envelope_value(j: Json) -> Option<Json> {
    match j {
        Json::Obj(fields) => lookup(fields@, "value"@),
        _ => None,
    }
}

/// The value of the first member of an object, whatever its key.
pub open spec fn first_member(j: Json) -> Option<Json> {
    match j {
        Json::Obj(fields) => if fields@.len() > 0 {
            Some(fields@[0].1)
        } else {
            None
        },
        _ => None,
    }
}

/// The element reference held by one response object: the first member's
/// value, provided it is a string.  The member's key name is deliberately
/// ignored, because servers differ in the reference key they use.
pub open spec fn member_id(j: Json) -> Option<Seq<char>> {
    match first_member(j) {
        Some(Json::Str(s)) => Some(s@),
        _ => None,
    }
}

/// The `value.ready` flag of a status response, if it is present and a
/// boolean.
pub open spec fn ready_flag(j: Json) -> Option<bool> {
    match envelope_value(j) {
        Some(Json::Obj(fields)) => match lookup(fields@, "ready"@) {
            Some(Json::Bool(b)) => Some(b),
            _ => None,
        },
        _ => None,
    }
}

/// The `value.sessionId` string of a session-creation response, if it is
/// present and a string.  Any further members (capabilities and the like)
/// are ignored.
pub open spec fn session_id_of(j: Json) -> Option<Seq<char>> {
    match envelope_value(j) {
        Some(Json::Obj(fields)) => match lookup(fields@, "sessionId"@) {
            Some(Json::Str(s)) => Some(s@),
            _ => None,
        },
        _ => None,
    }
}

/// Whether a payload is a WebDriver error document: an object that has
/// an `"error"` member, as the server's "no such element" and kindred
/// answers do.
pub open spec fn is_error_value(v: Json) -> bool {
    match v {
        Json::Obj(fields) => lookup(fields@, "error"@) is Some,
        _ => false,
    }
}

/// The element id of a singular find-element response: the envelope value
/// must be an object whose first member's value is a string.  An error
/// document yields no id, so that a server's error answer surfaces as an
/// error instead of being mistaken for an element reference.
pub open spec fn element_id_of(j: Json) -> Option<Seq<char>> {
    match envelope_value(j) {
        Some(v) => if is_error_value(v) {
            None
        } else {
            member_id(v)
        },
        None => None,
    }
}

/// The element ids found in an array of response objects, in order.
/// A member that carries no string-valued first member is skipped rather
/// than failing the whole batch.
pub open spec fn extracted_ids(items: Seq<Json>) -> Seq<Seq<char>>
    decreases items.len(),
{
    if items.len() == 0 {
        Seq::empty()
    } else {
        extracted_ids(items.drop_last()) + match member_id(items.last()) {
            Some(s) => seq![s],
            None => Seq::empty(),
        }
    }
}

/// The element ids of a plural find-elements response: the envelope value
/// must be an array; its members are filtered by [`member_id`].  An empty
/// array yields an empty sequence, not an error.
pub open spec fn element_ids_of(j: Json) -> Option<Seq<Seq<char>>> {
    match envelope_value(j) {
        Some(Json::Arr(items)) => Some(extracted_ids(items@)),
        _ => None,
    }
}

/// Whether a response acknowledges a command whose effect, not whose
/// payload, is the point: the document must be a `{"value": ...}`
/// envelope — the W3C wrapper every response carries — and its value
/// must not be an error document.
pub open spec fn acknowledges(j: Json) -> bool {
    match envelope_value(j) {
        Some(v) => !is_error_value(v),
        None => false,
    }
}

/// The string payload of a response such as get-title or element-text:
/// the envelope value itself must be a string.
pub open spec fn string_value_of(j: Json) -> Option<Seq<char>> {
    match envelope_value(j) {
        Some(Json::Str(s)) => Some(s@),
        _ => None,
    }
}

/// Unknown members never break extraction: appending a member under any
/// other key leaves what a lookup finds unchanged, so a response may
/// carry arbitrary extra fields beside the one a command reads.
pub proof fn lemma_unknown_member_ignored(
    fields: Seq<(String, Json)>,
    key: Seq<char>,
    extra: (String, Json),
)
    requires
        extra.0@ != key,
    ensures
        lookup(fields.push(extra), key) == lookup(fields, key),
    decreases fields.len(),
{
    reveal_with_fuel(lookup, 3);
    if fields.len() == 0 {
        assert(fields.push(extra)[0] == extra);
        assert(fields.push(extra).drop_first() =~= Seq::<(String, Json)>::empty());
    } else {
        assert(fields.push(extra)[0] == fields[0]);
        if fields[0].0@ != key {
            assert(fields.push(extra).drop_first() =~= fields.drop_first().push(extra));
            lemma_unknown_member_ignored(fields.drop_first(), key, extra);
        }
    }
}

/// A malformed batch member is skipped, never fatal: a member that
/// yields no element reference contributes nothing to the ids of the
/// batch it stands in.
pub proof fn lemma_malformed_member_skipped(items: Seq<Json>, bad: Json)
    requires
        member_id(bad) is None,
    ensures
        extracted_ids(items.push(bad)) == extracted_ids(items),
{
    assert(items.push(bad).drop_last() =~= items);
    assert(items.push(bad).last() == bad);
    assert(extracted_ids(items) + Seq::<Seq<char>>::empty() =~= extracted_ids(items));
}

/// A well-formed batch member contributes exactly its element reference,
/// in position: the ids of a batch extended by it are the ids of the
/// batch with that reference appended.
pub proof fn lemma_member_id_appended(items: Seq<Json>, good: Json, id: Seq<char>)
    requires
        member_id(good) == Some(id),
    ensures
        extracted_ids(items.push(good)) == extracted_ids(items).push(id),
{
    assert(items.push(good).drop_last() =~= items);
    assert(items.push(good).last() == good);
    assert(extracted_ids(items) + seq![id] =~= extracted_ids(items).push(id));
}

/// Element-reference extraction is key-name-agnostic: two objects whose
/// member values agree position by position yield the same element id,
/// whatever their member keys are called.
pub proof fn lemma_member_id_key_agnostic(j1: Json, j2: Json)
    requires
        j1 is Obj,
        j2 is Obj,
        j1->Obj_0@.map_values(|p: (String, Json)| p.1) == j2->Obj_0@.map_values(
            |p: (String, Json)| p.1,
        ),
    ensures
        member_id(j1) == member_id(j2),
{
    let f1 = j1->Obj_0@;
    let f2 = j2->Obj_0@;
    let m1 = f1.map_values(|p: (String, Json)| p.1);
    let m2 = f2.map_values(|p: (String, Json)| p.1);
    assert(m1.len() == f1.len());
    assert(m2.len() == f2.len());
    if f1.len() > 0 {
        assert(m1[0] == f1[0].1);
        assert(m2[0] == f2[0].1);
    }
}

/// Scans the members for the first one named `key`.
fn lookup_field<'a>(fields: &'a Vec<(String, Json)>, key: &String) -> (r: Option<&'a Json>)
    ensures
        match r {
            Some(v) => lookup(fields@, key@) == Some(*v),
            None => lookup(fields@, key@) is None,
        },
{
    let mut i: usize = 0;
    proof {
        assert(fields@.skip(0) =~= fields@);
    }
    while i < fields.len()
        invariant
            i <= fields@.len(),
            lookup(fields@, key@) == lookup(fields@.skip(i as int), key@),
        decreases fields@.len() - i,
    {
        let p = &fields[i];
        if p.0 == *key {
            proof {
                assert(fields@.skip(i as int)[0] == fields@[i as int]);
            }
            return Some(&fields[i].1);
        }
        proof {
            assert(fields@.skip(i as int).drop_first() =~= fields@.skip(i as int + 1));
        }
        i += 1;
    }
    proof {
        assert(fields@.skip(fields@.len() as int) =~= Seq::<(String, Json)>::empty());
    }
    None
}

/// Unwraps the `"value"` envelope of a response document.
pub fn envelope_field<'a>(j: &'a Json) -> (r: Option<&'a Json>)
    ensures
        match r {
            Some(v) => envelope_value(*j) == Some(*v),
            None => envelope_value(*j) is None,
        },
{
    match j {
        Json::Obj(fields) => {
            let key: String = "value".to_owned();
            lookup_field(fields, &key)
        },
        _ => None,
    }
}

/// Reads the first member's value as an owned string, if it is one.
pub fn member_id_string(j: &Json) -> (r: Option<String>)
    ensures
        match r {
            Some(s) => member_id(*j) == Some(s@),
            None => member_id(*j) is None,
        },
{
    match j {
        Json::Obj(fields) => {
            if fields.len() > 0 {
                let p = &fields[0];
                match &p.1 {
                    Json::Str(s) => Some(s.clone()),
                    _ => None,
                }
            } else {
                None
            }
        },
        _ => None,
    }
}

/// Reads the `value.ready` flag of a status response.
pub fn extract_ready(j: &Json) -> (r: Option<bool>)
    ensures
        r == ready_flag(*j),
{
    match envelope_field(j) {
        Some(v) => match v {
            Json::Obj(fields) => {
                let key: String = "ready".to_owned();
                match lookup_field(fields, &key) {
                    Some(f) => match f {
                        Json::Bool(b) => Some(*b),
                        _ => None,
                    },
                    None => None,
                }
            },
            _ => None,
        },
        None => None,
    }
}

/// Reads the `value.sessionId` string of a session-creation response.
pub fn extract_session_id(j: &Json) -> (r: Option<String>)
    ensures
        match r {
            Some(s) => session_id_of(*j) == Some(s@),
            None => session_id_of(*j) is None,
        },
{
    match envelope_field(j) {
        Some(v) => match v {
            Json::Obj(fields) => {
                let key: String = "sessionId".to_owned();
                match lookup_field(fields, &key) {
                    Some(f) => match f {
                        Json::Str(s) => Some(s.clone()),
                        _ => None,
                    },
                    None => None,
                }
            },
            _ => None,
        },
        None => None,
    }
}

/// Whether a payload is a WebDriver error document.
fn is_error_field(v: &Json) -> (r: bool)
    ensures
        r == is_error_value(*v),
{
    match v {
        Json::Obj(fields) => {
            let key: String = "error".to_owned();
            match lookup_field(fields, &key) {
                Some(_) => true,
                None => false,
            }
        },
        _ => false,
    }
}

/// Reads the element id of a singular find-element response.
pub fn extract_element_id(j: &Json) -> (r: Option<String>)
    ensures
        match r {
            Some(s) => element_id_of(*j) == Some(s@),
            None => element_id_of(*j) is None,
        },
{
    match envelope_field(j) {
        Some(v) => {
            if is_error_field(v) {
                None
            } else {
                member_id_string(v)
            }
        },
        None => None,
    }
}

/// Reads the element ids of a plural find-elements response, skipping
/// members that carry no string-valued first member.
pub fn extract_element_ids(j: &Json) -> (r: Option<Vec<String>>)
    ensures
        match r {
            Some(v) => element_ids_of(*j) == Some(v@.map_values(|s: String| s@)),
            None => element_ids_of(*j) is None,
        },
{
    match envelope_field(j) {
        Some(v) => match v {
            Json::Arr(items) => {
                let mut ids: Vec<String> = Vec::new();
                let mut i: usize = 0;
                while i < items.len()
                    invariant
                        i <= items@.len(),
                        ids@.map_values(|s: String| s@) =~= extracted_ids(items@.take(i as int)),
                    decreases items@.len() - i,
                {
                    proof {
                        assert(items@.take(i as int + 1).drop_last() =~= items@.take(i as int));
                        assert(items@.take(i as int + 1).last() == items@[i as int]);
                    }
                    match member_id_string(&items[i]) {
                        Some(s) => {
                            ids.push(s);
                        },
                        None => {},
                    }
                    i += 1;
                }
                proof {
                    assert(items@.take(items@.len() as int) =~= items@);
                    assert(ids@.map_values(|s: String| s@) == extracted_ids(items@));
                }
                Some(ids)
            },
            _ => None,
        },
        None => None,
    }
}

/// Reads whether a response is an acknowledging envelope.
pub fn extract_ack(j: &Json) -> (r: bool)
    ensures
        r == acknowledges(*j),
{
    match envelope_field(j) {
        Some(v) => !is_error_field(v),
        None => false,
    }
}

/// Reads the string payload of a get-title or element-text response.
pub fn extract_string_value(j: &Json) -> (r: Option<String>)
    ensures
        match r {
            Some(s) => string_value_of(*j) == Some(s@),
            None => string_value_of(*j) is None,
        },
{
    match envelope_field(j) {
        Some(v) => match v {
            Json::Str(s) => Some(s.clone()),
            _ => None,
        },
        None => None,
    }
}

} // verus!
