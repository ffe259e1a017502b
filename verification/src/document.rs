//! JSON text.
use crate::json;
use crate::json::{Fields, Json, JsonView};
use vstd::prelude::*;

verus! {

#[verifier::external_type_specification]
#[verifier::external_body]
pub struct ExValue(serde_json::Value);

/// What a document that serde_json holds says.
pub uninterp spec fn held(value: serde_json::Value) -> JsonView;

/// What a JSON text says, or why it is none.
pub uninterp spec fn parsed(text: Seq<char>) -> Result<JsonView, Seq<char>>;

/// `serde_json::from_str`. The document, or the text of the error, is a
/// function of the text, `parsed`.
#[verifier::external_body]
pub(crate) fn parse_value(text: &str) -> (result: Result<serde_json::Value, String>)
    ensures
        match result {
            Ok(value) => parsed(text@) == Ok::<JsonView, Seq<char>>(held(value)),
            Err(reason) => parsed(text@) == Err::<JsonView, Seq<char>>(reason@),
        },
{
    serde_json::from_str(text).map_err(|error| error.to_string())
}

/// A document whose outermost layer has been taken off.
pub(crate) enum Opened {
    Null,
    Bool(bool),
    Integer(i128),
    Real(String),
    Text(String),
    Array(Vec<serde_json::Value>),
    Object(Vec<(String, serde_json::Value)>),
}

/// `key` is the name of the member at `i`.
pub(crate) open spec fn names(
    members: Seq<(String, serde_json::Value)>,
    i: int,
    key: Seq<char>,
) -> bool {
    0 <= i < members.len() && members[i].0@ == key
}

/// What a document says, by its outermost layer.
pub(crate) open spec fn opened_view(opened: Opened) -> JsonView {
    match opened {
        Opened::Null => JsonView::Null,
        Opened::Bool(b) => JsonView::Bool(b),
        Opened::Integer(n) => JsonView::Integer(n as int),
        Opened::Real(text) => JsonView::Real(text@),
        Opened::Text(text) => JsonView::Text(text@),
        Opened::Array(items) => JsonView::Array(
            Seq::new(items@.len(), |i: int| held(items@[i])),
        ),
        Opened::Object(members) => JsonView::Object(
            Map::new(
                |key: Seq<char>| exists|i: int| names(members@, i, key),
                |key: Seq<char>|
                    {
                        let i = choose|i: int| names(members@, i, key);
                        held(members@[i].1)
                    },
            ),
        ),
    }
}

/// No two members have one name.
pub(crate) open spec fn distinct(opened: Opened) -> bool {
    opened matches Opened::Object(members) ==> forall|i: int, j: int|
        0 <= i < j < members@.len() ==> (#[trigger] members@[i]).0@ != (#[trigger] members@[j]).0@
}

/// The variants of `serde_json::Value`, one by one: a number is an integer
/// where `Number::as_i128` gives one, and its text otherwise. The members of
/// an object have distinct names.
#[verifier::external_body]
pub(crate) fn open(value: serde_json::Value) -> (opened: Opened)
    ensures
        opened_view(opened) == held(value),
        distinct(opened),
{
    match value {
        serde_json::Value::Null => Opened::Null,
        serde_json::Value::Bool(b) => Opened::Bool(b),
        serde_json::Value::Number(n) => match n.as_i128() {
            Some(integer) => Opened::Integer(integer),
            None => Opened::Real(n.to_string()),
        },
        serde_json::Value::String(text) => Opened::Text(text),
        serde_json::Value::Array(items) => Opened::Array(items),
        serde_json::Value::Object(members) => Opened::Object(members.into_iter().collect()),
    }
}

/// Reads a document that serde_json holds.
pub fn read(value: serde_json::Value) -> (json: Json)
    ensures
        json@ == held(value),
    decreases held(value),
{
    broadcast use json::lemma_json_view;

    let ghost whole = held(value);
    let opened = open(value);
    match opened {
        Opened::Null => Json::Null,
        Opened::Bool(b) => Json::Bool(b),
        Opened::Integer(n) => Json::Integer(n),
        Opened::Real(text) => Json::Real(text),
        Opened::Text(text) => Json::Text(text),
        Opened::Array(items) => {
            let ghost all = items@;
            let mut items = items;
            let mut list: Vec<Json> = Vec::new();
            let mut left: usize = items.len();
            while left > 0
                invariant
                    left == items@.len(),
                    items@ == all.take(left as int),
                    left + list@.len() == all.len(),
                    whole == JsonView::Array(Seq::new(all.len(), |i: int| held(all[i]))),
                    forall|k: int|
                        0 <= k < list@.len() ==> (#[trigger] list@[k])@ == held(
                            all[all.len() - 1 - k],
                        ),
                    whole == held(value),
                decreases left,
            {
                let ghost at = left - 1;
                let item = items.pop().unwrap();
                proof {
                    assert(item == all[at]);
                    assert(whole->Array_0[at] == held(item));
                    assert(decreases_to!(whole => whole->Array_0));
                    assert(decreases_to!(whole => whole->Array_0[at]));
                }
                list.push(read(item));
                left -= 1;
                assert(items@ =~= all.take(left as int));
            }
            let mut ordered: Vec<Json> = Vec::new();
            let mut left: usize = list.len();
            let ghost listed = list@;
            while left > 0
                invariant
                    left == list@.len(),
                    list@ == listed.take(left as int),
                    listed.len() == all.len(),
                    left + ordered@.len() == all.len(),
                    forall|k: int|
                        0 <= k < listed.len() ==> (#[trigger] listed[k])@ == held(
                            all[all.len() - 1 - k],
                        ),
                    forall|k: int|
                        0 <= k < ordered@.len() ==> (#[trigger] ordered@[k])@ == held(all[k]),
                decreases left,
            {
                let item = list.pop().unwrap();
                proof {
                    assert(item == listed[left - 1]);
                }
                ordered.push(item);
                left -= 1;
                assert(list@ =~= listed.take(left as int));
            }
            assert(json::views(ordered@) =~= whole->Array_0);
            Json::Array(ordered)
        },
        Opened::Object(members) => {
            let ghost all = members@;
            let mut members = members;
            let mut map = Fields::none();
            let mut left: usize = members.len();
            proof {
                assert forall|i: int| 0 <= i < all.len() implies whole->Object_0[(
                #[trigger] all[i]).0@] == held(all[i].1) by {
                    let key = all[i].0@;
                    assert(names(all, i, key));
                    let k = choose|k: int| names(all, k, key);
                    assert(names(all, k, key));
                    assert(k == i);
                }
            }
            while left > 0
                invariant
                    left == members@.len(),
                    members@ == all.take(left as int),
                    left <= all.len(),
                    whole is Object,
                    forall|key: Seq<char>| #[trigger]
                        whole->Object_0.contains_key(key) <==> exists|i: int| names(all, i, key),
                    forall|i: int|
                        0 <= i < all.len() ==> whole->Object_0[(#[trigger] all[i]).0@] == held(
                            all[i].1,
                        ),
                    forall|i: int, j: int|
                        0 <= i < j < all.len() ==> (#[trigger] all[i]).0@ != (#[trigger] all[j]).0@,
                    forall|key: Seq<char>| #[trigger]
                        json::fields(map).contains_key(key) <==> exists|i: int|
                            left <= i && names(all, i, key),
                    forall|i: int|
                        left <= i < all.len() ==> json::fields(map)[(#[trigger] all[i]).0@] == held(
                            all[i].1,
                        ),
                    whole == held(value),
                decreases left,
            {
                let ghost at = left - 1;
                let ghost before = json::fields(map);
                let (name, item) = members.pop().unwrap();
                proof {
                    assert((name, item) == all[at]);
                    assert(names(all, at, name@));
                    assert(whole->Object_0.contains_key(name@));
                    assert(whole->Object_0[all[at].0@] == held(all[at].1));
                    assert(decreases_to!(whole => whole->Object_0));
                    assert(decreases_to!(whole => whole->Object_0[name@]));
                }
                map.put(name.as_str(), read(item));
                left -= 1;
                proof {
                    assert(members@ =~= all.take(left as int));
                    assert forall|key: Seq<char>| #[trigger]
                        json::fields(map).contains_key(key) <==> exists|i: int|
                        left <= i && names(all, i, key) by {
                        if json::fields(map).contains_key(key) {
                            if key == name@ {
                                assert(names(all, at, key));
                            } else {
                                assert(before.contains_key(key));
                                let i = choose|i: int| left + 1 <= i && names(all, i, key);
                                assert(names(all, i, key));
                            }
                        }
                        if exists|i: int| left <= i && names(all, i, key) {
                            let i = choose|i: int| left <= i && names(all, i, key);
                            if i > at {
                                assert(before.contains_key(key));
                            }
                        }
                    }
                }
            }
            proof {
                assert(json::fields(map) =~= whole->Object_0) by {
                    assert forall|key: Seq<char>| #[trigger]
                        whole->Object_0.contains_key(key) implies json::fields(map).contains_key(
                        key,
                    ) && json::fields(map)[key] == whole->Object_0[key] by {
                        let i = choose|i: int| names(all, i, key);
                        assert(0 <= i && names(all, i, key));
                        assert(whole->Object_0[all[i].0@] == held(all[i].1));
                    }
                    assert forall|key: Seq<char>| #[trigger]
                        json::fields(map).contains_key(key) implies whole->Object_0.contains_key(
                        key,
                    ) by {
                        let i = choose|i: int| 0 <= i && names(all, i, key);
                        assert(names(all, i, key));
                    }
                }
            }
            Json::Object(map)
        },
    }
}

/// Reads a JSON text.
pub fn parse(text: &str) -> (result: Result<Json, String>)
    ensures
        match result {
            Ok(json) => parsed(text@) == Ok::<JsonView, Seq<char>>(json@),
            Err(reason) => parsed(text@) == Err::<JsonView, Seq<char>>(reason@),
        },
{
    match parse_value(text) {
        Ok(value) => Ok(read(value)),
        Err(reason) => Err(reason),
    }
}

/// What a JSON text of a number says, or nothing where it is none.
pub uninterp spec fn number_read(text: Seq<char>) -> Option<JsonView>;

/// The variants of `serde_json::Value`, put together: an integer as
/// `Number::from_i128` takes it, which is one between the least `i64` and the
/// greatest `u64`; another number as its `FromStr` reads it, which is a
/// function of the text, `number_read`.
#[verifier::external_body]
pub(crate) fn close(opened: Opened) -> (value: Option<serde_json::Value>)
    requires
        distinct(opened),
    ensures
        match opened {
            Opened::Integer(n) => value is Some <==> i64::MIN <= n <= u64::MAX,
            Opened::Real(text) => match value {
                Some(value) => number_read(text@) == Some(held(value)),
                None => number_read(text@) is None,
            },
            _ => value is Some,
        },
        !(opened is Real) ==> (value matches Some(value) ==> held(value) == opened_view(opened)),
{
    Some(
        match opened {
            Opened::Null => serde_json::Value::Null,
            Opened::Bool(b) => serde_json::Value::Bool(b),
            Opened::Integer(n) => serde_json::Value::Number(serde_json::Number::from_i128(n)?),
            Opened::Real(text) => serde_json::Value::Number(text.parse().ok()?),
            Opened::Text(text) => serde_json::Value::String(text),
            Opened::Array(items) => serde_json::Value::Array(items),
            Opened::Object(members) => serde_json::Value::Object(members.into_iter().collect()),
        },
    )
}

/// The JSON text of a document.
pub uninterp spec fn json_text(value: JsonView) -> Seq<char>;

/// `ToString` of `serde_json::Value`. The text, which has no spaces and the
/// members of an object in the order of their names, is a function of what the
/// document says, `json_text`.
#[verifier::external_body]
pub(crate) fn value_text(value: &serde_json::Value) -> (text: String)
    ensures
        text@ == json_text(held(*value)),
{
    value.to_string()
}

/// A document as serde_json can hold it: its integers are those of `i64` and
/// `u64`, and its other numbers are read. There is none where a number cannot
/// be held.
pub open spec fn holdable(value: JsonView) -> Option<JsonView>
    decreases value,
{
    match value {
        JsonView::Integer(n) => if i64::MIN <= n <= u64::MAX {
            Some(value)
        } else {
            None
        },
        JsonView::Real(text) => number_read(text),
        JsonView::Array(items) => if forall|i: int|
            0 <= i < items.len() ==> holdable(#[trigger] items[i]) is Some {
            Some(
                JsonView::Array(
                    Seq::new(
                        items.len(),
                        |i: int|
                            if 0 <= i < items.len() {
                                holdable(items[i]).unwrap()
                            } else {
                                JsonView::Null
                            },
                    ),
                ),
            )
        } else {
            None
        },
        JsonView::Object(map) => if forall|key: Seq<char>| #[trigger]
            map.contains_key(key) ==> holdable(map[key]) is Some {
            Some(
                JsonView::Object(
                    Map::new(
                        |key: Seq<char>| map.contains_key(key),
                        |key: Seq<char>|
                            if map.contains_key(key) {
                                holdable(map[key]).unwrap()
                            } else {
                                JsonView::Null
                            },
                    ),
                ),
            )
        } else {
            None
        },
        _ => Some(value),
    }
}

fn hold_items(items: &Vec<Json>) -> (result: Option<Vec<serde_json::Value>>)
    ensures
        match result {
            Some(values) => {
                &&& values@.len() == items@.len()
                &&& forall|i: int|
                    0 <= i < items@.len() ==> holdable((#[trigger] items@[i])@) == Some(
                        held(values@[i]),
                    )
            },
            None => exists|i: int|
                0 <= i < items@.len() && holdable((#[trigger] items@[i])@) is None,
        },
    decreases JsonView::Array(json::views(items@)), 0nat,
{
    let mut values: Vec<serde_json::Value> = Vec::new();
    let mut i: usize = 0;
    while i < items.len()
        invariant
            i <= items@.len(),
            values@.len() == i,
            forall|k: int|
                0 <= k < i ==> holdable((#[trigger] items@[k])@) == Some(held(values@[k])),
        decreases items@.len() - i,
    {
        let item: &Json = &items[i];
        proof {
            let whole = JsonView::Array(json::views(items@));
            assert(whole->Array_0[i as int] == item@);
            assert(decreases_to!(whole => whole->Array_0));
            assert(decreases_to!(whole => whole->Array_0[i as int]));
        }
        match hold(item) {
            Some(value) => {
                values.push(value);
            },
            None => {
                assert(holdable(items@[i as int]@) is None);
                return None;
            },
        }
        i += 1;
    }
    Some(values)
}

fn hold_members(map: &Fields) -> (result: Option<Vec<(String, serde_json::Value)>>)
    ensures
        match result {
            Some(members) => {
                &&& json::lists_keys(map.keys(), map@.dom())
                &&& members@.len() == map.keys().len()
                &&& forall|i: int|
                    0 <= i < members@.len() ==> (#[trigger] members@[i]).0@ == map.keys()[i]
                        && holdable(json::fields(*map)[map.keys()[i]]) == Some(held(members@[i].1))
            },
            None => exists|key: Seq<char>|
                json::fields(*map).contains_key(key) && holdable(
                    #[trigger] json::fields(*map)[key],
                ) is None,
        },
    decreases JsonView::Object(json::fields(*map)), 0nat,
{
    let mut members: Vec<(String, serde_json::Value)> = Vec::new();
    let n: usize = map.len();
    let mut i: usize = 0;
    while i < n
        invariant
            i <= n,
            n == map.keys().len(),
            json::lists_keys(map.keys(), map@.dom()),
            members@.len() == i,
            forall|k: int|
                0 <= k < i ==> (#[trigger] members@[k]).0@ == map.keys()[k] && holdable(
                    json::fields(*map)[map.keys()[k]],
                ) == Some(held(members@[k].1)),
        decreases n - i,
    {
        let (key, item) = map.entry(i);
        proof {
            let whole = JsonView::Object(json::fields(*map));
            assert(whole->Object_0[key@] == item@);
            assert(decreases_to!(whole => whole->Object_0));
            assert(decreases_to!(whole => whole->Object_0[key@]));
        }
        match hold(item) {
            Some(value) => {
                members.push((key.to_owned(), value));
            },
            None => {
                assert(holdable(json::fields(*map)[key@]) is None);
                return None;
            },
        }
        i += 1;
    }
    Some(members)
}

/// A document as serde_json holds it.
pub fn hold(json: &Json) -> (result: Option<serde_json::Value>)
    ensures
        match result {
            Some(value) => holdable(json@) == Some(held(value)),
            None => holdable(json@) is None,
        },
    decreases json@, 1nat,
{
    broadcast use json::lemma_json_view;

    let opened = match json {
        Json::Null => Opened::Null,
        Json::Bool(b) => Opened::Bool(*b),
        Json::Integer(n) => Opened::Integer(*n),
        Json::Real(text) => Opened::Real(text.clone()),
        Json::Text(text) => Opened::Text(text.clone()),
        Json::Array(items) => {
            match hold_items(items) {
                Some(values) => {
                    proof {
                        let whole = json@->Array_0;
                        assert(forall|i: int|
                            0 <= i < whole.len() ==> whole[i] == (#[trigger] items@[i])@);
                        assert(holdable(json@) is Some);
                        assert(holdable(json@)->Some_0->Array_0 =~= Seq::new(
                            values@.len(),
                            |i: int| held(values@[i]),
                        ));
                    }
                    Opened::Array(values)
                },
                None => {
                    proof {
                        let i = choose|i: int|
                            0 <= i < items@.len() && holdable((#[trigger] items@[i])@) is None;
                        assert(json@->Array_0[i] == items@[i]@);
                    }
                    return None;
                },
            }
        },
        Json::Object(map) => {
            match hold_members(map) {
                Some(members) => {
                    proof {
                        lemma_members_held(*map, members@);
                    }
                    Opened::Object(members)
                },
                None => {
                    return None;
                },
            }
        },
    };
    close(opened)
}

proof fn lemma_members_held(map: Fields, members: Seq<(String, serde_json::Value)>)
    requires
        json::lists_keys(map.keys(), map@.dom()),
        members.len() == map.keys().len(),
        forall|i: int|
            0 <= i < members.len() ==> (#[trigger] members[i]).0@ == map.keys()[i] && holdable(
                json::fields(map)[map.keys()[i]],
            ) == Some(held(members[i].1)),
    ensures
        forall|i: int, j: int|
            0 <= i < j < members.len() ==> (#[trigger] members[i]).0@ != (#[trigger] members[j]).0@,
        holdable(JsonView::Object(json::fields(map))) == Some(
            JsonView::Object(
                Map::new(
                    |key: Seq<char>| exists|i: int| names(members, i, key),
                    |key: Seq<char>|
                        {
                            let i = choose|i: int| names(members, i, key);
                            held(members[i].1)
                        },
                ),
            ),
        ),
{
    let fields = json::fields(map);
    assert forall|i: int, j: int| 0 <= i < j < members.len() implies (#[trigger] members[i]).0@ != (
    #[trigger] members[j]).0@ by {
        crate::text::lemma_before_irreflexive(map.keys()[i]);
    }
    assert forall|key: Seq<char>| #[trigger] fields.contains_key(key) implies exists|i: int|
        names(members, i, key) && holdable(fields[key]) == Some(held(members[i].1)) by {
        let i = choose|i: int| 0 <= i < map.keys().len() && #[trigger] map.keys()[i] == key;
        assert(members[i].0@ == key);
        assert(names(members, i, key));
    }
    let built = Map::new(
        |key: Seq<char>| exists|i: int| names(members, i, key),
        |key: Seq<char>|
            {
                let i = choose|i: int| names(members, i, key);
                held(members[i].1)
            },
    );
    let whole = holdable(JsonView::Object(fields));
    assert(whole is Some);
    assert(whole->Some_0->Object_0 =~= built) by {
        assert forall|key: Seq<char>| fields.contains_key(key) implies #[trigger] built.contains_key(
            key,
        ) && built[key] == holdable(fields[key]).unwrap() by {
            let i = choose|i: int| names(members, i, key);
            let k = choose|k: int|
                names(members, k, key) && holdable(fields[key]) == Some(held(members[k].1));
            assert(names(members, k, key));
            assert(i == k);
        }
        assert forall|key: Seq<char>| #[trigger] built.contains_key(key) implies fields.contains_key(
            key,
        ) by {
            let i = choose|i: int| names(members, i, key);
            assert(members[i].0@ == key);
            assert(map@.dom().contains(map.keys()[i]));
        }
    }
}

/// Writes a JSON text, where every number can be held.
pub fn encode(json: &Json) -> (result: Option<String>)
    ensures
        match result {
            Some(text) => holdable(json@) matches Some(value) && text@ == json_text(value),
            None => holdable(json@) is None,
        },
{
    match hold(json) {
        Some(value) => Some(value_text(&value)),
        None => None,
    }
}

} // verus!
