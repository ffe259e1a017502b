//! Data that a caller hands over in Telegram's own form.
use crate::error;
use crate::error::{Error, ErrorView};
use crate::json;
use crate::json::{Fields, Json, JsonView};
use crate::text;
use crate::text::{joined, joined3, same};
use vstd::prelude::*;

verus! {

/// The name under which platform-native data is addressed to Telegram.
pub const SERVER: &'static str = "telegram";

/// A document in the form of the named platform.
#[derive(Debug, PartialEq)]
pub struct PlatformNativeData {
    pub platform: String,
    pub data: Json,
}

/// What native data says.
#[verifier::ext_equal]
pub struct NativeView {
    pub platform: Seq<char>,
    pub data: JsonView,
}

impl View for PlatformNativeData {
    type V = NativeView;

    open spec fn view(&self) -> NativeView {
        NativeView { platform: self.platform@, data: self.data@ }
    }
}

impl Clone for PlatformNativeData {
    fn clone(&self) -> (res: Self)
        ensures
            res@ == self@,
    {
        PlatformNativeData { platform: self.platform.clone(), data: self.data.clone() }
    }
}

/// What native data says, where there is any.
pub open spec fn optional_native(native: Option<PlatformNativeData>) -> Option<NativeView> {
    match native {
        Some(native) => Some(native@),
        None => None,
    }
}

/// A document addressed to Telegram.
pub open spec fn telegram_native(data: JsonView) -> NativeView {
    NativeView { platform: SERVER@, data }
}

/// Addresses a document to Telegram.
pub fn make_native(data: Json) -> (native: PlatformNativeData)
    ensures
        native@ == telegram_native(data@),
{
    PlatformNativeData { platform: SERVER.to_owned(), data }
}

/// The text between double quotes with its special characters escaped, as the
/// `Debug` form of `str` writes it.
pub uninterp spec fn quoted(text: Seq<char>) -> Seq<char>;

/// The `Debug` form of `str`. Which characters are escaped is not spelled out:
/// the result is named `quoted`.
#[verifier::external_body]
pub(crate) fn quote(text: &str) -> (result: String)
    ensures
        result@ == quoted(text@),
{
    format!("{:?}", text)
}

/// The first `n` names between double quotes, with commas between them.
pub open spec fn quoted_names(names: Seq<Seq<char>>, n: int) -> Seq<char>
    decreases n,
{
    if n <= 0 {
        Seq::empty()
    } else if n == 1 {
        quoted(names[0])
    } else {
        quoted_names(names, n - 1) + ", "@ + quoted(names[n - 1])
    }
}

/// The names of the members of an object, in order, as a list.
pub open spec fn member_list(members: Map<Seq<char>, JsonView>) -> Seq<char> {
    let names = json::sorted_keys(members.dom());
    "["@ + quoted_names(names, names.len() as int) + "]"@
}

/// Lists the names of the members of an object.
pub fn list_members(members: &Fields) -> (list: String)
    ensures
        list@ == member_list(json::fields(*members)),
{
    let ghost names = members.keys();
    let n: usize = members.len();
    proof {
        assert(json::fields(*members).dom() =~= members@.dom());
        json::lemma_sorted_keys(names, members@.dom());
    }
    let mut list: String = String::new();
    assert(list@ =~= Seq::<char>::empty());
    let mut i: usize = 0;
    while i < n
        invariant
            i <= n,
            n == names.len(),
            names == members.keys(),
            json::lists_keys(names, members@.dom()),
            list@ == quoted_names(names, i as int),
        decreases n - i,
    {
        let (name, _) = members.entry(i);
        let name = quote(name);
        if i == 0 {
            list = name;
        } else {
            list = joined3(list.as_str(), ", ", name.as_str());
        }
        i += 1;
    }
    joined3("[", list.as_str(), "]")
}

/// The object that native data holds, or why it cannot be used.
pub open spec fn native_object_outcome(native: PlatformNativeData, context: Seq<char>) -> Result<
    Map<Seq<char>, JsonView>,
    ErrorView,
> {
    object_outcome(native@, context)
}

/// The object that native data holds, or why it cannot be used.
pub open spec fn object_outcome(native: NativeView, context: Seq<char>) -> Result<
    Map<Seq<char>, JsonView>,
    ErrorView,
> {
    match platform_outcome(native, context) {
        Err(e) => Err(e),
        Ok(_) => match native.data {
            JsonView::Object(map) => Ok(map),
            _ => error::refused(context + " must be a JSON object"@),
        },
    }
}

/// Native data is addressed to Telegram.
pub open spec fn platform_outcome(native: NativeView, context: Seq<char>) -> Result<(), ErrorView> {
    if native.platform != SERVER@ {
        error::refused(
            context + " targets platform "@ + quoted(native.platform) + ", not Telegram"@,
        )
    } else {
        Ok(())
    }
}

/// Checks that native data is addressed to Telegram.
pub fn telegram_platform(native: &PlatformNativeData, context: &str) -> (result: Result<(), Error>)
    ensures
        error::shown(result) == platform_outcome(native@, context@),
{
    if !same(native.platform.as_str(), SERVER) {
        let platform = quote(native.platform.as_str());
        let mut text = joined3(context, " targets platform ", platform.as_str());
        text = joined(text.as_str(), ", not Telegram");
        return Err(Error::Message(text));
    }
    Ok(())
}

/// An outcome that is a set of members, by what they say.
pub open spec fn shown_fields(result: Result<Fields, Error>) -> Result<
    Map<Seq<char>, JsonView>,
    ErrorView,
> {
    match result {
        Ok(map) => Ok(json::fields(map)),
        Err(e) => Err(e@),
    }
}

/// The members of an object that is addressed to Telegram.
pub fn telegram_native_object(native: &PlatformNativeData, context: &str) -> (result: Result<
    Fields,
    Error,
>)
    ensures
        shown_fields(result) == native_object_outcome(*native, context@),
{
    broadcast use json::lemma_json_view;

    telegram_platform(native, context)?;
    match &native.data {
        Json::Object(map) => Ok(map.clone()),
        _ => Err(Error::Message(joined(context, " must be a JSON object"))),
    }
}

/// Both maps hold `key`.
pub open spec fn shares(
    a: Map<Seq<char>, JsonView>,
    b: Map<Seq<char>, JsonView>,
    key: Seq<char>,
) -> bool {
    a.contains_key(key) && b.contains_key(key)
}

/// `key` is the first key, in order, that both maps hold.
pub open spec fn first_shared(
    a: Map<Seq<char>, JsonView>,
    b: Map<Seq<char>, JsonView>,
    key: Seq<char>,
) -> bool {
    &&& a.contains_key(key)
    &&& b.contains_key(key)
    &&& forall|other: Seq<char>|
        a.contains_key(other) && #[trigger] b.contains_key(other) && other != key ==> text::before(
            key,
            other,
        )
}

/// `destination` with the members of `extra` added. A member that is there
/// already is never replaced: the first such one is reported.
pub open spec fn merged(
    destination: Map<Seq<char>, JsonView>,
    extra: Map<Seq<char>, JsonView>,
    context: Seq<char>,
) -> Result<Map<Seq<char>, JsonView>, ErrorView> {
    merged_or(destination, extra, context + " duplicates field "@)
}

/// `destination` with the members of `extra` added, or the complaint about
/// the first member that both hold.
pub open spec fn merged_or(
    destination: Map<Seq<char>, JsonView>,
    extra: Map<Seq<char>, JsonView>,
    complaint: Seq<char>,
) -> Result<Map<Seq<char>, JsonView>, ErrorView> {
    if exists|key: Seq<char>| shares(destination, extra, key) {
        let key = choose|key: Seq<char>| first_shared(destination, extra, key);
        error::refused(complaint + quoted(key))
    } else {
        Ok(destination.union_prefer_right(extra))
    }
}

proof fn lemma_first_shared_unique(
    a: Map<Seq<char>, JsonView>,
    b: Map<Seq<char>, JsonView>,
    x: Seq<char>,
    y: Seq<char>,
)
    requires
        first_shared(a, b, x),
        first_shared(a, b, y),
    ensures
        x == y,
{
    if x != y {
        assert(text::before(x, y));
        text::lemma_before_asymmetric(x, y);
    }
}

/// Adds the members of `extra` to `destination`.
pub fn merge_fields(destination: Fields, extra: &Fields, context: &str) -> (result: Result<
    Fields,
    Error,
>)
    ensures
        shown_fields(result) == merged(json::fields(destination), json::fields(*extra), context@),
{
    let complaint = joined(context, " duplicates field ");
    merge_fields_or(destination, extra, complaint.as_str())
}

/// Adds the members of `extra` to `destination`, or complains about the first
/// member that both hold.
pub fn merge_fields_or(destination: Fields, extra: &Fields, complaint: &str) -> (result: Result<
    Fields,
    Error,
>)
    ensures
        shown_fields(result) == merged_or(
            json::fields(destination),
            json::fields(*extra),
            complaint@,
        ),
{
    let mut map = destination;
    let n: usize = extra.len();
    let ghost keys = extra.keys();
    let ghost start = json::fields(destination);
    let ghost added = json::fields(*extra);
    let mut i: usize = 0;
    while i < n
        invariant
            i <= n,
            n == keys.len(),
            keys == extra.keys(),
            json::lists_keys(keys, extra@.dom()),
            start == json::fields(destination),
            added == json::fields(*extra),
            forall|j: int| 0 <= j < i ==> !start.contains_key(#[trigger] keys[j]),
            forall|k: Seq<char>| #[trigger]
                json::fields(map).contains_key(k) ==> start.contains_key(k) || exists|j: int|
                    0 <= j < i && #[trigger] keys[j] == k,
            forall|k: Seq<char>| #[trigger] start.contains_key(k) ==> json::fields(map).contains_key(k)
                && json::fields(map)[k] == start[k],
            forall|j: int| 0 <= j < i ==> json::fields(map).contains_key(#[trigger] keys[j])
                && json::fields(map)[keys[j]] == added[keys[j]],
        decreases n - i,
    {
        let (key, value) = extra.entry(i);
        if map.contains_key(key) {
            proof {
                assert(json::fields(map).contains_key(key@));
                assert(start.contains_key(key@)) by {
                    if !start.contains_key(key@) {
                        let j = choose|j: int| 0 <= j < i && #[trigger] keys[j] == key@;
                        text::lemma_before_irreflexive(keys[j]);
                        assert(text::before(keys[j], keys[i as int]));
                    }
                }
                assert(first_shared(start, added, key@)) by {
                    assert forall|other: Seq<char>|
                        start.contains_key(other) && #[trigger] added.contains_key(other) && other
                            != key@ implies text::before(key@, other) by {
                        assert(extra@.dom().contains(other));
                        let j = choose|j: int| 0 <= j < keys.len() && #[trigger] keys[j] == other;
                        assert(j > i);
                    }
                }
                assert(shares(start, added, key@));
                let chosen = choose|k: Seq<char>| first_shared(start, added, k);
                lemma_first_shared_unique(start, added, key@, chosen);
            }
            let name = quote(key);
            return Err(Error::Message(joined(complaint, name.as_str())));
        }
        proof {
            assert(!start.contains_key(key@));
            assert forall|j: int| 0 <= j < i implies #[trigger] keys[j] != key@ by {
                text::lemma_before_irreflexive(keys[j]);
                assert(text::before(keys[j], keys[i as int]));
            }
        }
        map.put(key, value.clone());
        i += 1;
    }
    proof {
        assert forall|key: Seq<char>| !shares(start, added, key) by {
            if shares(start, added, key) {
                assert(extra@.dom().contains(key));
                let j = choose|j: int| 0 <= j < keys.len() && #[trigger] keys[j] == key;
                assert(!start.contains_key(keys[j]));
            }
        }
        assert forall|k: Seq<char>| #[trigger] added.contains_key(k) implies json::fields(
            map,
        ).contains_key(k) && json::fields(map)[k] == added[k] by {
            assert(extra@.dom().contains(k));
            let j = choose|j: int| 0 <= j < keys.len() && #[trigger] keys[j] == k;
            assert(json::fields(map).contains_key(keys[j]));
        }
        assert(json::fields(map) =~= start.union_prefer_right(added));
    }
    Ok(map)
}

/// Nothing stands under `key` yet.
pub open spec fn vacant(
    destination: Map<Seq<char>, JsonView>,
    key: Seq<char>,
    context: Seq<char>,
) -> Result<(), ErrorView> {
    if destination.contains_key(key) {
        error::refused(context + " duplicates field "@ + quoted(key))
    } else {
        Ok(())
    }
}

/// Checks that nothing stands under `key` yet.
pub fn check_vacant(destination: &Fields, key: &str, context: &str) -> (result: Result<(), Error>)
    ensures
        error::shown(result) == vacant(json::fields(*destination), key@, context@),
{
    if destination.contains_key(key) {
        let name = quote(key);
        return Err(Error::Message(joined3(context, " duplicates field ", name.as_str())));
    }
    Ok(())
}

/// `destination` with one member more. A member that is there already is never
/// replaced.
pub open spec fn added(
    destination: Map<Seq<char>, JsonView>,
    key: Seq<char>,
    value: JsonView,
    context: Seq<char>,
) -> Result<Map<Seq<char>, JsonView>, ErrorView> {
    match vacant(destination, key, context) {
        Err(e) => Err(e),
        Ok(_) => Ok(destination.insert(key, value)),
    }
}

/// Adds one member to `destination`.
pub fn add_member(destination: Fields, key: &str, value: Json, context: &str) -> (result: Result<
    Fields,
    Error,
>)
    ensures
        shown_fields(result) == added(json::fields(destination), key@, value@, context@),
{
    check_vacant(&destination, key, context)?;
    let mut all = destination;
    all.put(key, value);
    Ok(all)
}

/// What a merge gives holds both maps, each as it was.
pub proof fn lemma_merged_keeps(
    destination: Map<Seq<char>, JsonView>,
    extra: Map<Seq<char>, JsonView>,
    complaint: Seq<char>,
    key: Seq<char>,
)
    requires
        merged_or(destination, extra, complaint) is Ok,
    ensures
        destination.contains_key(key) ==> {
            &&& merged_or(destination, extra, complaint)->Ok_0.contains_key(key)
            &&& merged_or(destination, extra, complaint)->Ok_0[key] == destination[key]
        },
        extra.contains_key(key) ==> {
            &&& merged_or(destination, extra, complaint)->Ok_0.contains_key(key)
            &&& merged_or(destination, extra, complaint)->Ok_0[key] == extra[key]
        },
        merged_or(destination, extra, complaint)->Ok_0.contains_key(key)
            ==> destination.contains_key(key) || extra.contains_key(key),
{
    assert(!shares(destination, extra, key));
}

/// `destination` with the members of native data added.
pub open spec fn native_merged(
    destination: Map<Seq<char>, JsonView>,
    native: PlatformNativeData,
    context: Seq<char>,
) -> Result<Map<Seq<char>, JsonView>, ErrorView> {
    match native_object_outcome(native, context) {
        Ok(extra) => merged(destination, extra, context),
        Err(e) => Err(e),
    }
}

/// `destination` with the members of native data added, where there is any.
pub open spec fn optional_native_merged(
    destination: Map<Seq<char>, JsonView>,
    native: Option<PlatformNativeData>,
    context: Seq<char>,
) -> Result<Map<Seq<char>, JsonView>, ErrorView> {
    match native {
        Some(native) => native_merged(destination, native, context),
        None => Ok(destination),
    }
}

/// Adds the members of native data to `destination`.
pub fn merge_native_fields(
    destination: Fields,
    native: &PlatformNativeData,
    context: &str,
) -> (result: Result<Fields, Error>)
    ensures
        shown_fields(result) == native_merged(json::fields(destination), *native, context@),
{
    let extra = telegram_native_object(native, context)?;
    merge_fields(destination, &extra, context)
}

/// Adds the members of native data to `destination`, where there is any.
pub fn merge_optional_native(
    destination: Fields,
    native: &Option<PlatformNativeData>,
    context: &str,
) -> (result: Result<Fields, Error>)
    ensures
        shown_fields(result) == optional_native_merged(
            json::fields(destination),
            *native,
            context@,
        ),
{
    match native {
        Some(native) => merge_native_fields(destination, native, context),
        None => Ok(destination),
    }
}

/// Native data never replaces a member that the library wrote, and adds every
/// member that it holds.
pub proof fn law_native_data_never_overrides(
    destination: Map<Seq<char>, JsonView>,
    native: PlatformNativeData,
    context: Seq<char>,
)
    ensures
        native_merged(destination, native, context) matches Ok(result) ==> {
            &&& native.platform@ == SERVER@
            &&& forall|k: Seq<char>| #[trigger] destination.contains_key(k) ==> result.contains_key(k)
                && result[k] == destination[k] && !native.data@->Object_0.contains_key(k)
            &&& forall|k: Seq<char>| #[trigger] native.data@->Object_0.contains_key(k)
                ==> result.contains_key(k) && result[k] == native.data@->Object_0[k]
        },
{
    broadcast use json::lemma_json_view;

    if let Ok(result) = native_merged(destination, native, context) {
        let extra = native.data@->Object_0;
        assert forall|k: Seq<char>| #[trigger] destination.contains_key(k) implies !extra.contains_key(k) by {
            assert(!shares(destination, extra, k));
        }
    }
}

/// Native data that is added, where there is any, leaves what is there.
pub proof fn lemma_optional_keeps(
    destination: Map<Seq<char>, JsonView>,
    native: Option<PlatformNativeData>,
    context: Seq<char>,
    key: Seq<char>,
)
    requires
        optional_native_merged(destination, native, context) is Ok,
    ensures
        json::member(destination, key) matches Some(value) ==> json::member(
            optional_native_merged(destination, native, context)->Ok_0,
            key,
        ) == Some(value),
{
    if let Some(native) = native {
        let extra = native_object_outcome(native, context)->Ok_0;
        lemma_merged_keeps(destination, extra, context + " duplicates field "@, key);
    }
}

} // verus!
