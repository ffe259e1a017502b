//! JSON documents, and maps from texts to values.
use crate::text;
use crate::text::{is_before, same};
use vstd::prelude::*;

verus! {

// ---------------------------------------------------------------------------
// Maps keyed by text
// ---------------------------------------------------------------------------

/// A map from texts to values whose entries stand in the order of their keys.
#[derive(Debug, PartialEq)]
pub struct TextMap<V> {
    entries: Vec<(String, V)>,
}

/// Keys strictly ascend.
spec fn ascending<V>(entries: Seq<(String, V)>) -> bool {
    forall|i: int, j: int|
        0 <= i < j < entries.len() ==> text::before(
            (#[trigger] entries[i]).0@,
            (#[trigger] entries[j]).0@,
        )
}

/// The map that a list of entries stands for.
spec fn entries_map<V>(entries: Seq<(String, V)>) -> Map<Seq<char>, V> {
    Map::new(
        |k: Seq<char>| exists|i: int| 0 <= i < entries.len() && (#[trigger] entries[i]).0@ == k,
        |k: Seq<char>| entries[position(entries, k)].1,
    )
}

spec fn position<V>(entries: Seq<(String, V)>, key: Seq<char>) -> int {
    choose|i: int| 0 <= i < entries.len() && (#[trigger] entries[i]).0@ == key
}

proof fn lemma_entry<V>(entries: Seq<(String, V)>, i: int)
    requires
        ascending(entries),
        0 <= i < entries.len(),
    ensures
        position(entries, entries[i].0@) == i,
        entries_map(entries).contains_key(entries[i].0@),
        entries_map(entries)[entries[i].0@] == entries[i].1,
{
    let j = position(entries, entries[i].0@);
    assert(entries[j].0@ == entries[i].0@ && 0 <= j < entries.len());
    text::lemma_before_irreflexive(entries[i].0@);
}

impl<V> TextMap<V> {
    #[verifier::type_invariant]
    spec fn well_formed(self) -> bool {
        ascending(self.entries@)
    }

    /// The keys in their order.
    pub closed spec fn keys(&self) -> Seq<Seq<char>> {
        self.entries@.map_values(|e: (String, V)| e.0@)
    }

    /// The index at which `key` stands, or at which it would be inserted.
    fn find(&self, key: &str) -> (result: (usize, bool))
        ensures
            result.0 <= self.entries@.len(),
            forall|j: int| 0 <= j < result.0 ==> text::before((#[trigger] self.entries@[j]).0@, key@),
            result.1 ==> result.0 < self.entries@.len() && self.entries@[result.0 as int].0@ == key@,
            !result.1 ==> forall|j: int|
                result.0 <= j < self.entries@.len() ==> text::before(
                    key@,
                    (#[trigger] self.entries@[j]).0@,
                ),
    {
        proof {
            use_type_invariant(self);
        }
        let mut i: usize = 0;
        while i < self.entries.len()
            invariant
                i <= self.entries@.len(),
                ascending(self.entries@),
                forall|j: int| 0 <= j < i ==> text::before((#[trigger] self.entries@[j]).0@, key@),
            decreases self.entries@.len() - i,
        {
            let current: &str = self.entries[i].0.as_str();
            if !is_before(current, key) {
                if same(current, key) {
                    return (i, true);
                }
                proof {
                    text::lemma_before_total(current@, key@);
                    assert forall|j: int| i <= j < self.entries@.len() implies text::before(
                        key@,
                        (#[trigger] self.entries@[j]).0@,
                    ) by {
                        if i < j {
                            text::lemma_before_transitive(
                                key@,
                                self.entries@[i as int].0@,
                                self.entries@[j].0@,
                            );
                        }
                    }
                }
                return (i, false);
            }
            i += 1;
        }
        (i, false)
    }
}

/// `keys` are the members of `dom`, each once, in ascending order.
pub open spec fn lists_keys(keys: Seq<Seq<char>>, dom: Set<Seq<char>>) -> bool {
    &&& forall|i: int, j: int|
        0 <= i < j < keys.len() ==> text::before(#[trigger] keys[i], #[trigger] keys[j])
    &&& forall|i: int| 0 <= i < keys.len() ==> dom.contains(#[trigger] keys[i])
    &&& forall|k: Seq<char>| #[trigger]
        dom.contains(k) ==> exists|i: int| 0 <= i < keys.len() && #[trigger] keys[i] == k
}

/// The members of `dom`, each once, in ascending order.
pub open spec fn sorted_keys(dom: Set<Seq<char>>) -> Seq<Seq<char>> {
    choose|keys: Seq<Seq<char>>| lists_keys(keys, dom)
}

/// There is one list of the members of a set in ascending order.
pub proof fn lemma_sorted_keys(keys: Seq<Seq<char>>, dom: Set<Seq<char>>)
    requires
        lists_keys(keys, dom),
    ensures
        sorted_keys(dom) == keys,
{
    lemma_lists_unique(keys, sorted_keys(dom), dom);
}

proof fn lemma_lists_unique(a: Seq<Seq<char>>, b: Seq<Seq<char>>, dom: Set<Seq<char>>)
    requires
        lists_keys(a, dom),
        lists_keys(b, dom),
    ensures
        a == b,
    decreases a.len(),
{
    if a.len() == 0 {
        if b.len() > 0 {
            assert(dom.contains(b[0]));
        }
        assert(a =~= b);
    } else {
        assert(dom.contains(a[0]));
        let j = choose|j: int| 0 <= j < b.len() && #[trigger] b[j] == a[0];
        assert(dom.contains(b[0]));
        let i = choose|i: int| 0 <= i < a.len() && #[trigger] a[i] == b[0];
        if i > 0 && j > 0 {
            assert(text::before(a[0], a[i]));
            assert(text::before(b[0], b[j]));
            text::lemma_before_asymmetric(a[0], b[0]);
        }
        assert(a[0] == b[0]);
        let rest = dom.remove(a[0]);
        assert(lists_keys(a.skip(1), rest)) by {
            lemma_lists_rest(a, dom);
        }
        assert(lists_keys(b.skip(1), rest)) by {
            lemma_lists_rest(b, dom);
        }
        lemma_lists_unique(a.skip(1), b.skip(1), rest);
        assert(a =~= seq![a[0]] + a.skip(1));
        assert(b =~= seq![b[0]] + b.skip(1));
    }
}

proof fn lemma_lists_rest(a: Seq<Seq<char>>, dom: Set<Seq<char>>)
    requires
        lists_keys(a, dom),
        a.len() > 0,
    ensures
        lists_keys(a.skip(1), dom.remove(a[0])),
{
    let tail = a.skip(1);
    let rest = dom.remove(a[0]);
    assert forall|i: int| 0 <= i < tail.len() implies rest.contains(#[trigger] tail[i]) by {
        assert(tail[i] == a[i + 1]);
        assert(text::before(a[0], a[i + 1]));
        text::lemma_before_irreflexive(a[0]);
    }
    assert forall|k: Seq<char>| #[trigger] rest.contains(k) implies exists|i: int|
        0 <= i < tail.len() && #[trigger] tail[i] == k by {
        let i = choose|i: int| 0 <= i < a.len() && #[trigger] a[i] == k;
        assert(tail[i - 1] == k);
    }
    assert forall|i: int, j: int| 0 <= i < j < tail.len() implies text::before(
        #[trigger] tail[i],
        #[trigger] tail[j],
    ) by {
        assert(text::before(a[i + 1], a[j + 1]));
    }
}

/// Where a key stands among the first `n` of other keys in ascending order.
proof fn lemma_place(keys: Seq<Seq<char>>, key: Seq<char>, n: int) -> (place: int)
    requires
        0 <= n <= keys.len(),
        forall|i: int, j: int|
            0 <= i < j < keys.len() ==> text::before(#[trigger] keys[i], #[trigger] keys[j]),
        forall|i: int| 0 <= i < keys.len() ==> #[trigger] keys[i] != key,
    ensures
        0 <= place <= n,
        forall|i: int| 0 <= i < place ==> text::before(#[trigger] keys[i], key),
        forall|i: int| place <= i < n ==> text::before(key, #[trigger] keys[i]),
    decreases n,
{
    if n == 0 {
        0
    } else if text::before(keys[n - 1], key) {
        assert forall|i: int| 0 <= i < n implies text::before(#[trigger] keys[i], key) by {
            if i < n - 1 {
                text::lemma_before_transitive(keys[i], keys[n - 1], key);
            }
        }
        n
    } else {
        text::lemma_before_total(keys[n - 1], key);
        lemma_place(keys, key, n - 1)
    }
}

/// The members of every finite set can be listed in ascending order.
pub proof fn lemma_sorted_keys_exist(dom: Set<Seq<char>>)
    requires
        dom.finite(),
    ensures
        lists_keys(sorted_keys(dom), dom),
    decreases dom.len(),
{
    if dom.len() == 0 {
        assert(dom =~= Set::empty());
        assert(lists_keys(Seq::empty(), dom));
    } else {
        let key = dom.choose();
        let rest = dom.remove(key);
        lemma_sorted_keys_exist(rest);
        let keys = sorted_keys(rest);
        assert forall|i: int| 0 <= i < keys.len() implies #[trigger] keys[i] != key by {
            assert(rest.contains(keys[i]));
        }
        let place = lemma_place(keys, key, keys.len() as int);
        let all = keys.insert(place, key);
        assert forall|i: int, j: int| 0 <= i < j < all.len() implies text::before(
            #[trigger] all[i],
            #[trigger] all[j],
        ) by {
            let a = if i < place { i } else { i - 1 };
            let b = if j < place { j } else { j - 1 };
            if i != place {
                assert(all[i] == keys[a]);
            }
            if j != place {
                assert(all[j] == keys[b]);
            }
        }
        assert forall|i: int| 0 <= i < all.len() implies dom.contains(#[trigger] all[i]) by {
            if i != place {
                let a = if i < place { i } else { i - 1 };
                assert(all[i] == keys[a]);
                assert(rest.contains(keys[a]));
            }
        }
        assert forall|k: Seq<char>| #[trigger] dom.contains(k) implies exists|i: int|
            0 <= i < all.len() && #[trigger] all[i] == k by {
            if k == key {
                assert(all[place] == k);
            } else {
                assert(rest.contains(k));
                let a = choose|a: int| 0 <= a < keys.len() && #[trigger] keys[a] == k;
                let i = if a < place { a } else { a + 1 };
                assert(all[i] == k);
            }
        }
        assert(lists_keys(all, dom));
    }
}

impl<V> Default for TextMap<V> {
    fn default() -> (map: Self)
        ensures
            map@ == Map::<Seq<char>, V>::empty(),
    {
        TextMap::new()
    }
}

impl<V> View for TextMap<V> {
    type V = Map<Seq<char>, V>;

    closed spec fn view(&self) -> Map<Seq<char>, V> {
        entries_map(self.entries@)
    }
}

impl<V> TextMap<V> {
    /// The empty map.
    pub fn new() -> (map: Self)
        ensures
            map@ == Map::<Seq<char>, V>::empty(),
            map.keys().len() == 0,
    {
        let map = TextMap { entries: Vec::new() };
        assert(map@ =~= Map::<Seq<char>, V>::empty());
        map
    }

    /// The number of entries.
    pub fn len(&self) -> (n: usize)
        ensures
            n == self.keys().len(),
            lists_keys(self.keys(), self@.dom()),
    {
        proof {
            use_type_invariant(self);
            assert forall|i: int| 0 <= i < self.keys().len() implies self@.dom().contains(
                #[trigger] self.keys()[i],
            ) by {
                lemma_entry(self.entries@, i);
            }
            assert forall|k: Seq<char>| #[trigger] self@.dom().contains(k) implies exists|i: int|
                0 <= i < self.keys().len() && #[trigger] self.keys()[i] == k by {
                let i = position(self.entries@, k);
                assert(self.keys()[i] == k);
            }
        }
        self.entries.len()
    }

    /// The `i`-th entry in the order of keys.
    pub fn entry(&self, i: usize) -> (entry: (&str, &V))
        requires
            i < self.keys().len(),
        ensures
            entry.0@ == self.keys()[i as int],
            self@.contains_key(entry.0@),
            *entry.1 == self@[entry.0@],
    {
        proof {
            use_type_invariant(self);
            lemma_entry(self.entries@, i as int);
        }
        (self.entries[i].0.as_str(), &self.entries[i].1)
    }

    /// The value under `key`.
    pub fn get(&self, key: &str) -> (value: Option<&V>)
        ensures
            value is Some == self@.contains_key(key@),
            value matches Some(v) ==> *v == self@[key@],
    {
        let (i, found) = self.find(key);
        proof {
            use_type_invariant(self);
            if found {
                lemma_entry(self.entries@, i as int);
            } else {
                self.lemma_absent(key@, i as int);
            }
        }
        if found {
            Some(&self.entries[i].1)
        } else {
            None
        }
    }

    proof fn lemma_absent(&self, key: Seq<char>, i: int)
        requires
            0 <= i <= self.entries@.len(),
            forall|j: int| 0 <= j < i ==> text::before((#[trigger] self.entries@[j]).0@, key),
            forall|j: int|
                i <= j < self.entries@.len() ==> text::before(
                    key,
                    (#[trigger] self.entries@[j]).0@,
                ),
        ensures
            !self@.contains_key(key),
    {
        text::lemma_before_irreflexive(key);
    }

    /// Whether there is a value under `key`.
    pub fn contains_key(&self, key: &str) -> (found: bool)
        ensures
            found == self@.contains_key(key@),
    {
        self.get(key).is_some()
    }

    /// Puts `value` under `key`, in place of what stood there.
    pub fn insert(&mut self, key: &str, value: V)
        ensures
            final(self)@ == old(self)@.insert(key@, value),
    {
        let (i, found) = self.find(key);
        proof {
            use_type_invariant(&*self);
        }
        let mut entries: Vec<(String, V)> = Vec::new();
        std::mem::swap(&mut entries, &mut self.entries);
        let ghost before_entries = entries@;
        let ghost old_map = entries_map(before_entries);
        let name = key.to_owned();
        if found {
            let _ = entries.remove(i);
        }
        let ghost rest = entries@;
        entries.insert(i, (name, value));
        proof {
            let after = entries@;
            text::lemma_before_irreflexive(key@);
            assert forall|a: int, b: int| 0 <= a < b < after.len() implies text::before(
                (#[trigger] after[a]).0@,
                (#[trigger] after[b]).0@,
            ) by {
                let shift: int = if found { 0 } else { 1 };
                let at = |k: int| if k < i { k } else { k - shift };
                if a != i {
                    assert(after[a] == before_entries[at(a)]);
                }
                if b != i {
                    assert(after[b] == before_entries[at(b)]);
                }
                if found {
                    assert(before_entries[i as int].0@ == key@);
                }
            }
            assert(ascending(after));
            let new_map = entries_map(after);
            let shift: int = if found { 0 } else { 1 };
            lemma_entry(after, i as int);
            assert forall|k: Seq<char>| k != key@ && #[trigger] new_map.dom().contains(k) implies old_map.dom().contains(
                k,
            ) && new_map[k] == old_map[k] by {
                let p = position(after, k);
                let q = if p < i { p } else { p - shift };
                assert(after[p] == before_entries[q]);
                lemma_entry(before_entries, q);
            }
            assert forall|k: Seq<char>| k != key@ && #[trigger] old_map.dom().contains(k) implies new_map.dom().contains(
                k,
            ) by {
                let q = position(before_entries, k);
                let p = if q < i { q } else { q + shift };
                assert(after[p] == before_entries[q]);
                lemma_entry(after, p);
            }
            assert(new_map.dom() =~= old_map.insert(key@, value).dom());
            assert(new_map =~= old_map.insert(key@, value));
        }
        self.entries = entries;
    }
}

impl<V> TextMap<V> {
    /// Takes the value under `key` out of the map.
    pub fn remove(&mut self, key: &str) -> (value: Option<V>)
        ensures
            final(self)@ == old(self)@.remove(key@),
            value is Some == old(self)@.contains_key(key@),
            value matches Some(v) ==> v == old(self)@[key@],
    {
        let (i, found) = self.find(key);
        proof {
            use_type_invariant(&*self);
        }
        if !found {
            proof {
                self.lemma_absent(key@, i as int);
                assert(self@ =~= old(self)@.remove(key@));
            }
            return None;
        }
        let mut entries: Vec<(String, V)> = Vec::new();
        std::mem::swap(&mut entries, &mut self.entries);
        let ghost all = entries@;
        let ghost old_map = entries_map(all);
        let (_, value) = entries.remove(i);
        proof {
            let after = entries@;
            let new_map = entries_map(after);
            lemma_entry(all, i as int);
            text::lemma_before_irreflexive(key@);
            assert forall|a: int, b: int| 0 <= a < b < after.len() implies text::before(
                (#[trigger] after[a]).0@,
                (#[trigger] after[b]).0@,
            ) by {
                assert(after[a] == all[if a < i { a } else { a + 1 }]);
                assert(after[b] == all[if b < i { b } else { b + 1 }]);
            }
            assert(ascending(after));
            assert forall|k: Seq<char>| #[trigger] new_map.dom().contains(k) implies k != key@
                && old_map.dom().contains(k) && new_map[k] == old_map[k] by {
                let p = position(after, k);
                let q = if p < i { p } else { p + 1 };
                assert(after[p] == all[q]);
                lemma_entry(all, q);
            }
            assert forall|k: Seq<char>| k != key@ && #[trigger] old_map.dom().contains(k) implies new_map.dom().contains(k) by {
                let q = position(all, k);
                let p = if q < i { q } else { q - 1 };
                assert(after[p] == all[q]);
                lemma_entry(after, p);
            }
            assert(new_map =~= old_map.remove(key@));
        }
        self.entries = entries;
        Some(value)
    }
}

// ---------------------------------------------------------------------------
// Documents
// ---------------------------------------------------------------------------

/// The members of a JSON object.
pub type Fields = TextMap<Json>;

/// A JSON document.
#[derive(Debug, PartialEq)]
pub enum Json {
    Null,
    Bool(bool),
    Integer(i128),
    /// A number that is not an integer, by its JSON text.
    Real(String),
    Text(String),
    Array(Vec<Json>),
    Object(Fields),
}

/// What a JSON document says.
#[verifier::ext_equal]
pub enum JsonView {
    Null,
    Bool(bool),
    Integer(int),
    Real(Seq<char>),
    Text(Seq<char>),
    Array(Seq<JsonView>),
    Object(Map<Seq<char>, JsonView>),
}

spec fn json_view(json: Json) -> JsonView
    decreases json,
{
    match json {
        Json::Null => JsonView::Null,
        Json::Bool(b) => JsonView::Bool(b),
        Json::Integer(n) => JsonView::Integer(n as int),
        Json::Real(t) => JsonView::Real(t@),
        Json::Text(t) => JsonView::Text(t@),
        Json::Array(items) => JsonView::Array(
            Seq::new(
                items@.len(),
                |i: int|
                    if 0 <= i < items@.len() {
                        json_view(items@[i])
                    } else {
                        JsonView::Null
                    },
            ),
        ),
        Json::Object(map) => JsonView::Object(
            Map::new(
                |k: Seq<char>|
                    exists|i: int|
                        0 <= i < map.entries@.len() && (#[trigger] map.entries@[i]).0@ == k,
                |k: Seq<char>|
                    {
                        let i = position(map.entries@, k);
                        if 0 <= i < map.entries@.len() {
                            json_view(map.entries@[i].1)
                        } else {
                            JsonView::Null
                        }
                    },
            ),
        ),
    }
}

impl View for Json {
    type V = JsonView;

    closed spec fn view(&self) -> JsonView {
        json_view(*self)
    }
}

/// What a list of documents says.
pub open spec fn views(items: Seq<Json>) -> Seq<JsonView> {
    Seq::new(items.len(), |i: int| items[i]@)
}

/// What the members of an object say.
pub open spec fn fields(map: Fields) -> Map<Seq<char>, JsonView> {
    Map::new(|k: Seq<char>| map@.contains_key(k), |k: Seq<char>| map@[k]@)
}

pub broadcast proof fn lemma_json_view(json: Json)
    ensures
        #[trigger] json@ == match json {
            Json::Null => JsonView::Null,
            Json::Bool(b) => JsonView::Bool(b),
            Json::Integer(n) => JsonView::Integer(n as int),
            Json::Real(t) => JsonView::Real(t@),
            Json::Text(t) => JsonView::Text(t@),
            Json::Array(items) => JsonView::Array(views(items@)),
            Json::Object(map) => JsonView::Object(fields(map)),
        },
{
    match json {
        Json::Array(items) => {
            assert(json@->Array_0 =~= views(items@));
        },
        Json::Object(map) => {
            assert(json@->Object_0 =~= fields(map)) by {
                assert forall|k: Seq<char>| map@.contains_key(k) implies json@->Object_0[k]
                    == #[trigger] fields(map)[k] by {
                    let i = position(map.entries@, k);
                    assert(0 <= i < map.entries@.len());
                }
            }
        },
        _ => {},
    }
}

/// A document without the object members whose value is null, at any depth.
/// Null items of arrays stay.
pub open spec fn stripped(value: JsonView) -> JsonView
    decreases value,
{
    match value {
        JsonView::Array(items) => JsonView::Array(
            Seq::new(
                items.len(),
                |i: int|
                    if 0 <= i < items.len() {
                        stripped(items[i])
                    } else {
                        JsonView::Null
                    },
            ),
        ),
        JsonView::Object(map) => JsonView::Object(
            Map::new(
                |k: Seq<char>| map.contains_key(k) && map[k] != JsonView::Null,
                |k: Seq<char>|
                    if map.contains_key(k) {
                        stripped(map[k])
                    } else {
                        JsonView::Null
                    },
            ),
        ),
        _ => value,
    }
}

impl TextMap<Json> {
    /// The member under `key`.
    pub fn member(&self, key: &str) -> (value: Option<&Json>)
        ensures
            match value {
                Some(v) => member(fields(*self), key@) == Some(v@),
                None => member(fields(*self), key@) is None,
            },
    {
        self.get(key)
    }

    /// Whether there are no members.
    pub fn is_none(&self) -> (result: bool)
        ensures
            result == (fields(*self) == no_fields()),
    {
        let n: usize = self.len();
        proof {
            if n == 0 {
                assert forall|k: Seq<char>| !self@.dom().contains(k) by {
                    if self@.dom().contains(k) {
                        let i = choose|i: int|
                            0 <= i < self.keys().len() && #[trigger] self.keys()[i] == k;
                    }
                }
                assert(fields(*self) =~= no_fields());
            } else {
                let k = self.keys()[0];
                assert(self@.dom().contains(k));
                assert(fields(*self).contains_key(k));
                assert(!no_fields().contains_key(k));
            }
        }
        n == 0
    }

    /// The members of this object and of another; where both hold a member,
    /// that of the other stays.
    pub fn overlaid(&self, top: &Fields) -> (result: Fields)
        ensures
            fields(result) == fields(*self).union_prefer_right(fields(*top)),
    {
        let mut result = self.clone();
        let n: usize = top.len();
        let ghost keys = top.keys();
        let ghost base = fields(*self);
        let ghost over = fields(*top);
        let mut i: usize = 0;
        while i < n
            invariant
                i <= n,
                n == keys.len(),
                keys == top.keys(),
                lists_keys(keys, top@.dom()),
                base == fields(*self),
                over == fields(*top),
                forall|k: Seq<char>| #[trigger]
                    fields(result).contains_key(k) ==> base.contains_key(k) || over.contains_key(k),
                forall|k: Seq<char>| #[trigger]
                    base.contains_key(k) ==> fields(result).contains_key(k) && (
                    !over.contains_key(k) ==> fields(result)[k] == base[k]),
                forall|j: int|
                    0 <= j < i ==> fields(result).contains_key(#[trigger] keys[j])
                        && fields(result)[keys[j]] == over[keys[j]],
            decreases n - i,
        {
            let (key, value) = top.entry(i);
            proof {
                assert forall|j: int| 0 <= j < i implies #[trigger] keys[j] != key@ by {
                    text::lemma_before_irreflexive(keys[j]);
                    assert(text::before(keys[j], keys[i as int]));
                }
            }
            result.put(key, value.clone());
            i += 1;
        }
        proof {
            assert forall|k: Seq<char>| #[trigger] over.contains_key(k) implies fields(
                result,
            ).contains_key(k) && fields(result)[k] == over[k] by {
                assert(top@.dom().contains(k));
                let j = choose|j: int| 0 <= j < keys.len() && #[trigger] keys[j] == k;
                assert(fields(result).contains_key(keys[j]));
            }
            assert(fields(result) =~= base.union_prefer_right(over));
        }
        result
    }

    /// The text under `key`, if there is one.
    pub fn text_at(&self, key: &str) -> (value: Option<&str>)
        ensures
            match value {
                Some(text) => text_in(fields(*self), key@) == Some(text@),
                None => text_in(fields(*self), key@) is None,
            },
    {
        match self.member(key) {
            Some(value) => value.as_str(),
            None => None,
        }
    }

    /// A copy of the text under `key`, if there is one.
    pub fn string_at(&self, key: &str) -> (value: Option<String>)
        ensures
            optional_chars(value) == text_in(fields(*self), key@),
    {
        match self.text_at(key) {
            Some(text) => Some(text.to_owned()),
            None => None,
        }
    }

    /// The integer under `key`, if there is one that fits.
    pub fn i64_at(&self, key: &str) -> (value: Option<i64>)
        ensures
            value == i64_in(fields(*self), key@),
    {
        match self.member(key) {
            Some(value) => value.as_i64(),
            None => None,
        }
    }

    /// The unsigned integer under `key`, if there is one that fits.
    pub fn u64_at(&self, key: &str) -> (value: Option<u64>)
        ensures
            value == u64_in(fields(*self), key@),
    {
        match self.member(key) {
            Some(value) => value.as_u64(),
            None => None,
        }
    }

    /// The truth value under `key`, if there is one.
    pub fn bool_at(&self, key: &str) -> (value: Option<bool>)
        ensures
            value == bool_in(fields(*self), key@),
    {
        match self.member(key) {
            Some(value) => value.as_bool(),
            None => None,
        }
    }

    /// The list under `key`, if there is one.
    pub fn array_at(&self, key: &str) -> (value: Option<&Vec<Json>>)
        ensures
            match value {
                Some(items) => array_in(fields(*self), key@) == Some(views(items@)),
                None => array_in(fields(*self), key@) is None,
            },
    {
        broadcast use lemma_json_view;

        match self.member(key) {
            Some(Json::Array(items)) => Some(items),
            _ => None,
        }
    }

    /// The object under `key`, if there is one.
    pub fn object_at(&self, key: &str) -> (value: Option<&Fields>)
        ensures
            match value {
                Some(members) => object_in(fields(*self), key@) == Some(fields(*members)),
                None => object_in(fields(*self), key@) is None,
            },
    {
        broadcast use lemma_json_view;

        match self.member(key) {
            Some(Json::Object(members)) => Some(members),
            _ => None,
        }
    }

    /// Takes the member under `key` out.
    pub fn take(&mut self, key: &str) -> (value: Option<Json>)
        ensures
            fields(*final(self)) == fields(*old(self)).remove(key@),
            match value {
                Some(v) => member(fields(*old(self)), key@) == Some(v@),
                None => member(fields(*old(self)), key@) is None,
            },
    {
        let value = self.remove(key);
        assert(fields(*self) =~= fields(*old(self)).remove(key@));
        value
    }

    /// The members of an empty object.
    pub fn none() -> (map: Self)
        ensures
            fields(map) == no_fields(),
    {
        let map: Fields = TextMap::new();
        assert(fields(map) =~= no_fields());
        map
    }

    /// Puts `value` under `key`, in place of what stood there.
    pub fn put(&mut self, key: &str, value: Json)
        ensures
            fields(*final(self)) == fields(*old(self)).insert(key@, value@),
    {
        self.insert(key, value);
        assert(fields(*self) =~= fields(*old(self)).insert(key@, value@));
    }
}

impl Clone for TextMap<Json> {
    fn clone(&self) -> (res: Self)
        ensures
            fields(res) == fields(*self),
        decreases self,
    {
        proof {
            use_type_invariant(self);
        }
        let mut entries: Vec<(String, Json)> = Vec::new();
        let mut i: usize = 0;
        while i < self.entries.len()
            invariant
                i <= self.entries@.len(),
                ascending(self.entries@),
                entries@.len() == i,
                forall|j: int|
                    0 <= j < i ==> (#[trigger] entries@[j]).0@ == self.entries@[j].0@
                        && entries@[j].1@ == self.entries@[j].1@,
            decreases self.entries@.len() - i,
        {
            let entry: &(String, Json) = &self.entries[i];
            assert(decreases_to!(self => self.entries@[i as int].1));
            entries.push((entry.0.clone(), entry.1.clone()));
            i += 1;
        }
        assert(ascending(entries@)) by {
            assert forall|a: int, b: int| 0 <= a < b < entries@.len() implies text::before(
                (#[trigger] entries@[a]).0@,
                (#[trigger] entries@[b]).0@,
            ) by {
                assert(text::before(self.entries@[a].0@, self.entries@[b].0@));
            }
        }
        let res = TextMap { entries };
        proof {
            assert forall|k: Seq<char>| #[trigger] res@.contains_key(k) implies self@.contains_key(k)
                && self@[k]@ == res@[k]@ by {
                let q = position(res.entries@, k);
                assert(res.entries@[q].0@ == k);
                lemma_entry(res.entries@, q);
                lemma_entry(self.entries@, q);
            }
            assert forall|k: Seq<char>| #[trigger] self@.contains_key(k) implies res@.contains_key(
                k,
            ) by {
                let q = position(self.entries@, k);
                assert(self.entries@[q].0@ == k);
                assert(res.entries@[q].0@ == k);
                lemma_entry(res.entries@, q);
            }
            assert(fields(res) =~= fields(*self));
        }
        res
    }
}

impl Clone for Json {
    fn clone(&self) -> (res: Self)
        ensures
            res@ == self@,
        decreases self,
    {
        broadcast use lemma_json_view;

        match self {
            Json::Null => Json::Null,
            Json::Bool(b) => Json::Bool(*b),
            Json::Integer(n) => Json::Integer(*n),
            Json::Real(t) => Json::Real(t.clone()),
            Json::Text(t) => Json::Text(t.clone()),
            Json::Array(items) => {
                let mut copy: Vec<Json> = Vec::new();
                let mut i: usize = 0;
                while i < items.len()
                    invariant
                        i <= items@.len(),
                        copy@.len() == i,
                        self == Json::Array(*items),
                        forall|j: int| 0 <= j < i ==> (#[trigger] copy@[j])@ == items@[j]@,
                    decreases items@.len() - i,
                {
                    assert(decreases_to!(self => self->Array_0@[i as int]));
                    copy.push(items[i].clone());
                    i += 1;
                }
                assert(views(copy@) =~= views(items@));
                Json::Array(copy)
            },
            Json::Object(map) => Json::Object(map.clone()),
        }
    }
}

impl Json {
    /// Null.
    pub fn null() -> (json: Json)
        ensures
            json@ == JsonView::Null,
    {
        broadcast use lemma_json_view;

        Json::Null
    }

    /// A text.
    pub fn text(value: &str) -> (json: Json)
        ensures
            json@ == JsonView::Text(value@),
    {
        broadcast use lemma_json_view;

        Json::Text(value.to_owned())
    }

    /// A text, or null where there is none.
    pub fn optional_text(value: &Option<String>) -> (json: Json)
        ensures
            json@ == optional_text_view(*value),
    {
        broadcast use lemma_json_view;

        match value {
            Some(text) => Json::Text(text.clone()),
            None => Json::Null,
        }
    }

    /// An integer.
    pub fn integer(value: i64) -> (json: Json)
        ensures
            json@ == JsonView::Integer(value as int),
    {
        broadcast use lemma_json_view;

        Json::Integer(value as i128)
    }

    /// An integer, or null where there is none.
    pub fn optional_integer(value: Option<i64>) -> (json: Json)
        ensures
            json@ == optional_int_view(value),
    {
        broadcast use lemma_json_view;

        match value {
            Some(n) => Json::Integer(n as i128),
            None => Json::Null,
        }
    }

    /// An unsigned integer.
    pub fn unsigned(value: u64) -> (json: Json)
        ensures
            json@ == JsonView::Integer(value as int),
    {
        broadcast use lemma_json_view;

        Json::Integer(value as i128)
    }

    /// The number of the item that follows `value` others.
    pub fn ordinal(value: u64) -> (json: Json)
        ensures
            json@ == JsonView::Integer(value + 1),
    {
        broadcast use lemma_json_view;

        Json::Integer(value as i128 + 1)
    }

    /// A truth value.
    pub fn bool(value: bool) -> (json: Json)
        ensures
            json@ == JsonView::Bool(value),
    {
        broadcast use lemma_json_view;

        Json::Bool(value)
    }

    /// A truth value, or null where there is none.
    pub fn optional_bool(value: Option<bool>) -> (json: Json)
        ensures
            json@ == optional_bool_view(value),
    {
        broadcast use lemma_json_view;

        match value {
            Some(b) => Json::Bool(b),
            None => Json::Null,
        }
    }

    /// `true`, or null where the flag is not set.
    pub fn flag(value: bool) -> (json: Json)
        ensures
            json@ == flag_view(value),
    {
        broadcast use lemma_json_view;

        if value {
            Json::Bool(true)
        } else {
            Json::Null
        }
    }

    /// A list of documents.
    pub fn array(items: Vec<Json>) -> (json: Json)
        ensures
            json@ == JsonView::Array(views(items@)),
    {
        broadcast use lemma_json_view;

        Json::Array(items)
    }

    /// An object.
    pub fn object(map: Fields) -> (json: Json)
        ensures
            json@ == JsonView::Object(fields(map)),
    {
        broadcast use lemma_json_view;

        Json::Object(map)
    }

    /// The document, or null where there is none.
    pub fn optional(value: Option<Json>) -> (json: Json)
        ensures
            json@ == optional_view(value),
    {
        broadcast use lemma_json_view;

        match value {
            Some(json) => json,
            None => Json::Null,
        }
    }

    /// Whether the document is null.
    pub fn is_null(&self) -> (null: bool)
        ensures
            null == (self@ == JsonView::Null),
    {
        broadcast use lemma_json_view;

        match self {
            Json::Null => true,
            _ => false,
        }
    }

    /// The text, if the document is one.
    pub fn as_str(&self) -> (text: Option<&str>)
        ensures
            text is Some == self@ is Text,
            text matches Some(t) ==> self@ == JsonView::Text(t@),
    {
        broadcast use lemma_json_view;

        match self {
            Json::Text(text) => Some(text.as_str()),
            _ => None,
        }
    }

    /// The integer, if the document is one that fits.
    pub fn as_i64(&self) -> (value: Option<i64>)
        ensures
            value == i64_of(self@),
    {
        broadcast use lemma_json_view;

        match self {
            Json::Integer(n) => if -0x8000_0000_0000_0000 <= *n && *n <= 0x7fff_ffff_ffff_ffff {
                Some(*n as i64)
            } else {
                None
            },
            _ => None,
        }
    }

    /// The unsigned integer, if the document is one that fits.
    pub fn as_u64(&self) -> (value: Option<u64>)
        ensures
            value == u64_of(self@),
    {
        broadcast use lemma_json_view;

        match self {
            Json::Integer(n) => if 0 <= *n && *n <= 0xffff_ffff_ffff_ffff {
                Some(*n as u64)
            } else {
                None
            },
            _ => None,
        }
    }

    /// The truth value, if the document is one.
    pub fn as_bool(&self) -> (value: Option<bool>)
        ensures
            value == bool_of(self@),
    {
        broadcast use lemma_json_view;

        match self {
            Json::Bool(b) => Some(*b),
            _ => None,
        }
    }

    /// The member of an object under `key`.
    pub fn get(&self, key: &str) -> (value: Option<&Json>)
        ensures
            value is Some == (self@ is Object && self@->Object_0.contains_key(key@)),
            value matches Some(v) ==> v@ == self@->Object_0[key@],
    {
        broadcast use lemma_json_view;

        match self {
            Json::Object(map) => map.get(key),
            _ => None,
        }
    }
}

pub open spec fn i64_of(json: JsonView) -> Option<i64> {
    match json {
        JsonView::Integer(n) => if i64::MIN <= n <= i64::MAX {
            Some(n as i64)
        } else {
            None
        },
        _ => None,
    }
}

pub open spec fn u64_of(json: JsonView) -> Option<u64> {
    match json {
        JsonView::Integer(n) => if 0 <= n <= u64::MAX {
            Some(n as u64)
        } else {
            None
        },
        _ => None,
    }
}

pub open spec fn bool_of(json: JsonView) -> Option<bool> {
    match json {
        JsonView::Bool(b) => Some(b),
        _ => None,
    }
}

pub open spec fn text_of(json: JsonView) -> Option<Seq<char>> {
    match json {
        JsonView::Text(text) => Some(text),
        _ => None,
    }
}

/// The member under `key`, if there is one.
pub open spec fn member(map: Map<Seq<char>, JsonView>, key: Seq<char>) -> Option<JsonView> {
    if map.contains_key(key) {
        Some(map[key])
    } else {
        None
    }
}

pub open spec fn text_in(map: Map<Seq<char>, JsonView>, key: Seq<char>) -> Option<Seq<char>> {
    match member(map, key) {
        Some(value) => text_of(value),
        None => None,
    }
}

pub open spec fn i64_in(map: Map<Seq<char>, JsonView>, key: Seq<char>) -> Option<i64> {
    match member(map, key) {
        Some(value) => i64_of(value),
        None => None,
    }
}

pub open spec fn u64_in(map: Map<Seq<char>, JsonView>, key: Seq<char>) -> Option<u64> {
    match member(map, key) {
        Some(value) => u64_of(value),
        None => None,
    }
}

pub open spec fn bool_in(map: Map<Seq<char>, JsonView>, key: Seq<char>) -> Option<bool> {
    match member(map, key) {
        Some(value) => bool_of(value),
        None => None,
    }
}

pub open spec fn array_in(map: Map<Seq<char>, JsonView>, key: Seq<char>) -> Option<Seq<JsonView>> {
    match member(map, key) {
        Some(JsonView::Array(items)) => Some(items),
        _ => None,
    }
}

/// A text that may be missing, by its characters.
pub open spec fn object_in(map: Map<Seq<char>, JsonView>, key: Seq<char>) -> Option<
    Map<Seq<char>, JsonView>,
> {
    match member(map, key) {
        Some(JsonView::Object(members)) => Some(members),
        _ => None,
    }
}

pub open spec fn optional_chars(value: Option<String>) -> Option<Seq<char>> {
    match value {
        Some(text) => Some(text@),
        None => None,
    }
}

pub open spec fn optional_view(value: Option<Json>) -> JsonView {
    match value {
        Some(json) => json@,
        None => JsonView::Null,
    }
}

pub open spec fn optional_text_view(value: Option<String>) -> JsonView {
    match value {
        Some(text) => JsonView::Text(text@),
        None => JsonView::Null,
    }
}

pub open spec fn optional_int_view(value: Option<i64>) -> JsonView {
    match value {
        Some(n) => JsonView::Integer(n as int),
        None => JsonView::Null,
    }
}

pub open spec fn optional_bool_view(value: Option<bool>) -> JsonView {
    match value {
        Some(b) => JsonView::Bool(b),
        None => JsonView::Null,
    }
}

pub open spec fn flag_view(value: bool) -> JsonView {
    if value {
        JsonView::Bool(true)
    } else {
        JsonView::Null
    }
}

/// An object without members.
pub open spec fn no_fields() -> Map<Seq<char>, JsonView> {
    Map::empty()
}

/// Removes the object members whose value is null, at any depth.
pub fn strip_nulls(value: Json) -> (result: Json)
    ensures
        result@ == stripped(value@),
    decreases value,
{
    broadcast use lemma_json_view;

    match value {
        Json::Array(items) => {
            let mut kept: Vec<Json> = Vec::new();
            let ghost all = items@;
            for item in iter: items
                invariant
                    iter.seq() == all,
                    value is Array,
                    value->Array_0@ == all,
                    kept@.len() == iter.index(),
                    forall|j: int| 0 <= j < kept@.len() ==> (#[trigger] kept@[j])@ == stripped(all[j]@),
            {
                assert(decreases_to!(value => value->Array_0@[iter.index() as int]));
                kept.push(strip_nulls(item));
            }
            assert(views(kept@) =~= stripped(value@)->Array_0);
            Json::Array(kept)
        },
        Json::Object(map) => Json::Object(strip_members(map)),
        other => other,
    }
}

/// Removes the members whose value is null, and those of the values that stay.
pub fn strip_members(map: Fields) -> (result: Fields)
    ensures
        JsonView::Object(fields(result)) == stripped(JsonView::Object(fields(map))),
    decreases map,
{
    proof {
        use_type_invariant(&map);
    }
    let mut result: Fields = TextMap::new();
    let ghost all = map.entries@;
    let ghost target = stripped(JsonView::Object(fields(map)))->Object_0;
    for entry in iter: map.entries
        invariant
            iter.seq() == all,
            all == map.entries@,
            ascending(all),
            target == stripped(JsonView::Object(fields(map)))->Object_0,
            forall|k: Seq<char>| #[trigger]
                fields(result).contains_key(k) ==> target.contains_key(k) && fields(result)[k]
                    == target[k],
            forall|j: int|
                0 <= j < iter.index() && target.contains_key((#[trigger] all[j]).0@)
                    ==> fields(result).contains_key(all[j].0@),
    {
        let ghost at = iter.index() as int;
        assert(decreases_to!(map => map.entries@[at].1));
        proof {
            lemma_entry(all, at);
        }
        let (key, value) = entry;
        if !value.is_null() {
            let kept = strip_nulls(value);
            result.put(key.as_str(), kept);
        }
    }
    proof {
        assert forall|k: Seq<char>| #[trigger] target.contains_key(k) implies fields(
            result,
        ).contains_key(k) by {
            assert(map@.contains_key(k));
            let q = position(all, k);
            assert(all[q].0@ == k);
        }
    }
    assert(fields(result) =~= target);
    result
}

/// No object in the document, at any depth, has a member that is null.
pub open spec fn is_clean(value: JsonView) -> bool
    decreases value,
{
    match value {
        JsonView::Array(items) => forall|i: int|
            #![trigger items[i]]
            0 <= i < items.len() ==> is_clean(items[i]),
        JsonView::Object(map) => forall|k: Seq<char>|
            #![trigger map.contains_key(k)]
            map.contains_key(k) ==> map[k] != JsonView::Null && is_clean(map[k]),
        _ => true,
    }
}

/// What is left when the null members are taken out has none.
pub proof fn law_stripped_is_clean(value: JsonView)
    ensures
        is_clean(stripped(value)),
        stripped(value) is Null <==> value is Null,
    decreases value,
{
    match value {
        JsonView::Array(items) => {
            let left = stripped(value)->Array_0;
            assert forall|i: int| #![trigger left[i]] 0 <= i < left.len() implies is_clean(
                left[i],
            ) by {
                law_stripped_is_clean(items[i]);
            }
        },
        JsonView::Object(map) => {
            let left = stripped(value)->Object_0;
            assert forall|k: Seq<char>| #![trigger left.contains_key(k)] left.contains_key(
                k,
            ) implies left[k] != JsonView::Null && is_clean(left[k]) by {
                law_stripped_is_clean(map[k]);
            }
        },
        _ => {},
    }
}

/// A document without null members is not changed by taking them out, so that
/// doing it twice is doing it once.
pub proof fn law_clean_documents_stay(value: JsonView)
    requires
        is_clean(value),
    ensures
        stripped(value) == value,
    decreases value,
{
    match value {
        JsonView::Array(items) => {
            assert forall|i: int| 0 <= i < items.len() implies stripped(#[trigger] items[i])
                == items[i] by {
                law_clean_documents_stay(items[i]);
            }
            assert(stripped(value)->Array_0 =~= items);
        },
        JsonView::Object(map) => {
            assert forall|k: Seq<char>| #[trigger] map.contains_key(k) implies stripped(map[k])
                == map[k] && map[k] != JsonView::Null by {
                law_clean_documents_stay(map[k]);
            }
            assert(stripped(value)->Object_0 =~= map);
        },
        _ => {},
    }
}

/// What is left of an object when the null members are taken out: each other
/// member, without what is null in it.
pub proof fn lemma_stripped_member(map: Map<Seq<char>, JsonView>, key: Seq<char>)
    ensures
        stripped(JsonView::Object(map)) is Object,
        member(stripped(JsonView::Object(map))->Object_0, key) == match member(map, key) {
            None => None,
            Some(value) => if value is Null {
                None
            } else {
                Some(stripped(value))
            },
        },
{
    reveal_with_fuel(stripped, 2);
}

/// What is left of a list when the null members are taken out: each item.
pub proof fn lemma_stripped_item(items: Seq<JsonView>, i: int)
    requires
        0 <= i < items.len(),
    ensures
        stripped(JsonView::Array(items)) matches JsonView::Array(left) && left.len() == items.len()
            && left[i] == stripped(items[i]),
{
    reveal_with_fuel(stripped, 2);
}

} // verus!
