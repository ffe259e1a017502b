//! The data that a Mini App starts with, and how it is authenticated.
use crate::client::TelegramClient;
use crate::content::Duration;
use crate::document;
use crate::error;
use crate::error::{message, Error, ErrorView};
use crate::json;
use crate::json::{Fields, Json, JsonView, TextMap};
use crate::native;
use crate::native::quote;
use crate::text;
use crate::text::{chars_of, joined, joined3, parse_i64, same, text_between};
use hmac::{KeyInit as _, Mac as _};
use vstd::prelude::*;

verus! {

// ---------------------------------------------------------------------------
// Outside
// ---------------------------------------------------------------------------

/// The pairs of names and values that a URL-encoded form holds, in order.
pub uninterp spec fn form_pairs(text: Seq<char>) -> Seq<(Seq<char>, Seq<char>)>;

/// What a list of pairs says.
pub open spec fn pair_views(pairs: Seq<(String, String)>) -> Seq<(Seq<char>, Seq<char>)> {
    Seq::new(pairs.len(), |i: int| (pairs[i].0@, pairs[i].1@))
}

/// `url::form_urlencoded::parse`, all pairs in order. They are a function of
/// the text alone, `form_pairs`.
#[verifier::external_body]
pub(crate) fn parse_form(text: &str) -> (pairs: Vec<(String, String)>)
    ensures
        pair_views(pairs@) == form_pairs(text@),
{
    url::form_urlencoded::parse(text.as_bytes()).into_owned().collect()
}

/// The HMAC of `data` under `key`, by SHA-256.
pub uninterp spec fn hmac_sha256(key: Seq<u8>, data: Seq<u8>) -> Seq<u8>;

/// `hmac::Hmac` over `sha2::Sha256`: `new_from_slice`, which takes keys of any
/// length, `update` and `finalize`. The result is a function of the key and the
/// data, `hmac_sha256`.
#[verifier::external_body]
pub(crate) fn authenticate(key: &[u8], data: &[u8]) -> (tag: Vec<u8>)
    ensures
        tag@ == hmac_sha256(key@, data@),
{
    let mut mac = hmac::Hmac::<sha2::Sha256>::new_from_slice(key).expect("any length");
    mac.update(data);
    mac.finalize().into_bytes().to_vec()
}

/// `verify_slice` of `hmac::Hmac` over `sha2::Sha256`: whether the tag is, byte
/// for byte, what `finalize` would give. The comparison takes the same time
/// whatever the bytes are.
#[verifier::external_body]
pub(crate) fn authenticates(key: &[u8], data: &[u8], tag: &[u8]) -> (valid: bool)
    ensures
        valid == (tag@ == hmac_sha256(key@, data@)),
{
    let mut mac = hmac::Hmac::<sha2::Sha256>::new_from_slice(key).expect("any length");
    mac.update(data);
    mac.verify_slice(tag).is_ok()
}

// ---------------------------------------------------------------------------
// Hexadecimal
// ---------------------------------------------------------------------------

/// The value of a hexadecimal digit.
pub open spec fn hex_digit(c: char) -> Option<int> {
    if '0' <= c <= '9' {
        Some(c as int - '0' as int)
    } else if 'a' <= c <= 'f' {
        Some(c as int - 'a' as int + 10)
    } else if 'A' <= c <= 'F' {
        Some(c as int - 'A' as int + 10)
    } else {
        None
    }
}

fn read_hex_digit(c: char) -> (digit: Option<u8>)
    ensures
        match digit {
            Some(d) => hex_digit(c) == Some(d as int) && d < 16,
            None => hex_digit(c) is None,
        },
{
    if '0' <= c && c <= '9' {
        Some((c as u32 - '0' as u32) as u8)
    } else if 'a' <= c && c <= 'f' {
        Some((c as u32 - 'a' as u32 + 10) as u8)
    } else if 'A' <= c && c <= 'F' {
        Some((c as u32 - 'A' as u32 + 10) as u8)
    } else {
        None
    }
}

/// The byte that two characters denote: two digits, or a plus sign and one.
pub open spec fn hex_byte(a: char, b: char) -> Option<int> {
    match hex_digit(b) {
        None => None,
        Some(low) => if a == '+' {
            Some(low)
        } else {
            match hex_digit(a) {
                Some(high) => Some(high * 16 + low),
                None => None,
            }
        },
    }
}

fn read_hex_byte(a: char, b: char) -> (byte: Option<u8>)
    ensures
        match byte {
            Some(n) => hex_byte(a, b) == Some(n as int),
            None => hex_byte(a, b) is None,
        },
{
    let low: u8 = match read_hex_digit(b) {
        Some(low) => low,
        None => {
            return None;
        },
    };
    if a == '+' {
        return Some(low);
    }
    match read_hex_digit(a) {
        Some(high) => Some(high * 16 + low),
        None => None,
    }
}

/// The characters at `i` and after it are two of one byte each.
pub open spec fn is_byte_pair(chars: Seq<char>, i: int) -> bool {
    i + 1 < chars.len() && text::bytes(chars[i]) == 1 && text::bytes(chars[i + 1]) == 1
}

fn has_byte_pair(chars: &Vec<char>, i: usize) -> (result: bool)
    requires
        i < chars@.len(),
    ensures
        result == is_byte_pair(chars@, i as int),
{
    if chars.len() - i < 2 {
        return false;
    }
    (chars[i] as u32) < 0x80 && (chars[i + 1] as u32) < 0x80
}

/// The bytes that the characters from `i` on denote, two by two, up to the
/// first two that denote none.
pub open spec fn hex_from(chars: Seq<char>, i: int) -> Result<Seq<u8>, ErrorView>
    decreases chars.len() - i,
{
    if i >= chars.len() {
        Ok(Seq::empty())
    } else if is_byte_pair(chars, i) {
        match hex_byte(chars[i], chars[i + 1]) {
            None => error::refused(
                "invalid hex byte "@ + native::quoted(seq![chars[i], chars[i + 1]]),
            ),
            Some(byte) => match hex_from(chars, i + 2) {
                Ok(rest) => Ok(seq![byte as u8] + rest),
                Err(e) => Err(e),
            },
        }
    } else {
        error::refused("invalid hex byte "@ + native::quoted(seq![chars[i]]))
    }
}

/// No two bytes that have to be read from `i` on cut a character.
pub open spec fn clean_from(chars: Seq<char>, i: int) -> bool
    decreases chars.len() - i,
{
    if i >= chars.len() {
        true
    } else if is_byte_pair(chars, i) {
        hex_byte(chars[i], chars[i + 1]) is Some ==> clean_from(chars, i + 2)
    } else {
        text::bytes(chars[i]) == 2
    }
}

/// The text is made of an even number of bytes.
pub open spec fn is_even(value: Seq<char>) -> bool {
    vstd::utf8::encode_utf8(value).len() % 2 == 0
}

fn check_clean(value: &str) -> (result: bool)
    ensures
        result == clean_from(value@, 0),
{
    let chars = chars_of(value);
    let mut i: usize = 0;
    while i < chars.len()
        invariant
            i <= chars@.len(),
            chars@ == value@,
            clean_from(value@, 0) == clean_from(value@, i as int),
        decreases chars@.len() - i,
    {
        if has_byte_pair(&chars, i) {
            if read_hex_byte(chars[i], chars[i + 1]).is_none() {
                return true;
            }
            i += 2;
        } else {
            let c: u32 = chars[i] as u32;
            return 0x80 <= c && c < 0x800;
        }
    }
    true
}

/// The bytes that a hexadecimal text denotes.
pub open spec fn hex_outcome(value: Seq<char>) -> Result<Seq<u8>, ErrorView> {
    if !is_even(value) {
        error::refused("hex value has odd length"@)
    } else {
        hex_from(value, 0)
    }
}

/// Reads a hexadecimal text.
pub fn decode_hex(value: &str) -> (result: Result<Vec<u8>, Error>)
    requires
        is_even(value@) ==> clean_from(value@, 0),
    ensures
        match result {
            Ok(bytes) => hex_outcome(value@) == Ok::<Seq<u8>, ErrorView>(bytes@),
            Err(e) => hex_outcome(value@) == Err::<Seq<u8>, ErrorView>(e@),
        },
{
    if value.as_bytes().len() % 2 != 0 {
        return Err(message("hex value has odd length"));
    }
    let chars = chars_of(value);
    let mut bytes: Vec<u8> = Vec::new();
    let mut i: usize = 0;
    proof {
        if let Ok(rest) = hex_from(value@, 0) {
            assert(Seq::<u8>::empty() + rest =~= rest);
        }
    }
    while i < chars.len()
        invariant
            i <= chars@.len(),
            chars@ == value@,
            is_even(value@),
            hex_from(value@, 0) == match hex_from(value@, i as int) {
                Ok(rest) => Ok(bytes@ + rest),
                Err(e) => Err(e),
            },
        decreases chars@.len() - i,
    {
        if has_byte_pair(&chars, i) {
            match read_hex_byte(chars[i], chars[i + 1]) {
                Some(byte) => {
                    let ghost before = bytes@;
                    bytes.push(byte);
                    proof {
                        if let Ok(rest) = hex_from(value@, i + 2) {
                            assert(before + (seq![byte] + rest) =~= bytes@ + rest);
                        }
                    }
                },
                None => {
                    assert(value@.subrange(i as int, i + 2) =~= seq![
                        value@[i as int],
                        value@[i + 1],
                    ]);
                    let pair = text_between(&chars, i, i + 2);
                    let pair = quote(pair.as_str());
                    return Err(Error::Message(joined("invalid hex byte ", pair.as_str())));
                },
            }
            i += 2;
        } else {
            assert(value@.subrange(i as int, i + 1) =~= seq![value@[i as int]]);
            let pair = text_between(&chars, i, i + 1);
            let pair = quote(pair.as_str());
            return Err(Error::Message(joined("invalid hex byte ", pair.as_str())));
        }
    }
    proof {
        assert(bytes@ + Seq::<u8>::empty() =~= bytes@);
    }
    Ok(bytes)
}

/// The bytes that a hexadecimal text denotes, where it denotes any.
pub open spec fn hash_bytes(hash: Seq<char>) -> Option<Seq<u8>> {
    if is_even(hash) && clean_from(hash, 0) {
        match hex_from(hash, 0) {
            Ok(bytes) => Some(bytes),
            Err(_) => None,
        }
    } else {
        None
    }
}

fn read_hash(hash: &str) -> (bytes: Option<Vec<u8>>)
    ensures
        match bytes {
            Some(bytes) => hash_bytes(hash@) == Some(bytes@),
            None => hash_bytes(hash@) is None,
        },
{
    if hash.as_bytes().len() % 2 != 0 || !check_clean(hash) {
        return None;
    }
    match decode_hex(hash) {
        Ok(bytes) => Some(bytes),
        Err(_) => None,
    }
}

// ---------------------------------------------------------------------------
// Fields
// ---------------------------------------------------------------------------

/// How many of the first `n` pairs are named `hash`.
pub open spec fn hash_count(pairs: Seq<(Seq<char>, Seq<char>)>, n: int) -> nat
    decreases n,
{
    if n <= 0 {
        0
    } else {
        hash_count(pairs, n - 1) + if pairs[n - 1].0 == "hash"@ {
            1nat
        } else {
            0nat
        }
    }
}

/// The value of the last of the first `n` pairs that is named `hash`.
pub open spec fn last_hash(pairs: Seq<(Seq<char>, Seq<char>)>, n: int) -> Seq<char>
    decreases n,
{
    if n <= 0 {
        Seq::empty()
    } else if pairs[n - 1].0 == "hash"@ {
        pairs[n - 1].1
    } else {
        last_hash(pairs, n - 1)
    }
}

/// The values under their names in the first `n` pairs, the hash and the
/// signature left out; nothing where a name stands twice.
pub open spec fn fields_among(pairs: Seq<(Seq<char>, Seq<char>)>, n: int) -> Option<
    Map<Seq<char>, Seq<char>>,
>
    decreases n,
{
    if n <= 0 {
        Some(Map::empty())
    } else {
        match fields_among(pairs, n - 1) {
            None => None,
            Some(fields) => {
                let (name, value) = pairs[n - 1];
                if name == "hash"@ || name == "signature"@ {
                    Some(fields)
                } else if fields.contains_key(name) {
                    None
                } else {
                    Some(fields.insert(name, value))
                }
            },
        }
    }
}

proof fn lemma_fields_doubled(pairs: Seq<(Seq<char>, Seq<char>)>, n: int, m: int)
    requires
        fields_among(pairs, n) is None,
        0 <= n <= m,
    ensures
        fields_among(pairs, m) is None,
    decreases m - n,
{
    if n < m {
        lemma_fields_doubled(pairs, n, m - 1);
    }
}

/// Data that is signed: the hash, and the fields that it is a hash of.
pub struct Signed {
    pub hash: String,
    pub fields: TextMap<String>,
}

/// What a map of texts holds.
pub open spec fn texts(map: TextMap<String>) -> Map<Seq<char>, Seq<char>> {
    Map::new(|k: Seq<char>| map@.contains_key(k), |k: Seq<char>| map@[k]@)
}

/// The hash and the fields of data, or why it is not signed.
pub open spec fn signed_outcome(pairs: Seq<(Seq<char>, Seq<char>)>) -> Result<
    (Seq<char>, Map<Seq<char>, Seq<char>>),
    ErrorView,
> {
    if hash_count(pairs, pairs.len() as int) != 1 {
        error::refused("Telegram Mini App init data must contain exactly one hash"@)
    } else {
        match fields_among(pairs, pairs.len() as int) {
            None => error::refused("Telegram Mini App init data contains duplicate fields"@),
            Some(fields) => Ok((last_hash(pairs, pairs.len() as int), fields)),
        }
    }
}

/// Finds the hash and the fields of data.
pub fn read_signed(pairs: &Vec<(String, String)>) -> (result: Result<Signed, Error>)
    ensures
        match result {
            Ok(signed) => signed_outcome(pair_views(pairs@)) == Ok::<
                (Seq<char>, Map<Seq<char>, Seq<char>>),
                ErrorView,
            >((signed.hash@, texts(signed.fields))),
            Err(e) => signed_outcome(pair_views(pairs@)) == Err::<
                (Seq<char>, Map<Seq<char>, Seq<char>>),
                ErrorView,
            >(e@),
        },
{
    let ghost views = pair_views(pairs@);
    let mut count: usize = 0;
    let mut hash: String = String::new();
    assert(hash@ =~= Seq::<char>::empty());
    let mut i: usize = 0;
    while i < pairs.len()
        invariant
            i <= pairs@.len(),
            views == pair_views(pairs@),
            count <= i,
            count == hash_count(views, i as int),
            hash@ == last_hash(views, i as int),
        decreases pairs@.len() - i,
    {
        assert(views[i as int] == (pairs@[i as int].0@, pairs@[i as int].1@));
        if same(pairs[i].0.as_str(), "hash") {
            count += 1;
            hash = pairs[i].1.clone();
        }
        i += 1;
    }
    if count != 1 {
        return Err(message("Telegram Mini App init data must contain exactly one hash"));
    }
    let mut fields: TextMap<String> = TextMap::new();
    assert(texts(fields) =~= Map::empty());
    let mut i: usize = 0;
    while i < pairs.len()
        invariant
            i <= pairs@.len(),
            views == pair_views(pairs@),
            hash_count(views, views.len() as int) == 1,
            fields_among(views, i as int) == Some(texts(fields)),
        decreases pairs@.len() - i,
    {
        assert(views[i as int] == (pairs@[i as int].0@, pairs@[i as int].1@));
        let name: &str = pairs[i].0.as_str();
        if !same(name, "hash") && !same(name, "signature") {
            if fields.contains_key(name) {
                proof {
                    lemma_fields_doubled(views, i + 1, views.len() as int);
                }
                return Err(message("Telegram Mini App init data contains duplicate fields"));
            }
            let ghost before = texts(fields);
            let value = pairs[i].1.clone();
            let ghost shown = value@;
            fields.insert(name, value);
            assert(texts(fields) =~= before.insert(name@, shown));
        }
        i += 1;
    }
    Ok(Signed { hash, fields })
}

/// The lines of the first `n` fields.
pub open spec fn lines(fields: Map<Seq<char>, Seq<char>>, names: Seq<Seq<char>>, n: int) -> Seq<char>
    decreases n,
{
    if n <= 0 {
        Seq::empty()
    } else {
        (if n == 1 {
            Seq::empty()
        } else {
            lines(fields, names, n - 1) + "\n"@
        }) + names[n - 1] + "="@ + fields[names[n - 1]]
    }
}

/// What the hash is a hash of: the fields by name in order, a line for each.
pub open spec fn check_text(fields: Map<Seq<char>, Seq<char>>) -> Seq<char> {
    let names = json::sorted_keys(fields.dom());
    lines(fields, names, names.len() as int)
}

fn write_check_text(fields: &TextMap<String>) -> (result: String)
    ensures
        result@ == check_text(texts(*fields)),
{
    let ghost all = texts(*fields);
    let ghost names = fields.keys();
    let n: usize = fields.len();
    proof {
        assert(all.dom() =~= fields@.dom());
        json::lemma_sorted_keys(names, all.dom());
    }
    let mut result: String = String::new();
    assert(result@ =~= Seq::<char>::empty());
    let mut i: usize = 0;
    while i < n
        invariant
            i <= n,
            n == names.len(),
            names == fields.keys(),
            all == texts(*fields),
            json::lists_keys(names, fields@.dom()),
            result@ == lines(all, names, i as int),
        decreases n - i,
    {
        let (name, value) = fields.entry(i);
        let line = joined3(name, "=", value.as_str());
        let ghost before = result@;
        if i == 0 {
            result = line;
            assert(result@ =~= Seq::<char>::empty() + name@ + "="@ + value@);
        } else {
            result = joined3(result.as_str(), "\n", line.as_str());
            assert(result@ =~= before + "\n"@ + name@ + "="@ + value@);
        }
        i += 1;
    }
    result
}

/// The tag that data must carry: under the key that the token gives.
pub open spec fn signature(token: Seq<char>, fields: Map<Seq<char>, Seq<char>>) -> Seq<u8> {
    hmac_sha256(
        hmac_sha256(vstd::utf8::encode_utf8("WebAppData"@), vstd::utf8::encode_utf8(token)),
        vstd::utf8::encode_utf8(check_text(fields)),
    )
}

// ---------------------------------------------------------------------------
// Values
// ---------------------------------------------------------------------------

/// A field that holds a document.
pub open spec fn is_document(name: Seq<char>) -> bool {
    name == "user"@ || name == "receiver"@ || name == "chat"@
}

/// A field that holds a point in time.
pub open spec fn is_time(name: Seq<char>) -> bool {
    name == "auth_date"@ || name == "can_send_after"@
}

/// The value of a field that holds a document, by what its text parses to.
pub open spec fn document_outcome(name: Seq<char>, document: Result<JsonView, Seq<char>>) -> Result<
    JsonView,
    ErrorView,
> {
    match document {
        Ok(value) => Ok(value),
        Err(_) => error::refused("invalid Telegram Mini App "@ + name + " JSON"@),
    }
}

/// Takes what the text of a field parsed to.
pub fn take_document(name: &str, document: Result<Json, String>) -> (result: Result<Json, Error>)
    ensures
        error::shown(result) == document_outcome(
            name@,
            match document {
                Ok(json) => Ok(json@),
                Err(reason) => Err(reason@),
            },
        ),
{
    match document {
        Ok(value) => Ok(value),
        Err(_) => Err(Error::Message(joined3("invalid Telegram Mini App ", name, " JSON"))),
    }
}

/// The value of a field.
pub open spec fn value_outcome(name: Seq<char>, value: Seq<char>) -> Result<JsonView, ErrorView> {
    if is_document(name) {
        document_outcome(name, document::parsed(value))
    } else if is_time(name) {
        Ok(
            match text::i64_value(value) {
                Some(time) => JsonView::Integer(time as int),
                None => JsonView::Text(value),
            },
        )
    } else {
        Ok(JsonView::Text(value))
    }
}

fn read_value(name: &str, value: &str) -> (result: Result<Json, Error>)
    ensures
        error::shown(result) == value_outcome(name@, value@),
{
    if same(name, "user") || same(name, "receiver") || same(name, "chat") {
        take_document(name, document::parse(value))
    } else if same(name, "auth_date") || same(name, "can_send_after") {
        Ok(
            match parse_i64(value) {
                Some(time) => Json::integer(time),
                None => Json::text(value),
            },
        )
    } else {
        Ok(Json::text(value))
    }
}

/// The values of the first `n` fields, up to the first that cannot be read.
pub open spec fn values_outcome(
    fields: Map<Seq<char>, Seq<char>>,
    names: Seq<Seq<char>>,
    n: int,
) -> Result<Map<Seq<char>, JsonView>, ErrorView>
    decreases n,
{
    if n <= 0 {
        Ok(json::no_fields())
    } else {
        match values_outcome(fields, names, n - 1) {
            Err(e) => Err(e),
            Ok(members) => match value_outcome(names[n - 1], fields[names[n - 1]]) {
                Err(e) => Err(e),
                Ok(value) => Ok(members.insert(names[n - 1], value)),
            },
        }
    }
}

proof fn lemma_values_refused(
    fields: Map<Seq<char>, Seq<char>>,
    names: Seq<Seq<char>>,
    n: int,
    m: int,
)
    requires
        values_outcome(fields, names, n) is Err,
        0 <= n <= m,
    ensures
        values_outcome(fields, names, m) == values_outcome(fields, names, n),
    decreases m - n,
{
    if n < m {
        lemma_values_refused(fields, names, n, m - 1);
    }
}

/// What data says: the values of its fields, and its hash.
pub open spec fn members_outcome(hash: Seq<char>, fields: Map<Seq<char>, Seq<char>>) -> Result<
    Map<Seq<char>, JsonView>,
    ErrorView,
> {
    let names = json::sorted_keys(fields.dom());
    match values_outcome(fields, names, names.len() as int) {
        Err(e) => Err(e),
        Ok(members) => Ok(members.insert("hash"@, JsonView::Text(hash))),
    }
}

fn read_members(signed: &Signed) -> (result: Result<Fields, Error>)
    ensures
        native::shown_fields(result) == members_outcome(signed.hash@, texts(signed.fields)),
{
    let fields: &TextMap<String> = &signed.fields;
    let ghost all = texts(*fields);
    let ghost names = fields.keys();
    let n: usize = fields.len();
    proof {
        assert(all.dom() =~= fields@.dom());
        json::lemma_sorted_keys(names, all.dom());
    }
    let mut members = Fields::none();
    let mut i: usize = 0;
    while i < n
        invariant
            i <= n,
            n == names.len(),
            names == fields.keys(),
            names == json::sorted_keys(all.dom()),
            all == texts(*fields),
            all == texts(signed.fields),
            json::lists_keys(names, fields@.dom()),
            values_outcome(all, names, i as int) == Ok::<Map<Seq<char>, JsonView>, ErrorView>(
                json::fields(members),
            ),
        decreases n - i,
    {
        let (name, value) = fields.entry(i);
        match read_value(name, value.as_str()) {
            Ok(value) => {
                members.put(name, value);
            },
            Err(e) => {
                proof {
                    lemma_values_refused(all, names, i + 1, names.len() as int);
                }
                return Err(e);
            },
        }
        i += 1;
    }
    members.put("hash", Json::text(signed.hash.as_str()));
    Ok(members)
}

/// The number, or the nearest one that 64 bits hold.
pub open spec fn saturated(value: int) -> int {
    if value > i64::MAX {
        i64::MAX as int
    } else if value < i64::MIN {
        i64::MIN as int
    } else {
        value
    }
}

/// Why data is too old, or not to be trusted.
pub open spec fn age_flaw(auth_date: Option<i64>, max_age: Option<Duration>, now: i64) -> Option<
    ErrorView,
> {
    match max_age {
        None => None,
        Some(max_age) => match auth_date {
            None => Some(
                ErrorView::Message("Telegram Mini App init data has no valid auth_date"@),
            ),
            Some(auth_date) => if now < auth_date {
                Some(ErrorView::Message("Telegram Mini App auth_date is in the future"@))
            } else if saturated(now - auth_date) > max_age.seconds {
                Some(ErrorView::Message("Telegram Mini App init data has expired"@))
            } else {
                None
            },
        },
    }
}

/// Accepts data that is not too old; `now` is the time in seconds since the
/// epoch.
pub fn check_age(auth_date: Option<i64>, max_age: Option<Duration>, now: i64) -> (result: Result<
    (),
    Error,
>)
    ensures
        match result {
            Ok(_) => age_flaw(auth_date, max_age, now) is None,
            Err(e) => age_flaw(auth_date, max_age, now) == Some(e@),
        },
{
    if let Some(max_age) = max_age {
        let auth_date: i64 = match auth_date {
            Some(auth_date) => auth_date,
            None => {
                return Err(message("Telegram Mini App init data has no valid auth_date"));
            },
        };
        if now < auth_date {
            return Err(message("Telegram Mini App auth_date is in the future"));
        }
        let exact: i128 = now as i128 - auth_date as i128;
        let age: i128 = if exact > i64::MAX as i128 {
            i64::MAX as i128
        } else {
            exact
        };
        if age > max_age.seconds as i128 {
            return Err(message("Telegram Mini App init data has expired"));
        }
    }
    Ok(())
}

/// What the data of a Mini App says, where it is authentic and not too old.
pub open spec fn init_data_outcome(
    token: Seq<char>,
    pairs: Seq<(Seq<char>, Seq<char>)>,
    max_age: Option<Duration>,
    now: i64,
) -> Result<Map<Seq<char>, JsonView>, ErrorView> {
    match signed_outcome(pairs) {
        Err(e) => Err(e),
        Ok((hash, fields)) => match hash_bytes(hash) {
            None => error::refused("invalid Telegram Mini App hash"@),
            Some(tag) => if tag != signature(token, fields) {
                error::refused("invalid Telegram Mini App signature"@)
            } else {
                match members_outcome(hash, fields) {
                    Err(e) => Err(e),
                    Ok(members) => match age_flaw(
                        json::i64_in(members, "auth_date"@),
                        max_age,
                        now,
                    ) {
                        Some(e) => Err(e),
                        None => Ok(members),
                    },
                }
            },
        },
    }
}

impl TelegramClient {
    /// Reads the data that a Mini App starts with, where it carries the tag
    /// that the token gives and is not older than `max_age`; `now` is the time
    /// in seconds since the epoch.
    pub fn verify_web_app_init_data(
        &self,
        init_data: &str,
        max_age: Option<Duration>,
        now: i64,
    ) -> (result: Result<Fields, Error>)
        ensures
            native::shown_fields(result) == init_data_outcome(
                self@.token,
                form_pairs(init_data@),
                max_age,
                now,
            ),
    {
        let pairs = parse_form(init_data);
        self.verify_pairs(&pairs, max_age, now)
    }

    /// Reads data whose pairs are parsed already.
    pub fn verify_pairs(
        &self,
        pairs: &Vec<(String, String)>,
        max_age: Option<Duration>,
        now: i64,
    ) -> (result: Result<Fields, Error>)
        ensures
            native::shown_fields(result) == init_data_outcome(
                self@.token,
                pair_views(pairs@),
                max_age,
                now,
            ),
    {
        let signed = read_signed(pairs)?;
        let tag = match read_hash(signed.hash.as_str()) {
            Some(tag) => tag,
            None => {
                return Err(message("invalid Telegram Mini App hash"));
            },
        };
        let check = write_check_text(&signed.fields);
        let secret = authenticate("WebAppData".as_bytes(), self.token().as_bytes());
        if !authenticates(secret.as_slice(), check.as_str().as_bytes(), tag.as_slice()) {
            return Err(message("invalid Telegram Mini App signature"));
        }
        let members = read_members(&signed)?;
        check_age(members.i64_at("auth_date"), max_age, now)?;
        Ok(members)
    }
}

/// Data is accepted only where its hash is the tag of its other fields under
/// the token, and, where an age is given, only while it is no older than that.
pub proof fn law_accepted_data_is_authentic(
    token: Seq<char>,
    pairs: Seq<(Seq<char>, Seq<char>)>,
    max_age: Option<Duration>,
    now: i64,
)
    requires
        init_data_outcome(token, pairs, max_age, now) is Ok,
    ensures
        signed_outcome(pairs) matches Ok((hash, fields)) && hash_bytes(hash) == Some(
            signature(token, fields),
        ),
        max_age matches Some(max_age) ==> (json::i64_in(
            init_data_outcome(token, pairs, Some(max_age), now)->Ok_0,
            "auth_date"@,
        ) matches Some(auth_date) && auth_date <= now && saturated(now - auth_date)
            <= max_age.seconds),
{
}

proof fn lemma_field_kept(pairs: Seq<(Seq<char>, Seq<char>)>, n: int, i: int)
    requires
        0 <= i < n <= pairs.len(),
        fields_among(pairs, n) is Some,
        pairs[i].0 != "hash"@,
        pairs[i].0 != "signature"@,
    ensures
        fields_among(pairs, n)->0.contains_key(pairs[i].0),
        fields_among(pairs, n)->0[pairs[i].0] == pairs[i].1,
    decreases n,
{
    if i < n - 1 {
        lemma_field_kept(pairs, n - 1, i);
    }
}

/// Every pair but the hash and the signature of another is signed, each with
/// its own value.
pub proof fn law_every_field_is_signed(pairs: Seq<(Seq<char>, Seq<char>)>, i: int)
    requires
        signed_outcome(pairs) is Ok,
        0 <= i < pairs.len(),
    ensures
        ({
            let (hash, fields) = signed_outcome(pairs)->Ok_0;
            &&& pairs[i].0 != "hash"@ && pairs[i].0 != "signature"@ ==> fields.contains_key(
                pairs[i].0,
            ) && fields[pairs[i].0] == pairs[i].1
            &&& pairs[i].0 == "hash"@ ==> hash == pairs[i].1
        }),
{
    let n = pairs.len() as int;
    if pairs[i].0 != "hash"@ && pairs[i].0 != "signature"@ {
        lemma_field_kept(pairs, n, i);
    }
    if pairs[i].0 == "hash"@ {
        lemma_only_hash(pairs, n, i);
    }
}

proof fn lemma_only_hash(pairs: Seq<(Seq<char>, Seq<char>)>, n: int, i: int)
    requires
        0 <= i < n <= pairs.len(),
        pairs[i].0 == "hash"@,
    ensures
        hash_count(pairs, n) >= 1,
        hash_count(pairs, n) == 1 ==> last_hash(pairs, n) == pairs[i].1,
    decreases n,
{
    if i < n - 1 {
        lemma_only_hash(pairs, n - 1, i);
    }
}

/// Two digits stand for the byte that they write, whether in lowercase or in
/// uppercase: the first for the sixteens, the second for the ones.
pub proof fn law_digits_write_the_byte(a: char, b: char)
    ensures
        '0' <= a <= '9' && '0' <= b <= '9' ==> hex_byte(a, b) == Some(
            (a as int - '0' as int) * 16 + (b as int - '0' as int),
        ),
        'a' <= a <= 'f' && 'a' <= b <= 'f' ==> hex_byte(a, b) == Some(
            (a as int - 'a' as int + 10) * 16 + (b as int - 'a' as int + 10),
        ),
        'A' <= a <= 'F' && 'A' <= b <= 'F' ==> hex_byte(a, b) == Some(
            (a as int - 'A' as int + 10) * 16 + (b as int - 'A' as int + 10),
        ),
{
}

/// What is signed says each field by its name and its value, a line for each, in
/// the order of their names, and the key is made of the token.
pub proof fn law_fields_are_signed_line_by_line(
    token: Seq<char>,
    fields: Map<Seq<char>, Seq<char>>,
    names: Seq<Seq<char>>,
    n: int,
)
    requires
        0 < n <= names.len(),
    ensures
        n == 1 ==> lines(fields, names, n) =~= names[0] + "="@ + fields[names[0]],
        n > 1 ==> lines(fields, names, n) == lines(fields, names, n - 1) + "\n"@ + names[n - 1]
            + "="@ + fields[names[n - 1]],
        signature(token, fields) == hmac_sha256(
            hmac_sha256(vstd::utf8::encode_utf8("WebAppData"@), vstd::utf8::encode_utf8(token)),
            vstd::utf8::encode_utf8(check_text(fields)),
        ),
{
    reveal_with_fuel(lines, 2);
}

/// Users, chats and receivers are documents, points in time are numbers, and
/// everything else is a text.
pub proof fn law_values_are_read_by_name(name: Seq<char>, value: Seq<char>)
    ensures
        name == "user"@ || name == "receiver"@ || name == "chat"@ ==> (value_outcome(name, value) is Ok
            <==> document::parsed(value) is Ok) && (document::parsed(value) matches Ok(read)
            ==> value_outcome(name, value) == Ok::<JsonView, ErrorView>(read)),
        name == "auth_date"@ || name == "can_send_after"@ ==> (text::i64_value(value) matches Some(time)
            ==> value_outcome(name, value) == Ok::<JsonView, ErrorView>(
            JsonView::Integer(time as int),
        )),
        name == "query_id"@ || name == "start_param"@ || name == "chat_instance"@ || name
            == "chat_type"@ ==> value_outcome(name, value) == Ok::<JsonView, ErrorView>(
            JsonView::Text(value),
        ),
{
    lemma_value_names();
}

proof fn lemma_value_names()
    ensures
        "user"@.len() == 4,
        "receiver"@.len() == 8,
        "chat"@.len() == 4,
        "auth_date"@.len() == 9,
        "can_send_after"@.len() == 14,
        "query_id"@.len() == 8,
        "start_param"@.len() == 11,
        "chat_instance"@.len() == 13,
        "chat_type"@.len() == 9,
        "user"@ != "chat"@,
        "receiver"@ != "query_id"@,
        "auth_date"@ != "chat_type"@,
{
    reveal_strlit("user");
    reveal_strlit("receiver");
    reveal_strlit("chat");
    reveal_strlit("auth_date");
    reveal_strlit("can_send_after");
    reveal_strlit("query_id");
    reveal_strlit("start_param");
    reveal_strlit("chat_instance");
    reveal_strlit("chat_type");
    assert("user"@[0] != "chat"@[0]);
    assert("receiver"@[0] != "query_id"@[0]);
    assert("auth_date"@[0] != "chat_type"@[0]);
}

/// Digits in pairs are read as the bytes that they write, one for each pair; a
/// text of an odd length is refused.
pub proof fn law_digits_are_read_in_pairs(value: Seq<char>)
    ensures
        !is_even(value) ==> hex_outcome(value) is Err,
        is_even(value) && value.len() % 2 == 0 && (forall|i: int|
            0 <= i < value.len() ==> ('0' <= #[trigger] value[i] <= '9' || 'a' <= value[i] <= 'f'))
            ==> (hex_outcome(value) matches Ok(bytes) && 2 * bytes.len() == value.len()),
{
    if value.len() % 2 == 0 && forall|i: int|
        0 <= i < value.len() ==> ('0' <= #[trigger] value[i] <= '9' || 'a' <= value[i] <= 'f') {
        lemma_pairs_read(value, 0);
    }
}

proof fn lemma_pairs_read(value: Seq<char>, i: int)
    requires
        0 <= i <= value.len(),
        (value.len() - i) % 2 == 0,
        forall|k: int|
            0 <= k < value.len() ==> ('0' <= #[trigger] value[k] <= '9' || 'a' <= value[k] <= 'f'),
    ensures
        hex_from(value, i) matches Ok(bytes) && 2 * bytes.len() == value.len() - i,
    decreases value.len() - i,
{
    if i < value.len() {
        assert(i + 1 < value.len());
        assert('0' <= value[i] <= '9' || 'a' <= value[i] <= 'f');
        assert('0' <= value[i + 1] <= '9' || 'a' <= value[i + 1] <= 'f');
        lemma_pairs_read(value, i + 2);
    }
}

} // verus!
