//! Texts as sequences of characters: equality, order, decimal numbers and
//! UTF-16 measures.
use vstd::prelude::*;
use vstd::string::*;

verus! {

/// `String::push` appends one character at the end.
pub assume_specification[ std::string::String::push ](string: &mut String, ch: char)
    ensures
        final(string)@ == old(string)@.push(ch),
;

/// The characters of `text`, in order.
pub fn chars_of(text: &str) -> (chars: Vec<char>)
    ensures
        chars@ == text@,
{
    let mut chars: Vec<char> = Vec::new();
    for c in iter: text.chars()
        invariant
            chars@ == iter.seq().take(iter.index() as int),
            iter.seq() == text@,
    {
        chars.push(c);
    }
    chars
}

/// The text made of `chars[from..to]`.
pub fn text_between(chars: &Vec<char>, from: usize, to: usize) -> (text: String)
    requires
        from <= to <= chars.len(),
    ensures
        text@ == chars@.subrange(from as int, to as int),
{
    let mut text = String::new();
    let mut i: usize = from;
    while i < to
        invariant
            from <= i <= to <= chars.len(),
            text@ == chars@.subrange(from as int, i as int),
        decreases to - i,
    {
        text.push(chars[i]);
        i += 1;
    }
    text
}

/// Whether two texts are the same.
pub fn same(a: &str, b: &str) -> (equal: bool)
    ensures
        equal == (a@ == b@),
{
    let left: &[u8] = a.as_bytes();
    let right: &[u8] = b.as_bytes();
    if left.len() != right.len() {
        return false;
    }
    let mut i: usize = 0;
    while i < left.len()
        invariant
            i <= left.len(),
            left.len() == right.len(),
            left@ == a.spec_bytes(),
            right@ == b.spec_bytes(),
            forall|j: int| 0 <= j < i ==> left@[j] == right@[j],
        decreases left.len() - i,
    {
        if left[i] != right[i] {
            return false;
        }
        i += 1;
    }
    proof {
        assert(left@ =~= right@);
        vstd::utf8::encode_utf8_decode_utf8(a@);
        vstd::utf8::encode_utf8_decode_utf8(b@);
    }
    true
}

/// `first` followed by `second`.
pub fn joined(first: &str, second: &str) -> (text: String)
    ensures
        text@ == first@ + second@,
{
    let mut text = first.to_owned();
    text.append(second);
    text
}

/// `first`, `second` and `third`, one after the other.
pub fn joined3(first: &str, second: &str, third: &str) -> (text: String)
    ensures
        text@ == first@ + second@ + third@,
{
    let mut text = first.to_owned();
    text.append(second);
    text.append(third);
    text
}

// ---------------------------------------------------------------------------
// Order
// ---------------------------------------------------------------------------

/// Lexicographic order by code point.
pub open spec fn before(a: Seq<char>, b: Seq<char>) -> bool
    decreases a.len(),
{
    if b.len() == 0 {
        false
    } else if a.len() == 0 {
        true
    } else if a[0] == b[0] {
        before(a.skip(1), b.skip(1))
    } else {
        a[0] < b[0]
    }
}

pub proof fn lemma_before_irreflexive(a: Seq<char>)
    ensures
        !before(a, a),
    decreases a.len(),
{
    if a.len() > 0 {
        lemma_before_irreflexive(a.skip(1));
    }
}

pub proof fn lemma_before_total(a: Seq<char>, b: Seq<char>)
    ensures
        before(a, b) || a == b || before(b, a),
    decreases a.len(),
{
    if a.len() > 0 && b.len() > 0 && a[0] == b[0] {
        lemma_before_total(a.skip(1), b.skip(1));
        if a.skip(1) == b.skip(1) {
            assert(a =~= seq![a[0]] + a.skip(1));
            assert(b =~= seq![b[0]] + b.skip(1));
        }
    } else if a.len() == 0 && b.len() == 0 {
        assert(a =~= b);
    }
}

pub proof fn lemma_before_transitive(a: Seq<char>, b: Seq<char>, c: Seq<char>)
    requires
        before(a, b),
        before(b, c),
    ensures
        before(a, c),
    decreases a.len(),
{
    if a.len() > 0 && b.len() > 0 && c.len() > 0 && a[0] == b[0] && b[0] == c[0] {
        lemma_before_transitive(a.skip(1), b.skip(1), c.skip(1));
    }
}

pub proof fn lemma_before_asymmetric(a: Seq<char>, b: Seq<char>)
    requires
        before(a, b),
    ensures
        !before(b, a),
        a != b,
{
    lemma_before_irreflexive(a);
    if before(b, a) {
        lemma_before_transitive(a, b, a);
    }
}

/// Whether `a` comes before `b`.
pub fn is_before(a: &str, b: &str) -> (less: bool)
    ensures
        less == before(a@, b@),
{
    let left = chars_of(a);
    let right = chars_of(b);
    let mut i: usize = 0;
    assert(a@.skip(0) =~= a@ && b@.skip(0) =~= b@);
    while i < left.len() && i < right.len() && left[i] == right[i]
        invariant
            i <= left.len(),
            i <= right.len(),
            left@ == a@,
            right@ == b@,
            before(a@, b@) == before(a@.skip(i as int), b@.skip(i as int)),
        decreases left.len() - i,
    {
        proof {
            assert(a@.skip(i as int).skip(1) =~= a@.skip(i + 1));
            assert(b@.skip(i as int).skip(1) =~= b@.skip(i + 1));
        }
        i += 1;
    }
    if i == right.len() {
        false
    } else if i == left.len() {
        true
    } else {
        left[i] < right[i]
    }
}

// ---------------------------------------------------------------------------
// White space and ASCII classes
// ---------------------------------------------------------------------------

/// The characters with the Unicode property `White_Space`.
pub open spec fn is_white(c: char) -> bool {
    let u = c as u32;
    ||| 0x09 <= u <= 0x0d
    ||| u == 0x20
    ||| u == 0x85
    ||| u == 0xa0
    ||| u == 0x1680
    ||| 0x2000 <= u <= 0x200a
    ||| u == 0x2028
    ||| u == 0x2029
    ||| u == 0x202f
    ||| u == 0x205f
    ||| u == 0x3000
}

/// Whether the text holds nothing but white space.
pub open spec fn blank(text: Seq<char>) -> bool {
    forall|i: int| 0 <= i < text.len() ==> is_white(#[trigger] text[i])
}

pub fn is_white_char(c: char) -> (white: bool)
    ensures
        white == is_white(c),
{
    let u: u32 = c as u32;
    (0x09 <= u && u <= 0x0d) || u == 0x20 || u == 0x85 || u == 0xa0 || u == 0x1680 || (0x2000 <= u
        && u <= 0x200a) || u == 0x2028 || u == 0x2029 || u == 0x202f || u == 0x205f || u == 0x3000
}

/// Whether the text is empty or made of white space alone.
pub fn is_blank(text: &str) -> (result: bool)
    ensures
        result == blank(text@),
{
    let chars = chars_of(text);
    let mut i: usize = 0;
    while i < chars.len()
        invariant
            i <= chars.len(),
            chars@ == text@,
            forall|j: int| 0 <= j < i ==> is_white(#[trigger] text@[j]),
        decreases chars.len() - i,
    {
        if !is_white_char(chars[i]) {
            assert(!is_white(text@[i as int]));
            return false;
        }
        i += 1;
    }
    true
}

pub open spec fn is_digit(c: char) -> bool {
    '0' <= c <= '9'
}

pub open spec fn is_lower(c: char) -> bool {
    'a' <= c <= 'z'
}

pub open spec fn is_upper(c: char) -> bool {
    'A' <= c <= 'Z'
}

pub open spec fn is_alphanumeric(c: char) -> bool {
    is_digit(c) || is_lower(c) || is_upper(c)
}

/// The text without the white space at its ends.
pub open spec fn trimmed(text: Seq<char>) -> Seq<char>
    decreases text.len(),
{
    if text.len() == 0 {
        text
    } else if is_white(text[0]) {
        trimmed(text.skip(1))
    } else if is_white(text.last()) {
        trimmed(text.drop_last())
    } else {
        text
    }
}

/// Removes the white space at both ends.
pub fn trim(text: &str) -> (result: String)
    ensures
        result@ == trimmed(text@),
{
    let chars = chars_of(text);
    let mut from: usize = 0;
    let mut to: usize = chars.len();
    assert(chars@.subrange(0, chars@.len() as int) =~= chars@);
    while from < to && is_white_char(chars[from])
        invariant
            from <= to <= chars@.len(),
            chars@ == text@,
            trimmed(text@) == trimmed(chars@.subrange(from as int, to as int)),
        decreases to - from,
    {
        assert(chars@.subrange(from as int, to as int).skip(1) =~= chars@.subrange(
            from + 1,
            to as int,
        ));
        from += 1;
    }
    while from < to && is_white_char(chars[to - 1])
        invariant
            from <= to <= chars@.len(),
            chars@ == text@,
            from < to ==> !is_white(chars@[from as int]),
            trimmed(text@) == trimmed(chars@.subrange(from as int, to as int)),
        decreases to - from,
    {
        assert(chars@.subrange(from as int, to as int).drop_last() =~= chars@.subrange(
            from as int,
            to - 1,
        ));
        to -= 1;
    }
    text_between(&chars, from, to)
}

/// The index of the first `separator` in the text.
pub open spec fn first_index(text: Seq<char>, separator: char) -> Option<int> {
    if exists|i: int| is_first(text, separator, i) {
        Some(choose|i: int| is_first(text, separator, i))
    } else {
        None
    }
}

/// `separator` stands at index `i` and nowhere before.
pub open spec fn is_first(text: Seq<char>, separator: char, i: int) -> bool {
    &&& 0 <= i < text.len()
    &&& text[i] == separator
    &&& forall|j: int| 0 <= j < i ==> #[trigger] text[j] != separator
}

/// Where a character first stands is one place.
pub proof fn lemma_first_index(text: Seq<char>, separator: char, i: int)
    requires
        is_first(text, separator, i),
    ensures
        first_index(text, separator) == Some(i),
{
    let other = choose|k: int| is_first(text, separator, k);
    assert(other == i) by {
        if other < i {
            assert(text[other] != separator);
        } else if i < other {
            assert(text[i] != separator);
        }
    }
}

/// The parts of a text before and after the first `separator`.
pub open spec fn split_once(text: Seq<char>, separator: char) -> Option<(Seq<char>, Seq<char>)> {
    match first_index(text, separator) {
        Some(i) => Some((text.take(i), text.skip(i + 1))),
        None => None,
    }
}

/// Splits a text at the first `separator`.
pub fn split_at_first(text: &str, separator: char) -> (result: Option<(String, String)>)
    ensures
        match result {
            Some((before, after)) => split_once(text@, separator) == Some((before@, after@)),
            None => split_once(text@, separator) is None,
        },
{
    let chars = chars_of(text);
    let mut i: usize = 0;
    while i < chars.len()
        invariant
            i <= chars@.len(),
            chars@ == text@,
            forall|j: int| 0 <= j < i ==> #[trigger] text@[j] != separator,
        decreases chars@.len() - i,
    {
        if chars[i] == separator {
            let before = text_between(&chars, 0, i);
            let after = text_between(&chars, i + 1, chars.len());
            proof {
                assert(is_first(text@, separator, i as int));
                lemma_first_index(text@, separator, i as int);
                assert(before@ =~= text@.take(i as int));
                assert(after@ =~= text@.skip(i + 1));
            }
            return Some((before, after));
        }
        i += 1;
    }
    None
}

/// Whether the text holds the character.
pub fn holds_char(text: &str, c: char) -> (found: bool)
    ensures
        found == text@.contains(c),
{
    let chars = chars_of(text);
    let mut i: usize = 0;
    while i < chars.len()
        invariant
            i <= chars@.len(),
            chars@ == text@,
            forall|j: int| 0 <= j < i ==> #[trigger] text@[j] != c,
        decreases chars@.len() - i,
    {
        if chars[i] == c {
            assert(text@[i as int] == c);
            return true;
        }
        i += 1;
    }
    false
}

// ---------------------------------------------------------------------------
// Decimal numbers
// ---------------------------------------------------------------------------

pub open spec fn digit_char(d: nat) -> char {
    (48 + d) as char
}

/// The decimal digits of `n`, without leading zeros.
pub open spec fn digits(n: nat) -> Seq<char>
    decreases n,
{
    if n < 10 {
        seq![digit_char(n)]
    } else {
        digits(n / 10).push(digit_char(n % 10))
    }
}

/// The decimal text of an integer.
pub open spec fn decimal(value: int) -> Seq<char> {
    if value < 0 {
        seq!['-'] + digits((-value) as nat)
    } else {
        digits(value as nat)
    }
}

pub open spec fn all_digits(text: Seq<char>) -> bool {
    forall|i: int| 0 <= i < text.len() ==> is_digit(#[trigger] text[i])
}

/// What a run of decimal digits denotes.
pub open spec fn digits_value(text: Seq<char>) -> nat
    decreases text.len(),
{
    if text.len() == 0 {
        0
    } else {
        digits_value(text.drop_last()) * 10 + (text.last() as nat - 48) as nat
    }
}

pub open spec fn unsigned_value(text: Seq<char>) -> Option<nat> {
    if text.len() > 0 && all_digits(text) {
        Some(digits_value(text))
    } else {
        None
    }
}

/// What a decimal integer denotes: an optional sign, then at least one digit.
pub open spec fn integer_value(text: Seq<char>) -> Option<int> {
    if text.len() > 0 && text[0] == '-' {
        match unsigned_value(text.skip(1)) {
            Some(n) => Some(-(n as int)),
            None => None,
        }
    } else {
        let body = if text.len() > 0 && text[0] == '+' {
            text.skip(1)
        } else {
            text
        };
        match unsigned_value(body) {
            Some(n) => Some(n as int),
            None => None,
        }
    }
}

/// The `i64` that a text denotes, if it denotes one.
pub open spec fn i64_value(text: Seq<char>) -> Option<i64> {
    match integer_value(text) {
        Some(n) => if i64::MIN <= n <= i64::MAX {
            Some(n as i64)
        } else {
            None
        },
        None => None,
    }
}

proof fn lemma_digits(n: nat)
    ensures
        digits(n).len() > 0,
        all_digits(digits(n)),
        digits_value(digits(n)) == n,
    decreases n,
{
    if n < 10 {
        let text = digits(n);
        assert(text.drop_last() =~= Seq::<char>::empty());
        assert(digits_value(text.drop_last()) == 0);
    } else {
        lemma_digits(n / 10);
        let text = digits(n);
        assert(text.drop_last() =~= digits(n / 10));
    }
}

/// A decimal text denotes the integer it was written for.
pub proof fn lemma_decimal_round_trip(value: int)
    ensures
        decimal(value).len() > 0,
        integer_value(decimal(value)) == Some(value),
        forall|i: int|
            0 <= i < decimal(value).len() ==> (#[trigger] decimal(value)[i] == '-' || is_digit(
                decimal(value)[i],
            )),
{
    let magnitude = if value < 0 {
        (-value) as nat
    } else {
        value as nat
    };
    lemma_digits(magnitude);
    if value < 0 {
        assert(decimal(value).skip(1) =~= digits(magnitude));
    } else {
        assert(is_digit(decimal(value)[0]));
    }
}

fn push_digits(text: &mut String, n: u64)
    ensures
        final(text)@ == old(text)@ + digits(n as nat),
    decreases n,
{
    if n >= 10 {
        push_digits(text, n / 10);
    }
    let d: u8 = (n % 10) as u8;
    let c: char = (48 + d) as char;
    text.push(c);
    proof {
        if n < 10 {
            assert(old(text)@ + digits(n as nat) =~= old(text)@.push(c));
        } else {
            assert(old(text)@ + digits(n as nat) =~= (old(text)@ + digits((n / 10) as nat)).push(c));
        }
    }
}

/// The decimal text of `value`.
pub fn u64_text(value: u64) -> (text: String)
    ensures
        text@ == decimal(value as int),
{
    let mut text = String::new();
    push_digits(&mut text, value);
    assert(text@ =~= digits(value as nat));
    text
}

/// The decimal text of `value`.
pub fn i64_text(value: i64) -> (text: String)
    ensures
        text@ == decimal(value as int),
{
    let mut text = String::new();
    if value < 0 {
        text.push('-');
        let magnitude: u64 = (-(value + 1)) as u64 + 1;
        push_digits(&mut text, magnitude);
        assert(text@ =~= decimal(value as int));
    } else {
        push_digits(&mut text, value as u64);
        assert(text@ =~= decimal(value as int));
    }
    text
}

/// Reads `chars[from..]` as decimal digits that denote at most `limit`.
fn parse_digits(chars: &Vec<char>, from: usize, limit: u64) -> (result: Option<u64>)
    requires
        from <= chars.len(),
    ensures
        result == match unsigned_value(chars@.skip(from as int)) {
            Some(n) => if n <= limit {
                Some(n as u64)
            } else {
                None
            },
            None => None,
        },
{
    let ghost body = chars@.skip(from as int);
    if from == chars.len() {
        return None;
    }
    let mut value: u64 = 0;
    let mut over = false;
    let mut i: usize = from;
    while i < chars.len()
        invariant
            from <= i <= chars.len(),
            body == chars@.skip(from as int),
            all_digits(body.take(i - from)),
            over ==> digits_value(body.take(i - from)) > limit,
            !over ==> value == digits_value(body.take(i - from)) && value <= limit,
        decreases chars.len() - i,
    {
        let c: char = chars[i];
        let ghost done = body.take(i - from);
        let ghost next = body.take(i + 1 - from);
        assert(next.drop_last() =~= done);
        assert(next.last() == c);
        if !('0' <= c && c <= '9') {
            assert(!is_digit(body[i - from]));
            return None;
        }
        assert(all_digits(next)) by {
            assert forall|k: int| 0 <= k < next.len() implies is_digit(#[trigger] next[k]) by {
                if k < done.len() {
                    assert(next[k] == done[k]);
                }
            }
        }
        if !over {
            let wide: u128 = (value as u128) * 10 + (c as u128 - 48);
            if wide <= limit as u128 {
                value = wide as u64;
            } else {
                over = true;
            }
        }
        i += 1;
    }
    assert(body.take(chars.len() - from) =~= body);
    if over {
        None
    } else {
        Some(value)
    }
}

/// Parses a signed 64-bit decimal integer.
pub fn parse_i64(text: &str) -> (result: Option<i64>)
    ensures
        result == i64_value(text@),
{
    let chars = chars_of(text);
    if chars.len() > 0 && chars[0] == '-' {
        match parse_digits(&chars, 1, 9_223_372_036_854_775_808) {
            Some(n) => {
                if n == 9_223_372_036_854_775_808 {
                    Some(i64::MIN)
                } else {
                    Some(-(n as i64))
                }
            },
            None => None,
        }
    } else {
        let from: usize = if chars.len() > 0 && chars[0] == '+' {
            1
        } else {
            0
        };
        assert(from == 0 ==> chars@.skip(0) =~= chars@);
        match parse_digits(&chars, from, 9_223_372_036_854_775_807) {
            Some(n) => Some(n as i64),
            None => None,
        }
    }
}

// ---------------------------------------------------------------------------
// UTF-16
// ---------------------------------------------------------------------------

/// How many UTF-16 code units a character takes.
pub open spec fn units(c: char) -> nat {
    if (c as u32) < 0x10000 {
        1
    } else {
        2
    }
}

/// The length of a text in UTF-16 code units.
pub open spec fn units_of(text: Seq<char>) -> nat
    decreases text.len(),
{
    if text.len() == 0 {
        0
    } else {
        units_of(text.drop_last()) + units(text.last())
    }
}

pub proof fn lemma_units_of_bound(text: Seq<char>)
    ensures
        text.len() <= units_of(text) <= 2 * text.len(),
    decreases text.len(),
{
    if text.len() > 0 {
        lemma_units_of_bound(text.drop_last());
    }
}

pub proof fn lemma_units_of_add(a: Seq<char>, b: Seq<char>)
    ensures
        units_of(a + b) == units_of(a) + units_of(b),
    decreases b.len(),
{
    if b.len() == 0 {
        assert(a + b =~= a);
    } else {
        assert((a + b).drop_last() =~= a + b.drop_last());
        lemma_units_of_add(a, b.drop_last());
    }
}

pub proof fn lemma_units_of_bytes(text: Seq<char>)
    ensures
        units_of(text) <= vstd::utf8::encode_utf8(text).len(),
    decreases text.len(),
{
    if text.len() > 0 {
        let first = seq![text[0]];
        assert(text =~= first + text.drop_first());
        lemma_units_of_add(first, text.drop_first());
        assert(first.drop_last() =~= Seq::<char>::empty());
        assert(units_of(first) == units(text[0])) by {
            assert(units_of(first.drop_last()) == 0);
        }
        lemma_units_of_bytes(text.drop_first());
    }
}

/// The length of a text in UTF-16 code units.
pub fn utf16_len(text: &str) -> (n: usize)
    ensures
        n == units_of(text@),
{
    let bytes: usize = text.as_bytes().len();
    let chars = chars_of(text);
    let mut total: usize = 0;
    let mut i: usize = 0;
    proof {
        lemma_units_of_bytes(text@);
    }
    while i < chars.len()
        invariant
            i <= chars@.len(),
            chars@ == text@,
            units_of(text@) <= bytes,
            total == units_of(text@.take(i as int)),
        decreases chars@.len() - i,
    {
        proof {
            assert(text@.take(i + 1).drop_last() =~= text@.take(i as int));
            assert(text@ =~= text@.take(i + 1) + text@.skip(i + 1));
            lemma_units_of_add(text@.take(i + 1), text@.skip(i + 1));
        }
        total = total + char_units(chars[i]);
        i += 1;
    }
    assert(text@.take(chars@.len() as int) =~= text@);
    total
}

/// How many UTF-16 code units a character takes.
pub fn char_units(c: char) -> (n: usize)
    ensures
        n == units(c),
{
    if (c as u32) < 0x10000 {
        1
    } else {
        2
    }
}

// ---------------------------------------------------------------------------
// UTF-8
// ---------------------------------------------------------------------------

/// How many bytes a character takes in UTF-8.
pub open spec fn bytes(c: char) -> nat {
    if (c as u32) < 0x80 {
        1
    } else if (c as u32) < 0x800 {
        2
    } else if (c as u32) < 0x10000 {
        3
    } else {
        4
    }
}

/// The length of a text in bytes of UTF-8.
pub open spec fn bytes_of(text: Seq<char>) -> nat
    decreases text.len(),
{
    if text.len() == 0 {
        0
    } else {
        bytes_of(text.drop_last()) + bytes(text.last())
    }
}

/// The `index`-th character starts at byte `byte`, or the text ends there.
pub open spec fn starts_at(text: Seq<char>, byte: int, index: int) -> bool {
    0 <= index <= text.len() && bytes_of(text.take(index)) == byte
}

/// The index of the character that starts at byte `byte`; the length of the
/// text where it ends there; nothing inside a character or past the end.
pub open spec fn char_index(text: Seq<char>, byte: int) -> Option<int> {
    if exists|index: int| starts_at(text, byte, index) {
        Some(choose|index: int| starts_at(text, byte, index))
    } else {
        None
    }
}

proof fn lemma_bytes_of_grows(text: Seq<char>, i: int, j: int)
    requires
        0 <= i < j <= text.len(),
    ensures
        bytes_of(text.take(i)) < bytes_of(text.take(j)),
    decreases j - i,
{
    assert(text.take(j).drop_last() =~= text.take(j - 1));
    if i < j - 1 {
        lemma_bytes_of_grows(text, i, j - 1);
    }
}

/// A byte at which character `index` starts is not the start of another.
pub proof fn lemma_char_index(text: Seq<char>, byte: int, index: int)
    requires
        starts_at(text, byte, index),
    ensures
        char_index(text, byte) == Some(index),
{
    let other = choose|i: int| starts_at(text, byte, i);
    if other < index {
        lemma_bytes_of_grows(text, other, index);
    } else if index < other {
        lemma_bytes_of_grows(text, index, other);
    }
}

/// Later characters start at later bytes.
pub proof fn lemma_char_index_ordered(text: Seq<char>, a: int, b: int)
    requires
        char_index(text, a) is Some,
        char_index(text, b) is Some,
    ensures
        a < b <==> char_index(text, a)->0 < char_index(text, b)->0,
        0 <= char_index(text, a)->0 <= text.len(),
{
    let i = char_index(text, a)->0;
    let j = char_index(text, b)->0;
    assert(starts_at(text, a, i) && starts_at(text, b, j));
    if i < j {
        lemma_bytes_of_grows(text, i, j);
    } else if j < i {
        lemma_bytes_of_grows(text, j, i);
    }
}

/// The index of the character that starts at byte `byte`.
pub fn char_position(chars: &Vec<char>, byte: usize) -> (result: Option<usize>)
    ensures
        match result {
            Some(index) => index <= chars@.len() && char_index(chars@, byte as int) == Some(
                index as int,
            ),
            None => char_index(chars@, byte as int) is None,
        },
{
    let mut total: usize = 0;
    let mut i: usize = 0;
    while i < chars.len() && total < byte
        invariant
            i <= chars@.len(),
            total <= byte,
            total == bytes_of(chars@.take(i as int)),
        decreases chars@.len() - i,
    {
        let code: u32 = chars[i] as u32;
        let width: usize = if code < 0x80 {
            1
        } else if code < 0x800 {
            2
        } else if code < 0x10000 {
            3
        } else {
            4
        };
        assert(chars@.take(i + 1).drop_last() =~= chars@.take(i as int));
        if width > byte - total {
            proof {
                assert forall|k: int| !starts_at(chars@, byte as int, k) by {
                    if 0 <= k <= i {
                        if k < i {
                            lemma_bytes_of_grows(chars@, k, i as int);
                        }
                    } else if i + 1 <= k <= chars@.len() {
                        if i + 1 < k {
                            lemma_bytes_of_grows(chars@, i + 1, k);
                        }
                    }
                }
            }
            return None;
        }
        total = total + width;
        i += 1;
    }
    if total == byte {
        proof {
            assert(starts_at(chars@, byte as int, i as int));
            lemma_char_index(chars@, byte as int, i as int);
        }
        Some(i)
    } else {
        proof {
            assert forall|k: int| !starts_at(chars@, byte as int, k) by {
                if 0 <= k < i {
                    lemma_bytes_of_grows(chars@, k, i as int);
                }
            }
        }
        None
    }
}

proof fn lemma_scalar_bytes(c: char)
    ensures
        vstd::utf8::encode_scalar(c as u32).len() == bytes(c),
{
}

/// A text takes as many bytes as its encoding has.
pub proof fn lemma_bytes_of_encoding(text: Seq<char>)
    ensures
        bytes_of(text) == vstd::utf8::encode_utf8(text).len(),
    decreases text.len(),
{
    if text.len() > 0 {
        let rest = text.drop_first();
        lemma_bytes_of_encoding(rest);
        lemma_bytes_of_first(text);
        lemma_scalar_bytes(text[0]);
    }
}

proof fn lemma_bytes_of_first(text: Seq<char>)
    requires
        text.len() > 0,
    ensures
        bytes_of(text) == bytes(text[0]) + bytes_of(text.drop_first()),
    decreases text.len(),
{
    if text.len() == 1 {
        assert(text.drop_last() =~= Seq::<char>::empty());
        assert(text.drop_first() =~= Seq::<char>::empty());
        assert(bytes_of(text.drop_last()) == 0);
    } else {
        lemma_bytes_of_first(text.drop_last());
        assert(text.drop_last().drop_first() =~= text.drop_first().drop_last());
    }
}

/// How many bytes the characters before one take.
pub fn bytes_before(text: &str, chars: &Vec<char>, index: usize) -> (total: usize)
    requires
        chars@ == text@,
        index <= chars@.len(),
    ensures
        total == bytes_of(text@.take(index as int)),
{
    let all: usize = text.as_bytes().len();
    proof {
        lemma_bytes_of_encoding(text@);
        assert(text@.take(text@.len() as int) =~= text@);
    }
    let mut total: usize = 0;
    let mut i: usize = 0;
    while i < index
        invariant
            i <= index <= chars@.len(),
            chars@ == text@,
            all == bytes_of(text@),
            total == bytes_of(text@.take(i as int)),
            text@.take(text@.len() as int) == text@,
        decreases index - i,
    {
        let code: u32 = chars[i] as u32;
        let width: usize = if code < 0x80 {
            1
        } else if code < 0x800 {
            2
        } else if code < 0x10000 {
            3
        } else {
            4
        };
        proof {
            assert(chars@.take(i + 1).drop_last() =~= chars@.take(i as int));
            if i + 1 < text@.len() {
                lemma_bytes_of_grows(text@, i + 1, text@.len() as int);
            }
        }
        total = total + width;
        i += 1;
    }
    total
}

} // verus!
