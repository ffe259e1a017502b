//! Texts by their UTF-16 code units, in which Telegram measures them.
use crate::text;
use crate::text::{char_units, chars_of, text_between};
use vstd::prelude::*;

verus! {

// ---------------------------------------------------------------------------
// Parts of a text
// ---------------------------------------------------------------------------

/// The `index`-th character starts at unit `unit`, or the text ends there.
pub open spec fn starts_at(text: Seq<char>, unit: int, index: int) -> bool {
    0 <= index <= text.len() && text::units_of(text.take(index)) == unit
}

/// The index of the character that starts at unit `unit`; the length of the
/// text where it ends there; nothing inside a character or past the end.
pub open spec fn unit_index(text: Seq<char>, unit: int) -> Option<int> {
    if exists|index: int| starts_at(text, unit, index) {
        Some(choose|index: int| starts_at(text, unit, index))
    } else {
        None
    }
}

proof fn lemma_units_grow(text: Seq<char>, i: int, j: int)
    requires
        0 <= i < j <= text.len(),
    ensures
        text::units_of(text.take(i)) < text::units_of(text.take(j)),
    decreases j - i,
{
    assert(text.take(j).drop_last() =~= text.take(j - 1));
    if i < j - 1 {
        lemma_units_grow(text, i, j - 1);
    }
}

/// A unit at which character `index` starts is not the start of another.
pub proof fn lemma_unit_index(text: Seq<char>, unit: int, index: int)
    requires
        starts_at(text, unit, index),
    ensures
        unit_index(text, unit) == Some(index),
{
    let other = choose|i: int| starts_at(text, unit, i);
    if other < index {
        lemma_units_grow(text, other, index);
    } else if index < other {
        lemma_units_grow(text, index, other);
    }
}

/// The part of a text that starts at unit `offset` and is `length` units long:
/// nothing where it would cut a character or go past the end. A part without
/// units is empty wherever it starts.
pub open spec fn utf16_part(text: Seq<char>, offset: int, length: int) -> Option<Seq<char>> {
    if length == 0 {
        Some(Seq::empty())
    } else {
        match (unit_index(text, offset), unit_index(text, offset + length)) {
            (Some(from), Some(to)) => Some(text.subrange(from, to)),
            _ => None,
        }
    }
}

/// Finds the character that starts at the given distance in units from
/// character `from`.
fn find_unit(chars: &Vec<char>, from: usize, distance: usize) -> (result: Option<usize>)
    requires
        from <= chars@.len(),
    ensures
        ({
            let unit = text::units_of(chars@.take(from as int)) + distance;
            match result {
                Some(index) => from <= index <= chars@.len() && unit_index(chars@, unit as int)
                    == Some(index as int),
                None => unit_index(chars@, unit as int) is None,
            }
        }),
{
    let ghost start = text::units_of(chars@.take(from as int));
    let ghost unit = start + distance;
    let mut total: usize = 0;
    let mut i: usize = from;
    while i < chars.len() && total < distance
        invariant
            from <= i <= chars@.len(),
            total <= distance,
            start == text::units_of(chars@.take(from as int)),
            unit == start + distance,
            start + total == text::units_of(chars@.take(i as int)),
        decreases chars@.len() - i,
    {
        let width: usize = char_units(chars[i]);
        assert(chars@.take(i + 1).drop_last() =~= chars@.take(i as int));
        if width > distance - total {
            proof {
                assert forall|k: int| !starts_at(chars@, unit as int, k) by {
                    if 0 <= k <= i {
                        if k < i {
                            lemma_units_grow(chars@, k, i as int);
                        }
                    } else if i + 1 <= k <= chars@.len() {
                        if i + 1 < k {
                            lemma_units_grow(chars@, i + 1, k);
                        }
                    }
                }
            }
            return None;
        }
        total = total + width;
        i += 1;
    }
    if total == distance {
        proof {
            assert(starts_at(chars@, unit as int, i as int));
            lemma_unit_index(chars@, unit as int, i as int);
        }
        Some(i)
    } else {
        proof {
            assert forall|k: int| !starts_at(chars@, unit as int, k) by {
                if 0 <= k < i {
                    lemma_units_grow(chars@, k, i as int);
                }
            }
        }
        None
    }
}

/// Finds the character that starts at the given unit.
pub fn unit_position(chars: &Vec<char>, unit: usize) -> (result: Option<usize>)
    ensures
        match result {
            Some(index) => index <= chars@.len() && unit_index(chars@, unit as int) == Some(
                index as int,
            ),
            None => unit_index(chars@, unit as int) is None,
        },
{
    proof {
        assert(chars@.take(0) =~= Seq::<char>::empty());
        assert(text::units_of(chars@.take(0)) == 0);
    }
    find_unit(chars, 0, unit)
}

/// Takes a part of a text.
pub fn utf16_slice(text: &str, offset: usize, length: usize) -> (result: Option<String>)
    ensures
        match result {
            Some(part) => utf16_part(text@, offset as int, length as int) == Some(part@),
            None => utf16_part(text@, offset as int, length as int) is None,
        },
{
    if length == 0 {
        let none = String::new();
        assert(none@ =~= Seq::<char>::empty());
        return Some(none);
    }
    let chars = chars_of(text);
    proof {
        assert(text@.take(0) =~= Seq::<char>::empty());
        assert(text::units_of(text@.take(0)) == 0);
    }
    match find_unit(&chars, 0, offset) {
        None => None,
        Some(from) => {
            proof {
                assert(unit_index(text@, offset as int) == Some(from as int));
                assert(starts_at(text@, offset as int, from as int));
            }
            match find_unit(&chars, from, length) {
                None => None,
                Some(to) => Some(text_between(&chars, from, to)),
            }
        },
    }
}

/// A part is as long as it was asked to be.
pub proof fn law_parts_have_their_length(text: Seq<char>, offset: int, length: int)
    requires
        length >= 0,
        utf16_part(text, offset, length) is Some,
    ensures
        text::units_of(utf16_part(text, offset, length)->0) == length,
{
    if length == 0 {
        assert(text::units_of(Seq::<char>::empty()) == 0);
    } else {
        let a = unit_index(text, offset)->0;
        let b = unit_index(text, offset + length)->0;
        assert(starts_at(text, offset, a) && starts_at(text, offset + length, b));
        if b < a {
            lemma_units_grow(text, b, a);
        }
        assert(text.take(b) =~= text.take(a) + text.subrange(a, b));
        text::lemma_units_of_add(text.take(a), text.subrange(a, b));
    }
}

/// Between two places at which characters start there is a part.
pub proof fn lemma_part_between(text: Seq<char>, from: int, to: int)
    requires
        unit_index(text, from) is Some,
        unit_index(text, to) is Some,
        from <= to,
    ensures
        utf16_part(text, from, to - from) is Some,
{
}

/// Characters that start later stand later.
pub proof fn lemma_index_order(text: Seq<char>, from: int, to: int)
    requires
        unit_index(text, from) is Some,
        unit_index(text, to) is Some,
        from <= to,
    ensures
        0 <= unit_index(text, from)->0 <= unit_index(text, to)->0 <= text.len(),
        from == to ==> unit_index(text, from) == unit_index(text, to),
{
    let a = unit_index(text, from)->0;
    let b = unit_index(text, to)->0;
    assert(starts_at(text, from, a) && starts_at(text, to, b));
    if b < a {
        lemma_units_grow(text, b, a);
    }
}

/// A text ends where a character would start.
pub proof fn lemma_text_end(text: Seq<char>)
    ensures
        unit_index(text, 0) == Some(0int),
        unit_index(text, text::units_of(text) as int) == Some(text.len() as int),
{
    assert(text.take(0) =~= Seq::<char>::empty());
    assert(text::units_of(text.take(0)) == 0);
    assert(starts_at(text, 0, 0));
    lemma_unit_index(text, 0, 0);
    assert(text.take(text.len() as int) =~= text);
    assert(starts_at(text, text::units_of(text) as int, text.len() as int));
    lemma_unit_index(text, text::units_of(text) as int, text.len() as int);
}

/// No character starts after the end of a text.
pub proof fn lemma_unit_bound(text: Seq<char>, unit: int)
    requires
        unit_index(text, unit) is Some,
    ensures
        0 <= unit <= text::units_of(text),
{
    let i = unit_index(text, unit)->0;
    assert(starts_at(text, unit, i));
    assert(text.take(text.len() as int) =~= text);
    if i < text.len() {
        lemma_units_grow(text, i, text.len() as int);
    }
}

proof fn lemma_units_prefix(text: Seq<char>, more: Seq<char>, i: int)
    requires
        0 <= i <= text.len(),
    ensures
        (text + more).take(i) == text.take(i),
{
    assert((text + more).take(i) =~= text.take(i));
}

/// A part of a text stays where it is when the text grows.
pub proof fn lemma_part_stays(text: Seq<char>, more: Seq<char>, offset: int, length: int)
    requires
        length >= 0,
        utf16_part(text, offset, length) is Some,
    ensures
        utf16_part(text + more, offset, length) == utf16_part(text, offset, length),
{
    if length != 0 {
        let a = unit_index(text, offset)->0;
        let b = unit_index(text, offset + length)->0;
        assert(starts_at(text, offset, a) && starts_at(text, offset + length, b));
        lemma_units_prefix(text, more, a);
        lemma_units_prefix(text, more, b);
        assert(starts_at(text + more, offset, a) && starts_at(text + more, offset + length, b));
        lemma_unit_index(text + more, offset, a);
        lemma_unit_index(text + more, offset + length, b);
        if a > b {
            lemma_units_grow(text, b, a);
        }
        if a <= b {
            assert((text + more).subrange(a, b) =~= text.subrange(a, b));
        }
    }
}

/// What is added to a text is the part of it that starts at its old end.
pub proof fn lemma_added_part(text: Seq<char>, more: Seq<char>)
    ensures
        utf16_part(
            text + more,
            text::units_of(text) as int,
            text::units_of(more) as int,
        ) == Some(more),
{
    let whole = text + more;
    let offset = text::units_of(text) as int;
    let length = text::units_of(more) as int;
    text::lemma_units_of_add(text, more);
    if length == 0 {
        text::lemma_units_of_bound(more);
        assert(more =~= Seq::<char>::empty());
    } else {
        assert(whole.take(text.len() as int) =~= text);
        assert(whole.take(whole.len() as int) =~= whole);
        assert(starts_at(whole, offset, text.len() as int));
        assert(starts_at(whole, offset + length, whole.len() as int));
        lemma_unit_index(whole, offset, text.len() as int);
        lemma_unit_index(whole, offset + length, whole.len() as int);
        assert(whole.subrange(text.len() as int, whole.len() as int) =~= more);
    }
}

// ---------------------------------------------------------------------------
// Chunks
// ---------------------------------------------------------------------------

/// The chunks that the first `n` characters fill, and the one that is being
/// filled: a character that does not fit starts the next one.
pub open spec fn chunks_among(text: Seq<char>, limit: int, n: int) -> (Seq<Seq<char>>, Seq<char>)
    decreases n,
{
    if n <= 0 {
        (Seq::empty(), Seq::empty())
    } else {
        let (done, current) = chunks_among(text, limit, n - 1);
        let c = text[n - 1];
        if text::units_of(current) + text::units(c) > limit && current.len() > 0 {
            (done.push(current), seq![c])
        } else {
            (done, current.push(c))
        }
    }
}

/// A text in chunks of at most `limit` units.
pub open spec fn chunks(text: Seq<char>, limit: int) -> Seq<Seq<char>> {
    let (done, current) = chunks_among(text, limit, text.len() as int);
    if current.len() > 0 {
        done.push(current)
    } else {
        done
    }
}

/// What a list of texts says.
pub open spec fn texts(list: Seq<String>) -> Seq<Seq<char>> {
    Seq::new(list.len(), |i: int| list[i]@)
}

/// Splits a text into chunks of at most `limit` units.
pub fn split_utf16(value: &str, limit: usize) -> (result: Vec<String>)
    ensures
        texts(result@) == chunks(value@, limit as int),
{
    let chars = chars_of(value);
    let mut done: Vec<String> = Vec::new();
    let mut current: String = String::new();
    let mut empty = true;
    let mut filled: usize = 0;
    let mut i: usize = 0;
    proof {
        assert(texts(done@) =~= Seq::<Seq<char>>::empty());
        assert(current@ =~= Seq::<char>::empty());
    }
    while i < chars.len()
        invariant
            i <= chars@.len(),
            chars@ == value@,
            chunks_among(value@, limit as int, i as int) == (texts(done@), current@),
            filled == text::units_of(current@),
            empty == (current@.len() == 0),
            filled <= limit || current@.len() == 1,
        decreases chars@.len() - i,
    {
        let c: char = chars[i];
        let width: usize = char_units(c);
        let full = !empty && (limit < width || filled > limit - width);
        if full {
            let ghost before = texts(done@);
            let ghost last = current@;
            done.push(current);
            current = String::new();
            filled = 0;
            proof {
                assert(texts(done@) =~= before.push(last));
                assert(current@ =~= Seq::<char>::empty());
                assert(text::units_of(current@) == 0);
            }
        }
        let ghost start = current@;
        current.push(c);
        filled = filled + width;
        empty = false;
        proof {
            assert(current@ == start.push(c));
            assert(current@.drop_last() =~= start);
            assert(current@.last() == c);
            if full {
                assert(current@ =~= seq![c]);
            }
        }
        i += 1;
    }
    if !empty {
        let ghost before = texts(done@);
        let ghost last = current@;
        done.push(current);
        assert(texts(done@) =~= before.push(last));
    }
    done
}

proof fn lemma_chunks_among(text: Seq<char>, limit: int, n: int)
    requires
        0 <= n <= text.len(),
    ensures
        ({
            let (done, current) = chunks_among(text, limit, n);
            &&& done.flatten() + current == text.take(n)
            &&& n > 0 ==> current.len() > 0
            &&& text::units_of(current) <= limit || current.len() <= 1
            &&& forall|i: int|
                0 <= i < done.len() ==> (#[trigger] done[i]).len() > 0 && (text::units_of(done[i])
                    <= limit || done[i].len() == 1)
        }),
    decreases n,
{
    if n == 0 {
        assert(Seq::<Seq<char>>::empty().flatten() + Seq::<char>::empty() =~= text.take(0));
    } else {
        lemma_chunks_among(text, limit, n - 1);
        let (done, current) = chunks_among(text, limit, n - 1);
        let c = text[n - 1];
        assert(text.take(n) =~= text.take(n - 1).push(c));
        if text::units_of(current) + text::units(c) > limit && current.len() > 0 {
            let more = done.push(current);
            lemma_flatten_push(done, current);
            assert(more.flatten() + seq![c] =~= (done.flatten() + current).push(c));
            assert forall|i: int| 0 <= i < more.len() implies (#[trigger] more[i]).len() > 0 && (
            text::units_of(more[i]) <= limit || more[i].len() == 1) by {
                if i < done.len() {
                    assert(more[i] == done[i]);
                }
            }
        } else {
            assert(current.push(c).drop_last() =~= current);
            assert(done.flatten() + current.push(c) =~= (done.flatten() + current).push(c));
        }
    }
}

/// A list that grows by one item flattens to a text that grows by it.
pub proof fn lemma_flatten_push(list: Seq<Seq<char>>, item: Seq<char>)
    ensures
        list.push(item).flatten() == list.flatten() + item,
    decreases list.len(),
{
    if list.len() == 0 {
        let one = seq![item];
        assert(list.push(item) =~= one);
        one.lemma_flatten_one_element();
        assert(list.flatten() + item =~= item);
    } else {
        let rest = list.drop_first();
        lemma_flatten_push(rest, item);
        assert(list.push(item).drop_first() =~= rest.push(item));
        assert(list.push(item).first() == list.first());
        assert(list.push(item).flatten() =~= list.flatten() + item);
    }
}

/// The chunks of a text, one after another, are the text. None is empty, and
/// none is longer than the limit, but that one character that alone is longer
/// makes a chunk.
pub proof fn law_chunks_make_the_text(text: Seq<char>, limit: int)
    ensures
        chunks(text, limit).flatten() == text,
        forall|i: int|
            0 <= i < chunks(text, limit).len() ==> {
                let chunk = #[trigger] chunks(text, limit)[i];
                chunk.len() > 0 && (text::units_of(chunk) <= limit || chunk.len() == 1)
            },
        limit >= 2 ==> forall|i: int|
            0 <= i < chunks(text, limit).len() ==> text::units_of(
                #[trigger] chunks(text, limit)[i],
            ) <= limit,
{
    lemma_chunks_among(text, limit, text.len() as int);
    let (done, current) = chunks_among(text, limit, text.len() as int);
    let all = chunks(text, limit);
    assert(text.take(text.len() as int) =~= text);
    if current.len() > 0 {
        lemma_flatten_push(done, current);
        assert(all == done.push(current));
        assert forall|i: int| 0 <= i < all.len() implies {
            let chunk = #[trigger] all[i];
            chunk.len() > 0 && (text::units_of(chunk) <= limit || chunk.len() == 1)
        } by {
            if i < done.len() {
                assert(all[i] == done[i]);
            }
        }
    } else {
        assert(done.flatten() + current =~= done.flatten());
    }
    if limit >= 2 {
        assert forall|i: int| 0 <= i < all.len() implies text::units_of(#[trigger] all[i])
            <= limit by {
            let chunk = all[i];
            if chunk.len() == 1 {
                assert(chunk.drop_last() =~= Seq::<char>::empty());
                assert(text::units_of(chunk.drop_last()) == 0);
            }
        }
    }
}

} // verus!
