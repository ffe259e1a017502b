//! Messages as lists of segments.
use crate::api::address;
use crate::api::address::chat_id_value;
use crate::content::Real;
use crate::error;
use crate::error::{message, Error, ErrorView};
use crate::json;
use crate::json::{Fields, Json, JsonView};
use crate::mime;
use crate::mime::read_mime;
use crate::native;
use crate::native::quote;
use crate::source;
use crate::source::{File, FileView, Message, MessageSegment, SegmentView};
use crate::telegram::{
    Location, MediaFile, Message as TelegramMessage, MessageEntity, PhotoSize, ReactionType, User,
    Venue,
};
use crate::text;
use crate::text::{chars_of, i64_text, joined, joined3, parse_i64, same, utf16_len};
use crate::utf16;
use crate::utf16::utf16_slice;
use crate::utils;
use crate::utils::{message_id, split_id};
use vstd::prelude::*;
use vstd::string::*;

verus! {

// ---------------------------------------------------------------------------
// Texts with mentions
// ---------------------------------------------------------------------------

/// The entity mentions a user.
pub open spec fn is_mention(entity: MessageEntity) -> bool {
    entity.kind@ == "mention"@ || entity.kind@ == "text_mention"@
}

/// The entities, which are in order, and one more: after those that start no
/// later.
pub open spec fn inserted(list: Seq<MessageEntity>, entity: MessageEntity) -> Seq<MessageEntity>
    decreases list.len(),
{
    if list.len() == 0 || list.last().offset <= entity.offset {
        list.push(entity)
    } else {
        inserted(list.drop_last(), entity).push(list.last())
    }
}

/// The mentions among the first `n` entities by where they start; those that
/// start together stay in order.
pub open spec fn ordered_mentions(entities: Seq<MessageEntity>, n: int) -> Seq<MessageEntity>
    decreases n,
{
    if n <= 0 {
        Seq::empty()
    } else if is_mention(entities[n - 1]) {
        inserted(ordered_mentions(entities, n - 1), entities[n - 1])
    } else {
        ordered_mentions(entities, n - 1)
    }
}

proof fn lemma_inserted(list: Seq<MessageEntity>, entity: MessageEntity, at: int)
    requires
        0 <= at <= list.len(),
        at > 0 ==> list[at - 1].offset <= entity.offset,
        forall|i: int| at <= i < list.len() ==> (#[trigger] list[i]).offset > entity.offset,
    ensures
        inserted(list, entity) == list.insert(at, entity),
    decreases list.len(),
{
    if at == list.len() {
        assert(list.insert(at, entity) =~= list.push(entity));
    } else {
        let rest = list.drop_last();
        assert forall|i: int| at <= i < rest.len() implies (#[trigger] rest[i]).offset
            > entity.offset by {
            assert(rest[i] == list[i]);
        }
        lemma_inserted(rest, entity, at);
        assert(list.last() == list[list.len() - 1]);
        assert(rest.insert(at, entity).push(list.last()) =~= list.insert(at, entity));
    }
}

fn order_mentions(entities: Vec<MessageEntity>) -> (mentions: Vec<MessageEntity>)
    ensures
        mentions@ == ordered_mentions(entities@, entities@.len() as int),
{
    let mut mentions: Vec<MessageEntity> = Vec::new();
    for entity in iter: entities
        invariant
            iter.seq() == entities@,
            mentions@ == ordered_mentions(entities@, iter.index()),
    {
        let kind: &str = entity.kind.as_str();
        if same(kind, "mention") || same(kind, "text_mention") {
            let mut at: usize = mentions.len();
            while at > 0 && mentions[at - 1].offset > entity.offset
                invariant
                    at <= mentions@.len(),
                    forall|i: int|
                        at <= i < mentions@.len() ==> (#[trigger] mentions@[i]).offset
                            > entity.offset,
                decreases at,
            {
                at -= 1;
            }
            proof {
                lemma_inserted(mentions@, entity, at as int);
            }
            mentions.insert(at, entity);
        }
    }
    mentions
}

/// Whom an entity mentions: the user by number, or by name as it stands in the
/// text.
pub open spec fn mentioned(text: Seq<char>, entity: MessageEntity) -> Option<Seq<char>> {
    match utf16::utf16_part(text, entity.offset as int, entity.length as int) {
        None => None,
        Some(part) => if entity.kind@ == "text_mention"@ {
            match entity.user {
                Some(user) => Some(text::decimal(user.id as int)),
                None => None,
            }
        } else {
            Some(part)
        },
    }
}

/// What is left of a text after the first `n` mentions: from which unit on, the
/// segments before that, and whether a mention counted.
#[verifier::ext_equal]
pub struct Progress {
    pub cursor: int,
    pub segments: Seq<SegmentView>,
    pub found: bool,
}

/// The segments with a text, where it is not empty.
pub open spec fn and_text(segments: Seq<SegmentView>, part: Option<Seq<char>>) -> Seq<SegmentView> {
    match part {
        Some(part) => if part.len() == 0 {
            segments
        } else {
            segments.push(SegmentView::Text(part))
        },
        None => segments,
    }
}

/// The end of an entity, as far as a machine can count.
pub open spec fn end_of(entity: MessageEntity) -> int {
    if entity.offset + entity.length > usize::MAX {
        usize::MAX as int
    } else {
        entity.offset + entity.length
    }
}

/// What is left of a text after one more mention. A mention that starts before
/// the cursor, cuts a character or names nobody does not count.
pub open spec fn mention_step(text: Seq<char>, before: Progress, entity: MessageEntity) -> Progress {
    if entity.offset < before.cursor {
        before
    } else {
        match mentioned(text, entity) {
            None => before,
            Some(user) => Progress {
                cursor: end_of(entity),
                segments: and_text(
                    before.segments,
                    utf16::utf16_part(text, before.cursor, entity.offset - before.cursor),
                ).push(SegmentView::At(user)),
                found: true,
            },
        }
    }
}

/// What is left of a text after the first `n` mentions.
pub open spec fn mention_progress(text: Seq<char>, mentions: Seq<MessageEntity>, n: int) -> Progress
    decreases n,
{
    if n <= 0 {
        Progress { cursor: 0, segments: Seq::empty(), found: false }
    } else {
        mention_step(text, mention_progress(text, mentions, n - 1), mentions[n - 1])
    }
}

/// What of a text stands after the last mention.
pub open spec fn rest_of(text: Seq<char>, cursor: int) -> Option<Seq<char>> {
    if cursor <= text::units_of(text) {
        utf16::utf16_part(text, cursor, text::units_of(text) - cursor)
    } else {
        None
    }
}

/// The segments of a text: the mentions and what stands between them, or the
/// whole text where there is no mention.
pub open spec fn text_segments(text: Seq<char>, entities: Option<Vec<MessageEntity>>) -> Seq<
    SegmentView,
> {
    let mentions = match entities {
        Some(entities) => ordered_mentions(entities@, entities@.len() as int),
        None => Seq::empty(),
    };
    let end = mention_progress(text, mentions, mentions.len() as int);
    if !end.found {
        seq![SegmentView::Text(text)]
    } else {
        and_text(end.segments, rest_of(text, end.cursor))
    }
}

fn push_segment(segments: &mut Vec<MessageSegment>, segment: MessageSegment)
    ensures
        source::segments_view(final(segments)@) == source::segments_view(old(segments)@).push(
            segment@,
        ),
{
    let ghost before = source::segments_view(segments@);
    segments.push(segment);
    assert(source::segments_view(segments@) =~= before.push(segment@));
}

fn push_part(segments: &mut Vec<MessageSegment>, part: Option<String>)
    ensures
        source::segments_view(final(segments)@) == and_text(
            source::segments_view(old(segments)@),
            json::optional_chars(part),
        ),
{
    if let Some(part) = part {
        if !part.as_str().is_empty() {
            push_segment(segments, MessageSegment::Text { content: part });
        }
    }
}

proof fn lemma_and_text(start: Seq<SegmentView>, segments: Seq<SegmentView>, part: Option<Seq<char>>)
    ensures
        and_text(start + segments, part) == start + and_text(segments, part),
{
    if let Some(part) = part {
        if part.len() > 0 {
            assert((start + segments).push(SegmentView::Text(part)) =~= start + segments.push(
                SegmentView::Text(part),
            ));
        }
    }
}

fn find_mentioned(text: &str, entity: &MessageEntity) -> (user: Option<String>)
    ensures
        json::optional_chars(user) == mentioned(text@, *entity),
{
    match utf16_slice(text, entity.offset, entity.length) {
        None => None,
        Some(part) => {
            if same(entity.kind.as_str(), "text_mention") {
                match &entity.user {
                    Some(user) => Some(i64_text(user.id)),
                    None => None,
                }
            } else {
                Some(part)
            }
        },
    }
}

fn take_mention(
    text: &str,
    entity: &MessageEntity,
    cursor: usize,
    found: bool,
    segments: &mut Vec<MessageSegment>,
    start: Ghost<Seq<SegmentView>>,
    before: Ghost<Progress>,
) -> (result: (usize, bool))
    requires
        before@.cursor == cursor,
        before@.found == found,
        source::segments_view(old(segments)@) == start@ + before@.segments,
    ensures
        result.0 == mention_step(text@, before@, *entity).cursor,
        result.1 == mention_step(text@, before@, *entity).found,
        source::segments_view(final(segments)@) == start@ + mention_step(
            text@,
            before@,
            *entity,
        ).segments,
{
    let offset: usize = entity.offset;
    if offset < cursor {
        return (cursor, found);
    }
    let user = match find_mentioned(text, entity) {
        Some(user) => user,
        None => {
            return (cursor, found);
        },
    };
    let end: usize = if entity.length > usize::MAX - offset {
        usize::MAX
    } else {
        offset + entity.length
    };
    let prefix = utf16_slice(text, cursor, offset - cursor);
    let ghost part = json::optional_chars(prefix);
    let ghost shown = user@;
    proof {
        lemma_and_text(start@, before@.segments, part);
    }
    push_part(segments, prefix);
    push_segment(segments, MessageSegment::At { user_id: user });
    proof {
        let with = and_text(before@.segments, part);
        assert((start@ + with).push(SegmentView::At(shown)) =~= start@ + with.push(
            SegmentView::At(shown),
        ));
    }
    (end, true)
}

fn parse_text(text: &str, entities: Option<Vec<MessageEntity>>, segments: &mut Vec<MessageSegment>)
    ensures
        source::segments_view(final(segments)@) == source::segments_view(old(segments)@)
            + text_segments(text@, entities),
{
    let ghost start = source::segments_view(segments@);
    let mentions = match entities {
        Some(entities) => order_mentions(entities),
        None => Vec::new(),
    };
    let ghost all = mentions@;
    let mut cursor: usize = 0;
    let mut found = false;
    assert(start + Seq::<SegmentView>::empty() =~= start);
    let mut i: usize = 0;
    while i < mentions.len()
        invariant
            i <= mentions@.len(),
            all == mentions@,
            mention_progress(text@, all, i as int).cursor == cursor,
            mention_progress(text@, all, i as int).found == found,
            source::segments_view(segments@) == start + mention_progress(
                text@,
                all,
                i as int,
            ).segments,
        decreases mentions@.len() - i,
    {
        let (next, counted) = take_mention(
            text,
            &mentions[i],
            cursor,
            found,
            segments,
            Ghost(start),
            Ghost(mention_progress(text@, all, i as int)),
        );
        cursor = next;
        found = counted;
        i += 1;
    }
    let ghost end = mention_progress(text@, all, all.len() as int);
    if !found {
        proof {
            lemma_nothing_found(text@, all, all.len() as int);
            assert(start + seq![SegmentView::Text(text@)] =~= start.push(SegmentView::Text(text@)));
        }
        push_segment(segments, MessageSegment::Text { content: text.to_owned() });
    } else {
        let units: usize = utf16_len(text);
        if cursor <= units {
            let rest = utf16_slice(text, cursor, units - cursor);
            proof {
                lemma_and_text(start, end.segments, json::optional_chars(rest));
            }
            push_part(segments, rest);
        }
    }
}

proof fn lemma_nothing_found(text: Seq<char>, mentions: Seq<MessageEntity>, n: int)
    requires
        !mention_progress(text, mentions, n).found,
    ensures
        mention_progress(text, mentions, n).segments == Seq::<SegmentView>::empty(),
    decreases n,
{
    if n > 0 {
        lemma_nothing_found(text, mentions, n - 1);
    }
}

/// The parts with one more, where it is not empty.
pub open spec fn and_part(parts: Seq<Seq<char>>, part: Option<Seq<char>>) -> Seq<Seq<char>> {
    match part {
        Some(part) => if part.len() == 0 {
            parts
        } else {
            parts.push(part)
        },
        None => parts,
    }
}

/// What the segments up to the end of the first `n` mentions stand for in the
/// text, one by one: what stands between mentions, and each mention that
/// counts.
pub open spec fn mention_parts(text: Seq<char>, mentions: Seq<MessageEntity>, n: int) -> Seq<
    Seq<char>,
>
    decreases n,
{
    if n <= 0 {
        Seq::empty()
    } else {
        let before = mention_progress(text, mentions, n - 1);
        let parts = mention_parts(text, mentions, n - 1);
        let entity = mentions[n - 1];
        if entity.offset >= before.cursor && mentioned(text, entity) is Some {
            and_part(
                parts,
                utf16::utf16_part(text, before.cursor, entity.offset - before.cursor),
            ).push(utf16::utf16_part(text, entity.offset as int, entity.length as int)->0)
        } else {
            parts
        }
    }
}

/// What the segments of a text stand for in it, one by one.
pub open spec fn text_parts(text: Seq<char>, mentions: Seq<MessageEntity>) -> Seq<Seq<char>> {
    let end = mention_progress(text, mentions, mentions.len() as int);
    if !end.found {
        seq![text]
    } else {
        and_part(
            mention_parts(text, mentions, mentions.len() as int),
            rest_of(text, end.cursor),
        )
    }
}

/// The segment stands for the part of the text: it is that text, or whom a
/// mention at that part mentions.
pub open spec fn stands_for(
    segment: SegmentView,
    part: Seq<char>,
    text: Seq<char>,
    mentions: Seq<MessageEntity>,
) -> bool {
    match segment {
        SegmentView::Text(written) => written == part,
        SegmentView::At(user) => exists|j: int|
            0 <= j < mentions.len() && mentioned(text, #[trigger] mentions[j]) == Some(user)
                && utf16::utf16_part(
                text,
                mentions[j].offset as int,
                mentions[j].length as int,
            ) == Some(part),
        _ => false,
    }
}

/// The segments stand for the parts, one by one.
pub open spec fn stand_for(
    segments: Seq<SegmentView>,
    parts: Seq<Seq<char>>,
    text: Seq<char>,
    mentions: Seq<MessageEntity>,
) -> bool {
    &&& segments.len() == parts.len()
    &&& forall|i: int|
        0 <= i < segments.len() ==> stands_for(#[trigger] segments[i], parts[i], text, mentions)
}

/// A text that comes next goes on where the segments and the parts end.
proof fn lemma_next_part(
    text: Seq<char>,
    mentions: Seq<MessageEntity>,
    segments: Seq<SegmentView>,
    parts: Seq<Seq<char>>,
    from: int,
    to: int,
)
    requires
        stand_for(segments, parts, text, mentions),
        utf16::unit_index(text, from) is Some,
        utf16::unit_index(text, to) is Some,
        from <= to,
        parts.flatten() == text.take(utf16::unit_index(text, from)->0),
    ensures
        ({
            let part = utf16::utf16_part(text, from, to - from);
            &&& stand_for(and_text(segments, part), and_part(parts, part), text, mentions)
            &&& and_part(parts, part).flatten() == text.take(utf16::unit_index(text, to)->0)
        }),
{
    utf16::lemma_part_between(text, from, to);
    utf16::lemma_index_order(text, from, to);
    let a = utf16::unit_index(text, from)->0;
    let b = utf16::unit_index(text, to)->0;
    let part = utf16::utf16_part(text, from, to - from)->0;
    assert(part =~= text.subrange(a, b));
    assert(text.take(a) + part =~= text.take(b));
    if part.len() > 0 {
        utf16::lemma_flatten_push(parts, part);
        let longer = segments.push(SegmentView::Text(part));
        assert forall|i: int| 0 <= i < longer.len() implies stands_for(
            #[trigger] longer[i],
            parts.push(part)[i],
            text,
            mentions,
        ) by {
            if i < segments.len() {
                assert(stands_for(segments[i], parts[i], text, mentions));
            }
        }
    }
}

/// A mention that comes next goes on where the segments and the parts end.
proof fn lemma_next_mention(
    text: Seq<char>,
    mentions: Seq<MessageEntity>,
    segments: Seq<SegmentView>,
    parts: Seq<Seq<char>>,
    n: int,
)
    requires
        0 <= n < mentions.len(),
        mentions[n].length > 0,
        mentioned(text, mentions[n]) is Some,
        stand_for(segments, parts, text, mentions),
        parts.flatten() == text.take(utf16::unit_index(text, mentions[n].offset as int)->0),
    ensures
        ({
            let entity = mentions[n];
            let own = utf16::utf16_part(text, entity.offset as int, entity.length as int)->0;
            let next = segments.push(SegmentView::At(mentioned(text, entity)->0));
            &&& stand_for(next, parts.push(own), text, mentions)
            &&& parts.push(own).flatten() == text.take(
                utf16::unit_index(text, entity.offset + entity.length)->0,
            )
        }),
{
    let entity = mentions[n];
    let offset = entity.offset as int;
    let end = offset + entity.length;
    let own = utf16::utf16_part(text, offset, entity.length as int)->0;
    let user = mentioned(text, entity)->0;
    utf16::lemma_flatten_push(parts, own);
    utf16::lemma_index_order(text, offset, end);
    let a = utf16::unit_index(text, offset)->0;
    let b = utf16::unit_index(text, end)->0;
    assert(text.take(a) + text.subrange(a, b) =~= text.take(b));
    let next = segments.push(SegmentView::At(user));
    assert forall|i: int| 0 <= i < next.len() implies stands_for(
        #[trigger] next[i],
        parts.push(own)[i],
        text,
        mentions,
    ) by {
        if i < segments.len() {
            assert(stands_for(segments[i], parts[i], text, mentions));
        } else {
            assert(mentioned(text, mentions[n]) == Some(user));
        }
    }
}

proof fn lemma_progress_parts(text: Seq<char>, mentions: Seq<MessageEntity>, n: int)
    requires
        0 <= n <= mentions.len(),
        text::units_of(text) <= usize::MAX,
        forall|i: int| 0 <= i < mentions.len() ==> (#[trigger] mentions[i]).length > 0,
    ensures
        ({
            let progress = mention_progress(text, mentions, n);
            let parts = mention_parts(text, mentions, n);
            &&& utf16::unit_index(text, progress.cursor) is Some
            &&& stand_for(progress.segments, parts, text, mentions)
            &&& parts.flatten() == text.take(utf16::unit_index(text, progress.cursor)->0)
        }),
    decreases n,
{
    if n == 0 {
        utf16::lemma_text_end(text);
        assert(text.take(0) =~= Seq::<char>::empty());
        assert(Seq::<Seq<char>>::empty().flatten() =~= Seq::<char>::empty());
    } else {
        lemma_progress_parts(text, mentions, n - 1);
        let before = mention_progress(text, mentions, n - 1);
        let parts = mention_parts(text, mentions, n - 1);
        let entity = mentions[n - 1];
        if entity.offset >= before.cursor && mentioned(text, entity) is Some {
            let offset = entity.offset as int;
            let end = offset + entity.length;
            utf16::lemma_unit_bound(text, end);
            assert(end_of(entity) == end);
            lemma_next_part(text, mentions, before.segments, parts, before.cursor, offset);
            let prefix = utf16::utf16_part(text, before.cursor, offset - before.cursor);
            lemma_next_mention(
                text,
                mentions,
                and_text(before.segments, prefix),
                and_part(parts, prefix),
                n - 1,
            );
        }
    }
}

/// What is visible of a text is neither lost nor doubled: each segment stands
/// for a part of the text, a text for itself and a mention for the words that
/// mention, and the parts in their order make up the text. A mention without
/// length, which shows nothing, is left out.
pub proof fn law_mentions_share_the_text(text: Seq<char>, entities: Vec<MessageEntity>)
    requires
        text::units_of(text) <= usize::MAX,
        forall|i: int|
            0 <= i < entities@.len() && is_mention(#[trigger] entities@[i])
                ==> entities@[i].length > 0,
    ensures
        ({
            let mentions = ordered_mentions(entities@, entities@.len() as int);
            let parts = text_parts(text, mentions);
            &&& stand_for(text_segments(text, Some(entities)), parts, text, mentions)
            &&& parts.flatten() == text
        }),
{
    let mentions = ordered_mentions(entities@, entities@.len() as int);
    lemma_mentions_kept(entities@, entities@.len() as int);
    let n = mentions.len() as int;
    let end = mention_progress(text, mentions, n);
    if !end.found {
        let none = Seq::<Seq<char>>::empty();
        utf16::lemma_flatten_push(none, text);
        assert(none.push(text) =~= seq![text]);
        assert(none.flatten() + text =~= text);
    } else {
        lemma_progress_parts(text, mentions, n);
        utf16::lemma_unit_bound(text, end.cursor);
        utf16::lemma_text_end(text);
        lemma_next_part(
            text,
            mentions,
            end.segments,
            mention_parts(text, mentions, n),
            end.cursor,
            text::units_of(text) as int,
        );
        assert(text.take(text.len() as int) =~= text);
    }
}

proof fn lemma_inserted_items(list: Seq<MessageEntity>, entity: MessageEntity, i: int)
    requires
        0 <= i < inserted(list, entity).len(),
    ensures
        inserted(list, entity)[i] == entity || list.contains(inserted(list, entity)[i]),
    decreases list.len(),
{
    if list.len() > 0 && list.last().offset > entity.offset {
        let rest = list.drop_last();
        if i < inserted(rest, entity).len() {
            lemma_inserted_items(rest, entity, i);
            if rest.contains(inserted(rest, entity)[i]) {
                let j = choose|j: int| 0 <= j < rest.len() && rest[j] == inserted(rest, entity)[i];
                assert(list[j] == rest[j]);
            }
        } else {
            assert(list[list.len() - 1] == list.last());
        }
    } else if i < list.len() {
        assert(list[i] == inserted(list, entity)[i]);
    }
}

/// Every mention of a text is one of its entities.
proof fn lemma_mentions_kept(entities: Seq<MessageEntity>, n: int)
    requires
        0 <= n <= entities.len(),
    ensures
        forall|i: int|
            0 <= i < ordered_mentions(entities, n).len() ==> is_mention(
                #[trigger] ordered_mentions(entities, n)[i],
            ) && entities.contains(ordered_mentions(entities, n)[i]),
    decreases n,
{
    if n > 0 {
        lemma_mentions_kept(entities, n - 1);
        let before = ordered_mentions(entities, n - 1);
        let entity = entities[n - 1];
        if is_mention(entity) {
            assert forall|i: int| 0 <= i < inserted(before, entity).len() implies is_mention(
                #[trigger] inserted(before, entity)[i],
            ) && entities.contains(inserted(before, entity)[i]) by {
                lemma_inserted_items(before, entity, i);
                if before.contains(inserted(before, entity)[i]) {
                    let j = choose|j: int|
                        0 <= j < before.len() && before[j] == inserted(before, entity)[i];
                    assert(is_mention(before[j]));
                }
            }
        }
    }
}

/// The mentions of a text are taken by where they start, and none is lost.
pub proof fn law_mentions_are_ordered(entities: Seq<MessageEntity>, n: int)
    requires
        0 <= n <= entities.len(),
    ensures
        forall|i: int, j: int|
            0 <= i < j < ordered_mentions(entities, n).len() ==> (#[trigger] ordered_mentions(
                entities,
                n,
            )[i]).offset <= (#[trigger] ordered_mentions(entities, n)[j]).offset,
        ordered_mentions(entities, n).to_multiset() == entities.take(n).filter(
            |e: MessageEntity| is_mention(e),
        ).to_multiset(),
    decreases n,
{
    broadcast use vstd::seq_lib::group_to_multiset_ensures;

    let keep = |e: MessageEntity| is_mention(e);
    if n == 0 {
        assert(entities.take(0) =~= Seq::<MessageEntity>::empty());
        assert(entities.take(0).filter(keep) =~= Seq::<MessageEntity>::empty()) by {
            reveal(Seq::filter);
        }
    } else {
        law_mentions_are_ordered(entities, n - 1);
        let entity = entities[n - 1];
        let before = ordered_mentions(entities, n - 1);
        let head = entities.take(n - 1);
        assert(entities.take(n) =~= head.push(entity));
        assert(entities.take(n).drop_last() =~= head);
        assert(entities.take(n).filter(keep) == if keep(entity) {
            head.filter(keep).push(entity)
        } else {
            head.filter(keep)
        }) by {
            reveal(Seq::filter);
        }
        if is_mention(entity) {
            lemma_inserted_ordered(before, entity);
            assert(head.filter(keep).push(entity).to_multiset() =~= head.filter(
                keep,
            ).to_multiset().insert(entity));
        }
    }
}

proof fn lemma_inserted_ordered(list: Seq<MessageEntity>, entity: MessageEntity)
    requires
        forall|i: int, j: int|
            0 <= i < j < list.len() ==> (#[trigger] list[i]).offset <= (#[trigger] list[j]).offset,
    ensures
        inserted(list, entity).len() == list.len() + 1,
        forall|i: int, j: int|
            0 <= i < j < inserted(list, entity).len() ==> (#[trigger] inserted(
                list,
                entity,
            )[i]).offset <= (#[trigger] inserted(list, entity)[j]).offset,
        inserted(list, entity).to_multiset() == list.to_multiset().insert(entity),
        forall|i: int|
            0 <= i < inserted(list, entity).len() ==> (#[trigger] inserted(list, entity)[i])
                == entity || list.contains(inserted(list, entity)[i]),
    decreases list.len(),
{
    broadcast use vstd::seq_lib::group_to_multiset_ensures;

    if list.len() == 0 || list.last().offset <= entity.offset {
        let all = list.push(entity);
        assert(all.to_multiset() =~= list.to_multiset().insert(entity));
        assert forall|i: int| 0 <= i < all.len() implies (#[trigger] all[i]) == entity
            || list.contains(all[i]) by {
            if i < list.len() {
                assert(list[i] == all[i]);
            }
        }
        assert forall|i: int, j: int| 0 <= i < j < all.len() implies (#[trigger] all[i]).offset <= (
        #[trigger] all[j]).offset by {
            if j == list.len() {
                assert(list[i] == all[i]);
                if i < list.len() - 1 {
                    assert(list[i].offset <= list[list.len() - 1].offset);
                }
            } else {
                assert(list[i] == all[i] && list[j] == all[j]);
            }
        }
    } else {
        let rest = list.drop_last();
        assert forall|i: int, j: int| 0 <= i < j < rest.len() implies (#[trigger] rest[i]).offset
            <= (#[trigger] rest[j]).offset by {
            assert(list[i] == rest[i] && list[j] == rest[j]);
        }
        lemma_inserted_ordered(rest, entity);
        let inner = inserted(rest, entity);
        let all = inner.push(list.last());
        assert(list =~= rest.push(list.last()));
        assert(all.to_multiset() =~= list.to_multiset().insert(entity));
        assert forall|i: int| 0 <= i < all.len() implies (#[trigger] all[i]) == entity
            || list.contains(all[i]) by {
            if i < inner.len() {
                assert(all[i] == inner[i]);
                if inner[i] != entity {
                    let k = choose|k: int| 0 <= k < rest.len() && rest[k] == inner[i];
                    assert(list[k] == all[i]);
                }
            } else {
                assert(list[list.len() - 1] == all[i]);
            }
        }
        assert forall|i: int, j: int| 0 <= i < j < all.len() implies (#[trigger] all[i]).offset <= (
        #[trigger] all[j]).offset by {
            assert(all[i] == inner[i]);
            if j < inner.len() {
                assert(all[j] == inner[j]);
            } else {
                if inner[i] != entity {
                    let k = choose|k: int| 0 <= k < rest.len() && rest[k] == inner[i];
                    assert(list[k] == rest[k]);
                    assert(list[k].offset <= list[list.len() - 1].offset);
                }
            }
        }
    }
}

// ---------------------------------------------------------------------------
// Messages from Telegram
// ---------------------------------------------------------------------------

/// A duration that a segment can hold.
pub open spec fn duration_of(value: i64) -> Option<i32> {
    if i32::MIN <= value <= i32::MAX {
        Some(value as i32)
    } else {
        None
    }
}

/// A duration that a segment can hold.
pub fn duration(value: i64) -> (result: Option<i32>)
    ensures
        result == duration_of(value),
{
    if i32::MIN as i64 <= value && value <= i32::MAX as i64 {
        Some(value as i32)
    } else {
        None
    }
}

/// A file that Telegram names.
pub open spec fn media_file_view(media: MediaFile) -> FileView {
    FileView {
        id: Some(media.file_id@),
        name: match media.file_name {
            Some(name) => name@,
            None => media.file_id@,
        },
        uri: None,
        base64: None,
        mime: match media.mime_type {
            Some(kind) => mime::named(kind@),
            None => None,
        },
        size: media.file_size,
    }
}

fn media_file(media: MediaFile) -> (file: File)
    ensures
        file@ == media_file_view(media),
{
    let kind = match &media.mime_type {
        Some(kind) => read_mime(kind.as_str()),
        None => None,
    };
    let name = match media.file_name {
        Some(name) => name,
        None => media.file_id.clone(),
    };
    File { id: Some(media.file_id), name, uri: None, base64: None, mime: kind, size: media.file_size }
}

/// A picture that Telegram names.
pub open spec fn photo_view(photo: PhotoSize) -> FileView {
    FileView {
        id: Some(photo.file_id@),
        name: photo.file_id@,
        uri: None,
        base64: None,
        mime: mime::named("image/jpeg"@),
        size: photo.file_size,
    }
}

/// The file of a picture.
pub fn photo_file(photo: &PhotoSize) -> (file: File)
    ensures
        file@ == photo_view(*photo),
{
    File {
        id: Some(photo.file_id.clone()),
        name: photo.file_id.clone(),
        uri: None,
        base64: None,
        mime: read_mime("image/jpeg"),
        size: photo.file_size,
    }
}

/// Reads a picture: its size is that of the file.
pub fn parse_photo(photo: PhotoSize) -> (segment: MessageSegment)
    ensures
        segment@ == SegmentView::Image(Some(photo_view(photo))),
{
    MessageSegment::Image { file: Some(photo_file(&photo)) }
}

/// Reads a venue.
pub fn parse_venue(venue: Venue) -> (segment: MessageSegment)
    ensures
        segment@ == SegmentView::Location(
            venue.location.latitude,
            venue.location.longitude,
            venue.title@,
            Some(venue.address@),
        ),
{
    MessageSegment::Location {
        latitude: venue.location.latitude,
        longitude: venue.location.longitude,
        title: venue.title,
        content: Some(venue.address),
    }
}

/// Reads a location.
pub fn parse_location(location: Location) -> (segment: MessageSegment)
    ensures
        segment@ == SegmentView::Location(
            location.latitude,
            location.longitude,
            Seq::empty(),
            None,
        ),
{
    let none = String::new();
    assert(none@ =~= Seq::<char>::empty());
    MessageSegment::Location {
        latitude: location.latitude,
        longitude: location.longitude,
        title: none,
        content: None,
    }
}

/// How many pixels a picture has.
pub open spec fn area(photo: PhotoSize) -> int {
    photo.width * photo.height
}

/// Which of the first `n` pictures is the largest; the last where several are.
pub open spec fn largest(photos: Seq<PhotoSize>, n: int) -> int
    decreases n,
{
    if n <= 1 {
        0
    } else {
        let before = largest(photos, n - 1);
        if area(photos[n - 1]) >= area(photos[before]) {
            n - 1
        } else {
            before
        }
    }
}

fn find_area(photo: &PhotoSize) -> (pixels: u128)
    ensures
        pixels == area(*photo),
{
    proof {
        assert(photo.width as u128 * photo.height as u128 <= u128::MAX) by (nonlinear_arith)
            requires
                photo.width <= u64::MAX,
                photo.height <= u64::MAX,
        ;
    }
    photo.width as u128 * photo.height as u128
}

/// Finds the largest picture.
pub fn find_largest(photos: &Vec<PhotoSize>) -> (found: Option<usize>)
    ensures
        match found {
            Some(best) => photos@.len() > 0 && best == largest(photos@, photos@.len() as int)
                && best < photos@.len(),
            None => photos@.len() == 0,
        },
{
    if photos.len() == 0 {
        return None;
    }
    let mut best: usize = 0;
    let mut i: usize = 1;
    while i < photos.len()
        invariant
            1 <= i <= photos@.len(),
            best < i,
            best == largest(photos@, i as int),
        decreases photos@.len() - i,
    {
        if find_area(&photos[i]) >= find_area(&photos[best]) {
            best = i;
        }
        i += 1;
    }
    Some(best)
}

fn take_largest(photos: Vec<PhotoSize>) -> (photo: Option<PhotoSize>)
    ensures
        match photo {
            Some(photo) => photos@.len() > 0 && photo == photos@[largest(
                photos@,
                photos@.len() as int,
            )],
            None => photos@.len() == 0,
        },
{
    match find_largest(&photos) {
        Some(best) => {
            let mut photos = photos;
            Some(photos.swap_remove(best))
        },
        None => None,
    }
}

/// The segments with one more, where there is one.
pub open spec fn and_segment(segments: Seq<SegmentView>, segment: Option<SegmentView>) -> Seq<
    SegmentView,
> {
    match segment {
        Some(segment) => segments.push(segment),
        None => segments,
    }
}

/// A document that no segment of its own stands for.
pub open spec fn raw_segment(kind: Seq<char>, data: JsonView) -> SegmentView {
    SegmentView::CustomValue("telegram.message."@ + kind, data)
}

/// A document that no segment of its own stands for, where there is one.
pub open spec fn optional_raw(kind: Seq<char>, data: Option<Json>) -> Option<SegmentView> {
    match data {
        Some(data) => Some(raw_segment(kind, data@)),
        None => None,
    }
}

fn push_raw_segment(segments: &mut Vec<MessageSegment>, kind: &str, data: Option<Json>)
    ensures
        source::segments_view(final(segments)@) == and_segment(
            source::segments_view(old(segments)@),
            optional_raw(kind@, data),
        ),
{
    if let Some(data) = data {
        let kind = joined("telegram.message.", kind);
        push_segment(segments, MessageSegment::CustomValue { kind, data });
    }
}

/// The segments with those of the first `n` other members that are not null.
pub open spec fn and_members(
    segments: Seq<SegmentView>,
    members: Map<Seq<char>, JsonView>,
    names: Seq<Seq<char>>,
    n: int,
) -> Seq<SegmentView>
    decreases n,
{
    if n <= 0 {
        segments
    } else {
        let before = and_members(segments, members, names, n - 1);
        let value = members[names[n - 1]];
        if value == JsonView::Null {
            before
        } else {
            before.push(raw_segment(names[n - 1], value))
        }
    }
}

fn push_members(segments: &mut Vec<MessageSegment>, members: &Fields)
    ensures
        ({
            let names = json::sorted_keys(json::fields(*members).dom());
            source::segments_view(final(segments)@) == and_members(
                source::segments_view(old(segments)@),
                json::fields(*members),
                names,
                names.len() as int,
            )
        }),
{
    let ghost start = source::segments_view(segments@);
    let ghost all = json::fields(*members);
    let ghost names = members.keys();
    let n: usize = members.len();
    proof {
        assert(all.dom() =~= members@.dom());
        json::lemma_sorted_keys(names, all.dom());
    }
    let mut i: usize = 0;
    while i < n
        invariant
            i <= n,
            n == names.len(),
            names == members.keys(),
            all == json::fields(*members),
            json::lists_keys(names, members@.dom()),
            source::segments_view(segments@) == and_members(start, all, names, i as int),
        decreases n - i,
    {
        let (name, value) = members.entry(i);
        if !value.is_null() {
            let kind = joined("telegram.message.", name);
            push_segment(segments, MessageSegment::CustomValue { kind, data: value.clone() });
        }
        i += 1;
    }
}

/// A video or an audio file with its duration, where there is one.
pub open spec fn timed(media: Option<MediaFile>, video: bool) -> Option<SegmentView> {
    match media {
        Some(media) => Some(
            if video {
                SegmentView::Video(Some(media_file_view(media)), duration_of(media.duration))
            } else {
                SegmentView::Audio(Some(media_file_view(media)), duration_of(media.duration))
            },
        ),
        None => None,
    }
}

fn push_timed(segments: &mut Vec<MessageSegment>, media: Option<MediaFile>, video: bool)
    ensures
        source::segments_view(final(segments)@) == and_segment(
            source::segments_view(old(segments)@),
            timed(media, video),
        ),
{
    if let Some(media) = media {
        let length = duration(media.duration);
        let file = Some(media_file(media));
        if video {
            push_segment(segments, MessageSegment::Video { file, length });
        } else {
            push_segment(segments, MessageSegment::Audio { file, length });
        }
    }
}

/// The segments with those of a text, where there is one.
pub open spec fn and_written(
    segments: Seq<SegmentView>,
    text: Option<String>,
    entities: Option<Vec<MessageEntity>>,
) -> Seq<SegmentView> {
    match text {
        Some(text) => segments + text_segments(text@, entities),
        None => segments,
    }
}

/// Where a message takes place: at a venue, or at a location.
pub open spec fn place(message: TelegramMessage) -> Option<SegmentView> {
    match message.venue {
        Some(venue) => Some(
            SegmentView::Location(
                venue.location.latitude,
                venue.location.longitude,
                venue.title@,
                Some(venue.address@),
            ),
        ),
        None => match message.location {
            Some(location) => Some(
                SegmentView::Location(
                    location.latitude,
                    location.longitude,
                    Seq::empty(),
                    None,
                ),
            ),
            None => None,
        },
    }
}

/// The segments of a message's media, after those of its text.
pub open spec fn media_segments(segments: Seq<SegmentView>, message: TelegramMessage) -> Seq<
    SegmentView,
> {
    let photo = and_segment(
        segments,
        match message.photo {
            Some(photos) => if photos@.len() == 0 {
                None
            } else {
                Some(
                    SegmentView::Image(
                        Some(photo_view(photos@[largest(photos@, photos@.len() as int)])),
                    ),
                )
            },
            None => None,
        },
    );
    let timed_media = and_segment(
        and_segment(
            and_segment(
                and_segment(photo, timed(message.animation, true)),
                timed(message.audio, false),
            ),
            timed(message.video, true),
        ),
        timed(message.video_note, true),
    );
    let document = and_segment(
        timed_media,
        match message.document {
            Some(document) => Some(SegmentView::File(Some(media_file_view(document)))),
            None => None,
        },
    );
    let sticker = and_segment(
        document,
        match message.sticker {
            Some(sticker) => Some(SegmentView::Emoji(sticker.file_id@)),
            None => None,
        },
    );
    and_segment(sticker, timed(message.voice, false))
}

/// The segments of a message: its text, its media, its caption, its place, and
/// whatever else Telegram sent with it.
pub open spec fn message_segments(message: TelegramMessage) -> Seq<SegmentView> {
    let media = media_segments(
        and_written(Seq::empty(), message.text, message.entities),
        message,
    );
    let placed = and_segment(
        and_written(media, message.caption, message.caption_entities),
        place(message),
    );
    let raw = and_segment(
        and_segment(
            and_segment(
                and_segment(
                    and_segment(placed, optional_raw("rich_message"@, message.rich_message)),
                    optional_raw("live_photo"@, message.live_photo),
                ),
                optional_raw("paid_media"@, message.paid_media),
            ),
            optional_raw("story"@, message.story),
        ),
        optional_raw("contact"@, message.contact),
    );
    let names = json::sorted_keys(json::fields(message.extra).dom());
    and_members(raw, json::fields(message.extra), names, names.len() as int)
}

/// The parts of a message that its media segments come from.
struct MediaParts {
    photo: Option<Vec<PhotoSize>>,
    animation: Option<MediaFile>,
    audio: Option<MediaFile>,
    video: Option<MediaFile>,
    video_note: Option<MediaFile>,
    document: Option<MediaFile>,
    sticker: Option<crate::telegram::Sticker>,
    voice: Option<MediaFile>,
}

fn push_media(segments: &mut Vec<MessageSegment>, parts: MediaParts, whole: Ghost<TelegramMessage>)
    requires
        whole@.photo == parts.photo,
        whole@.animation == parts.animation,
        whole@.audio == parts.audio,
        whole@.video == parts.video,
        whole@.video_note == parts.video_note,
        whole@.document == parts.document,
        whole@.sticker == parts.sticker,
        whole@.voice == parts.voice,
    ensures
        source::segments_view(final(segments)@) == media_segments(
            source::segments_view(old(segments)@),
            whole@,
        ),
{
    if let Some(photos) = parts.photo {
        if let Some(photo) = take_largest(photos) {
            push_segment(segments, parse_photo(photo));
        }
    }
    push_timed(segments, parts.animation, true);
    push_timed(segments, parts.audio, false);
    push_timed(segments, parts.video, true);
    push_timed(segments, parts.video_note, true);
    if let Some(document) = parts.document {
        push_segment(segments, MessageSegment::File { file: Some(media_file(document)) });
    }
    if let Some(sticker) = parts.sticker {
        push_segment(segments, MessageSegment::Emoji { id: sticker.file_id });
    }
    push_timed(segments, parts.voice, false);
}

/// Reads a message that Telegram sent.
pub fn parse_message(message: TelegramMessage) -> (result: Message)
    ensures
        result.id@ == utils::message_id_text(message.chat.id as int, message.message_id as int),
        source::segments_view(result.segments@) == message_segments(message),
{
    let ghost whole = message;
    let mut segments: Vec<MessageSegment> = Vec::new();
    assert(source::segments_view(segments@) =~= Seq::<SegmentView>::empty());
    if let Some(text) = message.text {
        parse_text(text.as_str(), message.entities, &mut segments);
    }
    let parts = MediaParts {
        photo: message.photo,
        animation: message.animation,
        audio: message.audio,
        video: message.video,
        video_note: message.video_note,
        document: message.document,
        sticker: message.sticker,
        voice: message.voice,
    };
    push_media(&mut segments, parts, Ghost(whole));
    if let Some(caption) = message.caption {
        parse_text(caption.as_str(), message.caption_entities, &mut segments);
    }
    if let Some(venue) = message.venue {
        push_segment(&mut segments, parse_venue(venue));
    } else if let Some(location) = message.location {
        push_segment(&mut segments, parse_location(location));
    }
    push_raw_segment(&mut segments, "rich_message", message.rich_message);
    push_raw_segment(&mut segments, "live_photo", message.live_photo);
    push_raw_segment(&mut segments, "paid_media", message.paid_media);
    push_raw_segment(&mut segments, "story", message.story);
    push_raw_segment(&mut segments, "contact", message.contact);
    push_members(&mut segments, &message.extra);
    Message { id: message_id(message.chat.id, message.message_id), segments }
}

/// The name of a reaction.
pub open spec fn reaction_name(reaction: ReactionType) -> Seq<char> {
    if reaction.kind@ == "emoji"@ {
        match reaction.emoji {
            Some(emoji) => emoji@,
            None => "unknown"@,
        }
    } else if reaction.kind@ == "custom_emoji"@ {
        match reaction.custom_emoji_id {
            Some(id) => id@,
            None => "unknown"@,
        }
    } else if reaction.kind@ == "paid"@ {
        "paid"@
    } else {
        "telegram:"@ + reaction.kind@
    }
}

/// The name of a reaction.
pub fn parse_reaction(reaction: ReactionType) -> (name: String)
    ensures
        name@ == reaction_name(reaction),
{
    let kind: &str = reaction.kind.as_str();
    if same(kind, "emoji") {
        match reaction.emoji {
            Some(emoji) => emoji,
            None => "unknown".to_owned(),
        }
    } else if same(kind, "custom_emoji") {
        match reaction.custom_emoji_id {
            Some(id) => id,
            None => "unknown".to_owned(),
        }
    } else if same(kind, "paid") {
        "paid".to_owned()
    } else {
        joined("telegram:", kind)
    }
}

// ---------------------------------------------------------------------------
// Messages to Telegram
// ---------------------------------------------------------------------------

/// The message that another answers.
#[derive(Debug, PartialEq)]
pub struct ReplyParameters {
    pub message_id: i64,
    pub chat_id: Option<Json>,
}

#[derive(Debug, Clone, Copy, PartialEq, Eq, Structural)]
pub enum MediaKind {
    Photo,
    Video,
    Audio,
    Document,
}

/// What can stand in one album.
#[derive(Debug, Clone, Copy, PartialEq, Eq, Structural)]
pub enum MediaGroupClass {
    Visual,
    Audio,
    Document,
}

/// Telegram's name of a kind of media.
pub open spec fn kind_tag(kind: MediaKind) -> Seq<char> {
    match kind {
        MediaKind::Photo => "photo"@,
        MediaKind::Video => "video"@,
        MediaKind::Audio => "audio"@,
        MediaKind::Document => "document"@,
    }
}

/// In which albums a kind of media can stand.
pub open spec fn class_of(kind: MediaKind) -> MediaGroupClass {
    match kind {
        MediaKind::Photo => MediaGroupClass::Visual,
        MediaKind::Video => MediaGroupClass::Visual,
        MediaKind::Audio => MediaGroupClass::Audio,
        MediaKind::Document => MediaGroupClass::Document,
    }
}

/// The name of a kind of media in complaints.
pub open spec fn kind_name(kind: MediaKind) -> Seq<char> {
    match kind {
        MediaKind::Photo => "Photo"@,
        MediaKind::Video => "Video"@,
        MediaKind::Audio => "Audio"@,
        MediaKind::Document => "Document"@,
    }
}

impl MediaKind {
    /// Telegram's name of the kind.
    pub fn telegram_type(self) -> (name: &'static str)
        ensures
            name@ == kind_tag(self),
    {
        match self {
            MediaKind::Photo => "photo",
            MediaKind::Video => "video",
            MediaKind::Audio => "audio",
            MediaKind::Document => "document",
        }
    }

    /// The parameter that holds a file of the kind.
    pub fn field_name(self) -> (name: &'static str)
        ensures
            name@ == kind_tag(self),
    {
        self.telegram_type()
    }

    /// In which albums the kind can stand.
    pub fn group_class(self) -> (class: MediaGroupClass)
        ensures
            class == class_of(self),
    {
        match self {
            MediaKind::Photo => MediaGroupClass::Visual,
            MediaKind::Video => MediaGroupClass::Visual,
            MediaKind::Audio => MediaGroupClass::Audio,
            MediaKind::Document => MediaGroupClass::Document,
        }
    }

    fn shown(self) -> (name: &'static str)
        ensures
            name@ == kind_name(self),
    {
        match self {
            MediaKind::Photo => "Photo",
            MediaKind::Video => "Video",
            MediaKind::Audio => "Audio",
            MediaKind::Document => "Document",
        }
    }
}

#[derive(Debug, PartialEq)]
pub struct OutgoingMedia {
    pub kind: MediaKind,
    pub file: File,
    pub duration: Option<i32>,
    pub caption: Option<String>,
}

#[derive(Debug, PartialEq)]
pub struct OutgoingVenue {
    pub latitude: Real,
    pub longitude: Real,
    pub title: String,
    pub address: String,
}

/// A message as Telegram can send it.
#[derive(Debug, PartialEq)]
pub struct OutgoingMessage {
    pub text: String,
    pub entities: Vec<MessageEntity>,
    pub media: Vec<OutgoingMedia>,
    pub reply: Option<ReplyParameters>,
    pub venues: Vec<OutgoingVenue>,
    pub stickers: Vec<String>,
}

/// What an entity says.
#[verifier::ext_equal]
pub struct EntityView {
    pub kind: Seq<char>,
    pub offset: int,
    pub length: int,
    pub user: Option<(i64, Seq<char>)>,
}

/// The entity says what the view says, and no more.
pub open spec fn is_entity(entity: MessageEntity, view: EntityView) -> bool {
    &&& entity.kind@ == view.kind
    &&& entity.offset == view.offset
    &&& entity.length == view.length
    &&& entity.url is None
    &&& entity.custom_emoji_id is None
    &&& match view.user {
        Some((id, name)) => entity.user matches Some(user) && user.id == id && user.first_name@
            == name && !user.is_bot && user.last_name is None && user.username is None,
        None => entity.user is None,
    }
}

/// The entities say what the views say, one by one.
pub open spec fn are_entities(entities: Seq<MessageEntity>, views: Seq<EntityView>) -> bool {
    &&& entities.len() == views.len()
    &&& forall|i: int| 0 <= i < entities.len() ==> is_entity(#[trigger] entities[i], views[i])
}

/// A text that grows, with the mentions in it.
#[derive(Debug, PartialEq)]
pub struct TextComposer {
    pub text: String,
    pub entities: Vec<MessageEntity>,
}

/// A text with the mentions in it.
#[verifier::ext_equal]
pub struct ComposedText {
    pub text: Seq<char>,
    pub entities: Seq<EntityView>,
}

/// The composer holds the text and its mentions.
pub open spec fn composes(composer: TextComposer, view: ComposedText) -> bool {
    composer.text@ == view.text && are_entities(composer.entities@, view.entities)
}

/// What a mention adds to the end of a text, and the entity that marks it: a
/// user name stands as it is, a number after an at sign.
pub open spec fn label_outcome(text: Seq<char>, user_id: Seq<char>) -> Result<
    (Seq<char>, EntityView),
    ErrorView,
> {
    let offset = text::units_of(text) as int;
    if user_id.len() > 0 && user_id[0] == '@' {
        Ok(
            (
                user_id,
                EntityView {
                    kind: "mention"@,
                    offset,
                    length: text::units_of(user_id) as int,
                    user: None,
                },
            ),
        )
    } else {
        match text::i64_value(user_id) {
            None => error::refused(
                "invalid Telegram mention user id "@ + native::quoted(user_id),
            ),
            Some(id) => Ok(
                (
                    "@"@ + user_id,
                    EntityView {
                        kind: "text_mention"@,
                        offset,
                        length: text::units_of("@"@ + user_id) as int,
                        user: Some((id, user_id)),
                    },
                ),
            ),
        }
    }
}

/// The text with a mention at its end.
pub open spec fn mention_outcome(composed: ComposedText, user_id: Seq<char>) -> Result<
    ComposedText,
    ErrorView,
> {
    match label_outcome(composed.text, user_id) {
        Err(e) => Err(e),
        Ok((label, entity)) => Ok(
            ComposedText {
                text: composed.text + label,
                entities: composed.entities.push(entity),
            },
        ),
    }
}

impl TextComposer {
    /// No text yet.
    pub fn new() -> (composer: Self)
        ensures
            composes(
                composer,
                (ComposedText { text: Seq::empty(), entities: Seq::empty() }),
            ),
    {
        let text = String::new();
        assert(text@ =~= Seq::<char>::empty());
        TextComposer { text, entities: Vec::new() }
    }

    /// Adds a text.
    pub fn append(&mut self, text: &str)
        ensures
            final(self).text@ == old(self).text@ + text@,
            final(self).entities == old(self).entities,
    {
        let longer = joined(self.text.as_str(), text);
        self.text = longer;
    }

    /// Adds a mention.
    pub fn mention(&mut self, user_id: &str) -> (result: Result<(), Error>)
        ensures
            match label_outcome(old(self).text@, user_id@) {
                Ok((label, view)) => {
                    &&& result is Ok
                    &&& final(self).text@ == old(self).text@ + label
                    &&& final(self).entities@.len() == old(self).entities@.len() + 1
                    &&& final(self).entities@.drop_last() == old(self).entities@
                    &&& is_entity(final(self).entities@.last(), view)
                },
                Err(e) => {
                    &&& result matches Err(error)
                    &&& error@ == e
                    &&& *final(self) == *old(self)
                },
            },
    {
        let offset: usize = utf16_len(self.text.as_str());
        let chars = chars_of(user_id);
        let named = chars.len() > 0 && chars[0] == '@';
        if named {
            let longer = joined(self.text.as_str(), user_id);
            self.text = longer;
            self.entities.push(
                MessageEntity {
                    kind: "mention".to_owned(),
                    offset,
                    length: utf16_len(user_id),
                    url: None,
                    user: None,
                    custom_emoji_id: None,
                },
            );
        } else {
            let id: i64 = match parse_i64(user_id) {
                Some(id) => id,
                None => {
                    let user = quote(user_id);
                    return Err(
                        Error::Message(
                            joined("invalid Telegram mention user id ", user.as_str()),
                        ),
                    );
                },
            };
            let label = joined("@", user_id);
            let longer = joined(self.text.as_str(), label.as_str());
            self.text = longer;
            self.entities.push(
                MessageEntity {
                    kind: "text_mention".to_owned(),
                    offset,
                    length: utf16_len(label.as_str()),
                    url: None,
                    user: Some(
                        User {
                            id,
                            is_bot: false,
                            first_name: user_id.to_owned(),
                            last_name: None,
                            username: None,
                        },
                    ),
                    custom_emoji_id: None,
                },
            );
        }
        Ok(())
    }
}

/// A composer that is given a mention holds the text with that mention.
proof fn lemma_mention_composes(
    before: TextComposer,
    after: TextComposer,
    composed: ComposedText,
    user_id: Seq<char>,
)
    requires
        composes(before, composed),
        label_outcome(before.text@, user_id) matches Ok((label, view)) && after.text@
            == before.text@ + label && after.entities@.len() == before.entities@.len() + 1
            && after.entities@.drop_last() == before.entities@ && is_entity(
            after.entities@.last(),
            view,
        ),
    ensures
        mention_outcome(composed, user_id) matches Ok(next) && composes(after, next),
{
    let next = mention_outcome(composed, user_id)->Ok_0;
    assert forall|i: int| 0 <= i < after.entities@.len() implies is_entity(
        #[trigger] after.entities@[i],
        next.entities[i],
    ) by {
        if i < before.entities@.len() {
            assert(after.entities@[i] == after.entities@.drop_last()[i]);
            assert(is_entity(before.entities@[i], composed.entities[i]));
        } else {
            assert(after.entities@[i] == after.entities@.last());
        }
    }
}

/// Every mention is a part of the text that starts with an at sign.
pub open spec fn mentions_fit(composed: ComposedText) -> bool {
    forall|i: int|
        0 <= i < composed.entities.len() ==> {
            let entity = #[trigger] composed.entities[i];
            entity.length >= 0 && (utf16::utf16_part(
                composed.text,
                entity.offset,
                entity.length,
            ) matches Some(part) && part.len() > 0 && part[0] == '@')
        }
}

/// A text that is added leaves the mentions where they are.
pub proof fn law_text_keeps_mentions(composed: ComposedText, more: Seq<char>)
    requires
        mentions_fit(composed),
    ensures
        mentions_fit(ComposedText { text: composed.text + more, entities: composed.entities }),
{
    assert forall|i: int| 0 <= i < composed.entities.len() implies {
        let entity = #[trigger] composed.entities[i];
        entity.length >= 0 && (utf16::utf16_part(
            composed.text + more,
            entity.offset,
            entity.length,
        ) matches Some(part) && part.len() > 0 && part[0] == '@')
    } by {
        let entity = composed.entities[i];
        utf16::lemma_part_stays(composed.text, more, entity.offset, entity.length);
    }
}

/// A mention that is added lies, in UTF-16 code units, where its text stands,
/// and so do those before it.
pub proof fn law_mentions_fit(composed: ComposedText, user_id: Seq<char>)
    requires
        mentions_fit(composed),
    ensures
        mention_outcome(composed, user_id) matches Ok(after) ==> mentions_fit(after),
{
    if let Ok(after) = mention_outcome(composed, user_id) {
        reveal_strlit("@");
        let label = if user_id.len() > 0 && user_id[0] == '@' {
            user_id
        } else {
            "@"@ + user_id
        };
        assert(label.len() > 0 && label[0] == '@');
        assert(after.text == composed.text + label);
        law_text_keeps_mentions(composed, label);
        utf16::lemma_added_part(composed.text, label);
        let grown = ComposedText { text: composed.text + label, entities: composed.entities };
        assert forall|i: int| 0 <= i < after.entities.len() implies {
            let entity = #[trigger] after.entities[i];
            entity.length >= 0 && (utf16::utf16_part(
                after.text,
                entity.offset,
                entity.length,
            ) matches Some(part) && part.len() > 0 && part[0] == '@')
        } by {
            if i < composed.entities.len() {
                assert(after.entities[i] == grown.entities[i]);
            }
        }
    }
}

/// What a media item says.
#[verifier::ext_equal]
pub struct MediaView {
    pub kind: MediaKind,
    pub file: File,
    pub duration: Option<i32>,
    pub caption: Option<Seq<char>>,
}

impl View for OutgoingMedia {
    type V = MediaView;

    open spec fn view(&self) -> MediaView {
        MediaView {
            kind: self.kind,
            file: self.file,
            duration: self.duration,
            caption: json::optional_chars(self.caption),
        }
    }
}

/// A media item, or why the file cannot be sent.
pub open spec fn media_outcome(
    kind: MediaKind,
    file: Option<File>,
    duration: Option<i32>,
    caption: Option<Seq<char>>,
) -> Result<MediaView, ErrorView> {
    match file {
        None => error::refused(kind_name(kind) + " segment has no file"@),
        Some(file) => if file.id is None && file.uri is None && file.base64 is None {
            error::refused(
                kind_name(kind) + " file has no Telegram file_id, URI, path, or base64 data"@,
            )
        } else {
            Ok(MediaView { kind, file, duration, caption })
        },
    }
}

fn outgoing_media(
    kind: MediaKind,
    file: Option<File>,
    duration: Option<i32>,
    caption: Option<String>,
) -> (result: Result<OutgoingMedia, Error>)
    ensures
        error::shown(result) == media_outcome(
            kind,
            file,
            duration,
            json::optional_chars(caption),
        ),
{
    let file = match file {
        Some(file) => file,
        None => {
            return Err(Error::Message(joined(kind.shown(), " segment has no file")));
        },
    };
    if file.id.is_none() && file.uri.is_none() && file.base64.is_none() {
        return Err(
            Error::Message(
                joined(
                    kind.shown(),
                    " file has no Telegram file_id, URI, path, or base64 data",
                ),
            ),
        );
    }
    Ok(OutgoingMedia { kind, file, duration, caption })
}

/// What a venue says.
pub struct VenueView {
    pub latitude: Real,
    pub longitude: Real,
    pub title: Seq<char>,
    pub address: Seq<char>,
}

impl View for OutgoingVenue {
    type V = VenueView;

    open spec fn view(&self) -> VenueView {
        VenueView {
            latitude: self.latitude,
            longitude: self.longitude,
            title: self.title@,
            address: self.address@,
        }
    }
}

/// What a message is made of so far.
#[verifier::ext_equal]
pub struct Draft {
    pub composed: ComposedText,
    pub media: Seq<MediaView>,
    pub reply: Option<(i64, JsonView)>,
    pub venues: Seq<VenueView>,
    pub stickers: Seq<Seq<char>>,
    pub unsupported: Seq<Seq<char>>,
}

/// Nothing yet.
pub open spec fn no_draft() -> Draft {
    Draft {
        composed: ComposedText { text: Seq::empty(), entities: Seq::empty() },
        media: Seq::empty(),
        reply: None,
        venues: Seq::empty(),
        stickers: Seq::empty(),
        unsupported: Seq::empty(),
    }
}

/// The draft with a text.
pub open spec fn with_text(draft: Draft, more: Seq<char>) -> Draft {
    Draft {
        composed: ComposedText {
            text: draft.composed.text + more,
            entities: draft.composed.entities,
        },
        ..draft
    }
}

/// The draft with a media item.
pub open spec fn with_media(draft: Draft, media: Result<MediaView, ErrorView>) -> Result<
    Draft,
    ErrorView,
> {
    match media {
        Ok(media) => Ok(Draft { media: draft.media.push(media), ..draft }),
        Err(e) => Err(e),
    }
}

/// The draft with a segment that Telegram cannot send.
pub open spec fn with_unsupported(draft: Draft, name: Seq<char>) -> Draft {
    Draft { unsupported: draft.unsupported.push(name), ..draft }
}

/// A shared address with its title and what it says, a line for each.
pub open spec fn share_text(title: Seq<char>, content: Option<String>, url: Seq<char>) -> Seq<char> {
    match content {
        Some(content) => title + "\n"@ + content@ + "\n"@ + url,
        None => title + "\n"@ + url,
    }
}

/// The draft with one more segment, or why that cannot be sent.
pub open spec fn with_segment(draft: Draft, segment: MessageSegment) -> Result<Draft, ErrorView> {
    match segment {
        MessageSegment::Text { content } => Ok(with_text(draft, content@)),
        MessageSegment::Image { file } => with_media(
            draft,
            media_outcome(MediaKind::Photo, file, None, None),
        ),
        MessageSegment::Video { file, length } => with_media(
            draft,
            media_outcome(MediaKind::Video, file, length, None),
        ),
        MessageSegment::Audio { file, length } => with_media(
            draft,
            media_outcome(MediaKind::Audio, file, length, None),
        ),
        MessageSegment::File { file } => with_media(
            draft,
            media_outcome(MediaKind::Document, file, None, None),
        ),
        MessageSegment::Reply { message_id } => if draft.reply is Some {
            error::refused("multiple reply segments are not supported"@)
        } else {
            match utils::split_id_outcome(message_id@) {
                Err(e) => Err(e),
                Ok((chat, number)) => Ok(
                    Draft { reply: Some((number, address::chat_id_view(chat))), ..draft },
                ),
            }
        },
        MessageSegment::At { user_id } => match mention_outcome(draft.composed, user_id@) {
            Ok(composed) => Ok(Draft { composed, ..draft }),
            Err(e) => Err(e),
        },
        MessageSegment::AtAll => Ok(with_text(draft, "@all"@)),
        MessageSegment::Share { title, content, url, image } => if image is Some {
            with_media(
                draft,
                media_outcome(
                    MediaKind::Photo,
                    image,
                    None,
                    Some(share_text(title@, content, url@)),
                ),
            )
        } else {
            Ok(with_text(draft, share_text(title@, content, url@)))
        },
        MessageSegment::Location { latitude, longitude, title, content } => Ok(
            Draft {
                venues: draft.venues.push(
                    VenueView {
                        latitude,
                        longitude,
                        title: title@,
                        address: match content {
                            Some(content) => content@,
                            None => Seq::empty(),
                        },
                    },
                ),
                ..draft
            },
        ),
        MessageSegment::Emoji { id } => Ok(Draft { stickers: draft.stickers.push(id@), ..draft }),
        MessageSegment::Reference { .. } => Ok(with_unsupported(draft, "reference"@)),
        MessageSegment::ForwardNode { .. } => Ok(with_unsupported(draft, "forward node"@)),
        MessageSegment::ForwardCustomNode { .. } => Ok(
            with_unsupported(draft, "custom forward node"@),
        ),
        MessageSegment::CustomString { .. } => Ok(with_unsupported(draft, "custom string"@)),
        MessageSegment::CustomValue { .. } => Ok(with_unsupported(draft, "custom value"@)),
    }
}

/// The draft that the first `n` segments make, up to the first that cannot be
/// sent.
pub open spec fn draft_outcome(segments: Seq<MessageSegment>, n: int) -> Result<Draft, ErrorView>
    decreases n,
{
    if n <= 0 {
        Ok(no_draft())
    } else {
        match draft_outcome(segments, n - 1) {
            Err(e) => Err(e),
            Ok(draft) => with_segment(draft, segments[n - 1]),
        }
    }
}

proof fn lemma_draft_refused(segments: Seq<MessageSegment>, n: int, m: int, e: ErrorView)
    requires
        draft_outcome(segments, n) == Err::<Draft, ErrorView>(e),
        0 <= n <= m,
    ensures
        draft_outcome(segments, m) == Err::<Draft, ErrorView>(e),
    decreases m - n,
{
    if n < m {
        lemma_draft_refused(segments, n, m - 1, e);
    }
}

/// The first `n` names with commas between them.
pub open spec fn listed(names: Seq<Seq<char>>, n: int) -> Seq<char>
    decreases n,
{
    if n <= 0 {
        Seq::empty()
    } else if n == 1 {
        names[0]
    } else {
        listed(names, n - 1) + ", "@ + names[n - 1]
    }
}

/// The draft, where there is something to send and nothing that Telegram
/// cannot.
pub open spec fn finished(draft: Draft) -> Result<Draft, ErrorView> {
    if draft.unsupported.len() > 0 {
        error::refused(
            "Telegram cannot send oxidebot segment(s): "@ + listed(
                draft.unsupported,
                draft.unsupported.len() as int,
            ),
        )
    } else if draft.composed.text.len() == 0 && draft.media.len() == 0 && draft.venues.len() == 0
        && draft.stickers.len() == 0 {
        error::refused("message contains no Telegram-sendable segments"@)
    } else {
        Ok(draft)
    }
}

/// What a list of segments becomes on Telegram.
pub open spec fn process_outcome(segments: Seq<MessageSegment>) -> Result<Draft, ErrorView> {
    match draft_outcome(segments, segments.len() as int) {
        Err(e) => Err(e),
        Ok(draft) => finished(draft),
    }
}

/// What a list of media items says.
pub open spec fn media_views(media: Seq<OutgoingMedia>) -> Seq<MediaView> {
    Seq::new(media.len(), |i: int| media[i]@)
}

/// What a list of venues says.
pub open spec fn venue_views(venues: Seq<OutgoingVenue>) -> Seq<VenueView> {
    Seq::new(venues.len(), |i: int| venues[i]@)
}

/// The reply is to the message of the draft.
pub open spec fn is_reply(reply: Option<ReplyParameters>, view: Option<(i64, JsonView)>) -> bool {
    match view {
        Some((number, chat)) => reply matches Some(reply) && (reply.message_id == number)
            && (reply.chat_id matches Some(id) && id@ == chat),
        None => reply is None,
    }
}

/// The message is what the draft says.
pub open spec fn is_message(outgoing: OutgoingMessage, draft: Draft) -> bool {
    &&& outgoing.text@ == draft.composed.text
    &&& are_entities(outgoing.entities@, draft.composed.entities)
    &&& media_views(outgoing.media@) == draft.media
    &&& is_reply(outgoing.reply, draft.reply)
    &&& venue_views(outgoing.venues@) == draft.venues
    &&& utf16::texts(outgoing.stickers@) == draft.stickers
}

/// What a message is made of so far.
struct Drafting {
    composer: TextComposer,
    media: Vec<OutgoingMedia>,
    reply: Option<ReplyParameters>,
    venues: Vec<OutgoingVenue>,
    stickers: Vec<String>,
    unsupported: Vec<String>,
}

spec fn drafts(drafting: Drafting, draft: Draft) -> bool {
    &&& composes(drafting.composer, draft.composed)
    &&& media_views(drafting.media@) == draft.media
    &&& is_reply(drafting.reply, draft.reply)
    &&& venue_views(drafting.venues@) == draft.venues
    &&& utf16::texts(drafting.stickers@) == draft.stickers
    &&& utf16::texts(drafting.unsupported@) == draft.unsupported
}

fn push_media_item(media: &mut Vec<OutgoingMedia>, item: OutgoingMedia)
    ensures
        media_views(final(media)@) == media_views(old(media)@).push(item@),
{
    let ghost before = media_views(media@);
    media.push(item);
    assert(media_views(media@) =~= before.push(item@));
}

fn push_text(list: &mut Vec<String>, item: String)
    ensures
        utf16::texts(final(list)@) == utf16::texts(old(list)@).push(item@),
{
    let ghost before = utf16::texts(list@);
    list.push(item);
    assert(utf16::texts(list@) =~= before.push(item@));
}

fn write_share(title: &str, content: &Option<String>, url: &str) -> (result: String)
    ensures
        result@ == share_text(title@, *content, url@),
{
    match content {
        Some(content) => {
            let start = joined3(title, "\n", content.as_str());
            joined3(start.as_str(), "\n", url)
        },
        None => joined3(title, "\n", url),
    }
}

fn take_media(
    drafting: Drafting,
    kind: MediaKind,
    file: Option<File>,
    duration: Option<i32>,
    caption: Option<String>,
    draft: Ghost<Draft>,
) -> (result: Result<Drafting, Error>)
    requires
        drafts(drafting, draft@),
    ensures
        match with_media(
            draft@,
            media_outcome(kind, file, duration, json::optional_chars(caption)),
        ) {
            Ok(after) => result matches Ok(next) && drafts(next, after),
            Err(e) => result matches Err(error) && error@ == e,
        },
{
    let mut drafting = drafting;
    let item = outgoing_media(kind, file, duration, caption)?;
    push_media_item(&mut drafting.media, item);
    Ok(drafting)
}

fn take_text(drafting: Drafting, more: &str, draft: Ghost<Draft>) -> (next: Drafting)
    requires
        drafts(drafting, draft@),
    ensures
        drafts(next, with_text(draft@, more@)),
{
    let mut drafting = drafting;
    drafting.composer.append(more);
    drafting
}

fn take_unsupported(drafting: Drafting, name: &str, draft: Ghost<Draft>) -> (next: Drafting)
    requires
        drafts(drafting, draft@),
    ensures
        drafts(next, with_unsupported(draft@, name@)),
{
    let mut drafting = drafting;
    push_text(&mut drafting.unsupported, name.to_owned());
    drafting
}

fn take_segment(drafting: Drafting, segment: MessageSegment, draft: Ghost<Draft>) -> (result: Result<
    Drafting,
    Error,
>)
    requires
        drafts(drafting, draft@),
    ensures
        match with_segment(draft@, segment) {
            Ok(after) => result matches Ok(next) && drafts(next, after),
            Err(e) => result matches Err(error) && error@ == e,
        },
{
    let mut drafting = drafting;
    match segment {
        MessageSegment::Text { content } => Ok(take_text(drafting, content.as_str(), draft)),
        MessageSegment::Image { file } => take_media(
            drafting,
            MediaKind::Photo,
            file,
            None,
            None,
            draft,
        ),
        MessageSegment::Video { file, length } => take_media(
            drafting,
            MediaKind::Video,
            file,
            length,
            None,
            draft,
        ),
        MessageSegment::Audio { file, length } => take_media(
            drafting,
            MediaKind::Audio,
            file,
            length,
            None,
            draft,
        ),
        MessageSegment::File { file } => take_media(
            drafting,
            MediaKind::Document,
            file,
            None,
            None,
            draft,
        ),
        MessageSegment::Reply { message_id } => {
            if drafting.reply.is_some() {
                return Err(message("multiple reply segments are not supported"));
            }
            let (chat, number) = split_id(message_id.as_str())?;
            drafting.reply = Some(
                ReplyParameters {
                    message_id: number,
                    chat_id: Some(chat_id_value(chat.as_str())),
                },
            );
            Ok(drafting)
        },
        MessageSegment::At { user_id } => {
            let ghost before = drafting.composer;
            drafting.composer.mention(user_id.as_str())?;
            proof {
                lemma_mention_composes(before, drafting.composer, draft@.composed, user_id@);
            }
            Ok(drafting)
        },
        MessageSegment::AtAll => Ok(take_text(drafting, "@all", draft)),
        MessageSegment::Share { title, content, url, image } => {
            let caption = write_share(title.as_str(), &content, url.as_str());
            if image.is_some() {
                take_media(drafting, MediaKind::Photo, image, None, Some(caption), draft)
            } else {
                Ok(take_text(drafting, caption.as_str(), draft))
            }
        },
        MessageSegment::Location { latitude, longitude, title, content } => {
            let address = match content {
                Some(content) => content,
                None => {
                    let none = String::new();
                    assert(none@ =~= Seq::<char>::empty());
                    none
                },
            };
            let venue = OutgoingVenue { latitude, longitude, title, address };
            let ghost before = venue_views(drafting.venues@);
            let ghost shown = venue@;
            drafting.venues.push(venue);
            assert(venue_views(drafting.venues@) =~= before.push(shown));
            Ok(drafting)
        },
        MessageSegment::Emoji { id } => {
            push_text(&mut drafting.stickers, id);
            Ok(drafting)
        },
        MessageSegment::Reference { .. } => Ok(take_unsupported(drafting, "reference", draft)),
        MessageSegment::ForwardNode { .. } => Ok(
            take_unsupported(drafting, "forward node", draft),
        ),
        MessageSegment::ForwardCustomNode { .. } => Ok(
            take_unsupported(drafting, "custom forward node", draft),
        ),
        MessageSegment::CustomString { .. } => Ok(
            take_unsupported(drafting, "custom string", draft),
        ),
        MessageSegment::CustomValue { .. } => Ok(
            take_unsupported(drafting, "custom value", draft),
        ),
    }
}

fn list_names(names: &Vec<String>) -> (list: String)
    ensures
        list@ == listed(utf16::texts(names@), names@.len() as int),
{
    let ghost all = utf16::texts(names@);
    let mut list: String = String::new();
    assert(list@ =~= Seq::<char>::empty());
    let mut i: usize = 0;
    while i < names.len()
        invariant
            i <= names@.len(),
            all == utf16::texts(names@),
            list@ == listed(all, i as int),
        decreases names@.len() - i,
    {
        assert(all[i as int] == names@[i as int]@);
        if i == 0 {
            list = names[0].clone();
        } else {
            list = joined3(list.as_str(), ", ", names[i].as_str());
        }
        i += 1;
    }
    list
}

/// Makes a message that Telegram can send out of segments.
pub fn process_message_segments(segments: Vec<MessageSegment>) -> (result: Result<
    OutgoingMessage,
    Error,
>)
    ensures
        match process_outcome(segments@) {
            Ok(draft) => result matches Ok(outgoing) && is_message(outgoing, draft),
            Err(e) => result matches Err(error) && error@ == e,
        },
{
    let mut drafting = Drafting {
        composer: TextComposer::new(),
        media: Vec::new(),
        reply: None,
        venues: Vec::new(),
        stickers: Vec::new(),
        unsupported: Vec::new(),
    };
    let ghost mut draft = no_draft();
    proof {
        assert(media_views(drafting.media@) =~= Seq::<MediaView>::empty());
        assert(venue_views(drafting.venues@) =~= Seq::<VenueView>::empty());
        assert(utf16::texts(drafting.stickers@) =~= Seq::<Seq<char>>::empty());
        assert(utf16::texts(drafting.unsupported@) =~= Seq::<Seq<char>>::empty());
    }
    let ghost all = segments@;
    for segment in iter: segments
        invariant
            iter.seq() == all,
            all == segments@,
            draft_outcome(all, iter.index()) == Ok::<Draft, ErrorView>(draft),
            drafts(drafting, draft),
    {
        let ghost next = with_segment(draft, segment);
        match take_segment(drafting, segment, Ghost(draft)) {
            Ok(done) => {
                drafting = done;
                proof {
                    draft = next->Ok_0;
                }
            },
            Err(e) => {
                proof {
                    lemma_draft_refused(all, iter.index() + 1, all.len() as int, e@);
                }
                return Err(e);
            },
        }
    }
    if drafting.unsupported.len() > 0 {
        let names = list_names(&drafting.unsupported);
        return Err(
            Error::Message(joined("Telegram cannot send oxidebot segment(s): ", names.as_str())),
        );
    }
    if drafting.composer.text.as_str().is_empty() && drafting.media.len() == 0
        && drafting.venues.len() == 0 && drafting.stickers.len() == 0 {
        return Err(message("message contains no Telegram-sendable segments"));
    }
    Ok(
        OutgoingMessage {
            text: drafting.composer.text,
            entities: drafting.composer.entities,
            media: drafting.media,
            reply: drafting.reply,
            venues: drafting.venues,
            stickers: drafting.stickers,
        },
    )
}

// ---------------------------------------------------------------------------
// Laws of messages from Telegram
// ---------------------------------------------------------------------------

/// The sorts of segments that stand for something other than text.
#[derive(Debug, Clone, Copy, PartialEq, Eq, Structural)]
pub enum Sort {
    Picture,
    Video,
    Audio,
    File,
    Sticker,
    Place,
}

/// The segment is of the sort.
pub open spec fn is_of(segment: MessageSegment, sort: Sort) -> bool {
    match sort {
        Sort::Picture => segment is Image,
        Sort::Video => segment is Video,
        Sort::Audio => segment is Audio,
        Sort::File => segment is File,
        Sort::Sticker => segment is Emoji,
        Sort::Place => segment is Location,
    }
}

/// How many of the segments are of the sort.
pub open spec fn how_many(segments: Seq<MessageSegment>, sort: Sort) -> nat
    decreases segments.len(),
{
    if segments.len() == 0 {
        0
    } else {
        how_many(segments.drop_last(), sort) + (if is_of(segments.last(), sort) {
            1nat
        } else {
            0
        })
    }
}

spec fn shows(segment: SegmentView, sort: Sort) -> bool {
    match sort {
        Sort::Picture => segment is Image,
        Sort::Video => segment is Video,
        Sort::Audio => segment is Audio,
        Sort::File => segment is File,
        Sort::Sticker => segment is Emoji,
        Sort::Place => segment is Location,
    }
}

spec fn shown(segments: Seq<SegmentView>, sort: Sort) -> nat
    decreases segments.len(),
{
    if segments.len() == 0 {
        0
    } else {
        shown(segments.drop_last(), sort) + (if shows(segments.last(), sort) {
            1nat
        } else {
            0
        })
    }
}

proof fn lemma_shown(segments: Seq<MessageSegment>, sort: Sort)
    ensures
        how_many(segments, sort) == shown(source::segments_view(segments), sort),
    decreases segments.len(),
{
    if segments.len() > 0 {
        lemma_shown(segments.drop_last(), sort);
        let views = source::segments_view(segments);
        assert(views.drop_last() =~= source::segments_view(segments.drop_last()));
        assert(views.last() == segments.last()@);
    }
}

/// How many there are of something that is there or not.
spec fn count_of(segment: Option<SegmentView>, sort: Sort) -> nat {
    match segment {
        Some(segment) => if shows(segment, sort) {
            1
        } else {
            0
        },
        None => 0,
    }
}

proof fn lemma_and_segment(segments: Seq<SegmentView>, segment: Option<SegmentView>, sort: Sort)
    ensures
        shown(and_segment(segments, segment), sort) == shown(segments, sort) + count_of(
            segment,
            sort,
        ),
        forall|held: SegmentView|
            segments.contains(held) ==> #[trigger] and_segment(segments, segment).contains(held),
        segment matches Some(own) ==> and_segment(segments, segment).contains(own),
{
    if let Some(own) = segment {
        assert(segments.push(own).drop_last() =~= segments);
        assert(segments.push(own)[segments.len() as int] == own);
        assert forall|held: SegmentView| segments.contains(held) implies #[trigger] and_segment(
            segments,
            segment,
        ).contains(held) by {
            let i = segments.index_of(held);
            assert(segments.push(own)[i] == held);
        }
    }
}

proof fn lemma_shown_add(a: Seq<SegmentView>, b: Seq<SegmentView>, sort: Sort)
    ensures
        shown(a + b, sort) == shown(a, sort) + shown(b, sort),
    decreases b.len(),
{
    if b.len() == 0 {
        assert(a + b =~= a);
    } else {
        assert((a + b).drop_last() =~= a + b.drop_last());
        lemma_shown_add(a, b.drop_last(), sort);
    }
}

/// A text or a mention.
spec fn is_words(segment: SegmentView) -> bool {
    segment is Text || segment is At
}

proof fn lemma_words(segments: Seq<SegmentView>, sort: Sort)
    requires
        forall|i: int| 0 <= i < segments.len() ==> is_words(#[trigger] segments[i]),
    ensures
        shown(segments, sort) == 0,
    decreases segments.len(),
{
    if segments.len() > 0 {
        let rest = segments.drop_last();
        assert forall|i: int| 0 <= i < rest.len() implies is_words(#[trigger] rest[i]) by {
            assert(is_words(segments[i]));
        }
        lemma_words(rest, sort);
        assert(is_words(segments[segments.len() - 1]));
    }
}

proof fn lemma_progress_words(text: Seq<char>, mentions: Seq<MessageEntity>, n: int)
    ensures
        forall|i: int|
            0 <= i < mention_progress(text, mentions, n).segments.len() ==> is_words(
                #[trigger] mention_progress(text, mentions, n).segments[i],
            ),
    decreases n,
{
    if n > 0 {
        lemma_progress_words(text, mentions, n - 1);
        let before = mention_progress(text, mentions, n - 1);
        let after = mention_progress(text, mentions, n);
        let entity = mentions[n - 1];
        assert(after == mention_step(text, before, entity));
        assert forall|i: int| 0 <= i < after.segments.len() implies is_words(
            #[trigger] after.segments[i],
        ) by {
            if i < before.segments.len() {
                assert(after.segments[i] == before.segments[i]);
            }
        }
    }
}

proof fn lemma_text_words(text: Seq<char>, entities: Option<Vec<MessageEntity>>)
    ensures
        forall|i: int|
            0 <= i < text_segments(text, entities).len() ==> is_words(
                #[trigger] text_segments(text, entities)[i],
            ),
{
    let mentions = match entities {
        Some(entities) => ordered_mentions(entities@, entities@.len() as int),
        None => Seq::empty(),
    };
    lemma_progress_words(text, mentions, mentions.len() as int);
}

proof fn lemma_written(
    segments: Seq<SegmentView>,
    text: Option<String>,
    entities: Option<Vec<MessageEntity>>,
    sort: Sort,
)
    ensures
        shown(and_written(segments, text, entities), sort) == shown(segments, sort),
        forall|held: SegmentView|
            segments.contains(held) ==> #[trigger] and_written(segments, text, entities).contains(
                held,
            ),
{
    if let Some(text) = text {
        let words = text_segments(text@, entities);
        lemma_text_words(text@, entities);
        lemma_words(words, sort);
        lemma_shown_add(segments, words, sort);
        assert forall|held: SegmentView| segments.contains(held) implies #[trigger] and_written(
            segments,
            Some(text),
            entities,
        ).contains(held) by {
            let i = segments.index_of(held);
            assert((segments + words)[i] == held);
        }
    }
}

proof fn lemma_members_shown(
    segments: Seq<SegmentView>,
    members: Map<Seq<char>, JsonView>,
    names: Seq<Seq<char>>,
    n: int,
    sort: Sort,
)
    ensures
        shown(and_members(segments, members, names, n), sort) == shown(segments, sort),
        forall|held: SegmentView|
            segments.contains(held) ==> #[trigger] and_members(segments, members, names, n).contains(
                held,
            ),
    decreases n,
{
    if n > 0 {
        lemma_members_shown(segments, members, names, n - 1, sort);
        let before = and_members(segments, members, names, n - 1);
        let value = members[names[n - 1]];
        lemma_and_segment(before, Some(raw_segment(names[n - 1], value)), sort);
        let after = and_members(segments, members, names, n);
        assert(after == before || after == before.push(raw_segment(names[n - 1], value)));
    }
}

/// The segment that stands for media of a message.
spec fn photo_segment(message: TelegramMessage) -> Option<SegmentView> {
    match message.photo {
        Some(photos) => if photos@.len() == 0 {
            None
        } else {
            Some(
                SegmentView::Image(
                    Some(photo_view(photos@[largest(photos@, photos@.len() as int)])),
                ),
            )
        },
        None => None,
    }
}

spec fn document_segment(message: TelegramMessage) -> Option<SegmentView> {
    match message.document {
        Some(document) => Some(SegmentView::File(Some(media_file_view(document)))),
        None => None,
    }
}

spec fn sticker_segment(message: TelegramMessage) -> Option<SegmentView> {
    match message.sticker {
        Some(sticker) => Some(SegmentView::Emoji(sticker.file_id@)),
        None => None,
    }
}

spec fn all_held(segments: Seq<SegmentView>, message: TelegramMessage) -> bool {
    &&& photo_segment(message) matches Some(own) ==> segments.contains(own)
    &&& timed(message.animation, true) matches Some(own) ==> segments.contains(own)
    &&& timed(message.audio, false) matches Some(own) ==> segments.contains(own)
    &&& timed(message.video, true) matches Some(own) ==> segments.contains(own)
    &&& timed(message.video_note, true) matches Some(own) ==> segments.contains(own)
    &&& document_segment(message) matches Some(own) ==> segments.contains(own)
    &&& sticker_segment(message) matches Some(own) ==> segments.contains(own)
    &&& timed(message.voice, false) matches Some(own) ==> segments.contains(own)
}

proof fn lemma_media(segments: Seq<SegmentView>, message: TelegramMessage, sort: Sort)
    ensures
        shown(media_segments(segments, message), sort) == shown(segments, sort) + count_of(
            photo_segment(message),
            sort,
        ) + count_of(timed(message.animation, true), sort) + count_of(
            timed(message.audio, false),
            sort,
        ) + count_of(timed(message.video, true), sort) + count_of(
            timed(message.video_note, true),
            sort,
        ) + count_of(document_segment(message), sort) + count_of(sticker_segment(message), sort)
            + count_of(timed(message.voice, false), sort),
        all_held(media_segments(segments, message), message),
{
    let s1 = and_segment(segments, photo_segment(message));
    lemma_and_segment(segments, photo_segment(message), sort);
    let s2 = and_segment(s1, timed(message.animation, true));
    lemma_and_segment(s1, timed(message.animation, true), sort);
    let s3 = and_segment(s2, timed(message.audio, false));
    lemma_and_segment(s2, timed(message.audio, false), sort);
    let s4 = and_segment(s3, timed(message.video, true));
    lemma_and_segment(s3, timed(message.video, true), sort);
    let s5 = and_segment(s4, timed(message.video_note, true));
    lemma_and_segment(s4, timed(message.video_note, true), sort);
    let s6 = and_segment(s5, document_segment(message));
    lemma_and_segment(s5, document_segment(message), sort);
    let s7 = and_segment(s6, sticker_segment(message));
    lemma_and_segment(s6, sticker_segment(message), sort);
    let s8 = and_segment(s7, timed(message.voice, false));
    lemma_and_segment(s7, timed(message.voice, false), sort);
    assert(media_segments(segments, message) == s8);
}

proof fn lemma_message(message: TelegramMessage, sort: Sort)
    ensures
        shown(message_segments(message), sort) == count_of(photo_segment(message), sort) + count_of(
            timed(message.animation, true),
            sort,
        ) + count_of(timed(message.audio, false), sort) + count_of(
            timed(message.video, true),
            sort,
        ) + count_of(timed(message.video_note, true), sort) + count_of(
            document_segment(message),
            sort,
        ) + count_of(sticker_segment(message), sort) + count_of(timed(message.voice, false), sort)
            + count_of(place(message), sort),
        all_held(message_segments(message), message),
        place(message) matches Some(own) ==> message_segments(message).contains(own),
        message.contact matches Some(data) ==> message_segments(message).contains(
            raw_segment("contact"@, data@),
        ),
        message.story matches Some(data) ==> message_segments(message).contains(
            raw_segment("story"@, data@),
        ),
        message.paid_media matches Some(data) ==> message_segments(message).contains(
            raw_segment("paid_media"@, data@),
        ),
        message.live_photo matches Some(data) ==> message_segments(message).contains(
            raw_segment("live_photo"@, data@),
        ),
        message.rich_message matches Some(data) ==> message_segments(message).contains(
            raw_segment("rich_message"@, data@),
        ),
{
    let empty = Seq::<SegmentView>::empty();
    lemma_written(empty, message.text, message.entities, sort);
    let said = and_written(empty, message.text, message.entities);
    lemma_media(said, message, sort);
    let media = media_segments(said, message);
    lemma_written(media, message.caption, message.caption_entities, sort);
    let captioned = and_written(media, message.caption, message.caption_entities);
    lemma_and_segment(captioned, place(message), sort);
    let placed = and_segment(captioned, place(message));
    let r1 = optional_raw("rich_message"@, message.rich_message);
    let r2 = optional_raw("live_photo"@, message.live_photo);
    let r3 = optional_raw("paid_media"@, message.paid_media);
    let r4 = optional_raw("story"@, message.story);
    let r5 = optional_raw("contact"@, message.contact);
    let p1 = and_segment(placed, r1);
    lemma_and_segment(placed, r1, sort);
    let p2 = and_segment(p1, r2);
    lemma_and_segment(p1, r2, sort);
    let p3 = and_segment(p2, r3);
    lemma_and_segment(p2, r3, sort);
    let p4 = and_segment(p3, r4);
    lemma_and_segment(p3, r4, sort);
    let p5 = and_segment(p4, r5);
    lemma_and_segment(p4, r5, sort);
    let names = json::sorted_keys(json::fields(message.extra).dom());
    lemma_members_shown(p5, json::fields(message.extra), names, names.len() as int, sort);
}

/// One where it is there.
pub open spec fn one<A>(part: Option<A>) -> nat {
    match part {
        Some(_) => 1,
        None => 0,
    }
}

/// A message is read into as many segments of each sort as it has parts of it:
/// animations, videos and video notes are videos, audio files and voice
/// messages are audio, whatever else the message holds.
pub proof fn law_parts_keep_their_sort(message: TelegramMessage, read: Message)
    requires
        source::segments_view(read.segments@) == message_segments(message),
    ensures
        how_many(read.segments@, Sort::Video) == one(message.animation) + one(message.video) + one(
            message.video_note,
        ),
        how_many(read.segments@, Sort::Audio) == one(message.audio) + one(message.voice),
        how_many(read.segments@, Sort::File) == one(message.document),
        how_many(read.segments@, Sort::Sticker) == one(message.sticker),
        how_many(read.segments@, Sort::Picture) == match message.photo {
            Some(photos) => if photos@.len() > 0 {
                1nat
            } else {
                0
            },
            None => 0,
        },
        how_many(read.segments@, Sort::Place) == if message.venue is Some || message.location is Some {
            1nat
        } else {
            0
        },
{
    lemma_shown(read.segments@, Sort::Video);
    lemma_shown(read.segments@, Sort::Audio);
    lemma_shown(read.segments@, Sort::File);
    lemma_shown(read.segments@, Sort::Sticker);
    lemma_shown(read.segments@, Sort::Picture);
    lemma_shown(read.segments@, Sort::Place);
    lemma_message(message, Sort::Video);
    lemma_message(message, Sort::Audio);
    lemma_message(message, Sort::File);
    lemma_message(message, Sort::Sticker);
    lemma_message(message, Sort::Picture);
    lemma_message(message, Sort::Place);
}

/// The file is the one that Telegram names, under the name it has there or
/// under its id where it has none.
pub open spec fn is_file_of(file: Option<File>, media: MediaFile) -> bool {
    &&& file matches Some(own)
    &&& own.id matches Some(id)
    &&& id@ == media.file_id@
    &&& own.name@ == match media.file_name {
        Some(name) => name@,
        None => media.file_id@,
    }
    &&& own.size == media.file_size
    &&& own.uri is None
    &&& own.base64 is None
}

/// The length is the duration, where it can be held.
pub open spec fn is_length(length: Option<i32>, media: MediaFile) -> bool {
    match length {
        Some(seconds) => seconds == media.duration,
        None => media.duration > i32::MAX || media.duration < i32::MIN,
    }
}

proof fn lemma_found(segments: Seq<MessageSegment>, view: SegmentView) -> (i: int)
    requires
        source::segments_view(segments).contains(view),
    ensures
        0 <= i < segments.len(),
        segments[i]@ == view,
{
    let i = source::segments_view(segments).index_of(view);
    assert(source::segments_view(segments)[i] == segments[i]@);
    i
}

/// Each part of a message that is a file is found among its segments, as a
/// segment of its sort, with its file and its duration.
pub proof fn law_parts_are_found(message: TelegramMessage, read: Message)
    requires
        source::segments_view(read.segments@) == message_segments(message),
    ensures
        message.video matches Some(media) ==> exists|i: int|
            0 <= i < read.segments@.len() && (#[trigger] read.segments@[i] matches
                MessageSegment::Video { file, length } && is_file_of(file, media) && is_length(
                length,
                media,
            )),
        message.animation matches Some(media) ==> exists|i: int|
            0 <= i < read.segments@.len() && (#[trigger] read.segments@[i] matches
                MessageSegment::Video { file, length } && is_file_of(file, media) && is_length(
                length,
                media,
            )),
        message.video_note matches Some(media) ==> exists|i: int|
            0 <= i < read.segments@.len() && (#[trigger] read.segments@[i] matches
                MessageSegment::Video { file, length } && is_file_of(file, media) && is_length(
                length,
                media,
            )),
        message.audio matches Some(media) ==> exists|i: int|
            0 <= i < read.segments@.len() && (#[trigger] read.segments@[i] matches
                MessageSegment::Audio { file, length } && is_file_of(file, media) && is_length(
                length,
                media,
            )),
        message.voice matches Some(media) ==> exists|i: int|
            0 <= i < read.segments@.len() && (#[trigger] read.segments@[i] matches
                MessageSegment::Audio { file, length } && is_file_of(file, media) && is_length(
                length,
                media,
            )),
        message.document matches Some(media) ==> exists|i: int|
            0 <= i < read.segments@.len() && (#[trigger] read.segments@[i] matches
                MessageSegment::File { file } && is_file_of(file, media)),
        message.sticker matches Some(sticker) ==> exists|i: int|
            0 <= i < read.segments@.len() && (#[trigger] read.segments@[i] matches
                MessageSegment::Emoji { id } && id@ == sticker.file_id@),
{
    lemma_message(message, Sort::Video);
    let segments = read.segments@;
    if message.video is Some {
        let i = lemma_found(segments, timed(message.video, true)->0);
    }
    if message.animation is Some {
        let i = lemma_found(segments, timed(message.animation, true)->0);
    }
    if message.video_note is Some {
        let i = lemma_found(segments, timed(message.video_note, true)->0);
    }
    if message.audio is Some {
        let i = lemma_found(segments, timed(message.audio, false)->0);
    }
    if message.voice is Some {
        let i = lemma_found(segments, timed(message.voice, false)->0);
    }
    if message.document is Some {
        let i = lemma_found(segments, document_segment(message)->0);
    }
    if message.sticker is Some {
        let i = lemma_found(segments, sticker_segment(message)->0);
    }
}

proof fn lemma_largest(photos: Seq<PhotoSize>, n: int)
    requires
        1 <= n <= photos.len(),
    ensures
        0 <= largest(photos, n) < n,
        forall|i: int| 0 <= i < n ==> area(#[trigger] photos[i]) <= area(photos[largest(photos, n)]),
    decreases n,
{
    if n > 1 {
        lemma_largest(photos, n - 1);
    }
}

/// Of the sizes of a picture the one with the most pixels is read.
pub proof fn law_the_largest_picture_is_read(message: TelegramMessage, read: Message)
    requires
        source::segments_view(read.segments@) == message_segments(message),
        message.photo matches Some(photos) && photos@.len() > 0,
    ensures
        exists|i: int, k: int|
            0 <= i < read.segments@.len() && 0 <= k < message.photo->0@.len() && (
            #[trigger] read.segments@[i] matches MessageSegment::Image { file: Some(file) }
                && file.id matches Some(id) && id@ == (#[trigger] message.photo->0@[k]).file_id@
                && forall|j: int|
                0 <= j < message.photo->0@.len() ==> (#[trigger] message.photo->0@[j]).width
                    * message.photo->0@[j].height <= message.photo->0@[k].width
                    * message.photo->0@[k].height),
{
    let photos = message.photo->0@;
    lemma_message(message, Sort::Picture);
    lemma_largest(photos, photos.len() as int);
    let k = largest(photos, photos.len() as int);
    let i = lemma_found(read.segments@, photo_segment(message)->0);
    assert forall|j: int| 0 <= j < photos.len() implies (#[trigger] photos[j]).width
        * photos[j].height <= photos[k].width * photos[k].height by {
        assert(area(photos[j]) <= area(photos[k]));
    }
    assert(read.segments@[i] is Image && photos[k].file_id@ == photos[k].file_id@);
}

/// Where a message takes place is found among its segments: the latitude and
/// the longitude, each as it was given, and the title and the address of a
/// venue.
pub proof fn law_places_are_found(message: TelegramMessage, read: Message)
    requires
        source::segments_view(read.segments@) == message_segments(message),
    ensures
        message.venue matches Some(venue) ==> exists|i: int|
            0 <= i < read.segments@.len() && (#[trigger] read.segments@[i] matches
                MessageSegment::Location { latitude, longitude, title, content: Some(content) }
                && latitude == venue.location.latitude && longitude == venue.location.longitude
                && title@ == venue.title@ && content@ == venue.address@),
        message.venue is None ==> (message.location matches Some(location) ==> exists|i: int|
            0 <= i < read.segments@.len() && (#[trigger] read.segments@[i] matches
                MessageSegment::Location { latitude, longitude, title, content: None } && latitude
                == location.latitude && longitude == location.longitude && title@.len() == 0)),
{
    lemma_message(message, Sort::Place);
    if place(message) is Some {
        let i = lemma_found(read.segments@, place(message)->0);
    }
}

/// What has no segment of its own is found among the segments as Telegram
/// wrote it, under its name.
pub proof fn law_other_parts_are_kept(message: TelegramMessage, read: Message)
    requires
        source::segments_view(read.segments@) == message_segments(message),
    ensures
        message.contact matches Some(own) ==> exists|i: int|
            0 <= i < read.segments@.len() && (#[trigger] read.segments@[i] matches
                MessageSegment::CustomValue { kind, data } && kind@ == "telegram.message."@
                + "contact"@ && data@ == own@),
        message.story matches Some(own) ==> exists|i: int|
            0 <= i < read.segments@.len() && (#[trigger] read.segments@[i] matches
                MessageSegment::CustomValue { kind, data } && kind@ == "telegram.message."@
                + "story"@ && data@ == own@),
        message.paid_media matches Some(own) ==> exists|i: int|
            0 <= i < read.segments@.len() && (#[trigger] read.segments@[i] matches
                MessageSegment::CustomValue { kind, data } && kind@ == "telegram.message."@
                + "paid_media"@ && data@ == own@),
        message.live_photo matches Some(own) ==> exists|i: int|
            0 <= i < read.segments@.len() && (#[trigger] read.segments@[i] matches
                MessageSegment::CustomValue { kind, data } && kind@ == "telegram.message."@
                + "live_photo"@ && data@ == own@),
        message.rich_message matches Some(own) ==> exists|i: int|
            0 <= i < read.segments@.len() && (#[trigger] read.segments@[i] matches
                MessageSegment::CustomValue { kind, data } && kind@ == "telegram.message."@
                + "rich_message"@ && data@ == own@),
{
    lemma_message(message, Sort::File);
    let segments = read.segments@;
    if let Some(own) = message.contact {
        let i = lemma_found(segments, raw_segment("contact"@, own@));
    }
    if let Some(own) = message.story {
        let i = lemma_found(segments, raw_segment("story"@, own@));
    }
    if let Some(own) = message.paid_media {
        let i = lemma_found(segments, raw_segment("paid_media"@, own@));
    }
    if let Some(own) = message.live_photo {
        let i = lemma_found(segments, raw_segment("live_photo"@, own@));
    }
    if let Some(own) = message.rich_message {
        let i = lemma_found(segments, raw_segment("rich_message"@, own@));
    }
}

/// A message of words alone is read into them: a text without mentions is one
/// segment, the text itself.
pub proof fn law_plain_texts_are_read_whole(message: TelegramMessage, read: Message, text: Seq<char>)
    requires
        source::segments_view(read.segments@) == message_segments(message),
        message.text matches Some(own) && own@ == text,
        message.entities is None,
    ensures
        read.segments@.len() > 0,
        read.segments@[0] matches MessageSegment::Text { content } && content@ == text,
{
    let said = and_written(Seq::empty(), message.text, message.entities);
    assert(text_segments(text, None) =~= seq![SegmentView::Text(text)]) by {
        assert(mention_progress(text, Seq::empty(), 0).found == false);
    }
    assert(said =~= seq![SegmentView::Text(text)]);
    lemma_first(message, said);
    assert(source::segments_view(read.segments@)[0] == read.segments@[0]@);
}

proof fn lemma_first(message: TelegramMessage, said: Seq<SegmentView>)
    requires
        said == and_written(Seq::empty(), message.text, message.entities),
        said.len() > 0,
    ensures
        message_segments(message).len() > 0,
        message_segments(message)[0] == said[0],
{
    let s1 = and_segment(said, photo_segment(message));
    lemma_first_kept(said, photo_segment(message));
    let s2 = and_segment(s1, timed(message.animation, true));
    lemma_first_kept(s1, timed(message.animation, true));
    let s3 = and_segment(s2, timed(message.audio, false));
    lemma_first_kept(s2, timed(message.audio, false));
    let s4 = and_segment(s3, timed(message.video, true));
    lemma_first_kept(s3, timed(message.video, true));
    let s5 = and_segment(s4, timed(message.video_note, true));
    lemma_first_kept(s4, timed(message.video_note, true));
    let s6 = and_segment(s5, document_segment(message));
    lemma_first_kept(s5, document_segment(message));
    let s7 = and_segment(s6, sticker_segment(message));
    lemma_first_kept(s6, sticker_segment(message));
    let media = and_segment(s7, timed(message.voice, false));
    lemma_first_kept(s7, timed(message.voice, false));
    assert(media_segments(said, message) == media);
    let captioned = and_written(media, message.caption, message.caption_entities);
    assert(captioned.len() > 0 && captioned[0] == media[0]);
    let placed = and_segment(captioned, place(message));
    lemma_first_kept(captioned, place(message));
    let r1 = optional_raw("rich_message"@, message.rich_message);
    let r2 = optional_raw("live_photo"@, message.live_photo);
    let r3 = optional_raw("paid_media"@, message.paid_media);
    let r4 = optional_raw("story"@, message.story);
    let r5 = optional_raw("contact"@, message.contact);
    let p1 = and_segment(placed, r1);
    lemma_first_kept(placed, r1);
    let p2 = and_segment(p1, r2);
    lemma_first_kept(p1, r2);
    let p3 = and_segment(p2, r3);
    lemma_first_kept(p2, r3);
    let p4 = and_segment(p3, r4);
    lemma_first_kept(p3, r4);
    let p5 = and_segment(p4, r5);
    lemma_first_kept(p4, r5);
    let names = json::sorted_keys(json::fields(message.extra).dom());
    lemma_first_member(p5, json::fields(message.extra), names, names.len() as int);
}

proof fn lemma_first_kept(segments: Seq<SegmentView>, segment: Option<SegmentView>)
    requires
        segments.len() > 0,
    ensures
        and_segment(segments, segment).len() > 0,
        and_segment(segments, segment)[0] == segments[0],
{
}

proof fn lemma_first_member(
    segments: Seq<SegmentView>,
    members: Map<Seq<char>, JsonView>,
    names: Seq<Seq<char>>,
    n: int,
)
    requires
        segments.len() > 0,
    ensures
        and_members(segments, members, names, n).len() > 0,
        and_members(segments, members, names, n)[0] == segments[0],
    decreases n,
{
    if n > 0 {
        lemma_first_member(segments, members, names, n - 1);
    }
}

/// A mention by name is read as the words that mention, one of a user without
/// a name as the number of that user.
pub proof fn law_mentions_name_the_user(text: Seq<char>, entity: MessageEntity, user: Seq<char>)
    requires
        mentioned(text, entity) == Some(user),
    ensures
        entity.kind@ == "text_mention"@ ==> (entity.user matches Some(known) && user
            == text::decimal(known.id as int)),
        entity.kind@ == "mention"@ ==> utf16::utf16_part(
            text,
            entity.offset as int,
            entity.length as int,
        ) == Some(user),
        is_mention(entity) ==> entity.kind@ == "mention"@ || entity.kind@ == "text_mention"@,
{
    reveal_strlit("mention");
    reveal_strlit("text_mention");
    assert("mention"@.len() == 7 && "text_mention"@.len() == 12);
}

// ---------------------------------------------------------------------------
// What is sent
// ---------------------------------------------------------------------------

/// One draft goes on from another: it begins with what the other holds.
pub open spec fn goes_on(earlier: Draft, later: Draft) -> bool {
    &&& earlier.composed.text.is_prefix_of(later.composed.text)
    &&& earlier.composed.entities.is_prefix_of(later.composed.entities)
    &&& earlier.media.is_prefix_of(later.media)
    &&& earlier.venues.is_prefix_of(later.venues)
    &&& earlier.stickers.is_prefix_of(later.stickers)
    &&& earlier.unsupported.is_prefix_of(later.unsupported)
    &&& earlier.reply is Some ==> later.reply == earlier.reply
}

proof fn lemma_goes_on(segments: Seq<MessageSegment>, n: int, m: int)
    requires
        0 <= n <= m,
        draft_outcome(segments, m) is Ok,
    ensures
        draft_outcome(segments, n) is Ok,
        goes_on(draft_outcome(segments, n)->Ok_0, draft_outcome(segments, m)->Ok_0),
    decreases m - n,
{
    if n < m {
        let before = draft_outcome(segments, m - 1)->Ok_0;
        let after = draft_outcome(segments, m)->Ok_0;
        lemma_goes_on(segments, n, m - 1);
        let first = draft_outcome(segments, n)->Ok_0;
        assert(goes_on(before, after));
        lemma_prefixes(first.composed.text, before.composed.text, after.composed.text);
        lemma_prefixes(first.composed.entities, before.composed.entities, after.composed.entities);
        lemma_prefixes(first.media, before.media, after.media);
        lemma_prefixes(first.venues, before.venues, after.venues);
        lemma_prefixes(first.stickers, before.stickers, after.stickers);
        lemma_prefixes(first.unsupported, before.unsupported, after.unsupported);
    }
}

proof fn lemma_prefixes<A>(a: Seq<A>, b: Seq<A>, c: Seq<A>)
    requires
        a.is_prefix_of(b),
        b.is_prefix_of(c),
    ensures
        a.is_prefix_of(c),
{
    assert(a =~= c.subrange(0, a.len() as int));
}

/// What is composed grows by what each segment says, in their order: a text by
/// its words, a mention of a user name by that name and of a number by an at
/// sign and the number.
pub proof fn law_texts_are_composed_in_order(segments: Seq<MessageSegment>, i: int)
    requires
        process_outcome(segments) is Ok,
        0 <= i < segments.len(),
    ensures
        ({
            let draft = process_outcome(segments)->Ok_0;
            let before = draft_outcome(segments, i)->Ok_0;
            let after = draft_outcome(segments, i + 1)->Ok_0;
            &&& draft_outcome(segments, i) is Ok
            &&& draft_outcome(segments, i + 1) is Ok
            &&& goes_on(after, draft)
            &&& segments[i] matches MessageSegment::Text { content } ==> after.composed.text
                == before.composed.text + content@
            &&& segments[i] matches MessageSegment::At { user_id } ==> {
                let named = user_id@.len() > 0 && user_id@[0] == '@';
                &&& after.composed.entities.len() == before.composed.entities.len() + 1
                &&& named ==> after.composed.text == before.composed.text + user_id@
                &&& !named ==> after.composed.text == before.composed.text + ("@"@ + user_id@) && (
                after.composed.entities.last().user matches Some((id, _)) && text::i64_value(
                    user_id@,
                ) == Some(id))
            }
            &&& segments[i] is Image || segments[i] is Video || segments[i] is Audio
                || segments[i] is File || segments[i] is Location || segments[i] is Emoji
                || segments[i] is Reply ==> after.composed == before.composed
        }),
{
    lemma_goes_on(segments, i + 1, segments.len() as int);
    lemma_goes_on(segments, i, i + 1);
}

/// One of the media items is of the kind and has the file and the length.
pub open spec fn holds_media(
    draft: Draft,
    kind: MediaKind,
    file: File,
    length: Option<i32>,
) -> bool {
    exists|k: int|
        0 <= k < draft.media.len() && (#[trigger] draft.media[k]).kind == kind
            && draft.media[k].file == file && draft.media[k].duration == length
}

/// A picture is sent as a picture, a video as a video, audio as audio and a file
/// as a file, each with its own file and its length; a place with its latitude
/// and longitude, and an emoji by its id. What Telegram cannot send is refused.
pub proof fn law_segments_are_sent_as_they_are(segments: Seq<MessageSegment>, i: int)
    requires
        process_outcome(segments) is Ok,
        0 <= i < segments.len(),
    ensures
        ({
            let draft = process_outcome(segments)->Ok_0;
            &&& segments[i] matches MessageSegment::Image { file } ==> (file matches Some(own)
                && holds_media(draft, MediaKind::Photo, own, None))
            &&& segments[i] matches MessageSegment::Video { file, length } ==> (file matches Some(own)
                && holds_media(draft, MediaKind::Video, own, length))
            &&& segments[i] matches MessageSegment::Audio { file, length } ==> (file matches Some(own)
                && holds_media(draft, MediaKind::Audio, own, length))
            &&& segments[i] matches MessageSegment::File { file } ==> (file matches Some(own)
                && holds_media(draft, MediaKind::Document, own, None))
            &&& segments[i] matches MessageSegment::Location { latitude, longitude, title, .. } ==> exists|
                k: int,
            |
                0 <= k < draft.venues.len() && (#[trigger] draft.venues[k]).latitude == latitude
                    && draft.venues[k].longitude == longitude && draft.venues[k].title == title@
            &&& segments[i] matches MessageSegment::Emoji { id } ==> draft.stickers.contains(id@)
            &&& segments[i] matches MessageSegment::Reply { message_id } ==> (utils::split_id_outcome(
                message_id@,
            ) matches Ok((chat, number)) && draft.reply == Some(
                (
                    number,
                    match text::i64_value(chat) {
                        Some(id) => JsonView::Integer(id as int),
                        None => JsonView::Text(chat),
                    },
                ),
            ))
            &&& !(segments[i] is Reference || segments[i] is ForwardNode
                || segments[i] is ForwardCustomNode || segments[i] is CustomString
                || segments[i] is CustomValue)
        }),
{
    let draft = process_outcome(segments)->Ok_0;
    let before = draft_outcome(segments, i)->Ok_0;
    let after = draft_outcome(segments, i + 1)->Ok_0;
    lemma_goes_on(segments, i + 1, segments.len() as int);
    lemma_goes_on(segments, i, i + 1);
    if after.media.len() > before.media.len() {
        let k = before.media.len() as int;
        assert(draft.media[k] == after.media[k]);
    }
    if after.venues.len() > before.venues.len() {
        let k = before.venues.len() as int;
        assert(draft.venues[k] == after.venues[k]);
    }
    if after.stickers.len() > before.stickers.len() {
        let k = before.stickers.len() as int;
        assert(draft.stickers[k] == after.stickers[k]);
    }
}

/// Pictures and videos can stand together in an album, audio files with audio
/// files and documents with documents, and nothing else with anything else.
pub proof fn law_albums_hold_what_fits(one: MediaKind, other: MediaKind)
    ensures
        class_of(one) == class_of(other) <==> one == other || (one is Photo || one is Video) && (
        other is Photo || other is Video),
        kind_tag(one) == kind_tag(other) <==> one == other,
{
    reveal_strlit("photo");
    reveal_strlit("video");
    reveal_strlit("audio");
    reveal_strlit("document");
    assert("photo"@[0] != "video"@[0]);
    assert("photo"@[0] != "audio"@[0]);
    assert("video"@[0] != "audio"@[0]);
    assert("photo"@.len() == 5 && "document"@.len() == 8 && "video"@.len() == 5 && "audio"@.len()
        == 5);
}

/// A reaction is called by its emoji where it is one, by its id where it is a
/// custom one, and paid where it is paid.
pub proof fn law_reactions_are_called_by_what_they_are(reaction: ReactionType)
    ensures
        reaction.kind@ == "emoji"@ ==> (reaction.emoji matches Some(emoji) ==> reaction_name(reaction)
            == emoji@),
        reaction.kind@ == "custom_emoji"@ ==> (reaction.custom_emoji_id matches Some(id)
            ==> reaction_name(reaction) == id@),
        reaction.kind@ == "paid"@ ==> reaction_name(reaction) == "paid"@,
{
    reveal_strlit("emoji");
    reveal_strlit("custom_emoji");
    reveal_strlit("paid");
    assert("emoji"@.len() == 5 && "custom_emoji"@.len() == 12 && "paid"@.len() == 4);
}

/// Everyone is mentioned by a word, and what is shared is said a line at a time:
/// its title, what it says, and its address.
pub proof fn law_shares_are_said_line_by_line(
    draft: Draft,
    title: String,
    content: Option<String>,
    url: String,
)
    ensures
        with_segment(draft, MessageSegment::AtAll) matches Ok(after) && after.composed.text
            == draft.composed.text + "@all"@,
        with_segment(draft, MessageSegment::Share { title, content, url, image: None }) matches Ok(
            after,
        ) && after.composed.text == draft.composed.text + match content {
            Some(content) => title@ + "\n"@ + content@ + "\n"@ + url@,
            None => title@ + "\n"@ + url@,
        },
{
}

} // verus!
