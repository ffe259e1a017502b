//! Messages made of segments: the calls that send them and change them.
use crate::api::address;
use crate::api::address::chat_id_value;
use crate::api::capabilities::TEXT_LIMIT;
use crate::api::keyboard;
use crate::api::keyboard::telegram_message_components;
use crate::api::layout;
use crate::api::layout::write_real;
use crate::api::media;
use crate::api::media::{
    attach_file, form_from_payload, make_call_with_uploads, no_values, resolve_file, Call, CallView, FileSource,
    FormRequest, ResolvedFile, CAPTION_LIMIT, MEDIA_GROUP_LIMIT,
};
use crate::api::request;
use crate::api::request::{make_call, Request, RequestView};
use crate::content::{DeliveryTime, MessageOptions, MessageVisibility, NotificationPolicy};
use crate::error;
use crate::error::{message, Error, ErrorView};

use crate::json;
use crate::json::{strip_members, strip_nulls, Fields, Json, JsonView};
use crate::segment;
use crate::segment::{
    process_message_segments, Draft, EntityView, MediaKind, MediaView, OutgoingMedia,
    OutgoingMessage, OutgoingVenue, ReplyParameters, VenueView,
};
use crate::source::MessageSegment;
use crate::telegram::{Message, MessageEntity, Upload, User};
use crate::text;
use crate::text::{is_blank, joined, joined3, u64_text, utf16_len};
use crate::utf16;
use crate::utf16::split_utf16;
use crate::utils;
use crate::utils::{message_id, split_id};
use vstd::prelude::*;

verus! {

// ---------------------------------------------------------------------------
// Entities and replies
// ---------------------------------------------------------------------------

/// A user as a document.
pub open spec fn user_view(user: User) -> JsonView {
    JsonView::Object(
        json::no_fields().insert("id"@, JsonView::Integer(user.id as int)).insert(
            "is_bot"@,
            JsonView::Bool(user.is_bot),
        ).insert("first_name"@, JsonView::Text(user.first_name@)).insert(
            "last_name"@,
            json::optional_text_view(user.last_name),
        ).insert("username"@, json::optional_text_view(user.username)),
    )
}

fn write_user(user: &User) -> (value: Json)
    ensures
        value@ == user_view(*user),
{
    let mut object = Fields::none();
    object.put("id", Json::integer(user.id));
    object.put("is_bot", Json::bool(user.is_bot));
    object.put("first_name", Json::text(user.first_name.as_str()));
    object.put("last_name", Json::optional_text(&user.last_name));
    object.put("username", Json::optional_text(&user.username));
    Json::object(object)
}

/// An entity as a document.
pub open spec fn entity_view(entity: MessageEntity) -> JsonView {
    JsonView::Object(
        json::no_fields().insert("type"@, JsonView::Text(entity.kind@)).insert(
            "offset"@,
            JsonView::Integer(entity.offset as int),
        ).insert("length"@, JsonView::Integer(entity.length as int)).insert(
            "url"@,
            json::optional_text_view(entity.url),
        ).insert(
            "user"@,
            match entity.user {
                Some(user) => user_view(user),
                None => JsonView::Null,
            },
        ).insert("custom_emoji_id"@, json::optional_text_view(entity.custom_emoji_id)),
    )
}

fn write_entity(entity: &MessageEntity) -> (value: Json)
    ensures
        value@ == entity_view(*entity),
{
    let mut object = Fields::none();
    object.put("type", Json::text(entity.kind.as_str()));
    object.put("offset", Json::unsigned(entity.offset as u64));
    object.put("length", Json::unsigned(entity.length as u64));
    object.put("url", Json::optional_text(&entity.url));
    let user = match &entity.user {
        Some(user) => write_user(user),
        None => Json::null(),
    };
    object.put("user", user);
    object.put("custom_emoji_id", Json::optional_text(&entity.custom_emoji_id));
    Json::object(object)
}

/// A list of entities, or nothing where it is empty.
pub open spec fn entities_view(entities: Seq<MessageEntity>) -> JsonView {
    if entities.len() == 0 {
        JsonView::Null
    } else {
        JsonView::Array(Seq::new(entities.len(), |i: int| entity_view(entities[i])))
    }
}

/// A list of entities, or nothing where it is empty.
pub fn optional_entities(entities: &Vec<MessageEntity>) -> (value: Json)
    ensures
        value@ == entities_view(entities@),
{
    if entities.len() == 0 {
        return Json::null();
    }
    let mut items: Vec<Json> = Vec::new();
    let mut i: usize = 0;
    while i < entities.len()
        invariant
            i <= entities@.len(),
            items@.len() == i,
            forall|k: int| 0 <= k < i ==> (#[trigger] items@[k])@ == entity_view(entities@[k]),
        decreases entities@.len() - i,
    {
        items.push(write_entity(&entities[i]));
        i += 1;
    }
    assert(json::views(items@) =~= Seq::new(
        entities@.len(),
        |i: int| entity_view(entities@[i]),
    ));
    Json::array(items)
}

/// An entity of a draft as a document.
pub open spec fn drafted_entity(entity: EntityView) -> JsonView {
    JsonView::Object(
        json::no_fields().insert("type"@, JsonView::Text(entity.kind)).insert(
            "offset"@,
            JsonView::Integer(entity.offset),
        ).insert("length"@, JsonView::Integer(entity.length)).insert("url"@, JsonView::Null).insert(
            "user"@,
            match entity.user {
                Some((id, name)) => JsonView::Object(
                    json::no_fields().insert("id"@, JsonView::Integer(id as int)).insert(
                        "is_bot"@,
                        JsonView::Bool(false),
                    ).insert("first_name"@, JsonView::Text(name)).insert(
                        "last_name"@,
                        JsonView::Null,
                    ).insert("username"@, JsonView::Null),
                ),
                None => JsonView::Null,
            },
        ).insert("custom_emoji_id"@, JsonView::Null),
    )
}

/// The entities of a draft, or nothing where there are none.
pub open spec fn drafted_entities(entities: Seq<EntityView>) -> JsonView {
    if entities.len() == 0 {
        JsonView::Null
    } else {
        JsonView::Array(Seq::new(entities.len(), |i: int| drafted_entity(entities[i])))
    }
}

proof fn lemma_drafted_entities(entities: Seq<MessageEntity>, views: Seq<EntityView>)
    requires
        segment::are_entities(entities, views),
    ensures
        entities_view(entities) == drafted_entities(views),
{
    if entities.len() > 0 {
        assert forall|i: int| 0 <= i < entities.len() implies #[trigger] entity_view(entities[i])
            == drafted_entity(views[i]) by {
            assert(segment::is_entity(entities[i], views[i]));
        }
        assert(Seq::new(entities.len(), |i: int| entity_view(entities[i])) =~= Seq::new(
            views.len(),
            |i: int| drafted_entity(views[i]),
        ));
    }
}

/// The message that is answered, as a document.
pub open spec fn reply_view(reply: (i64, JsonView)) -> JsonView {
    JsonView::Object(
        json::no_fields().insert("message_id"@, JsonView::Integer(reply.0 as int)).insert(
            "chat_id"@,
            reply.1,
        ),
    )
}

/// The message that a draft answers, where there is one.
pub open spec fn drafted_reply(reply: Option<(i64, JsonView)>) -> Option<JsonView> {
    match reply {
        Some(reply) => Some(reply_view(reply)),
        None => None,
    }
}

fn write_reply(reply: Option<ReplyParameters>, Ghost(view): Ghost<Option<(i64, JsonView)>>) -> (result:
    Option<Json>)
    requires
        segment::is_reply(reply, view),
    ensures
        maybe(result) == drafted_reply(view),
{
    match reply {
        Some(reply) => {
            let mut object = Fields::none();
            object.put("message_id", Json::integer(reply.message_id));
            if let Some(chat) = reply.chat_id {
                object.put("chat_id", chat);
            }
            Some(Json::object(object))
        },
        None => None,
    }
}

/// What a document says, where there is one.
pub open spec fn maybe(value: Option<Json>) -> Option<JsonView> {
    match value {
        Some(value) => Some(value@),
        None => None,
    }
}

/// The document, or null where there is none.
pub open spec fn or_null(value: Option<JsonView>) -> JsonView {
    match value {
        Some(value) => value,
        None => JsonView::Null,
    }
}

// ---------------------------------------------------------------------------
// Pieces
// ---------------------------------------------------------------------------

/// What goes into one call.
pub enum PieceView {
    Text { text: Seq<char>, entities: Seq<EntityView> },
    /// Media that are sent together.
    Batch(Seq<MediaView>),
    Venue(VenueView),
    Sticker(Seq<char>),
}

/// The caption of the first media item with the text of the message before it.
pub open spec fn shared_caption(written: Seq<char>, caption: Option<Seq<char>>) -> Seq<char> {
    match caption {
        Some(caption) => written + "\n"@ + caption,
        None => written,
    }
}

/// The media with another caption on the first.
pub open spec fn recaptioned(media: Seq<MediaView>, caption: Option<Seq<char>>) -> Seq<MediaView> {
    media.update(0, MediaView { caption, ..media[0] })
}

/// Whether the text can be the caption of the first media item: it has no
/// entities, and it fits together with the caption that is there.
pub open spec fn fits_caption(draft: Draft) -> bool {
    text::units_of(shared_caption(draft.composed.text, draft.media[0].caption)) <= CAPTION_LIMIT
}

/// The text of a message as the caption of its first media item, or as
/// messages of its own. A caption that does not fit together with the text
/// gives way to it.
pub open spec fn text_pieces(draft: Draft) -> Result<(Seq<PieceView>, Seq<MediaView>), ErrorView> {
    let written = draft.composed.text;
    if written.len() == 0 {
        Ok((Seq::empty(), draft.media))
    } else if draft.composed.entities.len() == 0 && draft.media.len() > 0 && fits_caption(draft) {
        Ok(
            (
                Seq::empty(),
                recaptioned(
                    draft.media,
                    Some(shared_caption(written, draft.media[0].caption)),
                ),
            ),
        )
    } else if text::units_of(written) > TEXT_LIMIT && draft.composed.entities.len() > 0 {
        error::refused(
            "Telegram text with entities exceeds 4096 UTF-16 code units and cannot be split safely"@,
        )
    } else {
        Ok(
            (
                written_pieces(written, draft.composed.entities),
                if draft.composed.entities.len() == 0 && draft.media.len() > 0 {
                    recaptioned(draft.media, None)
                } else {
                    draft.media
                },
            ),
        )
    }
}

/// The messages that a text becomes; the entities are those of the first.
pub open spec fn written_pieces(written: Seq<char>, entities: Seq<EntityView>) -> Seq<PieceView> {
    let parts = utf16::chunks(written, TEXT_LIMIT as int);
    Seq::new(
        parts.len(),
        |i: int|
            PieceView::Text {
                text: parts[i],
                entities: if i == 0 {
                    entities
                } else {
                    Seq::empty()
                },
            },
    )
}

/// Whether a media item can join a batch: it is of the same class, and there
/// is room.
pub open spec fn joins(batch: Seq<MediaView>, item: MediaView) -> bool {
    &&& batch.len() < MEDIA_GROUP_LIMIT
    &&& segment::class_of(batch[0].kind) == segment::class_of(item.kind)
}

/// The first `n` media items in batches, in order: neighbours of one class
/// stand together, up to ten.
pub open spec fn batches(media: Seq<MediaView>, n: int) -> Seq<Seq<MediaView>>
    decreases n,
{
    if n <= 0 {
        Seq::empty()
    } else {
        let done = batches(media, n - 1);
        if done.len() > 0 && joins(done.last(), media[n - 1]) {
            done.drop_last().push(done.last().push(media[n - 1]))
        } else {
            done.push(seq![media[n - 1]])
        }
    }
}

/// All that goes into the calls for a message, in order.
pub open spec fn pieces(draft: Draft) -> Result<Seq<PieceView>, ErrorView> {
    match text_pieces(draft) {
        Err(e) => Err(e),
        Ok((written, media)) => {
            let groups = batches(media, media.len() as int);
            Ok(
                written + Seq::new(groups.len(), |i: int| PieceView::Batch(groups[i])) + Seq::new(
                    draft.venues.len(),
                    |i: int| PieceView::Venue(draft.venues[i]),
                ) + Seq::new(
                    draft.stickers.len(),
                    |i: int| PieceView::Sticker(draft.stickers[i]),
                ),
            )
        },
    }
}

// ---------------------------------------------------------------------------
// Steps
// ---------------------------------------------------------------------------

/// What is to be done next for a message.
#[allow(inconsistent_fields)]
#[derive(Debug, PartialEq)]
pub enum SegmentStep {
    Call(Request),
    Media { media: OutgoingMedia, reply: Option<Json>, markup: Option<Json> },
    Group { media: Vec<OutgoingMedia>, reply: Option<Json>, markup: Option<Json> },
}

/// What a step says.
#[allow(inconsistent_fields)]
#[verifier::ext_equal]
pub enum SegmentStepView {
    Call(RequestView),
    Media { media: MediaView, reply: Option<JsonView>, markup: Option<JsonView> },
    Group { media: Seq<MediaView>, reply: Option<JsonView>, markup: Option<JsonView> },
}

impl View for SegmentStep {
    type V = SegmentStepView;

    open spec fn view(&self) -> SegmentStepView {
        match *self {
            SegmentStep::Call(request) => SegmentStepView::Call(request@),
            SegmentStep::Media { media, reply, markup } => SegmentStepView::Media {
                media: media@,
                reply: maybe(reply),
                markup: maybe(markup),
            },
            SegmentStep::Group { media, reply, markup } => SegmentStepView::Group {
                media: segment::media_views(media@),
                reply: maybe(reply),
                markup: maybe(markup),
            },
        }
    }
}

/// What a list of steps says.
pub open spec fn step_views(steps: Seq<SegmentStep>) -> Seq<SegmentStepView> {
    Seq::new(steps.len(), |i: int| steps[i]@)
}

/// What every call for a message has: the chat, and, once, the message that
/// is answered and the markup.
pub open spec fn shared_payload(
    chat: Seq<char>,
    reply: Option<JsonView>,
    markup: Option<JsonView>,
) -> Map<Seq<char>, JsonView> {
    json::no_fields().insert("chat_id"@, address::chat_id_view(chat)).insert(
        "reply_parameters"@,
        or_null(reply),
    ).insert("reply_markup"@, or_null(markup))
}

/// The step that sends a piece.
pub open spec fn step(
    chat: Seq<char>,
    piece: PieceView,
    reply: Option<JsonView>,
    markup: Option<JsonView>,
) -> SegmentStepView {
    let shared = shared_payload(chat, reply, markup);
    match piece {
        PieceView::Text { text, entities } => SegmentStepView::Call(
            request::call(
                "sendMessage"@,
                shared.insert("text"@, JsonView::Text(text)).insert(
                    "entities"@,
                    drafted_entities(entities),
                ),
            ),
        ),
        PieceView::Batch(media) => if media.len() == 1 {
            SegmentStepView::Media { media: media[0], reply, markup }
        } else {
            SegmentStepView::Group { media, reply, markup }
        },
        PieceView::Venue(venue) => {
            let placed = shared.insert("latitude"@, layout::real_view(venue.latitude)).insert(
                "longitude"@,
                layout::real_view(venue.longitude),
            );
            if text::blank(venue.title) {
                SegmentStepView::Call(request::call("sendLocation"@, placed))
            } else {
                SegmentStepView::Call(
                    request::call(
                        "sendVenue"@,
                        placed.insert("title"@, JsonView::Text(venue.title)).insert(
                            "address"@,
                            JsonView::Text(venue.address),
                        ),
                    ),
                )
            }
        },
        PieceView::Sticker(sticker) => SegmentStepView::Call(
            request::call("sendSticker"@, shared.insert("sticker"@, JsonView::Text(sticker))),
        ),
    }
}

/// The steps that send the pieces: the first of them answers and has the
/// markup.
pub open spec fn steps(
    chat: Seq<char>,
    pieces: Seq<PieceView>,
    reply: Option<JsonView>,
    markup: Option<JsonView>,
) -> Seq<SegmentStepView> {
    Seq::new(
        pieces.len(),
        |i: int|
            if i == 0 {
                step(chat, pieces[i], reply, markup)
            } else {
                step(chat, pieces[i], None, None)
            },
    )
}

/// The options hold nothing but components.
pub open spec fn components_only(options: MessageOptions) -> bool {
    &&& options.reply is None
    &&& options.notification is Default
    &&& options.visibility is Public
    &&& options.link_preview is None
    &&& options.mentions is None
    &&& !options.protect_content
    &&& options.delivery_time is Immediate
    &&& options.idempotency_key is None
    &&& options.client_message_id is None
    &&& json::fields(options.metadata) == json::no_fields()
    &&& options.platform_data is None
}

/// The markup that the options ask for.
pub open spec fn markup_outcome(options: MessageOptions) -> Result<Option<JsonView>, ErrorView> {
    match options.components {
        None => Ok(None),
        Some(components) => match keyboard::message_components_outcome(components) {
            Ok(markup) => Ok(Some(markup)),
            Err(e) => Err(e),
        },
    }
}

/// The steps that send a message made of segments.
pub open spec fn send_outcome(
    segments: Seq<MessageSegment>,
    chat: Seq<char>,
    options: MessageOptions,
) -> Result<Seq<SegmentStepView>, ErrorView> {
    if !components_only(options) {
        error::refused(
            "legacy Telegram send_message_with_options supports components only; use send_outgoing_message for v2 message options"@,
        )
    } else {
        match segment::process_outcome(segments) {
            Err(e) => Err(e),
            Ok(draft) => match markup_outcome(options) {
                Err(e) => Err(e),
                Ok(markup) => match pieces(draft) {
                    Err(e) => Err(e),
                    Ok(pieces) => Ok(steps(chat, pieces, drafted_reply(draft.reply), markup)),
                },
            },
        }
    }
}

fn has_components_only(options: &MessageOptions) -> (result: bool)
    ensures
        result == components_only(*options),
{
    let notified = match options.notification {
        NotificationPolicy::Default => true,
        _ => false,
    };
    let public = match &options.visibility {
        MessageVisibility::Public => true,
        _ => false,
    };
    let immediate = match options.delivery_time {
        DeliveryTime::Immediate => true,
        _ => false,
    };
    options.reply.is_none() && notified && public && options.link_preview.is_none()
        && options.mentions.is_none() && !options.protect_content && immediate
        && options.idempotency_key.is_none() && options.client_message_id.is_none()
        && options.metadata.is_none() && options.platform_data.is_none()
}

/// The steps so far, and what the first of them is to have.
struct Sending<'a> {
    chat_id: &'a str,
    reply: Option<Json>,
    markup: Option<Json>,
    steps: Vec<SegmentStep>,
}

/// The steps are those of the pieces so far, and what the first is to have is
/// there until there is one.
spec fn sends(
    sending: Sending,
    reply: Option<JsonView>,
    markup: Option<JsonView>,
    done: Seq<PieceView>,
) -> bool {
    &&& step_views(sending.steps@) == steps(sending.chat_id@, done, reply, markup)
    &&& done.len() == 0 ==> maybe(sending.reply) == reply && maybe(sending.markup) == markup
    &&& done.len() > 0 ==> sending.reply is None && sending.markup is None
}

impl<'a> Sending<'a> {
    fn payload(&mut self) -> (payload: Fields)
        ensures
            json::fields(payload) == shared_payload(
                old(self).chat_id@,
                maybe(old(self).reply),
                maybe(old(self).markup),
            ),
            final(self).chat_id == old(self).chat_id,
            final(self).steps == old(self).steps,
            final(self).reply is None,
            final(self).markup is None,
    {
        let mut payload = Fields::none();
        payload.put("chat_id", chat_id_value(self.chat_id));
        let reply = self.reply.take();
        let markup = self.markup.take();
        payload.put("reply_parameters", Json::optional(reply));
        payload.put("reply_markup", Json::optional(markup));
        payload
    }
}

proof fn lemma_next_step(
    chat: Seq<char>,
    done: Seq<PieceView>,
    piece: PieceView,
    reply: Option<JsonView>,
    markup: Option<JsonView>,
)
    ensures
        steps(chat, done.push(piece), reply, markup) == steps(chat, done, reply, markup).push(
            if done.len() == 0 {
                step(chat, piece, reply, markup)
            } else {
                step(chat, piece, None, None)
            },
        ),
{
    assert(steps(chat, done.push(piece), reply, markup) =~= steps(
        chat,
        done,
        reply,
        markup,
    ).push(
        if done.len() == 0 {
            step(chat, piece, reply, markup)
        } else {
            step(chat, piece, None, None)
        },
    ));
}

fn add_step(
    sending: &mut Sending,
    step: SegmentStep,
    Ghost(piece): Ghost<PieceView>,
    Ghost(reply): Ghost<Option<JsonView>>,
    Ghost(markup): Ghost<Option<JsonView>>,
    Ghost(done): Ghost<Seq<PieceView>>,
)
    requires
        step_views(old(sending).steps@) == steps(old(sending).chat_id@, done, reply, markup),
        old(sending).reply is None,
        old(sending).markup is None,
        step@ == if done.len() == 0 {
            self::step(old(sending).chat_id@, piece, reply, markup)
        } else {
            self::step(old(sending).chat_id@, piece, None, None)
        },
    ensures
        sends(*final(sending), reply, markup, done.push(piece)),
        final(sending).chat_id == old(sending).chat_id,
{
    let ghost before = step_views(sending.steps@);
    proof {
        lemma_next_step(sending.chat_id@, done, piece, reply, markup);
    }
    sending.steps.push(step);
    assert(step_views(sending.steps@) =~= before.push(step@));
}

fn send_text(
    sending: &mut Sending,
    written: &str,
    entities: &Vec<MessageEntity>,
    Ghost(views): Ghost<Seq<EntityView>>,
    Ghost(reply): Ghost<Option<JsonView>>,
    Ghost(markup): Ghost<Option<JsonView>>,
)
    requires
        segment::are_entities(entities@, views),
        sends(*old(sending), reply, markup, Seq::empty()),
    ensures
        sends(*final(sending), reply, markup, written_pieces(written@, views)),
        final(sending).chat_id == old(sending).chat_id,
{
    let parts = split_utf16(written, TEXT_LIMIT);
    let ghost target = written_pieces(written@, views);
    let ghost chunks = utf16::chunks(written@, TEXT_LIMIT as int);
    let none: Vec<MessageEntity> = Vec::new();
    let mut i: usize = 0;
    assert(target.take(0) =~= Seq::<PieceView>::empty());
    while i < parts.len()
        invariant
            i <= parts@.len(),
            utf16::texts(parts@) == chunks,
            chunks == utf16::chunks(written@, TEXT_LIMIT as int),
            target == written_pieces(written@, views),
            segment::are_entities(entities@, views),
            none@.len() == 0,
            sends(*sending, reply, markup, target.take(i as int)),
            sending.chat_id == old(sending).chat_id,
        decreases parts@.len() - i,
    {
        let ghost done = target.take(i as int);
        let ghost piece = target[i as int];
        let mut payload = sending.payload();
        payload.put("text", Json::text(parts[i].as_str()));
        assert(chunks[i as int] == parts@[i as int]@);
        let marks = if i == 0 {
            proof {
                lemma_drafted_entities(entities@, views);
            }
            optional_entities(entities)
        } else {
            optional_entities(&none)
        };
        payload.put("entities", marks);
        let request = make_call("sendMessage", payload);
        add_step(
            sending,
            SegmentStep::Call(request),
            Ghost(piece),
            Ghost(reply),
            Ghost(markup),
            Ghost(done),
        );
        i += 1;
        assert(target.take(i as int) =~= done.push(piece));
    }
    assert(target.take(parts@.len() as int) =~= target);
}

fn attach_caption_or_send_text(
    sending: &mut Sending,
    outgoing: &mut OutgoingMessage,
    Ghost(draft): Ghost<Draft>,
    Ghost(reply): Ghost<Option<JsonView>>,
    Ghost(markup): Ghost<Option<JsonView>>,
) -> (result: Result<(), Error>)
    requires
        segment::is_message(*old(outgoing), (Draft { reply: None, ..draft })),
        sends(*old(sending), reply, markup, Seq::empty()),
    ensures
        final(sending).chat_id == old(sending).chat_id,
        final(outgoing).venues == old(outgoing).venues,
        final(outgoing).stickers == old(outgoing).stickers,
        match text_pieces(draft) {
            Ok((written, media)) => result is Ok && sends(*final(sending), reply, markup, written)
                && segment::media_views(final(outgoing).media@) == media,
            Err(e) => result matches Err(error) && error@ == e,
        },
{
    let ghost views = draft.composed.entities;
    assert(segment::media_views(outgoing.media@).len() == outgoing.media@.len());
    if outgoing.text.as_str().is_empty() {
        return Ok(());
    }
    if outgoing.entities.len() == 0 && outgoing.media.len() > 0 {
        assert(draft.media[0] == outgoing.media@[0]@);
        let ghost before = outgoing.media@;
        let mut first = outgoing.media.remove(0);
        let caption = match first.caption.take() {
            Some(caption) => joined3(outgoing.text.as_str(), "\n", caption.as_str()),
            None => outgoing.text.clone(),
        };
        if utf16_len(caption.as_str()) <= CAPTION_LIMIT {
            first.caption = Some(caption);
            outgoing.media.insert(0, first);
            assert(segment::media_views(outgoing.media@) =~= recaptioned(
                draft.media,
                Some(shared_caption(draft.composed.text, draft.media[0].caption)),
            ));
            return Ok(());
        }
        outgoing.media.insert(0, first);
        assert(segment::media_views(outgoing.media@) =~= recaptioned(draft.media, None));
    }
    if utf16_len(outgoing.text.as_str()) > TEXT_LIMIT && outgoing.entities.len() > 0 {
        return Err(
            message(
                "Telegram text with entities exceeds 4096 UTF-16 code units and cannot be split safely",
            ),
        );
    }
    send_text(
        sending,
        outgoing.text.as_str(),
        &outgoing.entities,
        Ghost(views),
        Ghost(reply),
        Ghost(markup),
    );
    Ok(())
}

/// What a list of batches says.
spec fn batch_views(list: Seq<Vec<OutgoingMedia>>) -> Seq<Seq<MediaView>> {
    Seq::new(list.len(), |i: int| segment::media_views(list[i]@))
}

fn batch_media(media: Vec<OutgoingMedia>) -> (result: Vec<Vec<OutgoingMedia>>)
    ensures
        batch_views(result@) == batches(segment::media_views(media@), media@.len() as int),
{
    let ghost all = segment::media_views(media@);
    let mut done: Vec<Vec<OutgoingMedia>> = Vec::new();
    assert(batch_views(done@) =~= Seq::<Seq<MediaView>>::empty());
    for item in iter: media
        invariant
            iter.seq() == media@,
            all == segment::media_views(media@),
            batch_views(done@) == batches(all, iter.index()),
            forall|k: int| 0 <= k < done@.len() ==> (#[trigger] done@[k])@.len() > 0,
    {
        let ghost before = batch_views(done@);
        let ghost at = iter.index();
        assert(item@ == all[at]);
        assert(before.len() == done@.len());
        let current = match done.pop() {
            Some(current) => {
                assert(current@.len() > 0);
                assert(before.last() == segment::media_views(current@));
                assert(batch_views(done@) =~= before.drop_last());
                if current.len() < MEDIA_GROUP_LIMIT && current[0].kind.group_class()
                    == item.kind.group_class() {
                    assert(joins(before.last(), item@));
                    let mut current = current;
                    let ghost old_views = segment::media_views(current@);
                    current.push(item);
                    assert(segment::media_views(current@) =~= old_views.push(item@));
                    current
                } else {
                    let ghost kept = batch_views(done@);
                    assert(!joins(before.last(), item@));
                    done.push(current);
                    assert(batch_views(done@) =~= before);
                    let mut fresh: Vec<OutgoingMedia> = Vec::new();
                    fresh.push(item);
                    assert(segment::media_views(fresh@) =~= seq![item@]);
                    fresh
                }
            },
            None => {
                let mut fresh: Vec<OutgoingMedia> = Vec::new();
                fresh.push(item);
                assert(segment::media_views(fresh@) =~= seq![item@]);
                fresh
            },
        };
        let ghost last = batch_views(done@);
        done.push(current);
        assert(batch_views(done@) =~= last.push(segment::media_views(current@)));
        assert(batch_views(done@) =~= batches(all, at + 1));
    }
    done
}

fn send_media(
    sending: &mut Sending,
    media: Vec<OutgoingMedia>,
    Ghost(reply): Ghost<Option<JsonView>>,
    Ghost(markup): Ghost<Option<JsonView>>,
    Ghost(start): Ghost<Seq<PieceView>>,
)
    requires
        sends(*old(sending), reply, markup, start),
    ensures
        final(sending).chat_id == old(sending).chat_id,
        ({
            let groups = batches(segment::media_views(media@), media@.len() as int);
            sends(
                *final(sending),
                reply,
                markup,
                start + Seq::new(groups.len(), |i: int| PieceView::Batch(groups[i])),
            )
        }),
{
    let ghost groups = batches(segment::media_views(media@), media@.len() as int);
    let ghost target = Seq::new(groups.len(), |i: int| PieceView::Batch(groups[i]));
    let list = batch_media(media);
    assert(start + target.take(0) =~= start);
    for batch in iter: list
        invariant
            iter.seq() == list@,
            batch_views(list@) == groups,
            target == Seq::new(groups.len(), |i: int| PieceView::Batch(groups[i])),
            sends(*sending, reply, markup, start + target.take(iter.index())),
            sending.chat_id == old(sending).chat_id,
    {
        let ghost at = iter.index();
        let ghost done = start + target.take(at);
        let ghost piece = PieceView::Batch(groups[at]);
        assert(groups[at] == segment::media_views(batch@));
        let reply_value = sending.reply.take();
        let markup_value = sending.markup.take();
        let mut batch = batch;
        let next = if batch.len() == 1 {
            let media = batch.pop().unwrap();
            SegmentStep::Media { media, reply: reply_value, markup: markup_value }
        } else {
            SegmentStep::Group { media: batch, reply: reply_value, markup: markup_value }
        };
        add_step(sending, next, Ghost(piece), Ghost(reply), Ghost(markup), Ghost(done));
        assert(start + target.take(at + 1) =~= done.push(piece));
    }
    assert(target.take(target.len() as int) =~= target);
}

fn send_venues(
    sending: &mut Sending,
    venues: &Vec<OutgoingVenue>,
    Ghost(reply): Ghost<Option<JsonView>>,
    Ghost(markup): Ghost<Option<JsonView>>,
    Ghost(start): Ghost<Seq<PieceView>>,
)
    requires
        sends(*old(sending), reply, markup, start),
    ensures
        final(sending).chat_id == old(sending).chat_id,
        sends(
            *final(sending),
            reply,
            markup,
            start + Seq::new(venues@.len(), |i: int| PieceView::Venue(venues@[i]@)),
        ),
{
    let ghost target = Seq::new(venues@.len(), |i: int| PieceView::Venue(venues@[i]@));
    let mut i: usize = 0;
    assert(start + target.take(0) =~= start);
    while i < venues.len()
        invariant
            i <= venues@.len(),
            target == Seq::new(venues@.len(), |i: int| PieceView::Venue(venues@[i]@)),
            sends(*sending, reply, markup, start + target.take(i as int)),
            sending.chat_id == old(sending).chat_id,
        decreases venues@.len() - i,
    {
        let ghost done = start + target.take(i as int);
        let ghost piece = PieceView::Venue(venues@[i as int]@);
        let venue: &OutgoingVenue = &venues[i];
        let mut payload = sending.payload();
        payload.put("latitude", write_real(&venue.latitude));
        payload.put("longitude", write_real(&venue.longitude));
        let request = if is_blank(venue.title.as_str()) {
            make_call("sendLocation", payload)
        } else {
            payload.put("title", Json::text(venue.title.as_str()));
            payload.put("address", Json::text(venue.address.as_str()));
            make_call("sendVenue", payload)
        };
        add_step(
            sending,
            SegmentStep::Call(request),
            Ghost(piece),
            Ghost(reply),
            Ghost(markup),
            Ghost(done),
        );
        i += 1;
        assert(start + target.take(i as int) =~= done.push(piece));
    }
    assert(target.take(target.len() as int) =~= target);
}

fn send_stickers(
    sending: &mut Sending,
    stickers: &Vec<String>,
    Ghost(reply): Ghost<Option<JsonView>>,
    Ghost(markup): Ghost<Option<JsonView>>,
    Ghost(start): Ghost<Seq<PieceView>>,
)
    requires
        sends(*old(sending), reply, markup, start),
    ensures
        final(sending).chat_id == old(sending).chat_id,
        sends(
            *final(sending),
            reply,
            markup,
            start + Seq::new(stickers@.len(), |i: int| PieceView::Sticker(stickers@[i]@)),
        ),
{
    let ghost target = Seq::new(stickers@.len(), |i: int| PieceView::Sticker(stickers@[i]@));
    let mut i: usize = 0;
    assert(start + target.take(0) =~= start);
    while i < stickers.len()
        invariant
            i <= stickers@.len(),
            target == Seq::new(stickers@.len(), |i: int| PieceView::Sticker(stickers@[i]@)),
            sends(*sending, reply, markup, start + target.take(i as int)),
            sending.chat_id == old(sending).chat_id,
        decreases stickers@.len() - i,
    {
        let ghost done = start + target.take(i as int);
        let ghost piece = PieceView::Sticker(stickers@[i as int]@);
        let mut payload = sending.payload();
        payload.put("sticker", Json::text(stickers[i].as_str()));
        let request = make_call("sendSticker", payload);
        add_step(
            sending,
            SegmentStep::Call(request),
            Ghost(piece),
            Ghost(reply),
            Ghost(markup),
            Ghost(done),
        );
        i += 1;
        assert(start + target.take(i as int) =~= done.push(piece));
    }
    assert(target.take(target.len() as int) =~= target);
}

/// An outcome by what its steps say.
pub open spec fn shown_steps(result: Result<Vec<SegmentStep>, Error>) -> Result<
    Seq<SegmentStepView>,
    ErrorView,
> {
    match result {
        Ok(steps) => Ok(step_views(steps@)),
        Err(e) => Err(e@),
    }
}

/// The steps that send a message made of segments.
pub fn send_message_impl(segments: Vec<MessageSegment>, chat_id: &str, options: &MessageOptions) -> (result:
    Result<Vec<SegmentStep>, Error>)
    ensures
        shown_steps(result) == send_outcome(segments@, chat_id@, *options),
{
    if !has_components_only(options) {
        return Err(
            message(
                "legacy Telegram send_message_with_options supports components only; use send_outgoing_message for v2 message options",
            ),
        );
    }
    let ghost draft = segment::process_outcome(segments@)->Ok_0;
    let mut outgoing = process_message_segments(segments)?;
    let reply = write_reply(outgoing.reply.take(), Ghost(draft.reply));
    let markup = match &options.components {
        Some(components) => Some(telegram_message_components(components)?),
        None => None,
    };
    let ghost wanted_reply = drafted_reply(draft.reply);
    let ghost wanted_markup = maybe(markup);
    let mut sending = Sending { chat_id, reply, markup, steps: Vec::new() };
    assert(step_views(sending.steps@) =~= steps(
        chat_id@,
        Seq::<PieceView>::empty(),
        wanted_reply,
        wanted_markup,
    ));
    attach_caption_or_send_text(
        &mut sending,
        &mut outgoing,
        Ghost(draft),
        Ghost(wanted_reply),
        Ghost(wanted_markup),
    )?;
    let ghost (written, media) = text_pieces(draft)->Ok_0;
    let ghost groups = batches(media, media.len() as int);
    let ghost after_media = written + Seq::new(groups.len(), |i: int| PieceView::Batch(groups[i]));
    let ghost after_venues = after_media + Seq::new(
        draft.venues.len(),
        |i: int| PieceView::Venue(draft.venues[i]),
    );
    let ghost venues = outgoing.venues@;
    let ghost stickers = outgoing.stickers@;
    assert(segment::media_views(outgoing.media@).len() == outgoing.media@.len());
    send_media(
        &mut sending,
        outgoing.media,
        Ghost(wanted_reply),
        Ghost(wanted_markup),
        Ghost(written),
    );
    send_venues(
        &mut sending,
        &outgoing.venues,
        Ghost(wanted_reply),
        Ghost(wanted_markup),
        Ghost(after_media),
    );
    assert(Seq::new(venues.len(), |i: int| PieceView::Venue(venues[i]@)) =~= Seq::new(
        draft.venues.len(),
        |i: int| PieceView::Venue(draft.venues[i]),
    )) by {
        assert(forall|i: int| 0 <= i < venues.len() ==> draft.venues[i] == (#[trigger] venues[i])@);
    }
    send_stickers(
        &mut sending,
        &outgoing.stickers,
        Ghost(wanted_reply),
        Ghost(wanted_markup),
        Ghost(after_venues),
    );
    assert(Seq::new(stickers.len(), |i: int| PieceView::Sticker(stickers[i]@)) =~= Seq::new(
        draft.stickers.len(),
        |i: int| PieceView::Sticker(draft.stickers[i]),
    )) by {
        assert(forall|i: int|
            0 <= i < stickers.len() ==> draft.stickers[i] == (#[trigger] stickers[i])@);
    }
    Ok(sending.steps)
}

// ---------------------------------------------------------------------------
// Media
// ---------------------------------------------------------------------------

/// How long a caption is, in UTF-16 code units.
pub open spec fn caption_units(caption: Option<Seq<char>>) -> nat {
    match caption {
        Some(caption) => text::units_of(caption),
        None => 0,
    }
}

fn caption_fits(caption: &Option<String>) -> (fits: bool)
    ensures
        fits == (caption_units(json::optional_chars(*caption)) <= CAPTION_LIMIT),
{
    match caption {
        Some(caption) => utf16_len(caption.as_str()) <= CAPTION_LIMIT,
        None => true,
    }
}

/// What is wrong with a media item that is to be sent.
pub open spec fn media_flaw(media: MediaView) -> Option<ErrorView> {
    if caption_units(media.caption) > CAPTION_LIMIT {
        Some(ErrorView::Message("Telegram media caption exceeds 1024 UTF-16 code units"@))
    } else {
        media::file_flaw(media.file, media::decoded_file(media.file))
    }
}

/// Accepts the caption of a media item and decides where its file comes from.
pub fn begin_media(media: &OutgoingMedia) -> (result: Result<FileSource, Error>)
    ensures
        match result {
            Ok(source) => media_flaw(media@) is None && media::is_source(
                source,
                media.file,
                media::decoded_file(media.file),
            ),
            Err(e) => media_flaw(media@) == Some(e@),
        },
{
    if !caption_fits(&media.caption) {
        return Err(message("Telegram media caption exceeds 1024 UTF-16 code units"));
    }
    resolve_file(&media.file)
}

/// The method that sends a media item.
pub open spec fn media_method(kind: MediaKind) -> Seq<char> {
    match kind {
        MediaKind::Photo => "sendPhoto"@,
        MediaKind::Video => "sendVideo"@,
        MediaKind::Audio => "sendAudio"@,
        MediaKind::Document => "sendDocument"@,
    }
}

fn find_method(kind: MediaKind) -> (method: &'static str)
    ensures
        method@ == media_method(kind),
{
    match kind {
        MediaKind::Photo => "sendPhoto",
        MediaKind::Video => "sendVideo",
        MediaKind::Audio => "sendAudio",
        MediaKind::Document => "sendDocument",
    }
}

/// A duration, or null where there is none.
pub open spec fn duration_view(duration: Option<i32>) -> JsonView {
    match duration {
        Some(seconds) => JsonView::Integer(seconds as int),
        None => JsonView::Null,
    }
}

fn write_duration(duration: Option<i32>) -> (value: Json)
    ensures
        value@ == duration_view(duration),
{
    match duration {
        Some(seconds) => Json::integer(seconds as i64),
        None => Json::null(),
    }
}

/// A text, or null where there is none.
pub open spec fn text_or_null(value: Option<Seq<char>>) -> JsonView {
    match value {
        Some(text) => JsonView::Text(text),
        None => JsonView::Null,
    }
}

/// The call that sends one media item. In a form the chat stands as it was
/// given.
pub open spec fn single_call(
    chat: Seq<char>,
    media: MediaView,
    file: ResolvedFile,
    reply: Option<JsonView>,
    markup: Option<JsonView>,
) -> CallView {
    let shared = shared_payload(chat, reply, markup).insert(
        "caption"@,
        text_or_null(media.caption),
    ).insert("duration"@, duration_view(media.duration));
    match file {
        ResolvedFile::Remote(reference) => CallView::Document(
            request::call(
                media_method(media.kind),
                shared.insert(segment::kind_tag(media.kind), JsonView::Text(reference@)),
            ),
        ),
        ResolvedFile::Upload(upload) => CallView::Form {
            method: media_method(media.kind),
            values: media::present(shared.insert("chat_id"@, JsonView::Text(chat))),
            added: Seq::empty(),
            uploads: seq![(segment::kind_tag(media.kind), upload)],
        },
    }
}

/// Makes the call that sends one media item.
pub fn send_single_media(
    chat_id: &str,
    media: &OutgoingMedia,
    file: ResolvedFile,
    reply: Option<Json>,
    markup: Option<Json>,
) -> (call: Call)
    ensures
        call@ == single_call(chat_id@, media@, file, maybe(reply), maybe(markup)),
{
    let mut payload = Fields::none();
    payload.put("chat_id", chat_id_value(chat_id));
    payload.put("reply_parameters", Json::optional(reply));
    payload.put("reply_markup", Json::optional(markup));
    payload.put("caption", Json::optional_text(&media.caption));
    payload.put("duration", write_duration(media.duration));
    let method = find_method(media.kind);
    match file {
        ResolvedFile::Remote(reference) => {
            payload.put(media.kind.field_name(), Json::text(reference.as_str()));
            Call::Document(make_call(method, payload))
        },
        ResolvedFile::Upload(upload) => {
            payload.put("chat_id", Json::text(chat_id));
            let mut uploads: Vec<(String, Upload)> = Vec::new();
            uploads.push((media.kind.field_name().to_owned(), upload));
            assert(media::named(uploads@) =~= seq![(segment::kind_tag(media.kind), upload)]);
            Call::Form(
                FormRequest {
                    method: method.to_owned(),
                    values: form_from_payload(&payload),
                    added: no_values(),
                    uploads,
                },
            )
        },
    }
}

// ---------------------------------------------------------------------------
// Albums
// ---------------------------------------------------------------------------

/// Whether a markup can follow an album: it is an inline keyboard.
pub open spec fn follows_album(markup: Option<JsonView>) -> bool {
    match markup {
        None => true,
        Some(JsonView::Object(map)) => map.contains_key("inline_keyboard"@),
        Some(_) => false,
    }
}

/// Accepts the markup of an album.
pub fn begin_media_group(markup: &Option<Json>) -> (result: Result<(), Error>)
    ensures
        match result {
            Ok(_) => follows_album(maybe(*markup)),
            Err(e) => !follows_album(maybe(*markup)) && e@ == ErrorView::Message(
                "Telegram media groups can be followed only by an inline keyboard; reply keyboards require a separate message"@,
            ),
        },
{
    broadcast use json::lemma_json_view;

    if let Some(markup) = markup {
        let inlined = match markup {
            Json::Object(map) => map.contains_key("inline_keyboard"),
            _ => false,
        };
        if !inlined {
            return Err(
                message(
                    "Telegram media groups can be followed only by an inline keyboard; reply keyboards require a separate message",
                ),
            );
        }
    }
    Ok(())
}

/// The name of the part of the `i`-th item of an album.
pub open spec fn group_part(i: int) -> Seq<char> {
    "media"@ + text::decimal(i)
}

/// How the `i`-th item of an album stands in the call.
pub open spec fn group_item(media: MediaView, file: ResolvedFile, i: int) -> JsonView {
    json::stripped(
        JsonView::Object(
            media::with_file(
                json::no_fields().insert(
                    "type"@,
                    JsonView::Text(segment::kind_tag(media.kind)),
                ).insert("caption"@, text_or_null(media.caption)).insert(
                    "duration"@,
                    duration_view(media.duration),
                ),
                "media"@,
                group_part(i),
                file,
            ),
        ),
    )
}

/// The uploads of the first `n` items of an album.
pub open spec fn group_uploads(files: Seq<ResolvedFile>, n: int) -> Seq<(Seq<char>, Upload)>
    decreases n,
{
    if n <= 0 {
        Seq::empty()
    } else {
        media::with_upload(group_uploads(files, n - 1), group_part(n - 1), files[n - 1])
    }
}

/// The call that sends an album. In a form the chat stands as it was given.
pub open spec fn group_call(
    chat: Seq<char>,
    media: Seq<MediaView>,
    files: Seq<ResolvedFile>,
    reply: Option<JsonView>,
) -> CallView {
    let uploads = group_uploads(files, files.len() as int);
    let payload = json::no_fields().insert(
        "media"@,
        JsonView::Array(Seq::new(media.len(), |i: int| group_item(media[i], files[i], i))),
    ).insert("reply_parameters"@, or_null(reply));
    media::call_with_uploads(
        "sendMediaGroup"@,
        payload.insert(
            "chat_id"@,
            if uploads.len() == 0 {
                address::chat_id_view(chat)
            } else {
                JsonView::Text(chat)
            },
        ),
        uploads,
    )
}

/// Makes the call that sends an album from its files.
pub fn send_media_group(
    chat_id: &str,
    media: &Vec<OutgoingMedia>,
    files: Vec<ResolvedFile>,
    reply: Option<Json>,
) -> (call: Call)
    requires
        media@.len() == files@.len(),
    ensures
        call@ == group_call(chat_id@, segment::media_views(media@), files@, maybe(reply)),
{
    let ghost all = files@;
    let ghost views = segment::media_views(media@);
    let mut items: Vec<Json> = Vec::new();
    let mut uploads: Vec<(String, Upload)> = Vec::new();
    assert(media::named(uploads@) =~= Seq::<(Seq<char>, Upload)>::empty());
    let count: usize = media.len();
    let mut i: usize = 0;
    for file in iter: files
        invariant
            iter.seq() == all,
            all == files@,
            count == all.len(),
            media@.len() == all.len(),
            views == segment::media_views(media@),
            i == iter.index(),
            items@.len() == i,
            forall|k: int|
                0 <= k < i ==> (#[trigger] items@[k])@ == group_item(views[k], all[k], k),
            media::named(uploads@) == group_uploads(all, i as int),
    {
        let item: &OutgoingMedia = &media[i];
        assert(views[i as int] == item@);
        assert(file == all[i as int]);
        let mut object = Fields::none();
        object.put("type", Json::text(item.kind.telegram_type()));
        object.put("caption", Json::optional_text(&item.caption));
        object.put("duration", write_duration(item.duration));
        let number = u64_text(i as u64);
        let part = joined("media", number.as_str());
        let (object, more) = attach_file(object, uploads, "media", part.as_str(), file);
        uploads = more;
        items.push(strip_nulls(Json::object(object)));
        i += 1;
    }
    assert(json::views(items@) =~= Seq::new(views.len(), |i: int| group_item(views[i], all[i], i)));
    let mut payload = Fields::none();
    payload.put("media", Json::array(items));
    payload.put("reply_parameters", Json::optional(reply));
    assert(media::named(uploads@).len() == uploads@.len());
    if uploads.len() == 0 {
        payload.put("chat_id", chat_id_value(chat_id));
    } else {
        payload.put("chat_id", Json::text(chat_id));
    }
    make_call_with_uploads("sendMediaGroup", payload, uploads)
}

/// The call that puts a keyboard under the first message of an album.
pub open spec fn group_markup_call(chat: Seq<char>, first: Message, markup: JsonView) -> RequestView {
    request::call(
        "editMessageReplyMarkup"@,
        json::no_fields().insert("chat_id"@, address::chat_id_view(chat)).insert(
            "message_id"@,
            JsonView::Integer(first.message_id as int),
        ).insert("reply_markup"@, markup),
    )
}

/// Makes the call that puts a keyboard under the first message of an album,
/// where there are both.
pub fn finish_media_group(chat_id: &str, markup: Option<Json>, messages: &Vec<Message>) -> (call: Option<
    Request,
>)
    ensures
        match call {
            Some(request) => markup matches Some(markup) && messages@.len() > 0 && request@
                == group_markup_call(chat_id@, messages@[0], markup@),
            None => markup is None || messages@.len() == 0,
        },
{
    match markup {
        None => None,
        Some(markup) => {
            if messages.len() == 0 {
                return None;
            }
            let mut payload = Fields::none();
            payload.put("chat_id", chat_id_value(chat_id));
            payload.put("message_id", Json::integer(messages[0].message_id));
            payload.put("reply_markup", markup);
            Some(make_call("editMessageReplyMarkup", payload))
        },
    }
}

/// The id under which a message that was sent is known.
pub fn sent_response(sent: &Message) -> (id: String)
    ensures
        id@ == utils::message_id_text(sent.chat.id as int, sent.message_id as int),
{
    message_id(sent.chat.id, sent.message_id)
}

// ---------------------------------------------------------------------------
// Changes
// ---------------------------------------------------------------------------

/// A change of a message: of its text, or of its media item, whose file is to
/// be found first.
#[derive(Debug, PartialEq)]
pub enum SegmentEdit {
    Text(Request),
    Media { chat_id: String, message_id: i64, media: OutgoingMedia, entities: Vec<MessageEntity> },
}

/// What a change says.
#[verifier::ext_equal]
pub enum SegmentEditView {
    Text(RequestView),
    Media { chat: Seq<char>, number: i64, media: MediaView, entities: JsonView },
}

impl View for SegmentEdit {
    type V = SegmentEditView;

    open spec fn view(&self) -> SegmentEditView {
        match *self {
            SegmentEdit::Text(request) => SegmentEditView::Text(request@),
            SegmentEdit::Media { chat_id, message_id, media, entities } => SegmentEditView::Media {
                chat: chat_id@,
                number: message_id,
                media: media@,
                entities: entities_view(entities@),
            },
        }
    }
}

/// The media item of a change, with the text of the message before its
/// caption.
pub open spec fn edited_media(draft: Draft) -> MediaView {
    if draft.composed.text.len() == 0 {
        draft.media[0]
    } else {
        MediaView {
            caption: Some(shared_caption(draft.composed.text, draft.media[0].caption)),
            ..draft.media[0]
        }
    }
}

/// The change of a message into what the draft says.
pub open spec fn draft_edit(chat: Seq<char>, number: i64, draft: Draft) -> Result<
    SegmentEditView,
    ErrorView,
> {
    if draft.reply is Some {
        error::refused("an edited message cannot contain a reply segment"@)
    } else if draft.venues.len() > 0 || draft.stickers.len() > 0 {
        error::refused("Telegram cannot edit a message into a venue or sticker"@)
    } else if draft.media.len() > 1 {
        error::refused("Telegram can edit only one media item at a time"@)
    } else if draft.media.len() == 0 {
        if draft.composed.text.len() == 0 {
            error::refused("edited message text cannot be empty"@)
        } else if text::units_of(draft.composed.text) > TEXT_LIMIT {
            error::refused("edited Telegram message exceeds 4096 UTF-16 code units"@)
        } else {
            Ok(
                SegmentEditView::Text(
                    request::call(
                        "editMessageText"@,
                        json::no_fields().insert("chat_id"@, address::chat_id_view(chat)).insert(
                            "message_id"@,
                            JsonView::Integer(number as int),
                        ).insert("text"@, JsonView::Text(draft.composed.text)).insert(
                            "entities"@,
                            drafted_entities(draft.composed.entities),
                        ),
                    ),
                ),
            )
        }
    } else if caption_units(edited_media(draft).caption) > CAPTION_LIMIT {
        error::refused("edited Telegram media caption exceeds 1024 UTF-16 code units"@)
    } else {
        Ok(
            SegmentEditView::Media {
                chat,
                number,
                media: edited_media(draft),
                entities: drafted_entities(draft.composed.entities),
            },
        )
    }
}

/// The change of a message into segments.
pub open spec fn edit_outcome(id: Seq<char>, segments: Seq<MessageSegment>) -> Result<
    SegmentEditView,
    ErrorView,
> {
    match utils::split_id_outcome(id) {
        Err(e) => Err(e),
        Ok((chat, number)) => match segment::process_outcome(segments) {
            Err(e) => Err(e),
            Ok(draft) => draft_edit(chat, number, draft),
        },
    }
}

/// Changes a message into segments.
pub fn edit_messagee(id: &str, segments: Vec<MessageSegment>) -> (result: Result<
    SegmentEdit,
    Error,
>)
    ensures
        error::shown(result) == edit_outcome(id@, segments@),
{
    let (chat_id, number) = split_id(id)?;
    let ghost draft = segment::process_outcome(segments@)->Ok_0;
    let mut outgoing = process_message_segments(segments)?;
    proof {
        lemma_drafted_entities(outgoing.entities@, draft.composed.entities);
        assert(segment::media_views(outgoing.media@).len() == outgoing.media@.len());
        assert(segment::venue_views(outgoing.venues@).len() == outgoing.venues@.len());
        assert(utf16::texts(outgoing.stickers@).len() == outgoing.stickers@.len());
    }
    if outgoing.reply.is_some() {
        return Err(message("an edited message cannot contain a reply segment"));
    }
    if outgoing.venues.len() > 0 || outgoing.stickers.len() > 0 {
        return Err(message("Telegram cannot edit a message into a venue or sticker"));
    }
    if outgoing.media.len() > 1 {
        return Err(message("Telegram can edit only one media item at a time"));
    }
    if outgoing.media.len() == 0 {
        if outgoing.text.as_str().is_empty() {
            return Err(message("edited message text cannot be empty"));
        }
        if utf16_len(outgoing.text.as_str()) > TEXT_LIMIT {
            return Err(message("edited Telegram message exceeds 4096 UTF-16 code units"));
        }
        let mut payload = Fields::none();
        payload.put("chat_id", chat_id_value(chat_id.as_str()));
        payload.put("message_id", Json::integer(number));
        payload.put("text", Json::text(outgoing.text.as_str()));
        payload.put("entities", optional_entities(&outgoing.entities));
        return Ok(SegmentEdit::Text(make_call("editMessageText", payload)));
    }
    assert(draft.media[0] == outgoing.media@[0]@);
    let mut media = outgoing.media.remove(0);
    if !outgoing.text.as_str().is_empty() {
        let caption = match media.caption.take() {
            Some(caption) => joined3(outgoing.text.as_str(), "\n", caption.as_str()),
            None => outgoing.text.clone(),
        };
        media.caption = Some(caption);
    }
    if !caption_fits(&media.caption) {
        return Err(message("edited Telegram media caption exceeds 1024 UTF-16 code units"));
    }
    Ok(
        SegmentEdit::Media {
            chat_id,
            message_id: number,
            media,
            entities: outgoing.entities,
        },
    )
}

/// The call that changes the media item of a message. In a form the chat and
/// the number stand as texts.
pub open spec fn edit_media_call(
    chat: Seq<char>,
    number: i64,
    media: MediaView,
    entities: JsonView,
    file: ResolvedFile,
) -> CallView {
    let object = json::stripped(
        JsonView::Object(
            json::no_fields().insert("type"@, JsonView::Text(segment::kind_tag(media.kind))).insert(
                "caption"@,
                text_or_null(media.caption),
            ).insert("caption_entities"@, entities).insert(
                "duration"@,
                duration_view(media.duration),
            ),
        ),
    )->Object_0;
    let item = JsonView::Object(media::with_file(object, "media"@, "media_file"@, file));
    match file {
        ResolvedFile::Remote(_) => CallView::Document(
            request::call(
                "editMessageMedia"@,
                json::no_fields().insert("chat_id"@, address::chat_id_view(chat)).insert(
                    "message_id"@,
                    JsonView::Integer(number as int),
                ).insert("media"@, item),
            ),
        ),
        ResolvedFile::Upload(upload) => CallView::Form {
            method: "editMessageMedia"@,
            values: json::no_fields().insert("chat_id"@, JsonView::Text(chat)).insert(
                "message_id"@,
                JsonView::Integer(number as int),
            ).insert("media"@, item),
            added: Seq::empty(),
            uploads: seq![("media_file"@, upload)],
        },
    }
}

/// Makes the call that changes the media item of a message.
pub fn edit_media(
    chat_id: &str,
    number: i64,
    media: &OutgoingMedia,
    entities: &Vec<MessageEntity>,
    file: ResolvedFile,
) -> (call: Call)
    ensures
        call@ == edit_media_call(chat_id@, number, media@, entities_view(entities@), file),
{
    let mut object = Fields::none();
    object.put("type", Json::text(media.kind.telegram_type()));
    object.put("caption", Json::optional_text(&media.caption));
    object.put("caption_entities", optional_entities(entities));
    object.put("duration", write_duration(media.duration));
    let object = strip_members(object);
    let remote = match &file {
        ResolvedFile::Remote(_) => true,
        ResolvedFile::Upload(_) => false,
    };
    let uploads: Vec<(String, Upload)> = Vec::new();
    assert(media::named(uploads@) =~= Seq::<(Seq<char>, Upload)>::empty());
    let (object, uploads) = attach_file(object, uploads, "media", "media_file", file);
    let mut payload = Fields::none();
    let chat = if remote {
        chat_id_value(chat_id)
    } else {
        Json::text(chat_id)
    };
    payload.put("chat_id", chat);
    payload.put("message_id", Json::integer(number));
    payload.put("media", Json::object(object));
    if remote {
        Call::Document(make_call("editMessageMedia", payload))
    } else {
        assert(media::named(uploads@) =~= seq![("media_file"@, file->Upload_0)]);
        Call::Form(
            FormRequest {
                method: "editMessageMedia".to_owned(),
                values: payload,
                added: no_values(),
                uploads,
            },
        )
    }
}

// ---------------------------------------------------------------------------
// Laws
// ---------------------------------------------------------------------------

/// A batch holds one to ten items, all of one class.
pub open spec fn is_batch(batch: Seq<MediaView>) -> bool {
    &&& 1 <= batch.len() <= MEDIA_GROUP_LIMIT
    &&& forall|j: int|
        0 <= j < batch.len() ==> segment::class_of((#[trigger] batch[j]).kind)
            == segment::class_of(batch[0].kind)
}

/// Two batches stand apart for a reason: the first is full, or they are of two
/// classes.
pub open spec fn stand_apart(first: Seq<MediaView>, second: Seq<MediaView>) -> bool {
    first.len() == MEDIA_GROUP_LIMIT || segment::class_of(first[0].kind) != segment::class_of(
        second[0].kind,
    )
}

proof fn lemma_batches_flat(media: Seq<MediaView>, n: int)
    requires
        0 <= n <= media.len(),
    ensures
        batches(media, n).flatten() == media.take(n),
    decreases n,
{
    if n <= 0 {
        assert(media.take(n) =~= Seq::<MediaView>::empty());
        assert(batches(media, n).flatten() =~= media.take(n));
    } else {
        lemma_batches_flat(media, n - 1);
        let done = batches(media, n - 1);
        let item = media[n - 1];
        assert(media.take(n) =~= media.take(n - 1).push(item));
        if done.len() > 0 && joins(done.last(), item) {
            let shorter = done.drop_last();
            assert(done =~= shorter.push(done.last()));
            shorter.lemma_flatten_push(done.last());
            shorter.lemma_flatten_push(done.last().push(item));
            assert(shorter.flatten() + done.last().push(item) =~= (shorter.flatten()
                + done.last()).push(item));
        } else {
            done.lemma_flatten_push(seq![item]);
            assert(done.flatten() + seq![item] =~= done.flatten().push(item));
        }
    }
}

proof fn lemma_batches_proper(media: Seq<MediaView>, n: int)
    requires
        0 <= n <= media.len(),
    ensures
        forall|i: int| 0 <= i < batches(media, n).len() ==> is_batch(#[trigger] batches(media, n)[i]),
    decreases n,
{
    if n > 0 {
        lemma_batches_proper(media, n - 1);
        let done = batches(media, n - 1);
        let item = media[n - 1];
        if done.len() > 0 && joins(done.last(), item) {
            assert(is_batch(done[done.len() - 1]));
            assert(is_batch(done.last().push(item)));
        } else {
            assert(is_batch(seq![item]));
        }
    }
}

proof fn lemma_batches_apart(media: Seq<MediaView>, n: int)
    requires
        0 <= n <= media.len(),
    ensures
        forall|i: int|
            0 <= i < batches(media, n).len() - 1 ==> stand_apart(
                #[trigger] batches(media, n)[i],
                batches(media, n)[i + 1],
            ),
    decreases n,
{
    if n > 0 {
        lemma_batches_apart(media, n - 1);
        lemma_batches_proper(media, n - 1);
        let done = batches(media, n - 1);
        let item = media[n - 1];
        let all = batches(media, n);
        if done.len() > 0 {
            assert(is_batch(done[done.len() - 1]));
        }
        assert forall|i: int| 0 <= i < all.len() - 1 implies stand_apart(
            #[trigger] all[i],
            all[i + 1],
        ) by {
            assert(all[i] == done[i]);
            if i + 1 < done.len() {
                assert(stand_apart(done[i], done[i + 1]));
                assert(all[i + 1][0] == done[i + 1][0]);
            } else {
                assert(done[i] == done.last());
                assert(!joins(done.last(), item));
            }
        }
    }
}

/// The batches of a list of media, one after another, are the list; each holds
/// one to ten items of one class; and two neighbours stand apart only where
/// the first is full or they are of two classes.
pub proof fn law_batches_cover_the_media(media: Seq<MediaView>)
    ensures
        batches(media, media.len() as int).flatten() == media,
        forall|i: int|
            0 <= i < batches(media, media.len() as int).len() ==> is_batch(
                #[trigger] batches(media, media.len() as int)[i],
            ),
        forall|i: int|
            0 <= i < batches(media, media.len() as int).len() - 1 ==> stand_apart(
                #[trigger] batches(media, media.len() as int)[i],
                batches(media, media.len() as int)[i + 1],
            ),
{
    lemma_batches_flat(media, media.len() as int);
    lemma_batches_proper(media, media.len() as int);
    lemma_batches_apart(media, media.len() as int);
    assert(media.take(media.len() as int) =~= media);
}

/// A single media item is never sent as an album, and an album has two to ten
/// items of one class.
pub proof fn law_albums_are_albums(
    chat: Seq<char>,
    batch: Seq<MediaView>,
    reply: Option<JsonView>,
    markup: Option<JsonView>,
)
    requires
        is_batch(batch),
    ensures
        match step(chat, PieceView::Batch(batch), reply, markup) {
            SegmentStepView::Media { media, .. } => batch == seq![media],
            SegmentStepView::Group { media, .. } => media == batch && media.len() >= 2,
            SegmentStepView::Call(_) => false,
        },
{
    if batch.len() == 1 {
        assert(batch =~= seq![batch[0]]);
    }
}

/// What a step gives to the chat besides its piece: the message that is
/// answered, and the markup.
pub open spec fn extras(step: SegmentStepView) -> (Option<JsonView>, Option<JsonView>) {
    match step {
        SegmentStepView::Call(request) => (
            json::member(request.payload, "reply_parameters"@),
            json::member(request.payload, "reply_markup"@),
        ),
        SegmentStepView::Media { reply, markup, .. } => (reply, markup),
        SegmentStepView::Group { reply, markup, .. } => (reply, markup),
    }
}

/// However many messages a message becomes, only the first of them answers and
/// only the first has the buttons.
pub proof fn law_buttons_are_not_copied(
    chat: Seq<char>,
    pieces: Seq<PieceView>,
    reply: Option<JsonView>,
    markup: Option<JsonView>,
    i: int,
)
    requires
        0 < i < pieces.len(),
    ensures
        extras(steps(chat, pieces, reply, markup)[i]) == (None::<JsonView>, None::<JsonView>),
{
    lemma_names_differ();
}

proof fn lemma_names_differ()
    ensures
        "reply_parameters"@ != "reply_markup"@,
        "reply_parameters"@ != "text"@,
        "reply_parameters"@ != "entities"@,
        "reply_parameters"@ != "latitude"@,
        "reply_parameters"@ != "longitude"@,
        "reply_parameters"@ != "title"@,
        "reply_parameters"@ != "address"@,
        "reply_parameters"@ != "sticker"@,
        "reply_markup"@ != "text"@,
        "reply_markup"@ != "entities"@,
        "reply_markup"@ != "latitude"@,
        "reply_markup"@ != "longitude"@,
        "reply_markup"@ != "title"@,
        "reply_markup"@ != "address"@,
        "reply_markup"@ != "sticker"@,
{
    reveal_strlit("reply_parameters");
    reveal_strlit("reply_markup");
    reveal_strlit("text");
    reveal_strlit("entities");
    reveal_strlit("latitude");
    reveal_strlit("longitude");
    reveal_strlit("title");
    reveal_strlit("address");
    reveal_strlit("sticker");
    assert("reply_parameters"@.len() == 16 && "reply_markup"@.len() == 12);
}

/// Every text that is sent keeps to the limit of one message, and together the
/// texts are the text.
pub proof fn law_texts_keep_to_the_limit(written: Seq<char>, entities: Seq<EntityView>, i: int)
    requires
        0 <= i < written_pieces(written, entities).len(),
    ensures
        utf16::chunks(written, TEXT_LIMIT as int).flatten() == written,
        written_pieces(written, entities)[i] matches PieceView::Text { text: part, .. }
            && text::units_of(part) <= TEXT_LIMIT,
{
    utf16::law_chunks_make_the_text(written, TEXT_LIMIT as int);
}

/// Every upload of an album goes under a name of its own, and its item refers
/// to that name.
pub proof fn law_album_uploads_are_referenced(media: MediaView, files: Seq<ResolvedFile>, i: int, j: int)
    requires
        0 <= i < files.len() <= i64::MAX,
        0 <= j < files.len(),
        i != j,
    ensures
        group_part(i) != group_part(j),
        files[i] matches ResolvedFile::Upload(upload) ==> {
            &&& group_uploads(files, files.len() as int).contains((group_part(i), upload))
            &&& group_item(media, files[i], i)->Object_0["media"@] == JsonView::Text(
                "attach://"@ + group_part(i),
            )
        },
{
    reveal_strlit("media");
    text::lemma_decimal_round_trip(i);
    text::lemma_decimal_round_trip(j);
    assert(group_part(i).skip(5) =~= text::decimal(i));
    assert(group_part(j).skip(5) =~= text::decimal(j));
    if files[i] is Upload {
        lemma_upload_kept(files, i, files.len() as int);
        reveal_with_fuel(json::stripped, 2);
    }
}

proof fn lemma_upload_kept(files: Seq<ResolvedFile>, i: int, n: int)
    requires
        0 <= i < n <= files.len(),
        files[i] is Upload,
    ensures
        group_uploads(files, n).contains((group_part(i), files[i]->Upload_0)),
    decreases n,
{
    let entry = (group_part(i), files[i]->Upload_0);
    let before = group_uploads(files, n - 1);
    if i == n - 1 {
        assert(group_uploads(files, n)[before.len() as int] == entry);
    } else {
        lemma_upload_kept(files, i, n - 1);
        let k = before.index_of(entry);
        assert(group_uploads(files, n)[k] == entry);
    }
}

// ---------------------------------------------------------------------------
// What the calls say
// ---------------------------------------------------------------------------

proof fn lemma_segment_keys()
    ensures
        "chat_id"@.len() == 7,
        "reply_parameters"@.len() == 16,
        "reply_markup"@.len() == 12,
        "text"@.len() == 4,
        "entities"@.len() == 8,
        "latitude"@.len() == 8,
        "longitude"@.len() == 9,
        "title"@.len() == 5,
        "address"@.len() == 7,
        "sticker"@.len() == 7,
        "caption"@.len() == 7,
        "duration"@.len() == 8,
        "photo"@.len() == 5,
        "video"@.len() == 5,
        "audio"@.len() == 5,
        "document"@.len() == 8,
        "media"@.len() == 5,
        "type"@.len() == 4,
        "caption_entities"@.len() == 16,
        "message_id"@.len() == 10,
        "offset"@.len() == 6,
        "length"@.len() == 6,
        "url"@.len() == 3,
        "user"@.len() == 4,
        "custom_emoji_id"@.len() == 15,
        "id"@.len() == 2,
        "is_bot"@.len() == 6,
        "first_name"@.len() == 10,
        "last_name"@.len() == 9,
        "username"@.len() == 8,
        "chat_id"@ != "address"@,
        "chat_id"@ != "sticker"@,
        "chat_id"@ != "caption"@,
        "reply_parameters"@ != "caption_entities"@,
        "text"@ != "type"@,
        "text"@ != "user"@,
        "entities"@ != "latitude"@,
        "entities"@ != "duration"@,
        "entities"@ != "document"@,
        "entities"@ != "username"@,
        "latitude"@ != "duration"@,
        "latitude"@ != "document"@,
        "latitude"@ != "username"@,
        "longitude"@ != "last_name"@,
        "title"@ != "photo"@,
        "title"@ != "video"@,
        "title"@ != "audio"@,
        "title"@ != "media"@,
        "address"@ != "sticker"@,
        "address"@ != "caption"@,
        "sticker"@ != "caption"@,
        "duration"@ != "document"@,
        "duration"@ != "username"@,
        "photo"@ != "video"@,
        "photo"@ != "audio"@,
        "photo"@ != "media"@,
        "video"@ != "audio"@,
        "video"@ != "media"@,
        "audio"@ != "media"@,
        "document"@ != "username"@,
        "type"@ != "user"@,
        "message_id"@ != "first_name"@,
        "offset"@ != "length"@,
        "offset"@ != "is_bot"@,
        "length"@ != "is_bot"@,
{
    reveal_strlit("chat_id");
    reveal_strlit("reply_parameters");
    reveal_strlit("reply_markup");
    reveal_strlit("text");
    reveal_strlit("entities");
    reveal_strlit("latitude");
    reveal_strlit("longitude");
    reveal_strlit("title");
    reveal_strlit("address");
    reveal_strlit("sticker");
    reveal_strlit("caption");
    reveal_strlit("duration");
    reveal_strlit("photo");
    reveal_strlit("video");
    reveal_strlit("audio");
    reveal_strlit("document");
    reveal_strlit("media");
    reveal_strlit("type");
    reveal_strlit("caption_entities");
    reveal_strlit("message_id");
    reveal_strlit("offset");
    reveal_strlit("length");
    reveal_strlit("url");
    reveal_strlit("user");
    reveal_strlit("custom_emoji_id");
    reveal_strlit("id");
    reveal_strlit("is_bot");
    reveal_strlit("first_name");
    reveal_strlit("last_name");
    reveal_strlit("username");
    assert("chat_id"@[0] != "address"@[0]);
    assert("chat_id"@[0] != "sticker"@[0]);
    assert("chat_id"@[1] != "caption"@[1]);
    assert("reply_parameters"@[0] != "caption_entities"@[0]);
    assert("text"@[1] != "type"@[1]);
    assert("text"@[0] != "user"@[0]);
    assert("entities"@[0] != "latitude"@[0]);
    assert("entities"@[0] != "duration"@[0]);
    assert("entities"@[0] != "document"@[0]);
    assert("entities"@[0] != "username"@[0]);
    assert("latitude"@[0] != "duration"@[0]);
    assert("latitude"@[0] != "document"@[0]);
    assert("latitude"@[0] != "username"@[0]);
    assert("longitude"@[1] != "last_name"@[1]);
    assert("title"@[0] != "photo"@[0]);
    assert("title"@[0] != "video"@[0]);
    assert("title"@[0] != "audio"@[0]);
    assert("title"@[0] != "media"@[0]);
    assert("address"@[0] != "sticker"@[0]);
    assert("address"@[0] != "caption"@[0]);
    assert("sticker"@[0] != "caption"@[0]);
    assert("duration"@[1] != "document"@[1]);
    assert("duration"@[0] != "username"@[0]);
    assert("photo"@[0] != "video"@[0]);
    assert("photo"@[0] != "audio"@[0]);
    assert("photo"@[0] != "media"@[0]);
    assert("video"@[0] != "audio"@[0]);
    assert("video"@[0] != "media"@[0]);
    assert("audio"@[0] != "media"@[0]);
    assert("document"@[0] != "username"@[0]);
    assert("type"@[0] != "user"@[0]);
    assert("message_id"@[0] != "first_name"@[0]);
    assert("offset"@[0] != "length"@[0]);
    assert("offset"@[0] != "is_bot"@[0]);
    assert("length"@[0] != "is_bot"@[0]);
}

/// The parameters name the chat, and pass on what is replied to and the
/// keyboard where there are any.
pub open spec fn passes_on(
    payload: Map<Seq<char>, JsonView>,
    chat: Seq<char>,
    reply: Option<JsonView>,
    markup: Option<JsonView>,
) -> bool {
    &&& json::member(payload, "chat_id"@) == Some(
            match text::i64_value(chat) {
                Some(id) => JsonView::Integer(id as int),
                None => JsonView::Text(chat),
            },
    )
    &&& reply matches Some(value) ==> (!(value is Null) ==> json::member(payload, "reply_parameters"@)
        == Some(json::stripped(value)))
    &&& markup matches Some(value) ==> (!(value is Null) ==> json::member(payload, "reply_markup"@)
        == Some(json::stripped(value)))
    &&& reply is None ==> json::member(payload, "reply_parameters"@) is None
    &&& markup is None ==> json::member(payload, "reply_markup"@) is None
}

/// A text is sent as a message that says it; a place with its latitude and its
/// longitude, as a venue where it has a title; a sticker by its id. Each goes to
/// the chat, with what it replies to and its keyboard.
pub proof fn law_pieces_are_sent_as_they_are(
    chat: Seq<char>,
    piece: PieceView,
    reply: Option<JsonView>,
    markup: Option<JsonView>,
)
    ensures
        ({
            let sent = step(chat, piece, reply, markup);
            &&& piece matches PieceView::Text { text, .. } ==> (sent matches SegmentStepView::Call(call)
                && call.method == "sendMessage"@ && json::text_in(call.payload, "text"@) == Some(text)
                && passes_on(call.payload, chat, reply, markup))
            &&& piece matches PieceView::Venue(venue) ==> (sent matches SegmentStepView::Call(call)
                && (text::blank(venue.title) ==> call.method == "sendLocation"@) && (!text::blank(
                venue.title,
            ) ==> call.method == "sendVenue"@ && json::text_in(call.payload, "title"@) == Some(
                venue.title,
            ) && json::text_in(call.payload, "address"@) == Some(venue.address)) && (
            venue.latitude matches crate::content::Real::Finite(text) ==> json::member(
                call.payload,
                "latitude"@,
            ) == Some(JsonView::Real(text@))) && (
            venue.longitude matches crate::content::Real::Finite(text) ==> json::member(
                call.payload,
                "longitude"@,
            ) == Some(JsonView::Real(text@))) && passes_on(call.payload, chat, reply, markup))
            &&& piece matches PieceView::Sticker(id) ==> (sent matches SegmentStepView::Call(call)
                && call.method == "sendSticker"@ && json::text_in(call.payload, "sticker"@) == Some(id)
                && passes_on(call.payload, chat, reply, markup))
        }),
{
    lemma_segment_keys();
    let shared = shared_payload(chat, reply, markup);
    match piece {
        PieceView::Text { text, entities } => {
            let all = shared.insert("text"@, JsonView::Text(text)).insert(
                "entities"@,
                drafted_entities(entities),
            );
            request::lemma_call_member("sendMessage"@, all, "text"@);
            lemma_passed_on("sendMessage"@, all, chat, reply, markup);
        },
        PieceView::Venue(venue) => {
            let placed = shared.insert("latitude"@, layout::real_view(venue.latitude)).insert(
                "longitude"@,
                layout::real_view(venue.longitude),
            );
            let named = placed.insert("title"@, JsonView::Text(venue.title)).insert(
                "address"@,
                JsonView::Text(venue.address),
            );
            request::lemma_call_member("sendLocation"@, placed, "latitude"@);
            request::lemma_call_member("sendLocation"@, placed, "longitude"@);
            lemma_passed_on("sendLocation"@, placed, chat, reply, markup);
            request::lemma_call_member("sendVenue"@, named, "latitude"@);
            request::lemma_call_member("sendVenue"@, named, "longitude"@);
            request::lemma_call_member("sendVenue"@, named, "title"@);
            request::lemma_call_member("sendVenue"@, named, "address"@);
            lemma_passed_on("sendVenue"@, named, chat, reply, markup);
        },
        PieceView::Sticker(id) => {
            let all = shared.insert("sticker"@, JsonView::Text(id));
            request::lemma_call_member("sendSticker"@, all, "sticker"@);
            lemma_passed_on("sendSticker"@, all, chat, reply, markup);
        },
        _ => {},
    }
}

proof fn lemma_passed_on(
    method: Seq<char>,
    all: Map<Seq<char>, JsonView>,
    chat: Seq<char>,
    reply: Option<JsonView>,
    markup: Option<JsonView>,
)
    requires
        json::member(all, "chat_id"@) == Some(address::chat_id_view(chat)),
        json::member(all, "reply_parameters"@) == Some(or_null(reply)),
        json::member(all, "reply_markup"@) == Some(or_null(markup)),
    ensures
        passes_on(request::call(method, all).payload, chat, reply, markup),
{
    request::lemma_call_member(method, all, "chat_id"@);
    request::lemma_call_member(method, all, "reply_parameters"@);
    request::lemma_call_member(method, all, "reply_markup"@);
}

/// Media is sent with the method for its kind, its file under the field of that
/// kind; so a video is never sent as a picture.
pub proof fn law_media_are_sent_by_kind(
    chat: Seq<char>,
    media: MediaView,
    file: ResolvedFile,
    reply: Option<JsonView>,
    markup: Option<JsonView>,
)
    ensures
        ({
            let (method, field) = match media.kind {
                MediaKind::Photo => ("sendPhoto"@, "photo"@),
                MediaKind::Video => ("sendVideo"@, "video"@),
                MediaKind::Audio => ("sendAudio"@, "audio"@),
                MediaKind::Document => ("sendDocument"@, "document"@),
            };
            let call = single_call(chat, media, file, reply, markup);
            &&& file matches ResolvedFile::Remote(reference) ==> (call matches CallView::Document(
                request,
            ) && request.method == method && json::text_in(request.payload, field) == Some(
                reference@,
            ) && json::text_in(request.payload, "caption"@) == media.caption && passes_on(
                request.payload,
                chat,
                reply,
                markup,
            ))
            &&& file matches ResolvedFile::Upload(upload) ==> (call matches CallView::Form {
                method: own,
                uploads,
                ..
            } && own == method && uploads.len() == 1 && uploads[0] == (field, upload))
        }),
{
    lemma_segment_keys();
    if let ResolvedFile::Remote(reference) = file {
        let field = segment::kind_tag(media.kind);
        let shared = shared_payload(chat, reply, markup).insert(
            "caption"@,
            text_or_null(media.caption),
        ).insert("duration"@, duration_view(media.duration));
        let all = shared.insert(field, JsonView::Text(reference@));
        let method = media_method(media.kind);
        request::lemma_call_member(method, all, field);
        request::lemma_call_member(method, all, "caption"@);
        lemma_passed_on(method, all, chat, reply, markup);
    }
}

/// Media of an album, and media that a message is given, is called by its kind
/// as well: the kinds agree with those under which the same media is sent alone.
pub proof fn law_album_and_edit_kinds_agree(
    chat: Seq<char>,
    number: i64,
    media: MediaView,
    entities: JsonView,
    file: ResolvedFile,
    i: int,
)
    ensures
        ({
            let name = match media.kind {
                MediaKind::Photo => "photo"@,
                MediaKind::Video => "video"@,
                MediaKind::Audio => "audio"@,
                MediaKind::Document => "document"@,
            };
            let item = group_item(media, file, i);
            let call = edit_media_call(chat, number, media, entities, file);
            &&& item matches JsonView::Object(members)
            &&& json::text_in(members, "type"@) == Some(name)
            &&& json::text_in(members, "caption"@) == media.caption
            &&& file matches ResolvedFile::Remote(reference) ==> json::text_in(members, "media"@)
                == Some(reference@) && (call matches CallView::Document(request) && request.method
                == "editMessageMedia"@ && json::i64_in(request.payload, "message_id"@) == Some(number)
                && (json::object_in(request.payload, "media"@) matches Some(given) && json::text_in(
                given,
                "type"@,
            ) == Some(name) && json::text_in(given, "media"@) == Some(reference@) && json::text_in(
                given,
                "caption"@,
            ) == media.caption))
            &&& file matches ResolvedFile::Upload(upload) ==> (call matches CallView::Form {
                method,
                values,
                uploads,
                ..
            } && method == "editMessageMedia"@ && uploads.len() == 1 && uploads[0].1 == upload && (
            json::object_in(values, "media"@) matches Some(given) && json::text_in(given, "type"@)
                == Some(name) && json::text_in(given, "media"@) == Some("attach://"@ + uploads[0].0)))
        }),
{
    lemma_segment_keys();
    let own = json::no_fields().insert("type"@, JsonView::Text(segment::kind_tag(media.kind))).insert(
        "caption"@,
        text_or_null(media.caption),
    ).insert("duration"@, duration_view(media.duration));
    let all = media::with_file(own, "media"@, group_part(i), file);
    json::lemma_stripped_member(all, "type"@);
    json::lemma_stripped_member(all, "caption"@);
    json::lemma_stripped_member(all, "media"@);
    let written = json::no_fields().insert(
        "type"@,
        JsonView::Text(segment::kind_tag(media.kind)),
    ).insert("caption"@, text_or_null(media.caption)).insert("caption_entities"@, entities).insert(
        "duration"@,
        duration_view(media.duration),
    );
    json::lemma_stripped_member(written, "type"@);
    json::lemma_stripped_member(written, "caption"@);
    let object = json::stripped(JsonView::Object(written))->Object_0;
    let item = media::with_file(object, "media"@, "media_file"@, file);
    json::lemma_stripped_member(item, "type"@);
    json::lemma_stripped_member(item, "caption"@);
    json::lemma_stripped_member(item, "media"@);
    let payload = json::no_fields().insert("chat_id"@, address::chat_id_view(chat)).insert(
        "message_id"@,
        JsonView::Integer(number as int),
    ).insert("media"@, JsonView::Object(item));
    request::lemma_call_member("editMessageMedia"@, payload, "message_id"@);
    request::lemma_call_member("editMessageMedia"@, payload, "media"@);
}

/// A message is given the text that was composed, where no media was; the media
/// otherwise, with the text before its caption.
pub proof fn law_edits_say_what_was_composed(id: Seq<char>, segments: Seq<MessageSegment>)
    requires
        edit_outcome(id, segments) is Ok,
    ensures
        ({
            let edit = edit_outcome(id, segments)->Ok_0;
            &&& utils::split_id_outcome(id) matches Ok((chat, number))
            &&& segment::process_outcome(segments) matches Ok(draft)
            &&& draft.media.len() == 0 <==> edit is Text
            &&& edit matches SegmentEditView::Text(call) ==> call.method == "editMessageText"@
                && json::text_in(call.payload, "text"@) == Some(draft.composed.text)
                && json::i64_in(call.payload, "message_id"@) == Some(number) && json::member(
                call.payload,
                "chat_id"@,
            ) == Some(
            match text::i64_value(chat) {
                Some(id) => JsonView::Integer(id as int),
                None => JsonView::Text(chat),
            },
            )
            &&& edit matches SegmentEditView::Media { chat: place, number: own, media, .. } ==> place
                == chat && own == number && media.kind == draft.media[0].kind && media.file
                == draft.media[0].file
        }),
{
    lemma_segment_keys();
    let (chat, number) = utils::split_id_outcome(id)->Ok_0;
    let draft = segment::process_outcome(segments)->Ok_0;
    if draft.media.len() == 0 {
        let payload = json::no_fields().insert("chat_id"@, address::chat_id_view(chat)).insert(
            "message_id"@,
            JsonView::Integer(number as int),
        ).insert("text"@, JsonView::Text(draft.composed.text)).insert(
            "entities"@,
            drafted_entities(draft.composed.entities),
        );
        request::lemma_call_member("editMessageText"@, payload, "text"@);
        request::lemma_call_member("editMessageText"@, payload, "message_id"@);
        request::lemma_call_member("editMessageText"@, payload, "chat_id"@);
    }
}

/// A reply names the message and the chat that were given.
pub proof fn law_drafted_replies_name_the_message(reply: (i64, JsonView))
    ensures
        reply_view(reply) matches JsonView::Object(written) && json::i64_in(written, "message_id"@)
            == Some(reply.0) && json::member(written, "chat_id"@) == Some(reply.1),
{
    lemma_segment_keys();
}

/// What is written of an entity is what it says: its sort, its place and its
/// length, and the user that it names.
pub proof fn law_drafted_entities_are_what_they_are(entity: EntityView)
    ensures
        drafted_entity(entity) matches JsonView::Object(written) && json::text_in(written, "type"@)
            == Some(entity.kind) && json::member(written, "offset"@) == Some(
            JsonView::Integer(entity.offset),
        ) && json::member(written, "length"@) == Some(JsonView::Integer(entity.length)) && (
        entity.user matches Some((id, name)) ==> (json::object_in(written, "user"@) matches Some(user)
            && json::i64_in(user, "id"@) == Some(id) && json::text_in(user, "first_name"@) == Some(
            name,
        ))),
{
    lemma_segment_keys();
}

/// Only a keyboard can be asked for where segments are sent; any other option is
/// refused.
pub proof fn law_other_options_are_refused(
    segments: Seq<MessageSegment>,
    chat: Seq<char>,
    options: MessageOptions,
)
    requires
        send_outcome(segments, chat, options) is Ok,
    ensures
        options.reply is None,
        options.notification is Default,
        options.visibility is Public,
        options.link_preview is None,
        options.mentions is None,
        !options.protect_content,
        options.delivery_time is Immediate,
        options.idempotency_key is None,
        options.client_message_id is None,
        options.platform_data is None,
{
}

/// The pieces are sent in their order, the reply and the keyboard with the first
/// of them.
pub proof fn law_pieces_are_sent_in_order(
    chat: Seq<char>,
    pieces: Seq<PieceView>,
    reply: Option<JsonView>,
    markup: Option<JsonView>,
    i: int,
)
    requires
        0 <= i < pieces.len(),
    ensures
        steps(chat, pieces, reply, markup).len() == pieces.len(),
        steps(chat, pieces, reply, markup)[0] == step(chat, pieces[0], reply, markup),
        i > 0 ==> steps(chat, pieces, reply, markup)[i] == step(chat, pieces[i], None, None),
{
}

} // verus!
