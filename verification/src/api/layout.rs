//! Rich layouts as blocks of a rich message.
use crate::api::keyboard;
use crate::api::keyboard::telegram_inline_keyboard;
use crate::api::rich_text;
use crate::api::rich_text::{telegram_rich_text_entities, telegram_rich_text_value};
use crate::content::{
    LayoutColumn, LayoutNode, LayoutStyle, LocationContent, Media, MediaGalleryItem, MediaType,
    Real, RichLayout, RichText, TableCell,
};
use crate::error;
use crate::error::{message, unsupported, Error, ErrorView};
use crate::interaction::{ActionRow, InlineKeyboard};
use crate::json;
use crate::json::{strip_nulls, Fields, Json, JsonView};
use crate::list;
use crate::list::collect_json;
use crate::native;
use crate::native::{merge_fields, telegram_native_object};
use crate::source::File;
use vstd::prelude::*;
use vstd::string::*;

verus! {

// ---------------------------------------------------------------------------
// Media
// ---------------------------------------------------------------------------

/// The id or the HTTP(S) address by which Telegram finds a file.
pub open spec fn media_reference_outcome(file: File) -> Result<Seq<char>, ErrorView> {
    match file.id {
        Some(id) => Ok(id@),
        None => match file.uri {
            Some(uri) => if uri@.scheme == Some("http"@) || uri@.scheme == Some("https"@) {
                Ok(uri@.text)
            } else {
                error::refused("Telegram rich-message media must use a file_id or HTTP(S) URL"@)
            },
            None => error::refused(
                "Telegram rich-message media uploads must be supplied through PlatformNativeData"@,
            ),
        },
    }
}

/// Finds the id or the HTTP(S) address of a file.
pub fn remote_media_reference(media: &Media) -> (result: Result<String, Error>)
    ensures
        error::shown(result) == media_reference_outcome(media.file),
{
    if let Some(id) = &media.file.id {
        return Ok(id.clone());
    }
    if let Some(uri) = &media.file.uri {
        if !(uri.has_scheme("http") || uri.has_scheme("https")) {
            return Err(message("Telegram rich-message media must use a file_id or HTTP(S) URL"));
        }
        return Ok(uri.text.clone());
    }
    Err(message("Telegram rich-message media uploads must be supplied through PlatformNativeData"))
}

/// The name of a kind of media in a rich message.
pub open spec fn input_media_type(kind: MediaType) -> Seq<char> {
    match kind {
        MediaType::Image => "photo"@,
        MediaType::Video => "video"@,
        MediaType::Audio => "audio"@,
        MediaType::Document => "document"@,
        MediaType::Animation => "animation"@,
        MediaType::VoiceNote => "voice_note"@,
        MediaType::VideoNote => "video"@,
        MediaType::PlatformNative(name) => name@,
    }
}

fn input_media_name(kind: &MediaType) -> (name: &str)
    ensures
        name@ == input_media_type(*kind),
{
    match kind {
        MediaType::Image => "photo",
        MediaType::Video => "video",
        MediaType::Audio => "audio",
        MediaType::Document => "document",
        MediaType::Animation => "animation",
        MediaType::VoiceNote => "voice_note",
        MediaType::VideoNote => "video",
        MediaType::PlatformNative(name) => name.as_str(),
    }
}

/// A thumbnail by its id or its address.
pub open spec fn thumbnail_view(thumbnail: Option<File>) -> JsonView {
    match thumbnail {
        Some(file) => match file.id {
            Some(id) => JsonView::Text(id@),
            None => match file.uri {
                Some(uri) => JsonView::Text(uri@.text),
                None => JsonView::Null,
            },
        },
        None => JsonView::Null,
    }
}

fn write_thumbnail(thumbnail: &Option<File>) -> (json: Json)
    ensures
        json@ == thumbnail_view(*thumbnail),
{
    match thumbnail {
        Some(file) => match &file.id {
            Some(id) => Json::text(id.as_str()),
            None => match &file.uri {
                Some(uri) => Json::text(uri.text.as_str()),
                None => Json::null(),
            },
        },
        None => Json::null(),
    }
}

/// The entities of a caption, where there is one.
pub open spec fn caption_entities_outcome(caption: Option<RichText>) -> Result<JsonView, ErrorView> {
    match caption {
        Some(caption) => match rich_text::entities_outcome(caption) {
            Ok(entities) => Ok(JsonView::Array(entities)),
            Err(e) => Err(e),
        },
        None => Ok(JsonView::Null),
    }
}

pub open spec fn optional_u32_view(value: Option<u32>) -> JsonView {
    match value {
        Some(n) => JsonView::Integer(n as int),
        None => JsonView::Null,
    }
}

/// An unsigned integer, or null where there is none.
pub fn write_optional_u32(value: Option<u32>) -> (json: Json)
    ensures
        json@ == optional_u32_view(value),
{
    match value {
        Some(n) => Json::unsigned(n as u64),
        None => Json::null(),
    }
}

pub open spec fn duration_view(value: Option<crate::content::Duration>) -> JsonView {
    match value {
        Some(duration) => JsonView::Integer(duration.seconds as int),
        None => JsonView::Null,
    }
}

/// A span of time in whole seconds, or null where there is none.
pub fn write_duration(value: &Option<crate::content::Duration>) -> (json: Json)
    ensures
        json@ == duration_view(*value),
{
    match value {
        Some(duration) => Json::unsigned(duration.seconds),
        None => Json::null(),
    }
}

/// The members that describe media in a rich message, without native ones.
pub open spec fn input_media_fields(
    media: Media,
    kind: MediaType,
    reference: Seq<char>,
    entities: JsonView,
) -> Map<Seq<char>, JsonView> {
    json::no_fields().insert("type"@, JsonView::Text(input_media_type(kind))).insert(
        "media"@,
        JsonView::Text(reference),
    ).insert(
        "caption"@,
        match media.caption {
            Some(caption) => JsonView::Text(caption.text@),
            None => JsonView::Null,
        },
    ).insert("caption_entities"@, entities).insert("thumbnail"@, thumbnail_view(media.thumbnail)).insert(
    "width"@, optional_u32_view(media.width)).insert("height"@, optional_u32_view(media.height)).insert(
        "duration"@,
        duration_view(media.duration),
    ).insert("has_spoiler"@, JsonView::Bool(media.spoiler))
}

/// Media of the given kind in a rich message.
pub open spec fn input_media_outcome(media: Media, kind: MediaType) -> Result<JsonView, ErrorView> {
    if media.alt_text is Some || media.waveform is Some {
        error::refused(
            "Telegram rich-message media cannot carry portable alt text or waveform data"@,
        )
    } else {
        match media_reference_outcome(media.file) {
            Err(e) => Err(e),
            Ok(reference) => match caption_entities_outcome(media.caption) {
                Err(e) => Err(e),
                Ok(entities) => {
                    let own = input_media_fields(media, kind, reference, entities);
                    let all = match media.platform_data {
                        Some(native) => match native::native_object_outcome(
                            native,
                            "rich-message media"@,
                        ) {
                            Ok(extra) => native::merged(
                                own,
                                extra,
                                "Telegram rich-message media"@,
                            ),
                            Err(e) => Err(e),
                        },
                        None => Ok(own),
                    };
                    match all {
                        Ok(object) => Ok(json::stripped(JsonView::Object(object))),
                        Err(e) => Err(e),
                    }
                },
            },
        }
    }
}

/// Writes media of the given kind for a rich message.
pub fn telegram_input_media(media: &Media, kind: &MediaType) -> (result: Result<Json, Error>)
    ensures
        error::shown(result) == input_media_outcome(*media, *kind),
{
    if media.alt_text.is_some() || media.waveform.is_some() {
        return Err(
            message("Telegram rich-message media cannot carry portable alt text or waveform data"),
        );
    }
    let reference = remote_media_reference(media)?;
    let (caption, entities) = match &media.caption {
        Some(caption) => {
            let entities = telegram_rich_text_entities(caption)?;
            (Json::text(caption.text.as_str()), Json::array(entities))
        },
        None => (Json::null(), Json::null()),
    };
    let mut object = Fields::none();
    object.put("type", Json::text(input_media_name(kind)));
    object.put("media", Json::text(reference.as_str()));
    object.put("caption", caption);
    object.put("caption_entities", entities);
    object.put("thumbnail", write_thumbnail(&media.thumbnail));
    object.put("width", write_optional_u32(media.width));
    object.put("height", write_optional_u32(media.height));
    object.put("duration", write_duration(&media.duration));
    object.put("has_spoiler", Json::bool(media.spoiler));
    if let Some(native) = &media.platform_data {
        let extra = telegram_native_object(native, "rich-message media")?;
        object = merge_fields(object, &extra, "Telegram rich-message media")?;
    }
    Ok(strip_nulls(Json::object(object)))
}

// ---------------------------------------------------------------------------
// Table cells
// ---------------------------------------------------------------------------

/// The text that a node contributes to a table cell.
pub open spec fn cell_part(node: LayoutNode) -> Option<Seq<char>> {
    match node {
        LayoutNode::Text(text) => Some(text.text@),
        LayoutNode::Quote(text) => Some(text.text@),
        LayoutNode::Code { text, .. } => Some(text@),
        _ => None,
    }
}

/// The text of the first `n` nodes, one per line.
pub open spec fn layout_text_outcome(nodes: Seq<LayoutNode>, n: int) -> Result<Seq<char>, ErrorView>
    decreases n,
{
    if n <= 0 {
        Ok(Seq::empty())
    } else {
        match layout_text_outcome(nodes, n - 1) {
            Err(e) => Err(e),
            Ok(done) => match cell_part(nodes[n - 1]) {
                None => error::unsupported_view("non-text content inside a Telegram table cell"@),
                Some(part) => if done.len() == 0 {
                    Ok(part)
                } else {
                    Ok(done + "\n"@ + part)
                },
            },
        }
    }
}

proof fn lemma_layout_text_refused(nodes: Seq<LayoutNode>, n: int, total: int)
    requires
        0 <= n <= total,
        layout_text_outcome(nodes, n) is Err,
    ensures
        layout_text_outcome(nodes, total) == layout_text_outcome(nodes, n),
    decreases total - n,
{
    if n < total {
        lemma_layout_text_refused(nodes, n + 1, total);
    }
}

/// The text of the nodes, one per line.
pub fn layout_text(nodes: &Vec<LayoutNode>) -> (result: Result<String, Error>)
    ensures
        error::shown(result) == layout_text_outcome(nodes@, nodes@.len() as int),
{
    let mut text = String::new();
    let mut i: usize = 0;
    assert(text@ =~= Seq::<char>::empty());
    while i < nodes.len()
        invariant
            i <= nodes@.len(),
            layout_text_outcome(nodes@, i as int) == Ok::<Seq<char>, ErrorView>(text@),
        decreases nodes@.len() - i,
    {
        let part: &str = match &nodes[i] {
            LayoutNode::Text(text) => text.text.as_str(),
            LayoutNode::Quote(text) => text.text.as_str(),
            LayoutNode::Code { text, .. } => text.as_str(),
            _ => {
                proof {
                    lemma_layout_text_refused(nodes@, i + 1, nodes@.len() as int);
                }
                return Err(unsupported("non-text content inside a Telegram table cell"));
            },
        };
        if text.as_str().is_empty() {
            text = part.to_owned();
        } else {
            text.append("\n");
            text.append(part);
        }
        i += 1;
    }
    Ok(text)
}

/// A table cell with the given text, its text at the top left.
pub open spec fn plain_cell(text: Seq<char>) -> Map<Seq<char>, JsonView> {
    json::no_fields().insert("text"@, JsonView::Text(text)).insert(
        "align"@,
        JsonView::Text("left"@),
    ).insert("valign"@, JsonView::Text("top"@))
}

fn write_plain_cell(text: &str) -> (object: Fields)
    ensures
        json::fields(object) == plain_cell(text@),
{
    let mut object = Fields::none();
    object.put("text", Json::text(text));
    object.put("align", Json::text("left"));
    object.put("valign", Json::text("top"));
    object
}

/// A column of a layout as a table cell.
pub open spec fn column_outcome(column: LayoutColumn) -> Result<JsonView, ErrorView> {
    match layout_text_outcome(column.nodes@, column.nodes@.len() as int) {
        Ok(text) => Ok(JsonView::Object(plain_cell(text))),
        Err(e) => Err(e),
    }
}

fn write_column(index: usize, column: &LayoutColumn) -> (result: Result<Json, Error>)
    ensures
        error::shown(result) == column_outcome(*column),
{
    let text = layout_text(&column.nodes)?;
    Ok(Json::object(write_plain_cell(text.as_str())))
}

/// How columns are written.
pub open spec fn columns_model() -> spec_fn(int, LayoutColumn) -> Result<JsonView, ErrorView> {
    |index: int, column: LayoutColumn| column_outcome(column)
}

/// A node of a grid as a table cell.
pub open spec fn grid_cell_outcome(node: LayoutNode) -> Result<JsonView, ErrorView> {
    match cell_part(node) {
        Some(text) => Ok(JsonView::Object(plain_cell(text))),
        None => error::unsupported_view("non-text content inside a Telegram table cell"@),
    }
}

fn write_grid_cell(node: &LayoutNode) -> (result: Result<Json, Error>)
    ensures
        error::shown(result) == grid_cell_outcome(*node),
{
    let text: &str = match node {
        LayoutNode::Text(text) => text.text.as_str(),
        LayoutNode::Quote(text) => text.text.as_str(),
        LayoutNode::Code { text, .. } => text.as_str(),
        _ => {
            return Err(unsupported("non-text content inside a Telegram table cell"));
        },
    };
    Ok(Json::object(write_plain_cell(text)))
}

/// How the nodes of a grid are written.
pub open spec fn grid_model() -> spec_fn(int, LayoutNode) -> Result<JsonView, ErrorView> {
    |index: int, node: LayoutNode| grid_cell_outcome(node)
}

/// Nodes as the rows of a table with the given number of columns.
pub open spec fn grid_rows_outcome(nodes: Seq<LayoutNode>, columns: int) -> Result<
    Seq<JsonView>,
    ErrorView,
>
    decreases nodes.len(),
{
    if nodes.len() == 0 || columns <= 0 {
        Ok(Seq::empty())
    } else {
        let width = if columns < nodes.len() {
            columns
        } else {
            nodes.len() as int
        };
        match list::collect(nodes.take(width), grid_model()) {
            Err(e) => Err(e),
            Ok(row) => match grid_rows_outcome(nodes.skip(width), columns) {
                Err(e) => Err(e),
                Ok(rest) => Ok(seq![JsonView::Array(row)] + rest),
            },
        }
    }
}

fn write_grid_row(nodes: &Vec<LayoutNode>, from: usize, to: usize) -> (result: Result<
    Vec<Json>,
    Error,
>)
    requires
        from <= to <= nodes@.len(),
    ensures
        list::shown_list(result) == list::collect(
            nodes@.subrange(from as int, to as int),
            grid_model(),
        ),
{
    let ghost part = nodes@.subrange(from as int, to as int);
    let mut row: Vec<Json> = Vec::new();
    let mut i: usize = from;
    assert(json::views(row@) =~= Seq::<JsonView>::empty());
    while i < to
        invariant
            from <= i <= to <= nodes@.len(),
            part == nodes@.subrange(from as int, to as int),
            list::collect(part.take(i - from), grid_model()) == Ok::<Seq<JsonView>, ErrorView>(
                json::views(row@),
            ),
        decreases to - i,
    {
        proof {
            list::lemma_collect_step(part, grid_model(), i - from);
        }
        let ghost before = json::views(row@);
        match write_grid_cell(&nodes[i]) {
            Ok(cell) => {
                row.push(cell);
                assert(json::views(row@) =~= before.push(cell@));
            },
            Err(e) => {
                proof {
                    list::lemma_collect_refused(part, grid_model(), i - from + 1);
                }
                return Err(e);
            },
        }
        i += 1;
    }
    assert(part.take(to - from) =~= part);
    Ok(row)
}

fn write_grid_rows(nodes: &Vec<LayoutNode>, columns: usize, from: usize) -> (result: Result<
    Vec<Json>,
    Error,
>)
    requires
        columns > 0,
        from <= nodes@.len(),
    ensures
        list::shown_list(result) == grid_rows_outcome(nodes@.skip(from as int), columns as int),
    decreases nodes@.len() - from,
{
    let ghost rest = nodes@.skip(from as int);
    if from == nodes.len() {
        let none: Vec<Json> = Vec::new();
        assert(json::views(none@) =~= Seq::<JsonView>::empty());
        return Ok(none);
    }
    let left: usize = nodes.len() - from;
    let width: usize = if columns < left {
        columns
    } else {
        left
    };
    assert(rest.take(width as int) =~= nodes@.subrange(from as int, from + width));
    assert(rest.skip(width as int) =~= nodes@.skip(from + width));
    let row = write_grid_row(nodes, from, from + width)?;
    let mut rows = write_grid_rows(nodes, columns, from + width)?;
    let ghost later = json::views(rows@);
    let first = Json::array(row);
    rows.insert(0, first);
    assert(json::views(rows@) =~= seq![first@] + later);
    Ok(rows)
}

pub open spec fn optional_u16_view(value: Option<u16>) -> JsonView {
    match value {
        Some(n) => JsonView::Integer(n as int),
        None => JsonView::Null,
    }
}

/// An unsigned integer, or null where there is none.
pub fn write_optional_u16(value: Option<u16>) -> (json: Json)
    ensures
        json@ == optional_u16_view(value),
{
    match value {
        Some(n) => Json::unsigned(n as u64),
        None => Json::null(),
    }
}

/// A table cell.
pub open spec fn table_cell_outcome(cell: TableCell) -> Result<JsonView, ErrorView> {
    match layout_text_outcome(cell.content@, cell.content@.len() as int) {
        Ok(text) => Ok(
            JsonView::Object(
                plain_cell(text).insert("is_header"@, JsonView::Bool(cell.header)).insert(
                    "colspan"@,
                    optional_u16_view(cell.colspan),
                ).insert("rowspan"@, optional_u16_view(cell.rowspan)),
            ),
        ),
        Err(e) => Err(e),
    }
}

fn write_table_cell(index: usize, cell: &TableCell) -> (result: Result<Json, Error>)
    ensures
        error::shown(result) == table_cell_outcome(*cell),
{
    let text = layout_text(&cell.content)?;
    let mut object = write_plain_cell(text.as_str());
    object.put("is_header", Json::bool(cell.header));
    object.put("colspan", write_optional_u16(cell.colspan));
    object.put("rowspan", write_optional_u16(cell.rowspan));
    Ok(Json::object(object))
}

/// How the cells of a table row are written.
pub open spec fn table_cells() -> spec_fn(int, TableCell) -> Result<JsonView, ErrorView> {
    |index: int, cell: TableCell| table_cell_outcome(cell)
}

/// A table row.
pub open spec fn table_row_outcome(row: Vec<TableCell>) -> Result<JsonView, ErrorView> {
    match list::collect(row@, table_cells()) {
        Ok(cells) => Ok(JsonView::Array(cells)),
        Err(e) => Err(e),
    }
}

fn write_table_row(index: usize, row: &Vec<TableCell>) -> (result: Result<Json, Error>)
    ensures
        error::shown(result) == table_row_outcome(*row),
{
    let cells = collect_json(row, write_table_cell, Ghost(table_cells()))?;
    Ok(Json::array(cells))
}

/// How the rows of a table are written.
pub open spec fn table_rows() -> spec_fn(int, Vec<TableCell>) -> Result<JsonView, ErrorView> {
    |index: int, row: Vec<TableCell>| table_row_outcome(row)
}

/// A table with the given rows.
pub open spec fn table_block(rows: Seq<JsonView>) -> JsonView {
    JsonView::Object(
        json::no_fields().insert("type"@, JsonView::Text("table"@)).insert(
            "cells"@,
            JsonView::Array(rows),
        ),
    )
}

fn write_table_block(rows: Vec<Json>) -> (json: Json)
    ensures
        json@ == table_block(json::views(rows@)),
{
    let mut object = Fields::none();
    object.put("type", Json::text("table"));
    object.put("cells", Json::array(rows));
    Json::object(object)
}

// ---------------------------------------------------------------------------
// Other blocks
// ---------------------------------------------------------------------------

/// The kinds of media that a collage can hold.
pub open spec fn collage_type(kind: MediaType) -> Option<Seq<char>> {
    match kind {
        MediaType::Image => Some("photo"@),
        MediaType::Video => Some("video"@),
        MediaType::Audio => Some("audio"@),
        MediaType::Animation => Some("animation"@),
        _ => None,
    }
}

/// An item of a collage.
pub open spec fn collage_item_outcome(item: MediaGalleryItem) -> Result<JsonView, ErrorView> {
    match collage_type(item.kind) {
        None => error::unsupported_view("this media kind in a Telegram rich collage"@),
        Some(name) => match input_media_outcome(item.media, item.kind) {
            Ok(media) => Ok(
                JsonView::Object(
                    json::no_fields().insert("type"@, JsonView::Text(name)).insert(name, media),
                ),
            ),
            Err(e) => Err(e),
        },
    }
}

fn write_collage_item(index: usize, item: &MediaGalleryItem) -> (result: Result<Json, Error>)
    ensures
        error::shown(result) == collage_item_outcome(*item),
{
    let name: &str = match &item.kind {
        MediaType::Image => "photo",
        MediaType::Video => "video",
        MediaType::Audio => "audio",
        MediaType::Animation => "animation",
        _ => {
            return Err(unsupported("this media kind in a Telegram rich collage"));
        },
    };
    let media = telegram_input_media(&item.media, &item.kind)?;
    let mut object = Fields::none();
    object.put("type", Json::text(name));
    object.put(name, media);
    Ok(Json::object(object))
}

/// How the items of a collage are written.
pub open spec fn collage_items() -> spec_fn(int, MediaGalleryItem) -> Result<JsonView, ErrorView> {
    |index: int, item: MediaGalleryItem| collage_item_outcome(item)
}

pub open spec fn real_view(value: Real) -> JsonView {
    match value {
        Real::Finite(text) => JsonView::Real(text@),
        Real::NotFinite => JsonView::Null,
    }
}

/// A real number; null where JSON cannot hold it.
pub fn write_real(value: &Real) -> (json: Json)
    ensures
        json@ == real_view(*value),
{
    broadcast use json::lemma_json_view;

    match value {
        Real::Finite(text) => Json::Real(text.clone()),
        Real::NotFinite => Json::Null,
    }
}

pub open spec fn optional_real_view(value: Option<Real>) -> JsonView {
    match value {
        Some(value) => real_view(value),
        None => JsonView::Null,
    }
}

/// A real number, or null where there is none.
pub fn write_optional_real(value: &Option<Real>) -> (json: Json)
    ensures
        json@ == optional_real_view(*value),
{
    match value {
        Some(value) => write_real(value),
        None => Json::null(),
    }
}

/// The unsigned integer under `key`, or `default`.
pub open spec fn u64_member(
    native: Option<Map<Seq<char>, JsonView>>,
    key: Seq<char>,
    default: u64,
) -> u64 {
    match native {
        Some(map) => match json::member(map, key) {
            Some(value) => match json::u64_of(value) {
                Some(n) => n,
                None => default,
            },
            None => default,
        },
        None => default,
    }
}

pub open spec fn optional_fields(native: Option<Fields>) -> Option<Map<Seq<char>, JsonView>> {
    match native {
        Some(map) => Some(json::fields(map)),
        None => None,
    }
}

fn read_u64_member(native: &Option<Fields>, key: &str, default: u64) -> (n: u64)
    ensures
        n == u64_member(optional_fields(*native), key@, default),
{
    match native {
        Some(map) => match map.member(key) {
            Some(value) => match value.as_u64() {
                Some(n) => n,
                None => default,
            },
            None => default,
        },
        None => default,
    }
}

/// A map block; native data sets its zoom and its size.
pub open spec fn map_outcome(location: LocationContent) -> Result<JsonView, ErrorView> {
    let native = match location.platform_data {
        Some(native) => match native::native_object_outcome(native, "rich-message map"@) {
            Ok(map) => Ok(Some(map)),
            Err(e) => Err(e),
        },
        None => Ok(None),
    };
    match native {
        Err(e) => Err(e),
        Ok(native) => Ok(
            JsonView::Object(
                json::no_fields().insert("type"@, JsonView::Text("map"@)).insert(
                    "location"@,
                    JsonView::Object(
                        json::no_fields().insert("latitude"@, real_view(location.latitude)).insert(
                            "longitude"@,
                            real_view(location.longitude),
                        ).insert(
                            "horizontal_accuracy"@,
                            optional_real_view(location.horizontal_accuracy),
                        ),
                    ),
                ).insert("zoom"@, JsonView::Integer(u64_member(native, "zoom"@, 13) as int)).insert(
                    "width"@,
                    JsonView::Integer(u64_member(native, "width"@, 320) as int),
                ).insert("height"@, JsonView::Integer(u64_member(native, "height"@, 200) as int)),
            ),
        ),
    }
}

fn write_map(location: &LocationContent) -> (result: Result<Json, Error>)
    ensures
        error::shown(result) == map_outcome(*location),
{
    let native = match &location.platform_data {
        Some(native) => Some(telegram_native_object(native, "rich-message map")?),
        None => None,
    };
    let mut place = Fields::none();
    place.put("latitude", write_real(&location.latitude));
    place.put("longitude", write_real(&location.longitude));
    place.put("horizontal_accuracy", write_optional_real(&location.horizontal_accuracy));
    let mut object = Fields::none();
    object.put("type", Json::text("map"));
    object.put("location", Json::object(place));
    object.put("zoom", Json::unsigned(read_u64_member(&native, "zoom", 13)));
    object.put("width", Json::unsigned(read_u64_member(&native, "width", 320)));
    object.put("height", Json::unsigned(read_u64_member(&native, "height", 200)));
    Ok(Json::object(object))
}

/// A style that asks for nothing.
pub open spec fn is_plain_style(style: LayoutStyle) -> bool {
    &&& style.accent_color is None
    &&& !style.spoiler
    &&& !style.collapsible
    &&& !style.initially_collapsed
    &&& style.platform_data is None
}

fn has_plain_style(style: &LayoutStyle) -> (plain: bool)
    ensures
        plain == is_plain_style(*style),
{
    style.accent_color.is_none() && !style.spoiler && !style.collapsible
        && !style.initially_collapsed && style.platform_data.is_none()
}

/// A block of the given type with a styled text.
pub open spec fn text_block(name: Seq<char>, text: RichText) -> Result<JsonView, ErrorView> {
    match rich_text::rich_text_outcome(text) {
        Ok(value) => Ok(
            JsonView::Object(
                json::no_fields().insert("type"@, JsonView::Text(name)).insert("text"@, value),
            ),
        ),
        Err(e) => Err(e),
    }
}

fn write_text_block(name: &str, text: &RichText) -> (result: Result<Json, Error>)
    ensures
        error::shown(result) == text_block(name@, *text),
{
    let value = telegram_rich_text_value(text)?;
    let mut object = Fields::none();
    object.put("type", Json::text(name));
    object.put("text", value);
    Ok(Json::object(object))
}

// ---------------------------------------------------------------------------
// Nodes
// ---------------------------------------------------------------------------

/// What nodes become: the blocks, and the rows of buttons set aside.
pub type Written = (Seq<JsonView>, Seq<ActionRow>);

/// One block and no buttons.
pub open spec fn one_block(block: Result<JsonView, ErrorView>) -> Result<Written, ErrorView> {
    match block {
        Ok(value) => Ok((seq![value], Seq::empty())),
        Err(e) => Err(e),
    }
}

/// What comes first, then what comes second.
pub open spec fn followed_by(
    first: Result<Written, ErrorView>,
    second: Result<Written, ErrorView>,
) -> Result<Written, ErrorView> {
    match first {
        Err(e) => Err(e),
        Ok((blocks, rows)) => match second {
            Err(e) => Err(e),
            Ok((more, more_rows)) => Ok((blocks + more, rows + more_rows)),
        },
    }
}

/// An item of a list; ordered items are numbered from 1 on.
pub open spec fn list_item(ordered: bool, index: int, blocks: Seq<JsonView>) -> JsonView {
    JsonView::Object(
        json::no_fields().insert(
            "type"@,
            if ordered {
                JsonView::Text("1"@)
            } else {
                JsonView::Null
            },
        ).insert(
            "value"@,
            if ordered {
                JsonView::Integer(index + 1)
            } else {
                JsonView::Null
            },
        ).insert("blocks"@, JsonView::Array(blocks)),
    )
}

/// The items of a list, and the rows of buttons among them.
pub open spec fn list_items_outcome(ordered: bool, items: Seq<Vec<LayoutNode>>) -> Result<
    Written,
    ErrorView,
>
    decreases items,
{
    if items.len() == 0 {
        Ok((Seq::empty(), Seq::empty()))
    } else {
        match list_items_outcome(ordered, items.drop_last()) {
            Err(e) => Err(e),
            Ok((done, rows)) => match nodes_outcome(items.last()@) {
                Err(e) => Err(e),
                Ok((blocks, more_rows)) => Ok(
                    (done.push(list_item(ordered, items.len() - 1, blocks)), rows + more_rows),
                ),
            },
        }
    }
}

/// What one node becomes.
pub open spec fn node_outcome(node: LayoutNode) -> Result<Written, ErrorView>
    decreases node,
{
    match node {
        LayoutNode::Text(text) => one_block(text_block("paragraph"@, text)),
        LayoutNode::Section { children, accessory, style } => if !is_plain_style(style) {
            error::refused(
                "Telegram cannot represent portable section styling without platform data"@,
            )
        } else {
            followed_by(
                nodes_outcome(children@),
                match accessory {
                    Some(node) => node_outcome(*node),
                    None => Ok((Seq::empty(), Seq::empty())),
                },
            )
        },
        LayoutNode::Container { children, style } => if !is_plain_style(style) {
            error::refused(
                "Telegram cannot represent portable container styling without platform data"@,
            )
        } else {
            nodes_outcome(children@)
        },
        LayoutNode::Columns(columns) => match list::collect(columns@, columns_model()) {
            Ok(cells) => one_block(Ok(table_block(seq![JsonView::Array(cells)]))),
            Err(e) => Err(e),
        },
        LayoutNode::Grid { columns, children } => match grid_rows_outcome(
            children@,
            if columns == 0 {
                1
            } else {
                columns as int
            },
        ) {
            Ok(rows) => one_block(Ok(table_block(rows))),
            Err(e) => Err(e),
        },
        LayoutNode::Image(media) => match input_media_outcome(media, MediaType::Image) {
            Ok(photo) => one_block(
                Ok(
                    JsonView::Object(
                        json::no_fields().insert("type"@, JsonView::Text("photo"@)).insert(
                            "photo"@,
                            photo,
                        ),
                    ),
                ),
            ),
            Err(e) => Err(e),
        },
        LayoutNode::MediaGallery(items) => match list::collect(items@, collage_items()) {
            Ok(blocks) => one_block(
                Ok(
                    JsonView::Object(
                        json::no_fields().insert("type"@, JsonView::Text("collage"@)).insert(
                            "blocks"@,
                            JsonView::Array(blocks),
                        ),
                    ),
                ),
            ),
            Err(e) => Err(e),
        },
        LayoutNode::File(_) => error::unsupported_view("file blocks in Telegram rich messages"@),
        LayoutNode::List { ordered, items } => match list_items_outcome(ordered, items@) {
            Ok((written, rows)) => Ok(
                (
                    seq![
                        JsonView::Object(
                            json::no_fields().insert("type"@, JsonView::Text("list"@)).insert(
                                "items"@,
                                JsonView::Array(written),
                            ),
                        ),
                    ],
                    rows,
                ),
            ),
            Err(e) => Err(e),
        },
        LayoutNode::Table { rows } => match list::collect(rows@, table_rows()) {
            Ok(rows) => one_block(Ok(table_block(rows))),
            Err(e) => Err(e),
        },
        LayoutNode::Quote(text) => one_block(text_block("pull_quotation"@, text)),
        LayoutNode::Code { text, language } => one_block(
            Ok(
                JsonView::Object(
                    json::no_fields().insert("type"@, JsonView::Text("preformatted"@)).insert(
                        "text"@,
                        JsonView::Text(text@),
                    ).insert("language"@, json::optional_text_view(language)),
                ),
            ),
        ),
        LayoutNode::Divider => one_block(
            Ok(JsonView::Object(json::no_fields().insert("type"@, JsonView::Text("divider"@)))),
        ),
        LayoutNode::PlaceMap(location) => one_block(map_outcome(location)),
        LayoutNode::Details { summary, children, open } => match rich_text::rich_text_outcome(
            summary,
        ) {
            Err(e) => Err(e),
            Ok(summary) => match nodes_outcome(children@) {
                Err(e) => Err(e),
                Ok((blocks, rows)) => Ok(
                    (
                        seq![
                            JsonView::Object(
                                json::no_fields().insert("type"@, JsonView::Text("details"@)).insert(
                                    "summary"@,
                                    summary,
                                ).insert("blocks"@, JsonView::Array(blocks)).insert(
                                    "is_open"@,
                                    JsonView::Bool(open),
                                ),
                            ),
                        ],
                        rows,
                    ),
                ),
            },
        },
        LayoutNode::Actions(row) => Ok((Seq::empty(), seq![row])),
        LayoutNode::PlatformNative(native) => match native::native_object_outcome(
            native,
            "rich-message block"@,
        ) {
            Ok(map) => one_block(Ok(JsonView::Object(map))),
            Err(e) => Err(e),
        },
    }
}

/// What nodes become, one after the other.
pub open spec fn nodes_outcome(nodes: Seq<LayoutNode>) -> Result<Written, ErrorView>
    decreases nodes,
{
    if nodes.len() == 0 {
        Ok((Seq::empty(), Seq::empty()))
    } else {
        followed_by(nodes_outcome(nodes.drop_last()), node_outcome(nodes.last()))
    }
}

/// Written nodes by what they say.
pub open spec fn shown_written(result: Result<(Vec<Json>, Vec<ActionRow>), Error>) -> Result<
    Written,
    ErrorView,
> {
    match result {
        Ok((blocks, rows)) => Ok((json::views(blocks@), rows@)),
        Err(e) => Err(e@),
    }
}

fn write_one(block: Json) -> (result: (Vec<Json>, Vec<ActionRow>))
    ensures
        json::views(result.0@) == seq![block@],
        result.1@ == Seq::<ActionRow>::empty(),
{
    let mut blocks: Vec<Json> = Vec::new();
    blocks.push(block);
    assert(json::views(blocks@) =~= seq![block@]);
    (blocks, Vec::new())
}

proof fn lemma_nodes_step(nodes: Seq<LayoutNode>, i: int)
    requires
        0 <= i < nodes.len(),
    ensures
        nodes_outcome(nodes.take(i + 1)) == followed_by(
            nodes_outcome(nodes.take(i)),
            node_outcome(nodes[i]),
        ),
{
    assert(nodes.take(i + 1).drop_last() =~= nodes.take(i));
}

proof fn lemma_nodes_refused(nodes: Seq<LayoutNode>, i: int)
    requires
        0 <= i <= nodes.len(),
        nodes_outcome(nodes.take(i)) is Err,
    ensures
        nodes_outcome(nodes) == nodes_outcome(nodes.take(i)),
    decreases nodes.len() - i,
{
    if i == nodes.len() {
        assert(nodes.take(i) =~= nodes);
    } else {
        lemma_nodes_step(nodes, i);
        lemma_nodes_refused(nodes, i + 1);
    }
}

proof fn lemma_list_items_step(ordered: bool, items: Seq<Vec<LayoutNode>>, i: int)
    requires
        0 <= i < items.len(),
    ensures
        list_items_outcome(ordered, items.take(i + 1)) == match list_items_outcome(
            ordered,
            items.take(i),
        ) {
            Err(e) => Err(e),
            Ok((done, rows)) => match nodes_outcome(items[i]@) {
                Err(e) => Err(e),
                Ok((blocks, more_rows)) => Ok(
                    (done.push(list_item(ordered, i, blocks)), rows + more_rows),
                ),
            },
        },
{
    assert(items.take(i + 1).drop_last() =~= items.take(i));
}

proof fn lemma_list_items_refused(ordered: bool, items: Seq<Vec<LayoutNode>>, i: int)
    requires
        0 <= i <= items.len(),
        list_items_outcome(ordered, items.take(i)) is Err,
    ensures
        list_items_outcome(ordered, items) == list_items_outcome(ordered, items.take(i)),
    decreases items.len() - i,
{
    if i == items.len() {
        assert(items.take(i) =~= items);
    } else {
        lemma_list_items_step(ordered, items, i);
        lemma_list_items_refused(ordered, items, i + 1);
    }
}

fn write_list_items(ordered: bool, items: Vec<Vec<LayoutNode>>) -> (result: Result<
    (Vec<Json>, Vec<ActionRow>),
    Error,
>)
    ensures
        shown_written(result) == list_items_outcome(ordered, items@),
    decreases items,
{
    let ghost all = items@;
    let mut written: Vec<Json> = Vec::new();
    let mut rows: Vec<ActionRow> = Vec::new();
    proof {
        assert(all.take(0) =~= Seq::<Vec<LayoutNode>>::empty());
        assert(json::views(written@) =~= Seq::<JsonView>::empty());
        assert(rows@ =~= Seq::<ActionRow>::empty());
    }
    let total: usize = items.len();
    let mut index: u64 = 0;
    for item in iter: items
        invariant
            iter.seq() == all,
            all == items@,
            index == iter.index(),
            all.len() == total,
            list_items_outcome(ordered, all.take(iter.index() as int)) == Ok::<Written, ErrorView>(
                (json::views(written@), rows@),
            ),
    {
        let ghost at = iter.index() as int;
        proof {
            assert(decreases_to!(items => items@[at]));
            lemma_list_items_step(ordered, all, at);
        }
        let ghost before = json::views(written@);
        match telegram_layout_nodes(item) {
            Err(e) => {
                proof {
                    lemma_list_items_refused(ordered, all, at + 1);
                }
                return Err(e);
            },
            Ok((blocks, more)) => {
                let mut more = more;
                rows.append(&mut more);
                let mut object = Fields::none();
                object.put(
                    "type",
                    if ordered {
                        Json::text("1")
                    } else {
                        Json::null()
                    },
                );
                object.put(
                    "value",
                    if ordered {
                        Json::ordinal(index)
                    } else {
                        Json::null()
                    },
                );
                object.put("blocks", Json::array(blocks));
                let value = Json::object(object);
                written.push(value);
                assert(json::views(written@) =~= before.push(value@));
            },
        }
        index = index + 1;
    }
    assert(all.take(all.len() as int) =~= all);
    Ok((written, rows))
}

fn write_node(node: LayoutNode) -> (result: Result<(Vec<Json>, Vec<ActionRow>), Error>)
    ensures
        shown_written(result) == node_outcome(node),
    decreases node,
{
    match node {
        LayoutNode::Text(text) => {
            let block = write_text_block("paragraph", &text)?;
            Ok(write_one(block))
        },
        LayoutNode::Section { children, accessory, style } => {
            if !has_plain_style(&style) {
                return Err(
                    message(
                        "Telegram cannot represent portable section styling without platform data",
                    ),
                );
            }
            let (blocks, rows) = telegram_layout_nodes(children)?;
            let mut blocks = blocks;
            let mut rows = rows;
            let ghost first = json::views(blocks@);
            let ghost first_rows = rows@;
            if let Some(inner) = accessory {
                let (more, more_rows) = write_node(*inner)?;
                let mut more = more;
                let mut more_rows = more_rows;
                let ghost second = json::views(more@);
                let ghost second_rows = more_rows@;
                blocks.append(&mut more);
                rows.append(&mut more_rows);
                assert(json::views(blocks@) =~= first + second);
                assert(rows@ =~= first_rows + second_rows);
            } else {
                assert(first + Seq::<JsonView>::empty() =~= first);
                assert(first_rows + Seq::<ActionRow>::empty() =~= first_rows);
            }
            Ok((blocks, rows))
        },
        LayoutNode::Container { children, style } => {
            if !has_plain_style(&style) {
                return Err(
                    message(
                        "Telegram cannot represent portable container styling without platform data",
                    ),
                );
            }
            telegram_layout_nodes(children)
        },
        LayoutNode::Columns(columns) => {
            let cells = collect_json(&columns, write_column, Ghost(columns_model()))?;
            let mut rows: Vec<Json> = Vec::new();
            let row = Json::array(cells);
            rows.push(row);
            assert(json::views(rows@) =~= seq![row@]);
            Ok(write_one(write_table_block(rows)))
        },
        LayoutNode::Grid { columns, children } => {
            let width: usize = if columns == 0 {
                1
            } else {
                columns as usize
            };
            assert(children@.skip(0) =~= children@);
            let rows = write_grid_rows(&children, width, 0)?;
            Ok(write_one(write_table_block(rows)))
        },
        LayoutNode::Image(media) => {
            let photo = telegram_input_media(&media, &MediaType::Image)?;
            let mut object = Fields::none();
            object.put("type", Json::text("photo"));
            object.put("photo", photo);
            Ok(write_one(Json::object(object)))
        },
        LayoutNode::MediaGallery(items) => {
            let blocks = collect_json(&items, write_collage_item, Ghost(collage_items()))?;
            let mut object = Fields::none();
            object.put("type", Json::text("collage"));
            object.put("blocks", Json::array(blocks));
            Ok(write_one(Json::object(object)))
        },
        LayoutNode::File(_) => Err(unsupported("file blocks in Telegram rich messages")),
        LayoutNode::List { ordered, items } => {
            let (written, rows) = write_list_items(ordered, items)?;
            let mut object = Fields::none();
            object.put("type", Json::text("list"));
            object.put("items", Json::array(written));
            let (blocks, _) = write_one(Json::object(object));
            Ok((blocks, rows))
        },
        LayoutNode::Table { rows } => {
            let rows = collect_json(&rows, write_table_row, Ghost(table_rows()))?;
            Ok(write_one(write_table_block(rows)))
        },
        LayoutNode::Quote(text) => {
            let block = write_text_block("pull_quotation", &text)?;
            Ok(write_one(block))
        },
        LayoutNode::Code { text, language } => {
            let mut object = Fields::none();
            object.put("type", Json::text("preformatted"));
            object.put("text", Json::text(text.as_str()));
            object.put("language", Json::optional_text(&language));
            Ok(write_one(Json::object(object)))
        },
        LayoutNode::Divider => {
            let mut object = Fields::none();
            object.put("type", Json::text("divider"));
            Ok(write_one(Json::object(object)))
        },
        LayoutNode::PlaceMap(location) => {
            let block = write_map(&location)?;
            Ok(write_one(block))
        },
        LayoutNode::Details { summary, children, open } => {
            let summary = telegram_rich_text_value(&summary)?;
            let (inner, rows) = telegram_layout_nodes(children)?;
            let mut object = Fields::none();
            object.put("type", Json::text("details"));
            object.put("summary", summary);
            object.put("blocks", Json::array(inner));
            object.put("is_open", Json::bool(open));
            let (blocks, _) = write_one(Json::object(object));
            Ok((blocks, rows))
        },
        LayoutNode::Actions(row) => {
            let mut rows: Vec<ActionRow> = Vec::new();
            rows.push(row);
            let blocks: Vec<Json> = Vec::new();
            assert(json::views(blocks@) =~= Seq::<JsonView>::empty());
            assert(rows@ =~= seq![row]);
            Ok((blocks, rows))
        },
        LayoutNode::PlatformNative(native) => {
            let map = telegram_native_object(&native, "rich-message block")?;
            Ok(write_one(Json::object(map)))
        },
    }
}

/// Writes nodes as blocks and sets the rows of buttons among them aside.
pub fn telegram_layout_nodes(nodes: Vec<LayoutNode>) -> (result: Result<
    (Vec<Json>, Vec<ActionRow>),
    Error,
>)
    ensures
        shown_written(result) == nodes_outcome(nodes@),
    decreases nodes,
{
    let ghost all = nodes@;
    let mut blocks: Vec<Json> = Vec::new();
    let mut rows: Vec<ActionRow> = Vec::new();
    proof {
        assert(all.take(0) =~= Seq::<LayoutNode>::empty());
        assert(json::views(blocks@) =~= Seq::<JsonView>::empty());
        assert(rows@ =~= Seq::<ActionRow>::empty());
    }
    for node in iter: nodes
        invariant
            iter.seq() == all,
            all == nodes@,
            nodes_outcome(all.take(iter.index() as int)) == Ok::<Written, ErrorView>(
                (json::views(blocks@), rows@),
            ),
    {
        let ghost at = iter.index() as int;
        proof {
            assert(decreases_to!(nodes => nodes@[at]));
            lemma_nodes_step(all, at);
        }
        let ghost before = json::views(blocks@);
        match write_node(node) {
            Err(e) => {
                proof {
                    lemma_nodes_refused(all, at + 1);
                }
                return Err(e);
            },
            Ok((more, more_rows)) => {
                let mut more = more;
                let mut more_rows = more_rows;
                let ghost added = json::views(more@);
                blocks.append(&mut more);
                rows.append(&mut more_rows);
                assert(json::views(blocks@) =~= before + added);
            },
        }
    }
    assert(all.take(all.len() as int) =~= all);
    Ok((blocks, rows))
}

/// A rich message: its blocks with native members beside them, and the
/// keyboard made of the buttons that were among its nodes.
pub open spec fn rich_layout_outcome(layout: RichLayout) -> Result<
    (Map<Seq<char>, JsonView>, Option<JsonView>),
    ErrorView,
> {
    match nodes_outcome(layout.nodes@) {
        Err(e) => Err(e),
        Ok((blocks, rows)) => if blocks.len() == 0 {
            error::refused("Telegram rich message cannot be empty"@)
        } else {
            let markup = if rows.len() == 0 {
                Ok(None)
            } else {
                match list::collect(rows, keyboard::inline_rows()) {
                    Ok(written) => Ok(
                        Some(
                            JsonView::Object(
                                json::no_fields().insert(
                                    "inline_keyboard"@,
                                    JsonView::Array(written),
                                ),
                            ),
                        ),
                    ),
                    Err(e) => Err(e),
                }
            };
            match markup {
                Err(e) => Err(e),
                Ok(markup) => {
                    let own = json::no_fields().insert("blocks"@, JsonView::Array(blocks));
                    match layout.platform_data {
                        None => Ok((own, markup)),
                        Some(native) => match native::native_object_outcome(
                            native,
                            "rich message"@,
                        ) {
                            Err(e) => Err(e),
                            Ok(extra) => match native::merged(
                                own,
                                extra,
                                "Telegram rich message"@,
                            ) {
                                Err(e) => Err(e),
                                Ok(all) => Ok((all, markup)),
                            },
                        },
                    }
                },
            }
        },
    }
}

/// Writes a rich message and the keyboard made of its buttons.
pub fn telegram_input_rich_layout(layout: RichLayout) -> (result: Result<
    (Json, Option<Json>),
    Error,
>)
    ensures
        match result {
            Ok((written, markup)) => written@ is Object && rich_layout_outcome(layout) == Ok::<
                (Map<Seq<char>, JsonView>, Option<JsonView>),
                ErrorView,
            >(
                (
                    written@->Object_0,
                    match markup {
                        Some(markup) => Some(markup@),
                        None => None,
                    },
                ),
            ),
            Err(e) => rich_layout_outcome(layout) == Err::<
                (Map<Seq<char>, JsonView>, Option<JsonView>),
                ErrorView,
            >(e@),
        },
{
    let (blocks, rows) = telegram_layout_nodes(layout.nodes)?;
    if blocks.len() == 0 {
        return Err(message("Telegram rich message cannot be empty"));
    }
    let markup = if rows.len() == 0 {
        None
    } else {
        let written = telegram_inline_keyboard(&InlineKeyboard { rows })?;
        let mut object = Fields::none();
        object.put("inline_keyboard", Json::array(written));
        Some(Json::object(object))
    };
    let mut own = Fields::none();
    own.put("blocks", Json::array(blocks));
    if let Some(native) = &layout.platform_data {
        let extra = telegram_native_object(native, "rich message")?;
        own = merge_fields(own, &extra, "Telegram rich message")?;
    }
    Ok((Json::object(own), markup))
}

// ---------------------------------------------------------------------------
// Laws
// ---------------------------------------------------------------------------

proof fn lemma_media_keys()
    ensures
        "type"@.len() == 4,
        "media"@.len() == 5,
        "caption"@.len() == 7,
        "caption_entities"@.len() == 16,
        "thumbnail"@.len() == 9,
        "width"@.len() == 5,
        "height"@.len() == 6,
        "duration"@.len() == 8,
        "has_spoiler"@.len() == 11,
        "media"@ != "width"@,
{
    reveal_strlit("type");
    reveal_strlit("media");
    reveal_strlit("caption");
    reveal_strlit("caption_entities");
    reveal_strlit("thumbnail");
    reveal_strlit("width");
    reveal_strlit("height");
    reveal_strlit("duration");
    reveal_strlit("has_spoiler");
    assert("media"@[0] != "width"@[0]);
}

proof fn lemma_block_keys()
    ensures
        "text"@.len() == 4,
        "language"@.len() == 8,
        "items"@.len() == 5,
        "cells"@.len() == 5,
        "blocks"@.len() == 6,
        "summary"@.len() == 7,
        "is_open"@.len() == 7,
        "location"@.len() == 8,
        "zoom"@.len() == 4,
        "photo"@.len() == 5,
        "latitude"@.len() == 8,
        "longitude"@.len() == 9,
        "horizontal_accuracy"@.len() == 19,
        "value"@.len() == 5,
        "align"@.len() == 5,
        "valign"@.len() == 6,
        "is_header"@.len() == 9,
        "colspan"@.len() == 7,
        "rowspan"@.len() == 7,
        "type"@.len() == 4,
        "width"@.len() == 5,
        "height"@.len() == 6,
        "inline_keyboard"@.len() == 15,
        "text"@ != "zoom"@,
        "text"@ != "type"@,
        "language"@ != "location"@,
        "language"@ != "latitude"@,
        "items"@ != "cells"@,
        "items"@ != "photo"@,
        "items"@ != "value"@,
        "items"@ != "align"@,
        "items"@ != "width"@,
        "cells"@ != "photo"@,
        "cells"@ != "value"@,
        "cells"@ != "align"@,
        "cells"@ != "width"@,
        "blocks"@ != "valign"@,
        "blocks"@ != "height"@,
        "summary"@ != "is_open"@,
        "summary"@ != "colspan"@,
        "summary"@ != "rowspan"@,
        "is_open"@ != "colspan"@,
        "is_open"@ != "rowspan"@,
        "location"@ != "latitude"@,
        "zoom"@ != "type"@,
        "photo"@ != "value"@,
        "photo"@ != "align"@,
        "photo"@ != "width"@,
        "longitude"@ != "is_header"@,
        "value"@ != "align"@,
        "value"@ != "width"@,
        "align"@ != "width"@,
        "valign"@ != "height"@,
        "colspan"@ != "rowspan"@,
{
    reveal_strlit("text");
    reveal_strlit("language");
    reveal_strlit("items");
    reveal_strlit("cells");
    reveal_strlit("blocks");
    reveal_strlit("summary");
    reveal_strlit("is_open");
    reveal_strlit("location");
    reveal_strlit("zoom");
    reveal_strlit("photo");
    reveal_strlit("latitude");
    reveal_strlit("longitude");
    reveal_strlit("horizontal_accuracy");
    reveal_strlit("value");
    reveal_strlit("align");
    reveal_strlit("valign");
    reveal_strlit("is_header");
    reveal_strlit("colspan");
    reveal_strlit("rowspan");
    reveal_strlit("type");
    reveal_strlit("width");
    reveal_strlit("height");
    reveal_strlit("inline_keyboard");
    assert("text"@[0] != "zoom"@[0]);
    assert("text"@[1] != "type"@[1]);
    assert("language"@[1] != "location"@[1]);
    assert("language"@[2] != "latitude"@[2]);
    assert("items"@[0] != "cells"@[0]);
    assert("items"@[0] != "photo"@[0]);
    assert("items"@[0] != "value"@[0]);
    assert("items"@[0] != "align"@[0]);
    assert("items"@[0] != "width"@[0]);
    assert("cells"@[0] != "photo"@[0]);
    assert("cells"@[0] != "value"@[0]);
    assert("cells"@[0] != "align"@[0]);
    assert("cells"@[0] != "width"@[0]);
    assert("blocks"@[0] != "valign"@[0]);
    assert("blocks"@[0] != "height"@[0]);
    assert("summary"@[0] != "is_open"@[0]);
    assert("summary"@[0] != "colspan"@[0]);
    assert("summary"@[0] != "rowspan"@[0]);
    assert("is_open"@[0] != "colspan"@[0]);
    assert("is_open"@[0] != "rowspan"@[0]);
    assert("location"@[1] != "latitude"@[1]);
    assert("zoom"@[0] != "type"@[0]);
    assert("photo"@[0] != "value"@[0]);
    assert("photo"@[0] != "align"@[0]);
    assert("photo"@[0] != "width"@[0]);
    assert("longitude"@[0] != "is_header"@[0]);
    assert("value"@[0] != "align"@[0]);
    assert("value"@[0] != "width"@[0]);
    assert("align"@[0] != "width"@[0]);
    assert("valign"@[0] != "height"@[0]);
    assert("colspan"@[0] != "rowspan"@[0]);
}

/// Media of a layout is called what it is and described as it is, and is named
/// by its id where it has one and by its address on the web otherwise.
pub proof fn law_layout_media_are_what_they_are(media: Media, kind: MediaType)
    requires
        input_media_outcome(media, kind) is Ok,
    ensures
        ({
            let written = input_media_outcome(media, kind)->Ok_0->Object_0;
            let name = json::text_in(written, "type"@);
            &&& input_media_outcome(media, kind)->Ok_0 is Object
            &&& kind is Image ==> name == Some("photo"@)
            &&& kind is Video ==> name == Some("video"@)
            &&& kind is Audio ==> name == Some("audio"@)
            &&& kind is Document ==> name == Some("document"@)
            &&& kind is Animation ==> name == Some("animation"@)
            &&& kind is VoiceNote ==> name == Some("voice_note"@)
            &&& kind is VideoNote ==> name == Some("video"@)
            &&& media.file.id matches Some(id) ==> json::text_in(written, "media"@) == Some(id@)
            &&& media.file.id is None ==> (media.file.uri matches Some(uri) && json::text_in(
                written,
                "media"@,
            ) == Some(uri@.text))
            &&& media.caption matches Some(caption) ==> json::text_in(written, "caption"@) == Some(
                caption.text@,
            )
            &&& media.width matches Some(width) ==> json::u64_in(written, "width"@) == Some(
                width as u64,
            )
            &&& media.height matches Some(height) ==> json::u64_in(written, "height"@) == Some(
                height as u64,
            )
            &&& media.duration matches Some(span) ==> json::u64_in(written, "duration"@) == Some(
                span.seconds,
            )
            &&& json::bool_in(written, "has_spoiler"@) == Some(media.spoiler)
        }),
{
    lemma_media_keys();
    let reference = media_reference_outcome(media.file)->Ok_0;
    let entities = caption_entities_outcome(media.caption)->Ok_0;
    let own = input_media_fields(media, kind, reference, entities);
    let all = match media.platform_data {
        Some(native) => native::merged(
            own,
            native::native_object_outcome(native, "rich-message media"@)->Ok_0,
            "Telegram rich-message media"@,
        )->Ok_0,
        None => own,
    };
    if let Some(native) = media.platform_data {
        native::lemma_merged_keeps(
            own,
            native::native_object_outcome(native, "rich-message media"@)->Ok_0,
            "Telegram rich-message media"@ + " duplicates field "@,
            "type"@,
        );
    }
    json::lemma_stripped_member(all, "type"@);
    if let Some(native) = media.platform_data {
        native::lemma_merged_keeps(
            own,
            native::native_object_outcome(native, "rich-message media"@)->Ok_0,
            "Telegram rich-message media"@ + " duplicates field "@,
            "media"@,
        );
    }
    json::lemma_stripped_member(all, "media"@);
    if let Some(native) = media.platform_data {
        native::lemma_merged_keeps(
            own,
            native::native_object_outcome(native, "rich-message media"@)->Ok_0,
            "Telegram rich-message media"@ + " duplicates field "@,
            "caption"@,
        );
    }
    json::lemma_stripped_member(all, "caption"@);
    if let Some(native) = media.platform_data {
        native::lemma_merged_keeps(
            own,
            native::native_object_outcome(native, "rich-message media"@)->Ok_0,
            "Telegram rich-message media"@ + " duplicates field "@,
            "width"@,
        );
    }
    json::lemma_stripped_member(all, "width"@);
    if let Some(native) = media.platform_data {
        native::lemma_merged_keeps(
            own,
            native::native_object_outcome(native, "rich-message media"@)->Ok_0,
            "Telegram rich-message media"@ + " duplicates field "@,
            "height"@,
        );
    }
    json::lemma_stripped_member(all, "height"@);
    if let Some(native) = media.platform_data {
        native::lemma_merged_keeps(
            own,
            native::native_object_outcome(native, "rich-message media"@)->Ok_0,
            "Telegram rich-message media"@ + " duplicates field "@,
            "duration"@,
        );
    }
    json::lemma_stripped_member(all, "duration"@);
    if let Some(native) = media.platform_data {
        native::lemma_merged_keeps(
            own,
            native::native_object_outcome(native, "rich-message media"@)->Ok_0,
            "Telegram rich-message media"@ + " duplicates field "@,
            "has_spoiler"@,
        );
    }
    json::lemma_stripped_member(all, "has_spoiler"@);
}

/// Each node becomes the block that it is: a text a paragraph, a quote a
/// quotation, code a preformatted text in its language, a picture a photo, a
/// map a map of its place, and what can be folded is open exactly where it was
/// open. Buttons become no block but go under the message.
pub proof fn law_nodes_become_their_blocks(node: LayoutNode)
    requires
        node_outcome(node) is Ok,
    ensures
        ({
            let (blocks, rows) = node_outcome(node)->Ok_0;
            let block = blocks[0]->Object_0;
            let name = json::text_in(block, "type"@);
            &&& node is Text || node is Quote || node is Code || node is Divider || node is Image
                || node is PlaceMap || node is Details || node is List || node is Table
                || node is MediaGallery || node is Columns || node is Grid ==> blocks.len() == 1
                && blocks[0] is Object
            &&& node is Text ==> name == Some("paragraph"@)
            &&& node is Quote ==> name == Some("pull_quotation"@)
            &&& node matches LayoutNode::Code { text, language } ==> name == Some("preformatted"@)
                && json::text_in(block, "text"@) == Some(text@) && json::text_in(block, "language"@)
                == json::optional_chars(language)
            &&& node is Divider ==> name == Some("divider"@)
            &&& node is Image ==> name == Some("photo"@) && json::member(block, "photo"@) is Some
            &&& node is MediaGallery ==> name == Some("collage"@)
            &&& node is List ==> name == Some("list"@)
            &&& node is Table || node is Columns || node is Grid ==> name == Some("table"@)
            &&& node matches LayoutNode::PlaceMap(location) ==> name == Some("map"@) && (
            json::object_in(block, "location"@) matches Some(place) && (
            location.latitude matches Real::Finite(text) ==> json::member(place, "latitude"@)
                == Some(JsonView::Real(text@))) && (location.longitude matches Real::Finite(text)
                ==> json::member(place, "longitude"@) == Some(JsonView::Real(text@))))
            &&& node matches LayoutNode::Details { open, .. } ==> name == Some("details"@)
                && json::bool_in(block, "is_open"@) == Some(open)
            &&& node matches LayoutNode::Actions(row) ==> blocks.len() == 0 && rows.len() == 1
                && rows[0] == row
        }),
{
    lemma_block_keys();
}

/// The items of an ordered list are numbered from one, those of another list
/// are not.
pub proof fn law_ordered_lists_are_numbered(ordered: bool, items: Seq<Vec<LayoutNode>>, i: int)
    requires
        list_items_outcome(ordered, items) is Ok,
        0 <= i < items.len(),
    ensures
        ({
            let written = list_items_outcome(ordered, items)->Ok_0.0;
            &&& written.len() == items.len()
            &&& written[i] matches JsonView::Object(item)
            &&& ordered ==> json::member(item, "value"@) == Some(JsonView::Integer(i + 1))
            &&& !ordered ==> json::member(item, "value"@) == Some(JsonView::Null)
            &&& nodes_outcome(items[i]@) matches Ok((blocks, _))
            &&& json::array_in(item, "blocks"@) == Some(blocks)
        }),
    decreases items.len(),
{
    lemma_block_keys();
    let before = items.drop_last();
    if i < before.len() {
        law_ordered_lists_are_numbered(ordered, before, i);
    } else if before.len() > 0 {
        law_ordered_lists_are_numbered(ordered, before, 0);
    }
}

/// A cell of a table says its text, whether it is a header, and how far it
/// reaches each way.
pub proof fn law_cells_are_what_they_are(cell: TableCell)
    requires
        table_cell_outcome(cell) is Ok,
    ensures
        table_cell_outcome(cell) matches Ok(JsonView::Object(written)) && (layout_text_outcome(
            cell.content@,
            cell.content@.len() as int,
        ) matches Ok(text) && json::text_in(written, "text"@) == Some(text)) && json::bool_in(
            written,
            "is_header"@,
        ) == Some(cell.header) && (cell.colspan matches Some(n) ==> json::u64_in(
            written,
            "colspan"@,
        ) == Some(n as u64)) && (cell.rowspan matches Some(n) ==> json::u64_in(written, "rowspan"@)
            == Some(n as u64)),
{
    lemma_block_keys();
}

/// Layouts are written in order: what two parts of a layout give together is
/// what the first gives, followed by what the second gives.
pub proof fn law_layouts_are_written_in_order(first: Seq<LayoutNode>, second: Seq<LayoutNode>)
    requires
        nodes_outcome(first) is Ok,
        nodes_outcome(second) is Ok,
    ensures
        nodes_outcome(first + second) matches Ok((blocks, rows)) && blocks == nodes_outcome(
            first,
        )->Ok_0.0 + nodes_outcome(second)->Ok_0.0 && rows == nodes_outcome(first)->Ok_0.1
            + nodes_outcome(second)->Ok_0.1,
    decreases second.len(),
{
    if second.len() == 0 {
        assert(first + second =~= first);
        assert(nodes_outcome(first)->Ok_0.0 + nodes_outcome(second)->Ok_0.0 =~= nodes_outcome(
            first,
        )->Ok_0.0);
        assert(nodes_outcome(first)->Ok_0.1 + nodes_outcome(second)->Ok_0.1 =~= nodes_outcome(
            first,
        )->Ok_0.1);
    } else {
        let before = second.drop_last();
        law_layouts_are_written_in_order(first, before);
        let all = first + second;
        assert(all.drop_last() =~= first + before);
        assert(all.last() == second.last());
        let (more, more_rows) = node_outcome(second.last())->Ok_0;
        let (blocks, rows) = nodes_outcome(first)->Ok_0;
        let (next, next_rows) = nodes_outcome(before)->Ok_0;
        assert((blocks + next) + more =~= blocks + (next + more));
        assert((rows + next_rows) + more_rows =~= rows + (next_rows + more_rows));
    }
}

/// The buttons of a layout go under the message, and there is a keyboard
/// exactly where there are buttons.
pub proof fn law_layout_buttons_go_under_the_message(layout: RichLayout)
    requires
        rich_layout_outcome(layout) is Ok,
    ensures
        ({
            let (written, markup) = rich_layout_outcome(layout)->Ok_0;
            &&& nodes_outcome(layout.nodes@) matches Ok((blocks, rows))
            &&& blocks.len() > 0
            &&& json::array_in(written, "blocks"@) == Some(blocks)
            &&& markup is Some <==> rows.len() > 0
            &&& markup matches Some(keyboard) ==> (keyboard matches JsonView::Object(members)
                && json::array_in(members, "inline_keyboard"@) is Some)
        }),
{
    lemma_block_keys();
    let blocks = nodes_outcome(layout.nodes@)->Ok_0.0;
    let own = json::no_fields().insert("blocks"@, JsonView::Array(blocks));
    if let Some(native) = layout.platform_data {
        native::lemma_merged_keeps(
            own,
            native::native_object_outcome(native, "rich message"@)->Ok_0,
            "Telegram rich message"@ + " duplicates field "@,
            "blocks"@,
        );
    }
}

/// A table holds its rows, a list its items, and what can be folded its
/// summary and what is under it; a map is as large as it was asked to be.
pub proof fn law_blocks_hold_their_parts(node: LayoutNode)
    requires
        node_outcome(node) is Ok,
    ensures
        ({
            let block = node_outcome(node)->Ok_0.0[0]->Object_0;
            &&& node matches LayoutNode::Table { rows } ==> (json::array_in(block, "cells"@) matches Some(
                written,
            ) && written.len() == rows@.len())
            &&& node matches LayoutNode::List { ordered, items } ==> (list_items_outcome(
                ordered,
                items@,
            ) matches Ok((written, _)) && json::array_in(block, "items"@) == Some(written))
            &&& node matches LayoutNode::Details { summary, children, .. } ==> (
            rich_text::rich_text_outcome(summary) matches Ok(said) && json::member(block, "summary"@)
                == Some(said)) && (nodes_outcome(children@) matches Ok((blocks, _)) && json::array_in(
                block,
                "blocks"@,
            ) == Some(blocks))
            &&& node matches LayoutNode::PlaceMap(location) ==> (location.platform_data is None
                ==> json::u64_in(block, "zoom"@) == Some(13u64) && json::u64_in(block, "width"@)
                == Some(320u64) && json::u64_in(block, "height"@) == Some(200u64)) && (
            location.horizontal_accuracy matches Some(Real::Finite(own)) ==> (json::object_in(
                block,
                "location"@,
            ) matches Some(place) && json::member(place, "horizontal_accuracy"@) == Some(
                JsonView::Real(own@),
            )))
            &&& node matches LayoutNode::MediaGallery(items) ==> (json::array_in(block, "blocks"@) matches Some(
                written,
            ) && written.len() == items@.len())
        }),
{
    lemma_block_keys();
    if let LayoutNode::Table { rows } = node {
        list::lemma_collect_ok(rows@, table_rows());
    }
    if let LayoutNode::MediaGallery(items) = node {
        list::lemma_collect_ok(items@, collage_items());
    }
}

/// A plain cell says its text, at the top and at the left.
pub proof fn law_plain_cells_are_aligned(text: Seq<char>)
    ensures
        json::text_in(plain_cell(text), "text"@) == Some(text),
        json::text_in(plain_cell(text), "align"@) == Some("left"@),
        json::text_in(plain_cell(text), "valign"@) == Some("top"@),
{
    lemma_block_keys();
}

} // verus!
