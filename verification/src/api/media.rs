//! Media: where a file comes from, and the calls that send it.
use crate::api::layout;
use crate::api::layout::write_optional_u32;
use crate::api::request;
use crate::api::request::{make_call, Request, RequestView};
use crate::api::rich_text;
use crate::api::rich_text::telegram_rich_text_entities;
use crate::content::{Media, MediaGalleryItem, MediaType};
use crate::error;
use crate::error::{message, unsupported, Error, ErrorView};
use crate::json;
use crate::json::{strip_nulls, Fields, Json, JsonView};
use crate::native;
use crate::native::{check_vacant, merge_fields, merge_optional_native, quote};
use crate::source::File;
use crate::telegram::{Message, Upload};
use crate::text;
use crate::text::{joined, same, u64_text, utf16_len};
use base64::Engine;
use vstd::prelude::*;

verus! {

/// The largest caption, in UTF-16 code units.
pub const CAPTION_LIMIT: usize = 1024;

/// The largest number of media in one album.
pub const MEDIA_GROUP_LIMIT: usize = 10;

// ---------------------------------------------------------------------------
// Files
// ---------------------------------------------------------------------------

/// A file that can be sent: one that Telegram can find, or one to be uploaded.
#[derive(Debug, PartialEq)]
pub enum ResolvedFile {
    Remote(String),
    Upload(Upload),
}

/// Where a file comes from: it is ready, or has to be read from a path.
#[derive(Debug, PartialEq)]
pub enum FileSource {
    Ready(ResolvedFile),
    Read { path: String, name: String, mime: Option<String> },
}

/// What `base64::engine::general_purpose::STANDARD` decodes a text to; nothing
/// where it refuses the text.
pub uninterp spec fn base64_bytes(text: Seq<char>) -> Option<Seq<u8>>;

/// `decode` of `base64::engine::general_purpose::STANDARD`. The result is a
/// function of the text alone, `base64_bytes`.
#[verifier::external_body]
pub(crate) fn decode_base64(text: &str) -> (result: Option<Vec<u8>>)
    ensures
        match result {
            Some(bytes) => base64_bytes(text@) == Some(bytes@),
            None => base64_bytes(text@) is None,
        },
{
    base64::engine::general_purpose::STANDARD.decode(text).ok()
}

/// The name, or the one for files that have none.
pub open spec fn name_or_default(name: Seq<char>) -> Seq<char> {
    if name.len() == 0 {
        "upload.bin"@
    } else {
        name
    }
}

/// The name, or the one for files that have none.
pub fn nonempty_name(name: &str) -> (result: String)
    ensures
        result@ == name_or_default(name@),
{
    if name.is_empty() {
        "upload.bin".to_owned()
    } else {
        name.to_owned()
    }
}

fn copy_text(value: &Option<String>) -> (result: Option<String>)
    ensures
        json::optional_chars(result) == json::optional_chars(*value),
{
    match value {
        Some(text) => Some(text.clone()),
        None => None,
    }
}

/// The upload has the given name, bytes and type.
pub open spec fn is_upload(
    upload: Upload,
    name: Seq<char>,
    bytes: Seq<u8>,
    mime: Option<Seq<char>>,
) -> bool {
    upload.name@ == name && upload.bytes@ == bytes && json::optional_chars(upload.mime) == mime
}

/// Why a file cannot be used. `decoded` is what its base64 text decodes to.
pub open spec fn file_flaw(file: File, decoded: Option<Seq<u8>>) -> Option<ErrorView> {
    if file.id is Some {
        None
    } else if file.base64 is Some {
        if decoded is None {
            Some(ErrorView::Message("invalid base64 media data"@))
        } else {
            None
        }
    } else {
        match file.uri {
            None => Some(
                ErrorView::Message("media file has no Telegram file_id, URI, or data"@),
            ),
            Some(uri) => match uri@.scheme {
                None => None,
                Some(scheme) => if scheme == "http"@ || scheme == "https"@ || scheme == "file"@ {
                    None
                } else {
                    Some(
                        ErrorView::Message(
                            "unsupported media URI scheme "@ + native::quoted(scheme),
                        ),
                    )
                },
            },
        }
    }
}

/// Where a usable file comes from: the id before the data before the address.
pub open spec fn is_source(source: FileSource, file: File, decoded: Option<Seq<u8>>) -> bool {
    let mime = json::optional_chars(file.mime);
    match file.id {
        Some(id) => source matches FileSource::Ready(ResolvedFile::Remote(found)) && found@ == id@,
        None => if file.base64 is Some {
            source matches FileSource::Ready(ResolvedFile::Upload(upload)) && is_upload(
                upload,
                name_or_default(file.name@),
                decoded->0,
                mime,
            )
        } else {
            let uri = file.uri->0@;
            if uri.scheme == Some("http"@) || uri.scheme == Some("https"@) {
                source matches FileSource::Ready(ResolvedFile::Remote(found)) && found@ == uri.text
            } else {
                source matches FileSource::Read { path, name, mime: found } && path@ == uri.path
                    && name@ == name_or_default(file.name@) && json::optional_chars(found) == mime
            }
        },
    }
}

/// Decides where a file comes from, given what its base64 text decodes to.
pub fn choose_source(file: &File, decoded: Option<Vec<u8>>) -> (result: Result<FileSource, Error>)
    ensures
        match result {
            Ok(source) => file_flaw(*file, shown_bytes(decoded)) is None && is_source(
                source,
                *file,
                shown_bytes(decoded),
            ),
            Err(e) => file_flaw(*file, shown_bytes(decoded)) == Some(e@),
        },
{
    if let Some(id) = &file.id {
        return Ok(FileSource::Ready(ResolvedFile::Remote(id.clone())));
    }
    if file.base64.is_some() {
        return match decoded {
            Some(bytes) => Ok(
                FileSource::Ready(
                    ResolvedFile::Upload(
                        Upload {
                            name: nonempty_name(file.name.as_str()),
                            bytes,
                            mime: copy_text(&file.mime),
                        },
                    ),
                ),
            ),
            None => Err(message("invalid base64 media data")),
        };
    }
    match &file.uri {
        None => Err(message("media file has no Telegram file_id, URI, or data")),
        Some(uri) => {
            if uri.has_scheme("http") || uri.has_scheme("https") {
                return Ok(FileSource::Ready(ResolvedFile::Remote(uri.text.clone())));
            }
            if let Some(scheme) = &uri.scheme {
                if !same(scheme.as_str(), "file") {
                    let name = quote(scheme.as_str());
                    return Err(
                        Error::Message(joined("unsupported media URI scheme ", name.as_str())),
                    );
                }
            }
            Ok(
                FileSource::Read {
                    path: uri.path.clone(),
                    name: nonempty_name(file.name.as_str()),
                    mime: copy_text(&file.mime),
                },
            )
        },
    }
}

/// Decoded bytes, where there are any.
pub open spec fn shown_bytes(bytes: Option<Vec<u8>>) -> Option<Seq<u8>> {
    match bytes {
        Some(bytes) => Some(bytes@),
        None => None,
    }
}

/// What the base64 text of a file decodes to.
pub open spec fn decoded_file(file: File) -> Option<Seq<u8>> {
    match file.base64 {
        Some(text) => base64_bytes(text@),
        None => None,
    }
}

/// Decides where a file comes from.
pub fn resolve_file(file: &File) -> (result: Result<FileSource, Error>)
    ensures
        match result {
            Ok(source) => file_flaw(*file, decoded_file(*file)) is None && is_source(
                source,
                *file,
                decoded_file(*file),
            ),
            Err(e) => file_flaw(*file, decoded_file(*file)) == Some(e@),
        },
{
    let decoded = match &file.base64 {
        Some(text) => decode_base64(text.as_str()),
        None => None,
    };
    choose_source(file, decoded)
}

/// Completes a file with what was read from its path; nothing where that
/// failed.
pub fn finish_read(path: &str, name: String, mime: Option<String>, bytes: Option<Vec<u8>>) -> (result:
    Result<ResolvedFile, Error>)
    ensures
        match result {
            Ok(found) => bytes matches Some(read) && found matches ResolvedFile::Upload(upload)
                && is_upload(upload, name@, read@, json::optional_chars(mime)),
            Err(e) => bytes is None && e@ == ErrorView::Message(
                "failed to read media file "@ + native::quoted(path@),
            ),
        },
{
    match bytes {
        Some(bytes) => Ok(ResolvedFile::Upload(Upload { name, bytes, mime })),
        None => {
            let shown = quote(path);
            Err(Error::Message(joined("failed to read media file ", shown.as_str())))
        },
    }
}

// ---------------------------------------------------------------------------
// Calls with files
// ---------------------------------------------------------------------------

/// A call: its parameters as one document, or as a form with uploads.
#[derive(Debug, PartialEq)]
pub enum Call {
    Document(Request),
    Form(FormRequest),
}

/// A call whose parameters are the parts of a form: the values, those that
/// were added to them, and the uploads under their names. Texts stand as they
/// are, other values by their JSON text.
#[derive(Debug, PartialEq)]
pub struct FormRequest {
    pub method: String,
    pub values: Fields,
    pub added: Vec<(String, Json)>,
    pub uploads: Vec<(String, Upload)>,
}

/// What a call says.
#[verifier::ext_equal]
pub enum CallView {
    Document(RequestView),
    Form {
        method: Seq<char>,
        values: Map<Seq<char>, JsonView>,
        added: Seq<(Seq<char>, JsonView)>,
        uploads: Seq<(Seq<char>, Upload)>,
    },
}

/// Values under their names.
pub open spec fn named_values(values: Seq<(String, Json)>) -> Seq<(Seq<char>, JsonView)> {
    Seq::new(values.len(), |i: int| (values[i].0@, values[i].1@))
}

/// One value under its name.
pub fn one_value(name: &str, value: Json) -> (values: Vec<(String, Json)>)
    ensures
        named_values(values@) == seq![(name@, value@)],
{
    let mut values: Vec<(String, Json)> = Vec::new();
    values.push((name.to_owned(), value));
    assert(named_values(values@) =~= seq![(name@, value@)]);
    values
}

/// No values.
pub fn no_values() -> (values: Vec<(String, Json)>)
    ensures
        named_values(values@) == Seq::<(Seq<char>, JsonView)>::empty(),
{
    let values: Vec<(String, Json)> = Vec::new();
    assert(named_values(values@) =~= Seq::<(Seq<char>, JsonView)>::empty());
    values
}

/// Uploads under their names.
pub open spec fn named(uploads: Seq<(String, Upload)>) -> Seq<(Seq<char>, Upload)> {
    Seq::new(uploads.len(), |i: int| (uploads[i].0@, uploads[i].1))
}

impl View for Call {
    type V = CallView;

    open spec fn view(&self) -> CallView {
        match *self {
            Call::Document(request) => CallView::Document(request@),
            Call::Form(form) => CallView::Form {
                method: form.method@,
                values: json::fields(form.values),
                added: named_values(form.added@),
                uploads: named(form.uploads@),
            },
        }
    }
}

/// The parameters that are not null.
pub open spec fn present(payload: Map<Seq<char>, JsonView>) -> Map<Seq<char>, JsonView> {
    Map::new(
        |k: Seq<char>| payload.contains_key(k) && payload[k] != JsonView::Null,
        |k: Seq<char>| payload[k],
    )
}

/// The values of a form: the parameters that are not null.
pub fn form_from_payload(payload: &Fields) -> (values: Fields)
    ensures
        json::fields(values) == present(json::fields(*payload)),
{
    let mut values = Fields::none();
    let n: usize = payload.len();
    let ghost keys = payload.keys();
    let ghost target = present(json::fields(*payload));
    let mut i: usize = 0;
    while i < n
        invariant
            i <= n,
            n == keys.len(),
            keys == payload.keys(),
            json::lists_keys(keys, payload@.dom()),
            target == present(json::fields(*payload)),
            forall|k: Seq<char>| #[trigger]
                json::fields(values).contains_key(k) ==> target.contains_key(k) && json::fields(
                    values,
                )[k] == target[k],
            forall|j: int|
                0 <= j < i && target.contains_key(#[trigger] keys[j]) ==> json::fields(
                    values,
                ).contains_key(keys[j]),
        decreases n - i,
    {
        let (key, value) = payload.entry(i);
        if !value.is_null() {
            values.put(key, value.clone());
        }
        i += 1;
    }
    proof {
        assert forall|k: Seq<char>| #[trigger] target.contains_key(k) implies json::fields(
            values,
        ).contains_key(k) by {
            assert(payload@.dom().contains(k));
            let j = choose|j: int| 0 <= j < keys.len() && #[trigger] keys[j] == k;
            assert(target.contains_key(keys[j]));
        }
        assert(json::fields(values) =~= target);
    }
    values
}

/// The call of a method: a document where there is nothing to upload, a form
/// otherwise.
pub open spec fn call_with_uploads(
    method: Seq<char>,
    payload: Map<Seq<char>, JsonView>,
    uploads: Seq<(Seq<char>, Upload)>,
) -> CallView {
    if uploads.len() == 0 {
        CallView::Document(request::call(method, payload))
    } else {
        CallView::Form { method, values: present(payload), added: Seq::empty(), uploads }
    }
}

/// Makes the call of a method: a document where there is nothing to upload, a
/// form otherwise.
pub fn make_call_with_uploads(method: &str, payload: Fields, uploads: Vec<(String, Upload)>) -> (call:
    Call)
    ensures
        call@ == call_with_uploads(method@, json::fields(payload), named(uploads@)),
{
    if uploads.len() == 0 {
        Call::Document(make_call(method, payload))
    } else {
        Call::Form(
            FormRequest {
                method: method.to_owned(),
                values: form_from_payload(&payload),
                added: no_values(),
                uploads,
            },
        )
    }
}

// ---------------------------------------------------------------------------
// Single media
// ---------------------------------------------------------------------------

/// The parameters of a caption with its entities.
pub open spec fn with_caption(
    payload: Map<Seq<char>, JsonView>,
    method: Seq<char>,
    media: Media,
) -> Result<Map<Seq<char>, JsonView>, ErrorView> {
    match media.caption {
        None => Ok(payload),
        Some(caption) => if method == "sendSticker"@ || method == "sendVideoNote"@ {
            error::refused(method + " does not support captions"@)
        } else if text::units_of(caption.text@) > CAPTION_LIMIT {
            error::refused("Telegram media caption exceeds 1024 UTF-16 code units"@)
        } else {
            match rich_text::entities_outcome(caption) {
                Err(e) => Err(e),
                Ok(entities) => Ok(
                    payload.insert("caption"@, JsonView::Text(caption.text@)).insert(
                        "caption_entities"@,
                        JsonView::Array(entities),
                    ),
                ),
            }
        },
    }
}

/// The parameters that describe media, added to those that every message has.
pub open spec fn media_fields(
    payload: Map<Seq<char>, JsonView>,
    method: Seq<char>,
    media: Media,
) -> Result<Map<Seq<char>, JsonView>, ErrorView> {
    if media.alt_text is Some {
        error::refused("Telegram media messages do not expose portable alt text"@)
    } else if media.waveform is Some {
        error::refused("Telegram outgoing media does not accept a waveform"@)
    } else {
        match with_caption(payload, method, media) {
            Err(e) => Err(e),
            Ok(captioned) => {
                let timed = match media.duration {
                    Some(duration) => captioned.insert(
                        "duration"@,
                        JsonView::Integer(duration.seconds as int),
                    ),
                    None => captioned,
                };
                if method == "sendVideo"@ || method == "sendAnimation"@ {
                    Ok(
                        timed.insert("width"@, layout::optional_u32_view(media.width)).insert(
                            "height"@,
                            layout::optional_u32_view(media.height),
                        ).insert("has_spoiler"@, JsonView::Bool(media.spoiler)),
                    )
                } else if method == "sendPhoto"@ {
                    Ok(timed.insert("has_spoiler"@, JsonView::Bool(media.spoiler)))
                } else if method == "sendVideoNote"@ {
                    match (media.width, media.height) {
                        (Some(width), Some(height)) => if width != height {
                            error::refused("Telegram video notes must be square"@)
                        } else {
                            Ok(timed.insert("length"@, JsonView::Integer(width as int)))
                        },
                        _ => Ok(timed),
                    }
                } else {
                    Ok(timed)
                }
            },
        }
    }
}

/// Adds the parameters that describe media.
pub fn add_media_fields(payload: Fields, method: &str, media: &Media) -> (result: Result<
    Fields,
    Error,
>)
    ensures
        native::shown_fields(result) == media_fields(json::fields(payload), method@, *media),
{
    let mut payload = payload;
    if media.alt_text.is_some() {
        return Err(message("Telegram media messages do not expose portable alt text"));
    }
    if media.waveform.is_some() {
        return Err(message("Telegram outgoing media does not accept a waveform"));
    }
    if let Some(caption) = &media.caption {
        if same(method, "sendSticker") || same(method, "sendVideoNote") {
            return Err(Error::Message(joined(method, " does not support captions")));
        }
        if utf16_len(caption.text.as_str()) > CAPTION_LIMIT {
            return Err(message("Telegram media caption exceeds 1024 UTF-16 code units"));
        }
        let entities = telegram_rich_text_entities(caption)?;
        payload.put("caption", Json::text(caption.text.as_str()));
        payload.put("caption_entities", Json::array(entities));
    }
    if let Some(duration) = &media.duration {
        payload.put("duration", Json::unsigned(duration.seconds));
    }
    if same(method, "sendVideo") || same(method, "sendAnimation") {
        payload.put("width", write_optional_u32(media.width));
        payload.put("height", write_optional_u32(media.height));
        payload.put("has_spoiler", Json::bool(media.spoiler));
    } else if same(method, "sendPhoto") {
        payload.put("has_spoiler", Json::bool(media.spoiler));
    } else if same(method, "sendVideoNote") {
        if let (Some(width), Some(height)) = (media.width, media.height) {
            if width != height {
                return Err(message("Telegram video notes must be square"));
            }
            payload.put("length", Json::unsigned(width as u64));
        }
    }
    Ok(payload)
}

/// Nothing stands yet where the files of media will stand.
pub open spec fn files_rule(
    payload: Map<Seq<char>, JsonView>,
    field: Seq<char>,
    thumbnail: bool,
    context: Seq<char>,
) -> Result<(), ErrorView> {
    match native::vacant(payload, field, context) {
        Err(e) => Err(e),
        Ok(_) => if thumbnail {
            native::vacant(payload, "thumbnail"@, context)
        } else {
            Ok(())
        },
    }
}

/// Checks that nothing stands yet where the files of media will stand.
pub fn check_files(payload: &Fields, field: &str, thumbnail: bool, context: &str) -> (result: Result<
    (),
    Error,
>)
    ensures
        error::shown(result) == files_rule(json::fields(*payload), field@, thumbnail, context@),
{
    check_vacant(payload, field, context)?;
    if thumbnail {
        check_vacant(payload, "thumbnail", context)?;
    }
    Ok(())
}

/// The parameters of media before its file is known: those that every message
/// has, those that describe the media, and native ones. None of them is said
/// twice, and the places of its files are free.
pub open spec fn media_payload(
    payload: Map<Seq<char>, JsonView>,
    method: Seq<char>,
    field: Seq<char>,
    media: Media,
) -> Result<Map<Seq<char>, JsonView>, ErrorView> {
    match media_fields(json::no_fields(), method, media) {
        Err(e) => Err(e),
        Ok(own) => match native::merged(payload, own, "message content"@) {
            Err(e) => Err(e),
            Ok(described) => match native::optional_native_merged(
                described,
                media.platform_data,
                "media options"@,
            ) {
                Err(e) => Err(e),
                Ok(all) => match files_rule(
                    all,
                    field,
                    media.thumbnail is Some,
                    "message content"@,
                ) {
                    Err(e) => Err(e),
                    Ok(_) => Ok(all),
                },
            },
        },
    }
}

/// Writes the parameters of media before its file is known.
pub fn prepare_media(payload: Fields, method: &str, field: &str, media: &Media) -> (result: Result<
    Fields,
    Error,
>)
    ensures
        native::shown_fields(result) == media_payload(
            json::fields(payload),
            method@,
            field@,
            *media,
        ),
{
    let own = add_media_fields(Fields::none(), method, media)?;
    let described = merge_fields(payload, &own, "message content")?;
    let all = merge_optional_native(described, &media.platform_data, "media options")?;
    check_files(&all, field, media.thumbnail.is_some(), "message content")?;
    Ok(all)
}

/// The call that sends media from its files. A local thumbnail can go only
/// with media that is uploaded too.
pub open spec fn media_call_outcome(
    method: Seq<char>,
    field: Seq<char>,
    payload: Map<Seq<char>, JsonView>,
    file: ResolvedFile,
    thumbnail: Option<ResolvedFile>,
) -> Result<CallView, ErrorView> {
    match file {
        ResolvedFile::Remote(reference) => {
            let with_file = payload.insert(field, JsonView::Text(reference@));
            match thumbnail {
                None => Ok(CallView::Document(request::call(method, with_file))),
                Some(ResolvedFile::Remote(thumbnail)) => Ok(
                    CallView::Document(
                        request::call(
                            method,
                            with_file.insert("thumbnail"@, JsonView::Text(thumbnail@)),
                        ),
                    ),
                ),
                Some(ResolvedFile::Upload(_)) => error::refused(
                    "a local Telegram thumbnail requires the primary media to be uploaded"@,
                ),
            }
        },
        ResolvedFile::Upload(upload) => Ok(
            match thumbnail {
                None => CallView::Form {
                    method,
                    values: present(payload),
                    added: Seq::empty(),
                    uploads: seq![(field, upload)],
                },
                Some(ResolvedFile::Upload(thumbnail)) => CallView::Form {
                    method,
                    values: present(payload),
                    added: Seq::empty(),
                    uploads: seq![(field, upload), ("thumbnail"@, thumbnail)],
                },
                Some(ResolvedFile::Remote(thumbnail)) => CallView::Form {
                    method,
                    values: present(payload),
                    added: seq![("thumbnail"@, JsonView::Text(thumbnail@))],
                    uploads: seq![(field, upload)],
                },
            },
        ),
    }
}

/// Makes the call that sends media from its files.
pub fn send_v2_media(
    method: &str,
    field: &str,
    payload: Fields,
    file: ResolvedFile,
    thumbnail: Option<ResolvedFile>,
) -> (result: Result<Call, Error>)
    ensures
        error::shown(result) == media_call_outcome(
            method@,
            field@,
            json::fields(payload),
            file,
            thumbnail,
        ),
{
    match file {
        ResolvedFile::Remote(reference) => {
            let mut payload = payload;
            payload.put(field, Json::text(reference.as_str()));
            match thumbnail {
                None => {},
                Some(ResolvedFile::Remote(thumbnail)) => {
                    payload.put("thumbnail", Json::text(thumbnail.as_str()));
                },
                Some(ResolvedFile::Upload(_)) => {
                    return Err(
                        message(
                            "a local Telegram thumbnail requires the primary media to be uploaded",
                        ),
                    );
                },
            }
            Ok(Call::Document(make_call(method, payload)))
        },
        ResolvedFile::Upload(upload) => {
            let values = form_from_payload(&payload);
            let mut added = no_values();
            let mut uploads: Vec<(String, Upload)> = Vec::new();
            uploads.push((field.to_owned(), upload));
            assert(named(uploads@) =~= seq![(field@, upload)]);
            match thumbnail {
                None => {},
                Some(ResolvedFile::Upload(small)) => {
                    uploads.push(("thumbnail".to_owned(), small));
                    assert(named(uploads@) =~= seq![(field@, upload), ("thumbnail"@, small)]);
                },
                Some(ResolvedFile::Remote(thumbnail)) => {
                    added = one_value("thumbnail", Json::text(thumbnail.as_str()));
                },
            }
            Ok(Call::Form(FormRequest { method: method.to_owned(), values, added, uploads }))
        },
    }
}

// ---------------------------------------------------------------------------
// Albums
// ---------------------------------------------------------------------------

/// Media that can stand together in one album.
#[derive(Debug, Clone, Copy, PartialEq, Eq, Structural)]
pub enum AlbumClass {
    Audio,
    Document,
    Visual,
}

/// The class of a kind of media; nothing where it cannot stand in an album.
pub open spec fn album_class(kind: MediaType) -> Option<AlbumClass> {
    match kind {
        MediaType::Audio => Some(AlbumClass::Audio),
        MediaType::Document => Some(AlbumClass::Document),
        MediaType::Image => Some(AlbumClass::Visual),
        MediaType::Video => Some(AlbumClass::Visual),
        MediaType::PlatformNative(name) => if name@ == "photo"@ || name@ == "live_photo"@ || name@
            == "video"@ {
            Some(AlbumClass::Visual)
        } else {
            None
        },
        _ => None,
    }
}

fn find_album_class(kind: &MediaType) -> (class: Option<AlbumClass>)
    ensures
        class == album_class(*kind),
{
    match kind {
        MediaType::Audio => Some(AlbumClass::Audio),
        MediaType::Document => Some(AlbumClass::Document),
        MediaType::Image => Some(AlbumClass::Visual),
        MediaType::Video => Some(AlbumClass::Visual),
        MediaType::PlatformNative(name) => if same(name.as_str(), "photo") || same(
            name.as_str(),
            "live_photo",
        ) || same(name.as_str(), "video") {
            Some(AlbumClass::Visual)
        } else {
            None
        },
        _ => None,
    }
}

/// Every item can stand in an album.
pub open spec fn all_classed(items: Seq<MediaGalleryItem>) -> bool {
    forall|i: int| 0 <= i < items.len() ==> album_class((#[trigger] items[i]).kind) is Some
}

/// Every item is of the class of the first.
pub open spec fn one_class(items: Seq<MediaGalleryItem>) -> bool {
    forall|i: int|
        0 <= i < items.len() ==> album_class((#[trigger] items[i]).kind) == album_class(
            items[0].kind,
        )
}

/// The first rule that an album breaks.
pub open spec fn album_rule(items: Seq<MediaGalleryItem>, markup: Option<JsonView>) -> Result<
    (),
    ErrorView,
> {
    if !(2 <= items.len() <= MEDIA_GROUP_LIMIT) {
        error::refused("Telegram media groups require 2 to 10 items"@)
    } else if markup matches Some(markup) && !(markup is Object && markup->Object_0.contains_key(
        "inline_keyboard"@,
    )) {
        error::refused("Telegram media groups can be followed only by an inline keyboard"@)
    } else if !all_classed(items) {
        error::unsupported_view("this media kind in a Telegram media group"@)
    } else if !one_class(items) {
        error::refused(
            "Telegram audio and document albums cannot be mixed with other media kinds"@,
        )
    } else {
        Ok(())
    }
}

fn same_class(a: AlbumClass, b: AlbumClass) -> (result: bool)
    ensures
        result == (a == b),
{
    match (a, b) {
        (AlbumClass::Audio, AlbumClass::Audio) => true,
        (AlbumClass::Document, AlbumClass::Document) => true,
        (AlbumClass::Visual, AlbumClass::Visual) => true,
        _ => false,
    }
}

fn check_album(items: &Vec<MediaGalleryItem>, markup: &Option<Json>) -> (result: Result<(), Error>)
    ensures
        error::shown(result) == album_rule(
            items@,
            match *markup {
                Some(markup) => Some(markup@),
                None => None,
            },
        ),
{
    let count: usize = items.len();
    if !(2 <= count && count <= MEDIA_GROUP_LIMIT) {
        return Err(message("Telegram media groups require 2 to 10 items"));
    }
    if let Some(markup) = markup {
        if markup.get("inline_keyboard").is_none() {
            return Err(
                message("Telegram media groups can be followed only by an inline keyboard"),
            );
        }
    }
    let mut mixed = false;
    let first = find_album_class(&items[0].kind);
    let mut i: usize = 0;
    while i < items.len()
        invariant
            i <= items@.len(),
            2 <= items@.len() <= MEDIA_GROUP_LIMIT,
            first == album_class(items@[0].kind),
            !(match *markup {
                Some(markup) => !(markup@ is Object && markup@->Object_0.contains_key(
                    "inline_keyboard"@,
                )),
                None => false,
            }),
            forall|j: int| 0 <= j < i ==> album_class((#[trigger] items@[j]).kind) is Some,
            !mixed ==> forall|j: int|
                0 <= j < i ==> album_class((#[trigger] items@[j]).kind) == first,
            mixed ==> exists|j: int|
                0 <= j < i && album_class((#[trigger] items@[j]).kind) != first,
        decreases items@.len() - i,
    {
        match find_album_class(&items[i].kind) {
            None => {
                assert(album_class(items@[i as int].kind) is None);
                return Err(unsupported("this media kind in a Telegram media group"));
            },
            Some(class) => {
                let fits = match first {
                    Some(first) => same_class(class, first),
                    None => false,
                };
                if !fits {
                    mixed = true;
                    assert(album_class(items@[i as int].kind) != first);
                }
            },
        }
        i += 1;
    }
    if mixed {
        return Err(
            message("Telegram audio and document albums cannot be mixed with other media kinds"),
        );
    }
    Ok(())
}

/// Accepts an album and takes the keyboard that follows it out of the
/// parameters.
pub fn begin_album(items: &Vec<MediaGalleryItem>, payload: Fields) -> (result: Result<
    (Fields, Option<Json>),
    Error,
>)
    ensures
        match result {
            Ok((rest, markup)) => album_rule(
                items@,
                json::member(json::fields(payload), "reply_markup"@),
            ) is Ok && json::fields(rest) == json::fields(payload).remove("reply_markup"@)
                && json::member(json::fields(payload), "reply_markup"@) == match markup {
                Some(markup) => Some(markup@),
                None => None,
            },
            Err(e) => album_rule(items@, json::member(json::fields(payload), "reply_markup"@))
                == Err::<(), ErrorView>(e@),
        },
{
    let mut payload = payload;
    let markup = payload.take("reply_markup");
    check_album(items, &markup)?;
    Ok((payload, markup))
}

/// The name of a kind of media in an album, and the method that sends such
/// media alone.
pub open spec fn album_names(kind: MediaType) -> (Seq<char>, Seq<char>) {
    match kind {
        MediaType::Image => ("photo"@, "sendPhoto"@),
        MediaType::Video => ("video"@, "sendVideo"@),
        MediaType::Audio => ("audio"@, "sendAudio"@),
        MediaType::PlatformNative(name) => (name@, "sendVideo"@),
        _ => ("document"@, "sendDocument"@),
    }
}

/// What describes one item of an album before its files are known.
pub open spec fn album_item_outcome(item: MediaGalleryItem) -> Result<
    Map<Seq<char>, JsonView>,
    ErrorView,
> {
    let (name, method) = album_names(item.kind);
    match media_fields(
        json::no_fields().insert("type"@, JsonView::Text(name)),
        method,
        item.media,
    ) {
        Err(e) => Err(e),
        Ok(own) => match native::optional_native_merged(
            own,
            item.media.platform_data,
            "media-group item"@,
        ) {
            Err(e) => Err(e),
            Ok(all) => match files_rule(
                all,
                "media"@,
                item.media.thumbnail is Some,
                "media-group item"@,
            ) {
                Err(e) => Err(e),
                Ok(_) => Ok(all),
            },
        },
    }
}

/// Writes what describes one item of an album before its files are known.
pub fn begin_album_item(item: &MediaGalleryItem) -> (result: Result<Fields, Error>)
    requires
        album_class(item.kind) is Some,
    ensures
        native::shown_fields(result) == album_item_outcome(*item),
{
    let (name, method): (&str, &str) = match &item.kind {
        MediaType::Image => ("photo", "sendPhoto"),
        MediaType::Video => ("video", "sendVideo"),
        MediaType::Audio => ("audio", "sendAudio"),
        MediaType::PlatformNative(name) => (name.as_str(), "sendVideo"),
        _ => ("document", "sendDocument"),
    };
    let mut object = Fields::none();
    object.put("type", Json::text(name));
    let own = add_media_fields(object, method, &item.media)?;
    let all = merge_optional_native(own, &item.media.platform_data, "media-group item")?;
    check_files(&all, "media", item.media.thumbnail.is_some(), "media-group item")?;
    Ok(all)
}

/// `object` with a file under `key`: what Telegram finds by itself by its
/// reference, an upload by the name of its part.
pub open spec fn with_file(
    object: Map<Seq<char>, JsonView>,
    key: Seq<char>,
    part: Seq<char>,
    file: ResolvedFile,
) -> Map<Seq<char>, JsonView> {
    match file {
        ResolvedFile::Remote(reference) => object.insert(key, JsonView::Text(reference@)),
        ResolvedFile::Upload(_) => object.insert(key, JsonView::Text("attach://"@ + part)),
    }
}

/// The uploads with a file that has to be uploaded added under its name.
pub open spec fn with_upload(
    uploads: Seq<(Seq<char>, Upload)>,
    part: Seq<char>,
    file: ResolvedFile,
) -> Seq<(Seq<char>, Upload)> {
    match file {
        ResolvedFile::Remote(_) => uploads,
        ResolvedFile::Upload(upload) => uploads.push((part, upload)),
    }
}

/// Puts a file under `key`, and its upload, where there is one, under the name
/// of its part.
pub fn attach_file(
    object: Fields,
    uploads: Vec<(String, Upload)>,
    key: &str,
    part: &str,
    file: ResolvedFile,
) -> (result: (Fields, Vec<(String, Upload)>))
    ensures
        json::fields(result.0) == with_file(json::fields(object), key@, part@, file),
        named(result.1@) == with_upload(named(uploads@), part@, file),
{
    let mut object = object;
    let mut uploads = uploads;
    let ghost before = named(uploads@);
    match file {
        ResolvedFile::Remote(reference) => {
            object.put(key, Json::text(reference.as_str()));
        },
        ResolvedFile::Upload(upload) => {
            let reference = joined("attach://", part);
            object.put(key, Json::text(reference.as_str()));
            uploads.push((part.to_owned(), upload));
            assert(named(uploads@) =~= before.push((part@, upload)));
        },
    }
    (object, uploads)
}

/// An item of an album with its files, and the uploads so far.
pub open spec fn album_item_files(
    object: Map<Seq<char>, JsonView>,
    uploads: Seq<(Seq<char>, Upload)>,
    index: int,
    file: ResolvedFile,
    thumbnail: Option<ResolvedFile>,
) -> (JsonView, Seq<(Seq<char>, Upload)>) {
    let part = "media"@ + text::decimal(index);
    let small_part = "thumbnail"@ + text::decimal(index);
    let own = with_file(object, "media"@, part, file);
    let own_uploads = with_upload(uploads, part, file);
    match thumbnail {
        None => (json::stripped(JsonView::Object(own)), own_uploads),
        Some(thumbnail) => (
            json::stripped(JsonView::Object(with_file(own, "thumbnail"@, small_part, thumbnail))),
            with_upload(own_uploads, small_part, thumbnail),
        ),
    }
}

/// Gives an item of an album its files.
pub fn finish_album_item(
    object: Fields,
    uploads: Vec<(String, Upload)>,
    index: usize,
    file: ResolvedFile,
    thumbnail: Option<ResolvedFile>,
) -> (result: (Json, Vec<(String, Upload)>))
    ensures
        (result.0@, named(result.1@)) == album_item_files(
            json::fields(object),
            named(uploads@),
            index as int,
            file,
            thumbnail,
        ),
{
    let number = u64_text(index as u64);
    let part = joined("media", number.as_str());
    let (object, uploads) = attach_file(object, uploads, "media", part.as_str(), file);
    match thumbnail {
        None => (strip_nulls(Json::object(object)), uploads),
        Some(thumbnail) => {
            let small_part = joined("thumbnail", number.as_str());
            let (object, uploads) = attach_file(
                object,
                uploads,
                "thumbnail",
                small_part.as_str(),
                thumbnail,
            );
            (strip_nulls(Json::object(object)), uploads)
        },
    }
}

/// Makes the call that sends an album.
pub fn send_v2_media_group(
    payload: Fields,
    items: Vec<Json>,
    uploads: Vec<(String, Upload)>,
) -> (call: Call)
    ensures
        call@ == call_with_uploads(
            "sendMediaGroup"@,
            json::fields(payload).insert("media"@, JsonView::Array(json::views(items@))),
            named(uploads@),
        ),
{
    let mut payload = payload;
    payload.put("media", Json::array(items));
    make_call_with_uploads("sendMediaGroup", payload, uploads)
}

/// The call that puts the keyboard of an album under its first message.
pub open spec fn album_markup_call(markup: JsonView, first: Message) -> RequestView {
    request::call(
        "editMessageReplyMarkup"@,
        json::no_fields().insert("chat_id"@, JsonView::Integer(first.chat.id as int)).insert(
            "message_id"@,
            JsonView::Integer(first.message_id as int),
        ).insert("reply_markup"@, markup),
    )
}

/// Makes the call that puts the keyboard of an album under its first message,
/// where there are both.
pub fn finish_album(markup: Option<Json>, messages: &Vec<Message>) -> (call: Option<Request>)
    ensures
        match call {
            Some(request) => markup matches Some(markup) && messages@.len() > 0 && request@
                == album_markup_call(markup@, messages@[0]),
            None => markup is None || messages@.len() == 0,
        },
{
    match markup {
        None => None,
        Some(markup) => {
            if messages.len() == 0 {
                return None;
            }
            let first: &Message = &messages[0];
            let mut payload = Fields::none();
            payload.put("chat_id", Json::integer(first.chat.id));
            payload.put("message_id", Json::integer(first.message_id));
            payload.put("reply_markup", markup);
            Some(make_call("editMessageReplyMarkup", payload))
        },
    }
}

// ---------------------------------------------------------------------------
// Laws
// ---------------------------------------------------------------------------

proof fn lemma_description_keys()
    ensures
        "type"@.len() == 4,
        "caption"@.len() == 7,
        "caption_entities"@.len() == 16,
        "duration"@.len() == 8,
        "width"@.len() == 5,
        "height"@.len() == 6,
        "has_spoiler"@.len() == 11,
        "length"@.len() == 6,
        "height"@ != "length"@,
{
    reveal_strlit("type");
    reveal_strlit("caption");
    reveal_strlit("caption_entities");
    reveal_strlit("duration");
    reveal_strlit("width");
    reveal_strlit("height");
    reveal_strlit("has_spoiler");
    reveal_strlit("length");
    assert("height"@[0] != "length"@[0]);
}

proof fn lemma_method_names()
    ensures
        "sendPhoto"@.len() == 9,
        "sendVideo"@.len() == 9,
        "sendAudio"@.len() == 9,
        "sendAnimation"@.len() == 13,
        "sendVoice"@.len() == 9,
        "sendVideoNote"@.len() == 13,
        "sendDocument"@.len() == 12,
        "sendSticker"@.len() == 11,
        "sendPhoto"@ != "sendVideo"@,
        "sendPhoto"@ != "sendAudio"@,
        "sendPhoto"@ != "sendVoice"@,
        "sendVideo"@ != "sendAudio"@,
        "sendVideo"@ != "sendVoice"@,
        "sendAudio"@ != "sendVoice"@,
        "sendAnimation"@ != "sendVideoNote"@,
{
    reveal_strlit("sendPhoto");
    reveal_strlit("sendVideo");
    reveal_strlit("sendAudio");
    reveal_strlit("sendAnimation");
    reveal_strlit("sendVoice");
    reveal_strlit("sendVideoNote");
    reveal_strlit("sendDocument");
    reveal_strlit("sendSticker");
    assert("sendPhoto"@[4] != "sendVideo"@[4]);
    assert("sendPhoto"@[4] != "sendAudio"@[4]);
    assert("sendPhoto"@[4] != "sendVoice"@[4]);
    assert("sendVideo"@[4] != "sendAudio"@[4]);
    assert("sendVideo"@[5] != "sendVoice"@[5]);
    assert("sendAudio"@[4] != "sendVoice"@[4]);
    assert("sendAnimation"@[4] != "sendVideoNote"@[4]);
}

/// Media is described as it is: its caption by the text and the entities of
/// it, its duration in seconds, its width and height where it is a video or an
/// animation, and whether it is hidden where it is one of these or a picture.
/// What was said before is not changed.
pub proof fn law_media_are_described(
    payload: Map<Seq<char>, JsonView>,
    method: Seq<char>,
    media: Media,
)
    requires
        media_fields(payload, method, media) is Ok,
    ensures
        ({
            let all = media_fields(payload, method, media)->Ok_0;
            let moving = method == "sendVideo"@ || method == "sendAnimation"@;
            &&& media.caption matches Some(caption) ==> json::text_in(all, "caption"@) == Some(
                caption.text@,
            ) && (rich_text::entities_outcome(caption) matches Ok(entities) && json::array_in(
                all,
                "caption_entities"@,
            ) == Some(entities))
            &&& media.duration matches Some(span) ==> json::u64_in(all, "duration"@) == Some(
                span.seconds,
            )
            &&& moving ==> (media.width matches Some(width) ==> json::member(all, "width"@) == Some(
                JsonView::Integer(width as int),
            )) && (media.height matches Some(height) ==> json::member(all, "height"@) == Some(
                JsonView::Integer(height as int),
            ))
            &&& moving || method == "sendPhoto"@ ==> json::bool_in(all, "has_spoiler"@) == Some(
                media.spoiler,
            )
            &&& method == "sendVideoNote"@ && media.width is Some && media.height is Some
                ==> media.width == media.height && json::member(all, "length"@) == Some(
                JsonView::Integer(media.width->0 as int),
            )
            &&& json::member(all, "type"@) == json::member(payload, "type"@)
        }),
{
    lemma_description_keys();
    lemma_method_names();
}

/// A file that Telegram can find is named under the field, and one that it
/// cannot is uploaded under it; a thumbnail goes beside it in the same way. The
/// method is the one that was chosen.
pub proof fn law_files_are_sent_under_their_field(
    method: Seq<char>,
    field: Seq<char>,
    payload: Map<Seq<char>, JsonView>,
    file: ResolvedFile,
    thumbnail: Option<ResolvedFile>,
)
    requires
        field != "thumbnail"@,
    ensures
        media_call_outcome(method, field, payload, file, thumbnail) is Err <==> file is Remote && (
        thumbnail matches Some(small) && small is Upload),
        media_call_outcome(method, field, payload, file, thumbnail) matches Ok(call) ==> {
            &&& file matches ResolvedFile::Remote(reference) ==> {
                &&& call matches CallView::Document(request)
                &&& request.method == method
                &&& json::text_in(request.payload, field) == Some(reference@)
                &&& thumbnail matches Some(ResolvedFile::Remote(small)) ==> json::text_in(
                    request.payload,
                    "thumbnail"@,
                ) == Some(small@)
            }
            &&& file matches ResolvedFile::Upload(upload) ==> {
                &&& call matches CallView::Form { method: own, added, uploads, .. }
                &&& own == method
                &&& uploads.len() > 0
                &&& uploads[0] == (field, upload)
                &&& thumbnail matches Some(ResolvedFile::Upload(small)) ==> uploads.len() == 2
                    && uploads[1] == ("thumbnail"@, small)
                &&& thumbnail matches Some(ResolvedFile::Remote(small)) ==> uploads.len() == 1
                    && added.len() == 1 && added[0] == ("thumbnail"@, JsonView::Text(small@))
                &&& thumbnail is None ==> uploads.len() == 1
            }
        },
{
    if let ResolvedFile::Remote(reference) = file {
        let with_file = payload.insert(field, JsonView::Text(reference@));
        request::lemma_call_member(method, with_file, field);
        if let Some(ResolvedFile::Remote(small)) = thumbnail {
            let both = with_file.insert("thumbnail"@, JsonView::Text(small@));
            request::lemma_call_member(method, both, field);
            request::lemma_call_member(method, both, "thumbnail"@);
        }
    }
}

/// A file is found where it is best known: by its id where it has one, by its
/// data where not, and by its address otherwise. The web is left to Telegram,
/// anything else is read from its path.
pub proof fn law_files_come_from_where_they_are_known(
    file: File,
    decoded: Option<Seq<u8>>,
    source: FileSource,
)
    requires
        file_flaw(file, decoded) is None,
        is_source(source, file, decoded),
    ensures
        file.id matches Some(id) ==> (source matches FileSource::Ready(ResolvedFile::Remote(found))
            && found@ == id@),
        file.id is None && file.base64 is Some ==> (source matches FileSource::Ready(
            ResolvedFile::Upload(upload),
        ) && decoded == Some(upload.bytes@) && json::optional_chars(upload.mime)
            == json::optional_chars(file.mime) && (file.name@.len() > 0 ==> upload.name@
            == file.name@)),
        file.id is None && file.base64 is None ==> {
            &&& file.uri matches Some(uri)
            &&& uri@.scheme == Some("http"@) || uri@.scheme == Some("https"@) <==> (source matches
                FileSource::Ready(ResolvedFile::Remote(found)) && found@ == uri@.text)
            &&& source matches FileSource::Read { path, .. } ==> path@ == uri@.path && (
            uri@.scheme is None || uri@.scheme == Some("file"@))
        },
{
}

/// Media in an album is called what the field is called under which such media
/// is sent alone, and is described in the same way.
pub proof fn law_albums_name_their_media(item: MediaGalleryItem)
    requires
        album_class(item.kind) is Some,
        album_item_outcome(item) is Ok,
    ensures
        ({
            let described = album_item_outcome(item)->Ok_0;
            let name = json::text_in(described, "type"@);
            &&& item.kind is Image ==> name == Some("photo"@) && json::bool_in(
                described,
                "has_spoiler"@,
            ) == Some(item.media.spoiler)
            &&& item.kind is Video ==> name == Some("video"@) && json::bool_in(
                described,
                "has_spoiler"@,
            ) == Some(item.media.spoiler)
            &&& item.kind is Audio ==> name == Some("audio"@)
            &&& item.kind is Document ==> name == Some("document"@)
            &&& item.kind matches MediaType::PlatformNative(own) ==> name == Some(own@)
            &&& item.media.caption matches Some(caption) ==> json::text_in(described, "caption"@)
                == Some(caption.text@)
        }),
{
    let (name, method) = album_names(item.kind);
    let start = json::no_fields().insert("type"@, JsonView::Text(name));
    law_media_are_described(start, method, item.media);
    let own = media_fields(start, method, item.media)->Ok_0;
    native::lemma_optional_keeps(own, item.media.platform_data, "media-group item"@, "type"@);
    native::lemma_optional_keeps(own, item.media.platform_data, "media-group item"@, "caption"@);
    native::lemma_optional_keeps(
        own,
        item.media.platform_data,
        "media-group item"@,
        "has_spoiler"@,
    );
}

/// An album that is accepted holds two to ten items that can stand together:
/// pictures and videos, or audio files alone, or documents alone.
pub proof fn law_accepted_albums_fit(
    items: Seq<MediaGalleryItem>,
    markup: Option<JsonView>,
    i: int,
    j: int,
)
    requires
        album_rule(items, markup) is Ok,
        0 <= i < items.len(),
        0 <= j < items.len(),
    ensures
        2 <= items.len() <= 10,
        items[i].kind is Audio <==> items[j].kind is Audio,
        items[i].kind is Document <==> items[j].kind is Document,
        !(items[i].kind is Animation || items[i].kind is VoiceNote || items[i].kind is VideoNote),
        markup matches Some(JsonView::Object(keyboard)) ==> keyboard.contains_key(
            "inline_keyboard"@,
        ),
        markup matches Some(keyboard) ==> keyboard is Object,
{
    assert(album_class(items[i].kind) == album_class(items[0].kind));
    assert(album_class(items[j].kind) == album_class(items[0].kind));
    assert(album_class(items[i].kind) is Some);
    assert(album_class(items[j].kind) is Some);
}

/// The keyboard of an album is put under the first message of it.
pub proof fn law_album_keyboards_go_under_the_first(markup: JsonView, first: Message)
    requires
        markup is Object,
    ensures
        ({
            let call = album_markup_call(markup, first);
            &&& call.method == "editMessageReplyMarkup"@
            &&& json::i64_in(call.payload, "chat_id"@) == Some(first.chat.id)
            &&& json::i64_in(call.payload, "message_id"@) == Some(first.message_id)
            &&& json::member(call.payload, "reply_markup"@) == Some(json::stripped(markup))
        }),
{
    lemma_markup_keys();
    let payload = json::no_fields().insert(
        "chat_id"@,
        JsonView::Integer(first.chat.id as int),
    ).insert("message_id"@, JsonView::Integer(first.message_id as int)).insert(
        "reply_markup"@,
        markup,
    );
    request::lemma_call_member("editMessageReplyMarkup"@, payload, "chat_id"@);
    request::lemma_call_member("editMessageReplyMarkup"@, payload, "message_id"@);
    request::lemma_call_member("editMessageReplyMarkup"@, payload, "reply_markup"@);
}

proof fn lemma_markup_keys()
    ensures
        "chat_id"@.len() == 7,
        "message_id"@.len() == 10,
        "reply_markup"@.len() == 12,
{
    reveal_strlit("chat_id");
    reveal_strlit("message_id");
    reveal_strlit("reply_markup");
}

/// The methods that send media are told apart.
pub proof fn lemma_sending_names()
    ensures
        "sendPhoto"@ != "sendVideo"@,
        "sendPhoto"@ != "sendAnimation"@,
        "sendVideo"@ != "sendAnimation"@,
{
    lemma_method_names();
}

/// Pictures and videos make an album, so do audio files and so do documents,
/// two to ten of them, with an inline keyboard or none.
pub proof fn law_fitting_albums_are_accepted(items: Seq<MediaGalleryItem>)
    requires
        2 <= items.len() <= 10,
        (forall|i: int|
            0 <= i < items.len() ==> ((#[trigger] items[i]).kind is Image || items[i].kind is Video))
            || (forall|i: int| 0 <= i < items.len() ==> (#[trigger] items[i]).kind is Audio) || (
        forall|i: int| 0 <= i < items.len() ==> (#[trigger] items[i]).kind is Document),
    ensures
        album_rule(items, None) is Ok,
{
    assert(items[0].kind == items[0].kind);
}

/// A caption may hold 1024 UTF-16 code units, except under stickers and round
/// videos, which have none.
pub proof fn law_short_captions_are_accepted(
    payload: Map<Seq<char>, JsonView>,
    method: Seq<char>,
    media: Media,
)
    requires
        media.alt_text is None,
        media.waveform is None,
        media.caption matches Some(caption) ==> text::units_of(caption.text@) <= 1024
            && caption.spans@.len() == 0 && method != "sendSticker"@ && method != "sendVideoNote"@,
        method != "sendVideoNote"@,
    ensures
        media_fields(payload, method, media) is Ok,
{
}

/// An item of an album keeps its description and names its file: the one that
/// Telegram can find by what it is found by, an upload by the part of the form
/// that carries it; so does its thumbnail.
pub proof fn law_album_items_name_their_files(
    object: Map<Seq<char>, JsonView>,
    uploads: Seq<(Seq<char>, Upload)>,
    index: int,
    file: ResolvedFile,
    thumbnail: Option<ResolvedFile>,
    name: Seq<char>,
)
    requires
        json::text_in(object, "type"@) == Some(name),
    ensures
        ({
            let (item, all) = album_item_files(object, uploads, index, file, thumbnail);
            let part = "media"@ + text::decimal(index);
            &&& item matches JsonView::Object(members)
            &&& json::text_in(members, "type"@) == Some(name)
            &&& file matches ResolvedFile::Remote(reference) ==> json::text_in(members, "media"@)
                == Some(reference@)
            &&& file matches ResolvedFile::Upload(upload) ==> all.contains((part, upload))
                && json::text_in(members, "media"@) == Some("attach://"@ + part)
            &&& thumbnail matches Some(ResolvedFile::Remote(reference)) ==> json::text_in(
                members,
                "thumbnail"@,
            ) == Some(reference@)
            &&& thumbnail matches Some(ResolvedFile::Upload(upload)) ==> all.contains(
                ("thumbnail"@ + text::decimal(index), upload),
            ) && json::text_in(members, "thumbnail"@) == Some(
                "attach://"@ + ("thumbnail"@ + text::decimal(index)),
            )
            &&& file is Remote && (thumbnail is None || thumbnail->0 is Remote) ==> all == uploads
        }),
{
    lemma_item_keys();
    let part = "media"@ + text::decimal(index);
    let small_part = "thumbnail"@ + text::decimal(index);
    let own = with_file(object, "media"@, part, file);
    let own_uploads = with_upload(uploads, part, file);
    let whole = match thumbnail {
        None => own,
        Some(small) => with_file(own, "thumbnail"@, small_part, small),
    };
    json::lemma_stripped_member(whole, "type"@);
    json::lemma_stripped_member(whole, "media"@);
    json::lemma_stripped_member(whole, "thumbnail"@);
    let (item, all) = album_item_files(object, uploads, index, file, thumbnail);
    if let ResolvedFile::Upload(upload) = file {
        assert(own_uploads.last() == (part, upload));
        assert(all[uploads.len() as int] == (part, upload));
    }
    if let Some(ResolvedFile::Upload(upload)) = thumbnail {
        assert(all.last() == (small_part, upload));
    }
}

proof fn lemma_item_keys()
    ensures
        "media"@.len() == 5,
        "thumbnail"@.len() == 9,
        "type"@.len() == 4,
{
    reveal_strlit("media");
    reveal_strlit("thumbnail");
    reveal_strlit("type");
}

/// An album is sent as one, with its items in their order: as a document where
/// nothing is uploaded, and as a form otherwise.
pub proof fn law_albums_are_sent_as_one(
    payload: Fields,
    items: Vec<Json>,
    uploads: Vec<(String, Upload)>,
    call: Call,
    i: int,
)
    requires
        call_ensures(send_v2_media_group, (payload, items, uploads), call),
        0 <= i < items@.len(),
    ensures
        uploads@.len() == 0 ==> (call@ matches CallView::Document(request) && request.method
            == "sendMediaGroup"@ && (json::array_in(request.payload, "media"@) matches Some(written)
            && written.len() == items@.len() && written[i] == json::stripped(items@[i]@))),
        uploads@.len() > 0 ==> (call@ matches CallView::Form { method, values, uploads: parts, .. }
            && method == "sendMediaGroup"@ && (json::array_in(values, "media"@) matches Some(written)
            && written.len() == items@.len() && written[i] == items@[i]@) && parts.len()
            == uploads@.len()),
{
    let list = json::views(items@);
    let all = json::fields(payload).insert("media"@, JsonView::Array(list));
    request::lemma_call_member("sendMediaGroup"@, all, "media"@);
    json::lemma_stripped_item(list, i);
}

/// The field of the file is left free for it, and so is that of a thumbnail
/// where there is one; media that says nothing else is accepted.
pub proof fn law_fields_are_left_for_the_files(
    payload: Map<Seq<char>, JsonView>,
    method: Seq<char>,
    field: Seq<char>,
    media: Media,
)
    ensures
        media_payload(payload, method, field, media) matches Ok(all) ==> !all.contains_key(field) && (
        media.thumbnail is Some ==> !all.contains_key("thumbnail"@)),
        payload == json::no_fields() && media.caption is None && media.alt_text is None
            && media.waveform is None && media.duration is None && media.platform_data is None
            && method == "sendDocument"@ ==> media_payload(payload, method, field, media) is Ok,
{
    lemma_method_names();
    if payload == json::no_fields() {
        let own = media_fields(json::no_fields(), method, media)->Ok_0;
        assert forall|key: Seq<char>| !#[trigger] native::shares(payload, own, key) by {}
    }
}

} // verus!
