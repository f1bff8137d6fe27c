//! Decoding of the resolver's replies.
//!
//! A reply is a JSON object. Required members must be present with the right
//! type; an optional member may be absent or `null`; members that the shape
//! does not know are ignored. A reply that fits no shape is rejected as a
//! whole: nothing is decoded in part.

use crate::json::json_of;
use crate::json::jsons_of;
use crate::json::member;
use crate::json::parse_value;
use crate::json::parsed_json;
use crate::json::Json;
use crate::model::error::CobaltError;
use crate::model::error::CobaltErrorView;
use crate::model::error::ErrorContext;
use crate::model::error::ErrorContextView;
use crate::model::response::Audio;
use crate::model::response::AudioView;
use crate::model::response::CobaltInfo;
use crate::model::response::CobaltInfoView;
use crate::model::response::DownloadResponse;
use crate::model::response::DownloadResponseView;
use crate::model::response::GitInfo;
use crate::model::response::GitInfoView;
use crate::model::response::InfoResponse;
use crate::model::response::InfoResponseView;
use crate::model::response::LocalProcessingKind;
use crate::model::response::Output;
use crate::model::response::OutputMetadata;
use crate::model::response::OutputMetadataView;
use crate::model::response::OutputView;
use crate::model::response::PickerItem;
use crate::model::response::PickerItemView;
use crate::text::str_eq;
use serde_json::Value;
use vstd::prelude::*;

verus! {

/// A reply that is not well-formed JSON or fits none of the known shapes.
#[derive(Debug, Clone, Copy, PartialEq, Eq, Structural)]
pub struct DecodeError;

/// Whether a decoder's result is the expected one: the expected value on
/// success, an error exactly where no value is expected.
pub open spec fn agrees<T: DeepView>(result: Result<T, DecodeError>, expected: Option<T::V>) -> bool {
    match result {
        Ok(value) => expected == Some(value.deep_view()),
        Err(_) => expected is None,
    }
}

/// The member `key` of a JSON object; nothing when `doc` is no object or has
/// no such member.
pub open spec fn member_of(doc: Json, key: Seq<char>) -> Option<Json> {
    match doc {
        Json::Object(members) => if members.contains_key(key) {
            Some(members[key])
        } else {
            None
        },
        _ => None,
    }
}

/// A required string member.
pub open spec fn text_of(field: Option<Json>) -> Option<Seq<char>> {
    match field {
        Some(Json::Text(s)) => Some(s),
        _ => None,
    }
}

/// An optional string member: unset when absent or `null`.
pub open spec fn optional_text_of(field: Option<Json>) -> Option<Option<Seq<char>>> {
    match field {
        None => Some(None),
        Some(Json::Null) => Some(None),
        Some(Json::Text(s)) => Some(Some(s)),
        _ => None,
    }
}

/// A required boolean member.
pub open spec fn bool_of(field: Option<Json>) -> Option<bool> {
    match field {
        Some(Json::Bool(b)) => Some(b),
        _ => None,
    }
}

/// An optional boolean member: unset when absent or `null`.
pub open spec fn optional_bool_of(field: Option<Json>) -> Option<Option<bool>> {
    match field {
        None => Some(None),
        Some(Json::Null) => Some(None),
        Some(Json::Bool(b)) => Some(Some(b)),
        _ => None,
    }
}

/// An optional member that holds a non-negative integer below 2^32: unset
/// when absent or `null`.
pub open spec fn optional_u32_of(field: Option<Json>) -> Option<Option<u32>> {
    match field {
        None => Some(None),
        Some(Json::Null) => Some(None),
        Some(Json::Number(Some(n))) => if n <= u32::MAX {
            Some(Some(n as u32))
        } else {
            None
        },
        _ => None,
    }
}

/// A required member that is an array of strings.
pub open spec fn texts_of(field: Option<Json>) -> Option<Seq<Seq<char>>> {
    match field {
        Some(Json::Array(items)) => if forall|i: int|
            0 <= i < items.len() ==> #[trigger] text_of(Some(items[i])) is Some {
            Some(Seq::new(items.len(), |i: int| text_of(Some(items[i]))->0))
        } else {
            None
        },
        _ => None,
    }
}

/// The revision description that a JSON object holds.
pub open spec fn git_info_of(doc: Json) -> Option<GitInfoView> {
    let branch = text_of(member_of(doc, "branch"@));
    let commit = text_of(member_of(doc, "commit"@));
    let remote = text_of(member_of(doc, "remote"@));
    if branch is Some && commit is Some && remote is Some {
        Some(GitInfoView { branch: branch->0, commit: commit->0, remote: remote->0 })
    } else {
        None
    }
}

/// The instance description that a JSON object holds.
pub open spec fn cobalt_info_of(doc: Json) -> Option<CobaltInfoView> {
    let version = text_of(member_of(doc, "version"@));
    let url = text_of(member_of(doc, "url"@));
    let start_time = text_of(member_of(doc, "startTime"@));
    let turnstile_sitekey = text_of(member_of(doc, "turnstileSitekey"@));
    let services = texts_of(member_of(doc, "services"@));
    if version is Some && url is Some && start_time is Some && turnstile_sitekey is Some
        && services is Some {
        Some(
            CobaltInfoView {
                version: version->0,
                url: url->0,
                start_time: start_time->0,
                turnstile_sitekey: turnstile_sitekey->0,
                services: services->0,
            },
        )
    } else {
        None
    }
}

/// The instance information that a JSON document holds.
pub open spec fn info_of(doc: Json) -> Option<InfoResponseView> {
    let cobalt = match member_of(doc, "cobalt"@) {
        Some(inner) => cobalt_info_of(inner),
        None => None,
    };
    let git = match member_of(doc, "git"@) {
        Some(inner) => git_info_of(inner),
        None => None,
    };
    if cobalt is Some && git is Some {
        Some(InfoResponseView { cobalt: cobalt->0, git: git->0 })
    } else {
        None
    }
}

/// The media tags that a JSON object holds.
pub open spec fn metadata_of(doc: Json) -> Option<OutputMetadataView> {
    let album = optional_text_of(member_of(doc, "album"@));
    let copyright = optional_text_of(member_of(doc, "copyright"@));
    let title = optional_text_of(member_of(doc, "title"@));
    let artist = optional_text_of(member_of(doc, "artist"@));
    let track = optional_text_of(member_of(doc, "track"@));
    let date = optional_text_of(member_of(doc, "date"@));
    if doc is Object && album is Some && copyright is Some && title is Some && artist is Some
        && track is Some && date is Some {
        Some(
            OutputMetadataView {
                album: album->0,
                copyright: copyright->0,
                title: title->0,
                artist: artist->0,
                track: track->0,
                date: date->0,
            },
        )
    } else {
        None
    }
}

/// An optional member that holds media tags.
pub open spec fn optional_metadata_of(field: Option<Json>) -> Option<Option<OutputMetadataView>> {
    match field {
        None => Some(None),
        Some(Json::Null) => Some(None),
        Some(inner) => match metadata_of(inner) {
            Some(m) => Some(Some(m)),
            None => None,
        },
    }
}

/// The output description that a JSON object holds.
pub open spec fn output_of(doc: Json) -> Option<OutputView> {
    let mime_type = text_of(member_of(doc, "type"@));
    let filename = text_of(member_of(doc, "filename"@));
    let metadata = optional_metadata_of(member_of(doc, "metadata"@));
    if mime_type is Some && filename is Some && metadata is Some {
        Some(OutputView { mime_type: mime_type->0, filename: filename->0, metadata: metadata->0 })
    } else {
        None
    }
}

/// The audio treatment that a JSON object holds.
pub open spec fn audio_of(doc: Json) -> Option<AudioView> {
    let copy = bool_of(member_of(doc, "copy"@));
    let format = text_of(member_of(doc, "format"@));
    let bitrate = text_of(member_of(doc, "bitrate"@));
    if copy is Some && format is Some && bitrate is Some {
        Some(AudioView { copy: copy->0, format: format->0, bitrate: bitrate->0 })
    } else {
        None
    }
}

/// An optional member that holds an audio treatment.
pub open spec fn optional_audio_of(field: Option<Json>) -> Option<Option<AudioView>> {
    match field {
        None => Some(None),
        Some(Json::Null) => Some(None),
        Some(inner) => match audio_of(inner) {
            Some(a) => Some(Some(a)),
            None => None,
        },
    }
}

/// The picker item that a JSON object holds.
pub open spec fn picker_item_of(doc: Json) -> Option<PickerItemView> {
    let kind = text_of(member_of(doc, "type"@));
    let url = text_of(member_of(doc, "url"@));
    let thumb = optional_text_of(member_of(doc, "thumb"@));
    if kind is Some && url is Some && thumb is Some {
        Some(PickerItemView { kind: kind->0, url: url->0, thumb: thumb->0 })
    } else {
        None
    }
}

/// A required member that is an array of picker items.
pub open spec fn picker_items_of(field: Option<Json>) -> Option<Seq<PickerItemView>> {
    match field {
        Some(Json::Array(items)) => if forall|i: int|
            0 <= i < items.len() ==> #[trigger] picker_item_of(items[i]) is Some {
            Some(Seq::new(items.len(), |i: int| picker_item_of(items[i])->0))
        } else {
            None
        },
        _ => None,
    }
}

/// The error context that a JSON object holds.
pub open spec fn error_context_of(doc: Json) -> Option<ErrorContextView> {
    let service = optional_text_of(member_of(doc, "service"@));
    let limit = optional_u32_of(member_of(doc, "limit"@));
    if doc is Object && service is Some && limit is Some {
        Some(ErrorContextView { service: service->0, limit: limit->0 })
    } else {
        None
    }
}

/// An optional member that holds an error context.
pub open spec fn optional_error_context_of(field: Option<Json>) -> Option<Option<ErrorContextView>> {
    match field {
        None => Some(None),
        Some(Json::Null) => Some(None),
        Some(inner) => match error_context_of(inner) {
            Some(c) => Some(Some(c)),
            None => None,
        },
    }
}

/// The error report that a JSON object holds.
pub open spec fn error_of(doc: Json) -> Option<CobaltErrorView> {
    let code = text_of(member_of(doc, "code"@));
    let context = optional_error_context_of(member_of(doc, "context"@));
    if code is Some && context is Some {
        Some(CobaltErrorView { code: code->0, context: context->0 })
    } else {
        None
    }
}

/// The processing step that a required string member names.
pub open spec fn kind_of(field: Option<Json>) -> Option<LocalProcessingKind> {
    match text_of(field) {
        Some(name) => if name == "merge"@ {
            Some(LocalProcessingKind::Merge)
        } else if name == "mute"@ {
            Some(LocalProcessingKind::Mute)
        } else if name == "audio"@ {
            Some(LocalProcessingKind::Audio)
        } else if name == "gif"@ {
            Some(LocalProcessingKind::Gif)
        } else if name == "remux"@ {
            Some(LocalProcessingKind::Remux)
        } else {
            None
        },
        None => None,
    }
}

/// The tunnel or redirect target that a reply holds.
pub open spec fn target_of(doc: Json) -> Option<(Seq<char>, Seq<char>)> {
    let url = text_of(member_of(doc, "url"@));
    let filename = text_of(member_of(doc, "filename"@));
    if url is Some && filename is Some {
        Some((url->0, filename->0))
    } else {
        None
    }
}

/// The request for local processing that a reply holds.
pub open spec fn local_processing_of(doc: Json) -> Option<DownloadResponseView> {
    let kind = kind_of(member_of(doc, "type"@));
    let service = text_of(member_of(doc, "service"@));
    let tunnel = texts_of(member_of(doc, "tunnel"@));
    let output = match member_of(doc, "output"@) {
        Some(inner) => output_of(inner),
        None => None,
    };
    let audio = optional_audio_of(member_of(doc, "audio"@));
    let is_hls = optional_bool_of(member_of(doc, "isHLS"@));
    if kind is Some && service is Some && tunnel is Some && output is Some && audio is Some
        && is_hls is Some {
        Some(
            DownloadResponseView::LocalProcessing {
                kind: kind->0,
                service: service->0,
                tunnel: tunnel->0,
                output: output->0,
                audio: audio->0,
                is_hls: is_hls->0,
            },
        )
    } else {
        None
    }
}

/// The picker that a reply holds.
pub open spec fn picker_of(doc: Json) -> Option<DownloadResponseView> {
    let picker = picker_items_of(member_of(doc, "picker"@));
    let audio = optional_text_of(member_of(doc, "audio"@));
    let audio_filename = optional_text_of(member_of(doc, "audioFilename"@));
    if picker is Some && audio is Some && audio_filename is Some {
        Some(
            DownloadResponseView::Picker {
                picker: picker->0,
                audio: audio->0,
                audio_filename: audio_filename->0,
            },
        )
    } else {
        None
    }
}

/// The answer that a JSON document holds: its string member `status` selects
/// the shape, and the members of that shape must all decode.
pub open spec fn response_of(doc: Json) -> Option<DownloadResponseView> {
    match text_of(member_of(doc, "status"@)) {
        Some(status) => if status == "tunnel"@ {
            match target_of(doc) {
                Some((url, filename)) => Some(DownloadResponseView::Tunnel { url, filename }),
                None => None,
            }
        } else if status == "redirect"@ {
            match target_of(doc) {
                Some((url, filename)) => Some(DownloadResponseView::Redirect { url, filename }),
                None => None,
            }
        } else if status == "local-processing"@ {
            local_processing_of(doc)
        } else if status == "picker"@ {
            picker_of(doc)
        } else if status == "error"@ {
            match member_of(doc, "error"@) {
                Some(inner) => match error_of(inner) {
                    Some(error) => Some(DownloadResponseView::Error { error }),
                    None => None,
                },
                None => None,
            }
        } else {
            None
        },
        None => None,
    }
}

/// The answer that a reply body holds, if it is one well-formed JSON document
/// of a known shape.
pub open spec fn decoded(body: Seq<char>) -> Option<DownloadResponseView> {
    match parsed_json(body) {
        Some(doc) => response_of(doc),
        None => None,
    }
}

/// The instance information that a reply body holds, if it is one well-formed
/// JSON document of that shape.
pub open spec fn decoded_info(body: Seq<char>) -> Option<InfoResponseView> {
    match parsed_json(body) {
        Some(doc) => info_of(doc),
        None => None,
    }
}

fn required_text(doc: &Value, key: &str) -> (r: Result<String, DecodeError>)
    ensures
        agrees(r, text_of(member_of(json_of(*doc), key@))),
{
    match member(doc, key) {
        Some(field) => match field.as_str() {
            Some(s) => Ok(s.to_owned()),
            None => Err(DecodeError),
        },
        None => Err(DecodeError),
    }
}

fn optional_text(doc: &Value, key: &str) -> (r: Result<Option<String>, DecodeError>)
    ensures
        agrees(r, optional_text_of(member_of(json_of(*doc), key@))),
{
    match member(doc, key) {
        Some(field) => {
            if field.is_null() {
                Ok(None)
            } else {
                match field.as_str() {
                    Some(s) => Ok(Some(s.to_owned())),
                    None => Err(DecodeError),
                }
            }
        },
        None => Ok(None),
    }
}

fn required_bool(doc: &Value, key: &str) -> (r: Result<bool, DecodeError>)
    ensures
        agrees(r, bool_of(member_of(json_of(*doc), key@))),
{
    match member(doc, key) {
        Some(field) => match field.as_bool() {
            Some(b) => Ok(b),
            None => Err(DecodeError),
        },
        None => Err(DecodeError),
    }
}

fn optional_bool(doc: &Value, key: &str) -> (r: Result<Option<bool>, DecodeError>)
    ensures
        agrees(r, optional_bool_of(member_of(json_of(*doc), key@))),
{
    match member(doc, key) {
        Some(field) => {
            if field.is_null() {
                Ok(None)
            } else {
                match field.as_bool() {
                    Some(b) => Ok(Some(b)),
                    None => Err(DecodeError),
                }
            }
        },
        None => Ok(None),
    }
}

fn optional_u32(doc: &Value, key: &str) -> (r: Result<Option<u32>, DecodeError>)
    ensures
        agrees(r, optional_u32_of(member_of(json_of(*doc), key@))),
{
    match member(doc, key) {
        Some(field) => {
            if field.is_null() {
                Ok(None)
            } else {
                match field.as_u64() {
                    Some(n) => {
                        if n <= 0xFFFF_FFFFu64 {
                            Ok(Some(n as u32))
                        } else {
                            Err(DecodeError)
                        }
                    },
                    None => Err(DecodeError),
                }
            }
        },
        None => Ok(None),
    }
}

fn texts(items: &Vec<Value>) -> (r: Result<Vec<String>, DecodeError>)
    ensures
        agrees(r, texts_of(Some(Json::Array(jsons_of(items@))))),
{
    let ghost docs = jsons_of(items@);
    let mut texts: Vec<String> = Vec::new();
    let mut i: usize = 0;
    while i < items.len()
        invariant
            i <= items.len(),
            docs == jsons_of(items@),
            texts@.len() == i,
            forall|j: int| 0 <= j < i ==> text_of(Some(docs[j])) == Some(#[trigger] texts@[j]@),
        decreases items.len() - i,
    {
        match items[i].as_str() {
            Some(s) => {
                texts.push(s.to_owned());
            },
            None => {
                assert(text_of(Some(docs[i as int])) is None);
                return Err(DecodeError);
            },
        }
        i += 1;
    }
    proof {
        assert forall|j: int| 0 <= j < docs.len() implies #[trigger] text_of(Some(docs[j]))
            == Some(texts@[j]@) by {
            assert(texts@[j]@ == texts@[j]@);
        }
        assert(texts.deep_view() =~= Seq::new(docs.len(), |j: int| text_of(Some(docs[j]))->0));
    }
    Ok(texts)
}

fn required_texts(doc: &Value, key: &str) -> (r: Result<Vec<String>, DecodeError>)
    ensures
        agrees(r, texts_of(member_of(json_of(*doc), key@))),
{
    match member(doc, key) {
        Some(field) => match field.as_array() {
            Some(items) => texts(items),
            None => Err(DecodeError),
        },
        None => Err(DecodeError),
    }
}

fn decode_git_info(doc: &Value) -> (r: Result<GitInfo, DecodeError>)
    ensures
        agrees(r, git_info_of(json_of(*doc))),
{
    let branch = required_text(doc, "branch")?;
    let commit = required_text(doc, "commit")?;
    let remote = required_text(doc, "remote")?;
    Ok(GitInfo { branch, commit, remote })
}

fn decode_cobalt_info(doc: &Value) -> (r: Result<CobaltInfo, DecodeError>)
    ensures
        agrees(r, cobalt_info_of(json_of(*doc))),
{
    let version = required_text(doc, "version")?;
    let url = required_text(doc, "url")?;
    let start_time = required_text(doc, "startTime")?;
    let turnstile_sitekey = required_text(doc, "turnstileSitekey")?;
    let services = required_texts(doc, "services")?;
    Ok(CobaltInfo { version, url, start_time, turnstile_sitekey, services })
}

/// Decodes the description of a resolver instance from a parsed document.
pub fn decode_info_response(doc: &Value) -> (r: Result<InfoResponse, DecodeError>)
    ensures
        agrees(r, info_of(json_of(*doc))),
{
    let cobalt = match member(doc, "cobalt") {
        Some(inner) => decode_cobalt_info(inner)?,
        None => {
            return Err(DecodeError);
        },
    };
    let git = match member(doc, "git") {
        Some(inner) => decode_git_info(inner)?,
        None => {
            return Err(DecodeError);
        },
    };
    Ok(InfoResponse { cobalt, git })
}

fn decode_metadata(doc: &Value) -> (r: Result<OutputMetadata, DecodeError>)
    ensures
        agrees(r, metadata_of(json_of(*doc))),
{
    if !doc.is_object() {
        return Err(DecodeError);
    }
    let album = optional_text(doc, "album")?;
    let copyright = optional_text(doc, "copyright")?;
    let title = optional_text(doc, "title")?;
    let artist = optional_text(doc, "artist")?;
    let track = optional_text(doc, "track")?;
    let date = optional_text(doc, "date")?;
    Ok(OutputMetadata { album, copyright, title, artist, track, date })
}

fn optional_metadata(doc: &Value, key: &str) -> (r: Result<Option<OutputMetadata>, DecodeError>)
    ensures
        agrees(r, optional_metadata_of(member_of(json_of(*doc), key@))),
{
    match member(doc, key) {
        Some(field) => {
            if field.is_null() {
                Ok(None)
            } else {
                let metadata = decode_metadata(field)?;
                Ok(Some(metadata))
            }
        },
        None => Ok(None),
    }
}

fn decode_output(doc: &Value) -> (r: Result<Output, DecodeError>)
    ensures
        agrees(r, output_of(json_of(*doc))),
{
    let mime_type = required_text(doc, "type")?;
    let filename = required_text(doc, "filename")?;
    let metadata = optional_metadata(doc, "metadata")?;
    Ok(Output { mime_type, filename, metadata })
}

fn decode_audio(doc: &Value) -> (r: Result<Audio, DecodeError>)
    ensures
        agrees(r, audio_of(json_of(*doc))),
{
    let copy = required_bool(doc, "copy")?;
    let format = required_text(doc, "format")?;
    let bitrate = required_text(doc, "bitrate")?;
    Ok(Audio { copy, format, bitrate })
}

fn optional_audio(doc: &Value, key: &str) -> (r: Result<Option<Audio>, DecodeError>)
    ensures
        agrees(r, optional_audio_of(member_of(json_of(*doc), key@))),
{
    match member(doc, key) {
        Some(field) => {
            if field.is_null() {
                Ok(None)
            } else {
                let audio = decode_audio(field)?;
                Ok(Some(audio))
            }
        },
        None => Ok(None),
    }
}

fn decode_picker_item(doc: &Value) -> (r: Result<PickerItem, DecodeError>)
    ensures
        agrees(r, picker_item_of(json_of(*doc))),
{
    let kind = required_text(doc, "type")?;
    let url = required_text(doc, "url")?;
    let thumb = optional_text(doc, "thumb")?;
    Ok(PickerItem { kind, url, thumb })
}

fn picker_items(items: &Vec<Value>) -> (r: Result<Vec<PickerItem>, DecodeError>)
    ensures
        agrees(r, picker_items_of(Some(Json::Array(jsons_of(items@))))),
{
    let ghost docs = jsons_of(items@);
    let mut picker: Vec<PickerItem> = Vec::new();
    let mut i: usize = 0;
    while i < items.len()
        invariant
            i <= items.len(),
            docs == jsons_of(items@),
            picker@.len() == i,
            forall|j: int|
                0 <= j < i ==> picker_item_of(docs[j]) == Some(
                    (#[trigger] picker@[j]).deep_view(),
                ),
        decreases items.len() - i,
    {
        match decode_picker_item(&items[i]) {
            Ok(item) => {
                picker.push(item);
            },
            Err(e) => {
                assert(picker_item_of(docs[i as int]) is None);
                return Err(e);
            },
        }
        i += 1;
    }
    proof {
        assert forall|j: int| 0 <= j < docs.len() implies #[trigger] picker_item_of(docs[j])
            == Some(picker@[j].deep_view()) by {
            assert(picker@[j] == picker@[j]);
        }
        assert(picker.deep_view() =~= Seq::new(docs.len(), |j: int| picker_item_of(docs[j])->0));
    }
    Ok(picker)
}

fn required_picker_items(doc: &Value, key: &str) -> (r: Result<Vec<PickerItem>, DecodeError>)
    ensures
        agrees(r, picker_items_of(member_of(json_of(*doc), key@))),
{
    match member(doc, key) {
        Some(field) => match field.as_array() {
            Some(items) => picker_items(items),
            None => Err(DecodeError),
        },
        None => Err(DecodeError),
    }
}

fn decode_error_context(doc: &Value) -> (r: Result<ErrorContext, DecodeError>)
    ensures
        agrees(r, error_context_of(json_of(*doc))),
{
    if !doc.is_object() {
        return Err(DecodeError);
    }
    let service = optional_text(doc, "service")?;
    let limit = optional_u32(doc, "limit")?;
    Ok(ErrorContext { service, limit })
}

fn optional_error_context(doc: &Value, key: &str) -> (r: Result<Option<ErrorContext>, DecodeError>)
    ensures
        agrees(r, optional_error_context_of(member_of(json_of(*doc), key@))),
{
    match member(doc, key) {
        Some(field) => {
            if field.is_null() {
                Ok(None)
            } else {
                let context = decode_error_context(field)?;
                Ok(Some(context))
            }
        },
        None => Ok(None),
    }
}

fn decode_error(doc: &Value) -> (r: Result<CobaltError, DecodeError>)
    ensures
        agrees(r, error_of(json_of(*doc))),
{
    let code = required_text(doc, "code")?;
    let context = optional_error_context(doc, "context")?;
    Ok(CobaltError { code, context })
}

fn required_kind(doc: &Value, key: &str) -> (r: Result<LocalProcessingKind, DecodeError>)
    ensures
        match r {
            Ok(kind) => kind_of(member_of(json_of(*doc), key@)) == Some(kind),
            Err(_) => kind_of(member_of(json_of(*doc), key@)) is None,
        },
{
    let name = required_text(doc, key)?;
    if str_eq(name.as_str(), "merge") {
        Ok(LocalProcessingKind::Merge)
    } else if str_eq(name.as_str(), "mute") {
        Ok(LocalProcessingKind::Mute)
    } else if str_eq(name.as_str(), "audio") {
        Ok(LocalProcessingKind::Audio)
    } else if str_eq(name.as_str(), "gif") {
        Ok(LocalProcessingKind::Gif)
    } else if str_eq(name.as_str(), "remux") {
        Ok(LocalProcessingKind::Remux)
    } else {
        Err(DecodeError)
    }
}

fn decode_local_processing(doc: &Value) -> (r: Result<DownloadResponse, DecodeError>)
    ensures
        agrees(r, local_processing_of(json_of(*doc))),
{
    let kind = required_kind(doc, "type")?;
    let service = required_text(doc, "service")?;
    let tunnel = required_texts(doc, "tunnel")?;
    let output = match member(doc, "output") {
        Some(inner) => decode_output(inner)?,
        None => {
            return Err(DecodeError);
        },
    };
    let audio = optional_audio(doc, "audio")?;
    let is_hls = optional_bool(doc, "isHLS")?;
    Ok(DownloadResponse::LocalProcessing { kind, service, tunnel, output, audio, is_hls })
}

fn decode_picker(doc: &Value) -> (r: Result<DownloadResponse, DecodeError>)
    ensures
        agrees(r, picker_of(json_of(*doc))),
{
    let picker = required_picker_items(doc, "picker")?;
    let audio = optional_text(doc, "audio")?;
    let audio_filename = optional_text(doc, "audioFilename")?;
    Ok(DownloadResponse::Picker { picker, audio, audio_filename })
}

/// Decodes the answer to a download request from a parsed document: the
/// answer of the shape that the member `status` names, or an error when the
/// document fits no shape.
pub fn decode_response(doc: &Value) -> (r: Result<DownloadResponse, DecodeError>)
    ensures
        agrees(r, response_of(json_of(*doc))),
{
    let status = required_text(doc, "status")?;
    if str_eq(status.as_str(), "tunnel") {
        let url = required_text(doc, "url")?;
        let filename = required_text(doc, "filename")?;
        Ok(DownloadResponse::Tunnel { url, filename })
    } else if str_eq(status.as_str(), "redirect") {
        let url = required_text(doc, "url")?;
        let filename = required_text(doc, "filename")?;
        Ok(DownloadResponse::Redirect { url, filename })
    } else if str_eq(status.as_str(), "local-processing") {
        decode_local_processing(doc)
    } else if str_eq(status.as_str(), "picker") {
        decode_picker(doc)
    } else if str_eq(status.as_str(), "error") {
        match member(doc, "error") {
            Some(inner) => {
                let error = decode_error(inner)?;
                Ok(DownloadResponse::Error { error })
            },
            None => Err(DecodeError),
        }
    } else {
        Err(DecodeError)
    }
}

/// Decodes the body of a reply to a download request. Succeeds exactly when
/// the body is one well-formed JSON document that fits one of the five
/// shapes, and then returns the answer it holds.
pub fn decode(body: &str) -> (r: Result<DownloadResponse, DecodeError>)
    ensures
        agrees(r, decoded(body@)),
{
    match parse_value(body) {
        Some(doc) => decode_response(&doc),
        None => Err(DecodeError),
    }
}

/// Decodes the body of a reply that describes a resolver instance.
pub fn decode_info(body: &str) -> (r: Result<InfoResponse, DecodeError>)
    ensures
        agrees(r, decoded_info(body@)),
{
    match parse_value(body) {
        Some(doc) => decode_info_response(&doc),
        None => Err(DecodeError),
    }
}

/// A reply whose `status` is "tunnel" and whose `url` and `filename` are
/// strings decodes to a tunnel with exactly those two, whatever else the
/// reply holds.
pub proof fn lemma_tunnel_decodes(members: Map<Seq<char>, Json>, url: Seq<char>, filename: Seq<char>)
    requires
        members.contains_key("status"@) && members["status"@] == Json::Text("tunnel"@),
        members.contains_key("url"@) && members["url"@] == Json::Text(url),
        members.contains_key("filename"@) && members["filename"@] == Json::Text(filename),
    ensures
        response_of(Json::Object(members)) == Some(DownloadResponseView::Tunnel { url, filename }),
{
}

/// A reply whose `status` is "error" and whose `error` is an object with a
/// string `code` decodes to an error that carries that code.
pub proof fn lemma_error_decodes(
    members: Map<Seq<char>, Json>,
    inner: Map<Seq<char>, Json>,
    code: Seq<char>,
)
    requires
        members.contains_key("status"@) && members["status"@] == Json::Text("error"@),
        members.contains_key("error"@) && members["error"@] == Json::Object(inner),
        inner.contains_key("code"@) && inner["code"@] == Json::Text(code),
        !inner.contains_key("context"@),
    ensures
        response_of(Json::Object(members)) == Some(
            DownloadResponseView::Error { error: CobaltErrorView { code, context: None } },
        ),
{
    // "error" is the only status of five characters
    reveal_strlit("error");
    reveal_strlit("tunnel");
    reveal_strlit("redirect");
    reveal_strlit("local-processing");
    reveal_strlit("picker");
    assert("error"@.len() == 5);
    assert("tunnel"@.len() == 6);
    assert("redirect"@.len() == 8);
    assert("local-processing"@.len() == 16);
    assert("picker"@.len() == 6);
}

/// A document without a string member `status`, or with one that names none
/// of the five shapes, decodes to nothing.
pub proof fn lemma_unknown_status_is_rejected(doc: Json)
    requires
        match text_of(member_of(doc, "status"@)) {
            Some(status) => status != "tunnel"@ && status != "redirect"@ && status
                != "local-processing"@ && status != "picker"@ && status != "error"@,
            None => true,
        },
    ensures
        response_of(doc) is None,
{
}

} // verus!
