//! Uploading images and serving them back.
use vstd::prelude::*;
use crate::ids::{uuid_text, uuid_to_text};
use crate::models::{
    DbError, Media, STATUS_BAD_REQUEST, STATUS_INTERNAL_ERROR, STATUS_NOT_FOUND, STATUS_OK,
};

verus! {

/// What an upload has gathered so far: the bytes, the file name and the
/// content type, as plain sequences.
pub type UploadSummary = (Seq<u8>, Seq<char>, Seq<char>);

/// One piece of a multipart upload, in the order it arrives: the start of a
/// part (with the file name and content type it declares, if any) or a
/// chunk of a part's bytes.
pub enum UploadEvent {
    Part { file_name: Option<String>, content_type: Option<String> },
    Chunk(Vec<u8>),
}

/// What an upload holds before any part arrived.
pub open spec fn initial_summary() -> UploadSummary {
    (Seq::empty(), "upload.bin"@, "application/octet-stream"@)
}

/// What one piece adds to an upload: a part's declared name and type replace
/// the current ones, a chunk's bytes are appended.
pub open spec fn summary_step(s: UploadSummary, e: UploadEvent) -> UploadSummary {
    match e {
        UploadEvent::Part { file_name, content_type } => (
            s.0,
            match file_name {
                Some(n) => n@,
                None => s.1,
            },
            match content_type {
                Some(t) => t@,
                None => s.2,
            },
        ),
        UploadEvent::Chunk(bytes) => (s.0 + bytes@, s.1, s.2),
    }
}

/// What an upload holds after the pieces `events`, one after the other.
pub open spec fn summary_after(events: Seq<UploadEvent>) -> UploadSummary
    decreases events.len(),
{
    if events.len() == 0 {
        initial_summary()
    } else {
        summary_step(summary_after(events.drop_last()), events.last())
    }
}

/// All chunk bytes among `events`, in order.
pub open spec fn all_chunks(events: Seq<UploadEvent>) -> Seq<u8>
    decreases events.len(),
{
    if events.len() == 0 {
        Seq::empty()
    } else {
        all_chunks(events.drop_last()) + match events.last() {
            UploadEvent::Chunk(bytes) => bytes@,
            UploadEvent::Part { .. } => Seq::empty(),
        }
    }
}

/// The last file name a part declared among `events`, else `default`.
pub open spec fn last_file_name(events: Seq<UploadEvent>, default: Seq<char>) -> Seq<char>
    decreases events.len(),
{
    if events.len() == 0 {
        default
    } else {
        match events.last() {
            UploadEvent::Part { file_name: Some(n), .. } => n@,
            _ => last_file_name(events.drop_last(), default),
        }
    }
}

/// An upload being received.
pub struct UploadState {
    pub file_data: Vec<u8>,
    pub file_name: String,
    pub file_type: String,
}

impl UploadState {
    /// The upload as plain sequences.
    pub open spec fn summary(&self) -> UploadSummary {
        (self.file_data@, self.file_name@, self.file_type@)
    }

    /// An upload that has received nothing: no bytes, the name `upload.bin`
    /// and the type `application/octet-stream`.
    pub fn new() -> (r: UploadState)
        ensures
            r.summary() == initial_summary(),
    {
        UploadState {
            file_data: Vec::new(),
            file_name: "upload.bin".to_string(),
            file_type: "application/octet-stream".to_string(),
        }
    }

    /// Takes in the next piece of the upload.
    pub fn receive(&mut self, event: UploadEvent)
        ensures
            final(self).summary() == summary_step(old(self).summary(), event),
    {
        match event {
            UploadEvent::Part { file_name, content_type } => {
                if let Some(n) = file_name {
                    self.file_name = n;
                }
                if let Some(t) = content_type {
                    self.file_type = t;
                }
            },
            UploadEvent::Chunk(bytes) => {
                let mut bytes = bytes;
                self.file_data.append(&mut bytes);
            },
        }
    }
}

/// An answer of the media endpoints, whose bodies are not the JSON envelope
/// of the other endpoints.
pub enum MediaBody {
    /// A JSON string.
    Message(String),
    /// `{"id": ..., "url": ...}` of a stored upload.
    Stored { id: u128, url: String },
    /// The stored file itself, with its content type and caching header.
    File { content_type: String, cache_control: String, data: Vec<u8> },
}

/// A status and a media body.
pub struct MediaReply {
    pub status: u16,
    pub body: MediaBody,
}

/// The reply is the JSON string `text` with status `status`.
pub open spec fn is_message(r: MediaReply, status: u16, text: Seq<char>) -> bool {
    &&& r.status == status
    &&& r.body matches MediaBody::Message(m)
    &&& m@ == text
}

/// Refuses to store an upload that brought no bytes.
pub fn check_upload(upload: &UploadState) -> (r: Result<(), MediaReply>)
    ensures
        match r {
            Ok(()) => upload.file_data@.len() > 0,
            Err(m) => upload.file_data@.len() == 0 && is_message(
                m,
                STATUS_BAD_REQUEST,
                "No file uploaded or file empty"@,
            ),
        },
{
    if upload.file_data.len() == 0 {
        Err(MediaReply {
            status: STATUS_BAD_REQUEST,
            body: MediaBody::Message("No file uploaded or file empty".to_string()),
        })
    } else {
        Ok(())
    }
}

/// The address an upload is served at: the public base address, then
/// `/api/media/` and the upload's id.
pub fn media_url(public_api_url: &str, id: u128) -> (r: String)
    ensures
        r@ == public_api_url@ + "/api/media/"@ + uuid_text(id),
{
    let mut url = public_api_url.to_string();
    url.append("/api/media/");
    let id_text = uuid_to_text(id);
    url.append(id_text.as_str());
    url
}

/// Answer to an upload once storing it was attempted.
pub fn upload_reply(stored: Result<(), DbError>, id: u128, url: String) -> (r: MediaReply)
    ensures
        match stored {
            Ok(()) => r.status == STATUS_OK && r.body == (MediaBody::Stored { id, url }),
            Err(_) => is_message(r, STATUS_INTERNAL_ERROR, "Failed to store image"@),
        },
{
    match stored {
        Ok(()) => MediaReply { status: STATUS_OK, body: MediaBody::Stored { id, url } },
        Err(_) => MediaReply {
            status: STATUS_INTERNAL_ERROR,
            body: MediaBody::Message("Failed to store image".to_string()),
        },
    }
}

/// How long clients may keep a served file: a year, never revalidated
/// (uploads are never changed in place).
pub open spec fn media_cache_control() -> Seq<char> {
    "public, max-age=31536000, immutable"@
}

/// Answer to fetching an upload by its id.
pub fn get_media_by_id(found: Result<Option<Media>, DbError>) -> (r: MediaReply)
    ensures
        match found {
            Ok(Some(m)) => {
                &&& r.status == STATUS_OK
                &&& r.body matches MediaBody::File { content_type, cache_control, data }
                &&& content_type == m.file_type
                &&& cache_control@ == media_cache_control()
                &&& data == m.file_data
            },
            Ok(None) => is_message(r, STATUS_NOT_FOUND, "Media not found"@),
            Err(_) => is_message(r, STATUS_INTERNAL_ERROR, "Database error"@),
        },
{
    match found {
        Ok(Some(m)) => MediaReply {
            status: STATUS_OK,
            body: MediaBody::File {
                content_type: m.file_type,
                cache_control: "public, max-age=31536000, immutable".to_string(),
                data: m.file_data,
            },
        },
        Ok(None) => MediaReply {
            status: STATUS_NOT_FOUND,
            body: MediaBody::Message("Media not found".to_string()),
        },
        Err(_) => MediaReply {
            status: STATUS_INTERNAL_ERROR,
            body: MediaBody::Message("Database error".to_string()),
        },
    }
}

/// An upload keeps every byte it was sent, in order, and the file name the
/// last part declared (`upload.bin` if none did).
pub proof fn upload_keeps_all_bytes(events: Seq<UploadEvent>)
    ensures
        summary_after(events).0 == all_chunks(events),
        summary_after(events).1 == last_file_name(events, "upload.bin"@),
    decreases events.len(),
{
    if events.len() > 0 {
        upload_keeps_all_bytes(events.drop_last());
    }
}

} // verus!
