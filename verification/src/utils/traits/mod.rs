use vstd::prelude::*;

pub use crate::utils::media::text::{TextBuffer, TextBufferInner};

use crate::utils::cache::output_cache::WriteDirs;
use crate::utils::media::text::{format_text_line, spec_text_line};
use crate::utils::media::{
    mime_parses, parsed_mime, request_content_type, spec_content_filename, spec_request_mimetype, spec_subdir, MediaContent, MediaError, MediaKind, MessageType,
    RoomMessageEvent,
};
use crate::utils::paths::{join, spec_join};

verus! {

/// How many files of media messages to concurrently download.
pub const MEDIA_DOWNLOAD_RATE: usize = 4;

/// Trait for events whose text is exported.
pub trait ProcessableTextEvent {
    /// Buffer the event's line of the text export, if it has one.
    fn send_to_process(&self, buffer: &mut TextBuffer);
}

impl<E> ProcessableTextEvent for RoomMessageEvent<E> {
    /// Text messages add their formatted line to the buffer; other messages add nothing.
    fn send_to_process(&self, buffer: &mut TextBuffer)
        ensures
            final(buffer).file == old(buffer).file,
            match self.content {
                MessageType::Text { body } => final(buffer)@ == old(buffer)@.push(
                    spec_text_line(self.metadata.timestamp@, self.metadata.sender@, body@),
                ),
                _ => final(buffer)@ == old(buffer)@,
            },
    {
        match &self.content {
            MessageType::Text { body } => {
                let line = format_text_line(
                    self.metadata.timestamp.as_str(),
                    self.metadata.sender.as_str(),
                    body.as_str(),
                );
                buffer.push_line(line);
            },
            _ => {},
        }
    }
}

/// Errors in preparing the download of a media message.
#[derive(Debug, Clone, Copy, PartialEq, Eq, Structural)]
pub enum MediaRequestError {
    /// The media content carries no info.
    MissingInfo,
    /// The media's MIME type does not parse.
    InvalidMimeType,
}

/// The media kind and content of a media message.
pub open spec fn message_media<E>(msgtype: MessageType<E>) -> Option<(MediaKind, MediaContent<E>)> {
    match msgtype {
        MessageType::File(c) => Some((MediaKind::File, c)),
        MessageType::Image(c) => Some((MediaKind::Image, c)),
        MessageType::Video(c) => Some((MediaKind::Video, c)),
        MessageType::Audio(c) => Some((MediaKind::Audio, c)),
        _ => None,
    }
}

/// The MIME type a media message's download asks for: that of its info (or arbitrary binary
/// data when the info has none), parsed; content without info is refused.
pub fn message_content_type<E>(content: &MediaContent<E>) -> (r: Result<mime::Mime, MediaRequestError>)
    ensures
        content.info is None <==> r == Err::<mime::Mime, MediaRequestError>(MediaRequestError::MissingInfo),
        content.info matches Some(info) ==> (r is Ok <==> mime_parses(
            spec_request_mimetype(info.mimetype.deep_view()),
        )),
        content.info matches Some(info) ==> (r matches Ok(m) ==> m == parsed_mime(
            spec_request_mimetype(info.mimetype.deep_view()),
        )),
        r matches Err(e) ==> content.info is Some ==> e == MediaRequestError::InvalidMimeType,
{
    match &content.info {
        None => Err(MediaRequestError::MissingInfo),
        Some(info) => match request_content_type(&info.mimetype) {
            Ok(m) => Ok(m),
            Err(MediaError::InvalidMimeType) => Err(MediaRequestError::InvalidMimeType),
        },
    }
}

/// Where a media message's download is saved: `{media dir}/{kind's subdir}/{file name}`,
/// or nothing for messages that are not media.
pub fn message_media_path<E>(msgtype: &MessageType<E>, dirs: &WriteDirs) -> (path: Option<String>)
    ensures
        match message_media(*msgtype) {
            Some((kind, c)) => path matches Some(p) && p@ == spec_join(
                spec_join(dirs@.media_dir, spec_subdir(kind)),
                spec_content_filename(c),
            ),
            None => path is None,
        },
{
    let (kind, content) = match msgtype {
        MessageType::File(c) => (MediaKind::File, c),
        MessageType::Image(c) => (MediaKind::Image, c),
        MessageType::Video(c) => (MediaKind::Video, c),
        MessageType::Audio(c) => (MediaKind::Audio, c),
        _ => {
            return None;
        },
    };
    let dir = join(dirs.media_dir().as_str(), kind.subdir());
    Some(join(dir.as_str(), content.filename().as_str()))
}


/// Each media message type is saved under its own subdirectory, with its content: files
/// under `Files`, images under `Images`, videos under `Video`, audio under `Audio`; text
/// and other messages download nothing.
pub proof fn law_media_messages_keep_their_kind<E>(c: MediaContent<E>, body: String, msgtype: String)
    ensures
        message_media(MessageType::File(c)) matches Some((k, d)) && d == c && k == MediaKind::File
            && spec_subdir(k) == "Files"@,
        message_media(MessageType::Image(c)) matches Some((k, d)) && d == c && k == MediaKind::Image
            && spec_subdir(k) == "Images"@,
        message_media(MessageType::Video(c)) matches Some((k, d)) && d == c && k == MediaKind::Video
            && spec_subdir(k) == "Video"@,
        message_media(MessageType::Audio(c)) matches Some((k, d)) && d == c && k == MediaKind::Audio
            && spec_subdir(k) == "Audio"@,
        message_media(MessageType::<E>::Text { body }) is None,
        message_media(MessageType::<E>::Other { msgtype }) is None,
{
}

} // verus!
