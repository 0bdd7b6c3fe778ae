use vstd::prelude::*;

pub mod text;

use crate::utils::cache::output_cache::WriteDirs;
use crate::utils::paths::{add_extension, join, spec_add_extension, spec_join};

verus! {

/// How many files to concurrently download.
///
/// This *should* get around any rate limits.
pub const MEDIA_DOWNLOAD_RATE: usize = 8;

/// Metadata common to all events.
#[derive(Clone, Debug, PartialEq, Eq)]
pub struct EventMetadata {
    /// The sender's user ID.
    pub sender: String,
    /// The origin server timestamp, as the exporter renders it.
    pub timestamp: String,
    /// The event ID.
    pub event_id: String,
}

/// Where the content of a media event is fetched from: a plain MXC URI, or an
/// encrypted file of type `E`.
#[derive(Clone, Debug)]
pub enum MediaSource<E> {
    Plain(String),
    Encrypted(E),
}

/// Metadata of media content.
#[derive(Clone, Debug)]
pub struct MediaInfo {
    /// The MIME type of the media, if given.
    pub mimetype: Option<String>,
}

/// Content of a file, image, video or audio message.
#[derive(Clone, Debug)]
pub struct MediaContent<E> {
    pub source: MediaSource<E>,
    /// The body: a file name, or a caption when `filename` is set.
    pub body: String,
    /// The original file name, if it differs from the body.
    pub filename: Option<String>,
    /// The content's info, if any.
    pub info: Option<MediaInfo>,
}

/// The MIME type given in the content's info, if any.
pub open spec fn spec_content_mimetype<E>(c: MediaContent<E>) -> Option<Seq<char>> {
    match c.info {
        Some(i) => i.mimetype.deep_view(),
        None => None,
    }
}

/// The file name of media content, as the Matrix SDK computes it: the `filename`
/// field, or else the body.
pub open spec fn spec_content_filename<E>(c: MediaContent<E>) -> Seq<char> {
    match c.filename {
        Some(f) => f@,
        None => c.body@,
    }
}

impl<E> MediaContent<E> {
    /// The file name of the content.
    pub fn filename(&self) -> (name: &String)
        ensures
            name@ == spec_content_filename(*self),
    {
        match &self.filename {
            Some(f) => f,
            None => &self.body,
        }
    }
}

/// The message type of a room message.
#[derive(Clone, Debug)]
pub enum MessageType<E> {
    Text { body: String },
    File(MediaContent<E>),
    Image(MediaContent<E>),
    Video(MediaContent<E>),
    Audio(MediaContent<E>),
    /// Any other message type, by its `msgtype` name.
    Other { msgtype: String },
}

/// An original (not redacted) room message event.
#[derive(Clone, Debug)]
pub struct RoomMessageEvent<E> {
    pub metadata: EventMetadata,
    pub content: MessageType<E>,
}

/// The kind of media, used for directories.
#[derive(Clone, Copy, Debug, PartialEq, Eq, Structural)]
pub enum MediaKind {
    File,
    Image,
    Video,
    Audio,
    UserAvatar,
    RoomAvatar,
}

/// The subdirectory of the media directory that holds media of `kind`.
pub open spec fn spec_subdir(kind: MediaKind) -> Seq<char> {
    match kind {
        MediaKind::File => "Files"@,
        MediaKind::Image => "Images"@,
        MediaKind::Video => "Video"@,
        MediaKind::Audio => "Audio"@,
        MediaKind::UserAvatar => "Avatars/Users"@,
        MediaKind::RoomAvatar => "Avatars/Rooms"@,
    }
}

impl MediaKind {
    /// Returns the subdirectory name for this media kind.
    pub fn subdir(&self) -> (dir: &'static str)
        ensures
            dir@ == spec_subdir(*self),
    {
        match self {
            MediaKind::File => "Files",
            MediaKind::Image => "Images",
            MediaKind::Video => "Video",
            MediaKind::Audio => "Audio",
            MediaKind::UserAvatar => "Avatars/Users",
            MediaKind::RoomAvatar => "Avatars/Rooms",
        }
    }

    /// All media subdirectories, one per kind, in declaration order.
    pub fn subdirs() -> (dirs: [&'static str; 6])
        ensures
            dirs@.len() == 6,
            dirs@[0]@ == spec_subdir(MediaKind::File),
            dirs@[1]@ == spec_subdir(MediaKind::Image),
            dirs@[2]@ == spec_subdir(MediaKind::Video),
            dirs@[3]@ == spec_subdir(MediaKind::Audio),
            dirs@[4]@ == spec_subdir(MediaKind::UserAvatar),
            dirs@[5]@ == spec_subdir(MediaKind::RoomAvatar),
    {
        ["Files", "Images", "Video", "Audio", "Avatars/Users", "Avatars/Rooms"]
    }
}


/// Type for any valid media-like event.
#[derive(Clone, Debug)]
pub struct DownloadableMedia<E> {
    pub source: MediaSource<E>,
    pub filename: String,
    pub mimetype: Option<String>,
    pub kind: MediaKind,
    pub metadata: EventMetadata,
}

/// Whether `m` is the media with the given source, file name, MIME type, kind and metadata.
pub open spec fn is_media<E>(
    m: DownloadableMedia<E>,
    source: MediaSource<E>,
    filename: Seq<char>,
    mimetype: Option<Seq<char>>,
    kind: MediaKind,
    metadata: EventMetadata,
) -> bool {
    &&& m.source == source
    &&& m.filename@ == filename
    &&& m.mimetype.deep_view() == mimetype
    &&& m.kind == kind
    &&& m.metadata == metadata
}

/// The media kind of a message type, if it is a media message.
pub open spec fn spec_message_media_kind<E>(msgtype: MessageType<E>) -> Option<MediaKind> {
    match msgtype {
        MessageType::File(_) => Some(MediaKind::File),
        MessageType::Image(_) => Some(MediaKind::Image),
        MessageType::Video(_) => Some(MediaKind::Video),
        MessageType::Audio(_) => Some(MediaKind::Audio),
        _ => None,
    }
}

/// The media content of a message type, if it is a media message.
pub open spec fn spec_message_media<E>(msgtype: MessageType<E>) -> Option<MediaContent<E>> {
    match msgtype {
        MessageType::File(c) => Some(c),
        MessageType::Image(c) => Some(c),
        MessageType::Video(c) => Some(c),
        MessageType::Audio(c) => Some(c),
        _ => None,
    }
}

/// Whether `r` is the media that a message of type `msgtype` with `metadata` downloads:
/// none for text and other types, and for media content its source, file name, MIME
/// type and kind.
pub open spec fn from_message_spec<E>(
    msgtype: MessageType<E>,
    metadata: EventMetadata,
    r: Option<DownloadableMedia<E>>,
) -> bool {
    match (spec_message_media(msgtype), spec_message_media_kind(msgtype)) {
        (Some(c), Some(kind)) => r matches Some(m) && is_media(
            m,
            c.source,
            spec_content_filename(c),
            spec_content_mimetype(c),
            kind,
            metadata,
        ),
        _ => r is None,
    }
}

/// File name under which a room avatar set at `timestamp` is saved.
pub open spec fn spec_room_avatar_name(timestamp: Seq<char>) -> Seq<char> {
    "room."@ + timestamp
}

fn content_mimetype<E>(content: &MediaContent<E>) -> (m: Option<String>)
    ensures
        m.deep_view() == spec_content_mimetype(*content),
{
    match &content.info {
        Some(info) => match &info.mimetype {
            Some(m) => Some(m.clone()),
            None => None,
        },
        None => None,
    }
}

fn media_of<E>(content: MediaContent<E>, kind: MediaKind, metadata: EventMetadata) -> (m:
    DownloadableMedia<E>)
    ensures
        is_media(
            m,
            content.source,
            spec_content_filename(content),
            spec_content_mimetype(content),
            kind,
            metadata,
        ),
{
    let filename = content.filename().clone();
    let mimetype = content_mimetype(&content);
    DownloadableMedia { source: content.source, filename, mimetype, kind, metadata }
}

impl<E> DownloadableMedia<E> {
    /// Create from a room message media type.
    pub fn from_message_type(msgtype: MessageType<E>, metadata: EventMetadata) -> (r: Option<Self>)
        ensures
            from_message_spec(msgtype, metadata, r),
    {
        match msgtype {
            MessageType::File(file) => Some(media_of(file, MediaKind::File, metadata)),
            MessageType::Image(image) => Some(media_of(image, MediaKind::Image, metadata)),
            MessageType::Video(video) => Some(media_of(video, MediaKind::Video, metadata)),
            MessageType::Audio(audio) => Some(media_of(audio, MediaKind::Audio, metadata)),
            _ => None,
        }
    }

    /// Create from a user avatar (m.room.member) event.
    ///
    /// The file has no extension yet; it is added once the download shows its type.
    pub fn from_member_avatar(avatar_url: Option<String>, metadata: EventMetadata) -> (r: Option<
        Self,
    >)
        ensures
            match avatar_url {
                Some(url) => r matches Some(m) && is_media(
                    m,
                    MediaSource::Plain(url),
                    metadata.sender@,
                    None,
                    MediaKind::UserAvatar,
                    metadata,
                ),
                None => r is None,
            },
    {
        match avatar_url {
            Some(url) => {
                let filename = metadata.sender.clone();
                Some(
                    DownloadableMedia {
                        source: MediaSource::Plain(url),
                        filename,
                        mimetype: None,
                        kind: MediaKind::UserAvatar,
                        metadata,
                    },
                )
            },
            None => None,
        }
    }

    /// Create from a room avatar (m.room.avatar) event.
    pub fn from_room_avatar(
        url: Option<String>,
        mimetype: Option<String>,
        metadata: EventMetadata,
    ) -> (r: Option<Self>)
        ensures
            match url {
                Some(url) => r matches Some(m) && is_media(
                    m,
                    MediaSource::Plain(url),
                    spec_room_avatar_name(metadata.timestamp@),
                    mimetype.deep_view(),
                    MediaKind::RoomAvatar,
                    metadata,
                ),
                None => r is None,
            },
    {
        match url {
            Some(url) => {
                let mut filename = String::from_str("room.");
                filename.append(metadata.timestamp.as_str());
                proof {
                    reveal_strlit("room.");
                }
                Some(
                    DownloadableMedia {
                        source: MediaSource::Plain(url),
                        filename,
                        mimetype,
                        kind: MediaKind::RoomAvatar,
                        metadata,
                    },
                )
            },
            None => None,
        }
    }
}

/// Content of a message-like event.
#[derive(Clone, Debug)]
pub enum MessageLikeContent<E> {
    RoomMessage(MessageType<E>),
    /// Any other message-like event (reactions, stickers, ...).
    Other,
}

/// A message-like event of the sync timeline.
#[derive(Clone, Debug)]
pub struct MessageLikeEvent<E> {
    pub metadata: EventMetadata,
    /// The original content; `None` when the event was redacted.
    pub content: Option<MessageLikeContent<E>>,
}

/// Content of a state event.
#[derive(Clone, Debug)]
pub enum StateContent {
    /// `m.room.member`, with the member's avatar URL if set.
    RoomMember { avatar_url: Option<String> },
    /// `m.room.avatar`, with the room avatar's URL and MIME type if set.
    RoomAvatar { url: Option<String>, mimetype: Option<String> },
    /// Any other state event.
    Other,
}

/// A state event of the sync timeline.
#[derive(Clone, Debug)]
pub struct StateEvent {
    pub metadata: EventMetadata,
    /// The original content; `None` when the event was redacted.
    pub content: Option<StateContent>,
}

/// An event of the sync timeline.
#[derive(Clone, Debug)]
pub enum SyncTimelineEvent<E> {
    MessageLike(MessageLikeEvent<E>),
    State(StateEvent),
}

/// An event of the full timeline, which carries its room ID.
#[derive(Clone, Debug)]
pub struct TimelineEvent<E> {
    pub room_id: String,
    pub event: SyncTimelineEvent<E>,
}

/// Types of events which can be processed.
#[derive(Clone, Debug)]
pub enum ProcessableEvent<E> {
    /// Text message content.
    Text { body: String, metadata: EventMetadata },
    /// Downloadable media content.
    Media(DownloadableMedia<E>),
}

/// Whether `r` is what processing `event` yields: the text of a text message, the media of
/// a media message or of a member or room avatar that has a URL, and nothing for redacted
/// and other events.
pub open spec fn try_from_sync_spec<E>(event: SyncTimelineEvent<E>, r: Option<ProcessableEvent<E>>) -> bool {
    match event {
        SyncTimelineEvent::MessageLike(ev) => match ev.content {
            Some(MessageLikeContent::RoomMessage(MessageType::Text { body })) => r matches Some(
                ProcessableEvent::Text { body: b, metadata },
            ) && b@ == body@ && metadata == ev.metadata,
            Some(MessageLikeContent::RoomMessage(msgtype)) => match spec_message_media(msgtype) {
                Some(_) => r matches Some(ProcessableEvent::Media(m)) && from_message_spec(
                    msgtype,
                    ev.metadata,
                    Some(m),
                ),
                None => r is None,
            },
            _ => r is None,
        },
        SyncTimelineEvent::State(ev) => match ev.content {
            Some(StateContent::RoomMember { avatar_url: Some(url) }) => r matches Some(
                ProcessableEvent::Media(m),
            ) && is_media(
                m,
                MediaSource::Plain(url),
                ev.metadata.sender@,
                None,
                MediaKind::UserAvatar,
                ev.metadata,
            ),
            Some(StateContent::RoomAvatar { url: Some(url), mimetype }) => r matches Some(
                ProcessableEvent::Media(m),
            ) && is_media(
                m,
                MediaSource::Plain(url),
                spec_room_avatar_name(ev.metadata.timestamp@),
                mimetype.deep_view(),
                MediaKind::RoomAvatar,
                ev.metadata,
            ),
            _ => r is None,
        },
    }
}

impl<E> ProcessableEvent<E> {
    pub fn try_from_sync(event: SyncTimelineEvent<E>) -> (r: Option<Self>)
        ensures
            try_from_sync_spec(event, r),
    {
        match event {
            SyncTimelineEvent::MessageLike(msg) => Self::from_sync_message_like(msg),
            SyncTimelineEvent::State(state) => Self::from_sync_state(state),
        }
    }

    /// Convenience fn, drops the room ID and calls [`Self::try_from_sync`].
    pub fn try_from_full(event: TimelineEvent<E>) -> (r: Option<Self>)
        ensures
            try_from_sync_spec(event.event, r),
    {
        Self::try_from_sync(event.event)
    }

    fn from_sync_message_like(event: MessageLikeEvent<E>) -> (r: Option<Self>)
        ensures
            try_from_sync_spec(SyncTimelineEvent::MessageLike(event), r),
    {
        let metadata = event.metadata;
        match event.content {
            Some(MessageLikeContent::RoomMessage(msgtype)) => match msgtype {
                MessageType::Text { body } => Some(ProcessableEvent::Text { body, metadata }),
                other => match DownloadableMedia::from_message_type(other, metadata) {
                    Some(m) => Some(ProcessableEvent::Media(m)),
                    None => None,
                },
            },
            _ => None,
        }
    }

    fn from_sync_state(event: StateEvent) -> (r: Option<Self>)
        ensures
            try_from_sync_spec(SyncTimelineEvent::<E>::State(event), r),
    {
        let metadata = event.metadata;
        match event.content {
            Some(StateContent::RoomMember { avatar_url }) => match DownloadableMedia::from_member_avatar(
                avatar_url,
                metadata,
            ) {
                Some(m) => Some(ProcessableEvent::Media(m)),
                None => None,
            },
            Some(StateContent::RoomAvatar { url, mimetype }) => match DownloadableMedia::from_room_avatar(
                url,
                mimetype,
                metadata,
            ) {
                Some(m) => Some(ProcessableEvent::Media(m)),
                None => None,
            },
            _ => None,
        }
    }
}

/// The media of `events`, in order.
pub open spec fn media_of_events<E>(events: Seq<ProcessableEvent<E>>) -> Seq<DownloadableMedia<E>>
    decreases events.len(),
{
    if events.len() == 0 {
        Seq::empty()
    } else {
        match events.last() {
            ProcessableEvent::Media(m) => media_of_events(events.drop_last()).push(m),
            _ => media_of_events(events.drop_last()),
        }
    }
}

/// The media events of a list of processable events, in order: what is sent on to be
/// downloaded.
pub fn collect_media<E>(events: Vec<ProcessableEvent<E>>) -> (media: Vec<DownloadableMedia<E>>)
    ensures
        media@ == media_of_events(events@),
{
    let ghost s = events@;
    let mut media: Vec<DownloadableMedia<E>> = Vec::new();
    for ev in it: events
        invariant
            it.seq() == s,
            media@ == media_of_events(s.take(it.index() as int)),
    {
        let ghost i = it.index() as int;
        proof {
            assert(s.take(i + 1).drop_last() =~= s.take(i));
            assert(s.take(i + 1).last() == ev);
        }
        match ev {
            ProcessableEvent::Media(m) => media.push(m),
            _ => {},
        }
    }
    proof {
        assert(s.take(s.len() as int) =~= s);
    }
    media
}


#[verifier::external_type_specification]
#[verifier::external_body]
pub struct ExMime(mime::Mime);

/// Whether the `mime` crate parses `s` as a MIME type.
pub uninterp spec fn mime_parses(s: Seq<char>) -> bool;

/// The MIME type that the `mime` crate parses `s` into, where it parses it.
pub uninterp spec fn parsed_mime(s: Seq<char>) -> mime::Mime;

/// Parses a MIME type.
///
/// Calls `<mime::Mime as FromStr>::from_str`. Claimed: the result is a value exactly when
/// the crate's parser accepts `s`, and that value is the crate's parse of `s`; both are
/// functions of `s` alone. What the parsed value holds is left to the crate.
#[verifier::external_body]
fn parse_mime(s: &str) -> (r: Option<mime::Mime>)
    ensures
        r is Some <==> mime_parses(s@),
        r matches Some(m) ==> m == parsed_mime(s@),
{
    s.parse::<mime::Mime>().ok()
}

/// The MIME type of arbitrary binary data, as text.
///
/// Renders `mime::APPLICATION_OCTET_STREAM`, whose source string the crate defines as
/// `application/octet-stream` and whose `Display` writes that source.
#[verifier::external_body]
fn octet_stream() -> (s: String)
    ensures
        s@ == "application/octet-stream"@,
{
    mime::APPLICATION_OCTET_STREAM.to_string()
}

/// Errors in preparing a media download.
#[derive(Debug, Clone, Copy, PartialEq, Eq, Structural)]
pub enum MediaError {
    /// The media's MIME type does not parse.
    InvalidMimeType,
}

/// The MIME type a download asks for: the media's own, or else arbitrary binary data.
pub open spec fn spec_request_mimetype(mimetype: Option<Seq<char>>) -> Seq<char> {
    match mimetype {
        Some(m) => m,
        None => "application/octet-stream"@,
    }
}

/// `s` with every `.` removed.
pub open spec fn without_dots(s: Seq<char>) -> Seq<char>
    decreases s.len(),
{
    if s.len() == 0 {
        s
    } else if s.last() == '.' {
        without_dots(s.drop_last())
    } else {
        without_dots(s.drop_last()).push(s.last())
    }
}

/// `s` with every `.` removed.
pub fn remove_dots(s: &str) -> (r: String)
    ensures
        r@ == without_dots(s@),
{
    let len = s.unicode_len();
    let mut r = String::new();
    let mut i: usize = 0;
    while i < len
        invariant
            0 <= i <= len == s@.len(),
            r@ == without_dots(s@.take(i as int)),
        decreases len - i,
    {
        proof {
            assert(s@.take(i + 1).drop_last() =~= s@.take(i as int));
        }
        if s.get_char(i) != '.' {
            let c = s.substring_char(i, i + 1);
            r.append(c);
            proof {
                assert(c@ =~= seq![s@[i as int]]);
            }
        }
        i = i + 1;
    }
    proof {
        assert(s@.take(len as int) =~= s@);
    }
    r
}

/// Whether media of `kind` is an avatar, which is saved without a known file type.
pub open spec fn is_avatar(kind: MediaKind) -> bool {
    kind == MediaKind::UserAvatar || kind == MediaKind::RoomAvatar
}

/// The name a download of `m` is saved under, given the file extension detected from the
/// downloaded bytes: avatars get the detected extension (without its dots) appended.
pub open spec fn spec_target_file_name<E>(m: DownloadableMedia<E>, detected_extension: Seq<char>) -> Seq<char> {
    if is_avatar(m.kind) {
        spec_add_extension(m.filename@, without_dots(detected_extension))
    } else {
        m.filename@
    }
}

/// The name a download is saved under when its first name is taken:
/// `{timestamp} - {file name}`.
pub open spec fn spec_renamed_file_name(timestamp: Seq<char>, file_name: Seq<char>) -> Seq<char> {
    timestamp + " - "@ + file_name
}

/// The MIME type a download asks for, given the media's own if it has one, parsed.
pub fn request_content_type(mimetype: &Option<String>) -> (r: Result<mime::Mime, MediaError>)
    ensures
        r is Ok <==> mime_parses(spec_request_mimetype(mimetype.deep_view())),
        r matches Ok(m) ==> m == parsed_mime(spec_request_mimetype(mimetype.deep_view())),
        r matches Err(e) ==> e == MediaError::InvalidMimeType,
{
    let requested = match mimetype {
        Some(m) => m.clone(),
        None => octet_stream(),
    };
    match parse_mime(requested.as_str()) {
        Some(m) => Ok(m),
        None => Err(MediaError::InvalidMimeType),
    }
}

impl<E> DownloadableMedia<E> {
    /// The MIME type a download of this media asks for, parsed.
    pub fn content_type(&self) -> (r: Result<mime::Mime, MediaError>)
        ensures
            r is Ok <==> mime_parses(spec_request_mimetype(self.mimetype.deep_view())),
            r matches Ok(m) ==> m == parsed_mime(spec_request_mimetype(self.mimetype.deep_view())),
            r matches Err(e) ==> e == MediaError::InvalidMimeType,
    {
        request_content_type(&self.mimetype)
    }

    /// The directory a download of this media is saved in.
    pub fn target_dir(&self, dirs: &WriteDirs) -> (dir: String)
        ensures
            dir@ == spec_join(dirs@.media_dir, spec_subdir(self.kind)),
    {
        join(dirs.media_dir().as_str(), self.kind.subdir())
    }

    /// The name a download of this media is saved under, given the extension that the
    /// detection of the downloaded bytes reports.
    pub fn target_file_name(&self, detected_extension: &str) -> (name: String)
        ensures
            name@ == spec_target_file_name(*self, detected_extension@),
    {
        match self.kind {
            MediaKind::UserAvatar | MediaKind::RoomAvatar => {
                let ext = remove_dots(detected_extension);
                add_extension(self.filename.as_str(), ext.as_str())
            },
            _ => self.filename.clone(),
        }
    }

    /// The name a download of this media is saved under, given the first bytes of the
    /// downloaded file: for avatars, the file type detected from those bytes gives the
    /// extension.
    pub fn saved_file_name(&self, header: &[u8]) -> (name: String)
        ensures
            name@ == spec_target_file_name(*self, detected_extension(header@)),
    {
        match self.kind {
            MediaKind::UserAvatar | MediaKind::RoomAvatar => {
                let ext = detect_extension(header);
                self.target_file_name(ext)
            },
            _ => self.target_file_name(""),
        }
    }
}

/// The usual file extension of the type that `mimetype_detector` detects in `data`.
pub uninterp spec fn detected_extension(data: Seq<u8>) -> Seq<char>;

/// The file extension of the detected type of `data`.
///
/// Calls `mimetype_detector::detect` and `MimeType::extension`. Claimed: the result is the
/// name `detected_extension` applied to the bytes; the detection matches signatures in a
/// fixed table against the data's first bytes, so it is a function of the bytes alone.
#[verifier::external_body]
fn detect_extension(data: &[u8]) -> (ext: &'static str)
    ensures
        ext@ == detected_extension(data@),
{
    mimetype_detector::detect(data).extension()
}

/// The name a download is saved under when `file_name` is already taken.
pub fn renamed_file_name(timestamp: &str, file_name: &str) -> (name: String)
    ensures
        name@ == spec_renamed_file_name(timestamp@, file_name@),
{
    let mut name = String::from_str(timestamp);
    name.append(" - ");
    name.append(file_name);
    name
}


/// All media subdirectories, in the order of [`MediaKind::subdirs`].
pub open spec fn spec_subdirs() -> Seq<Seq<char>> {
    seq![
        spec_subdir(MediaKind::File),
        spec_subdir(MediaKind::Image),
        spec_subdir(MediaKind::Video),
        spec_subdir(MediaKind::Audio),
        spec_subdir(MediaKind::UserAvatar),
        spec_subdir(MediaKind::RoomAvatar),
    ]
}

/// Every media kind has its own subdirectory, and it is among [`MediaKind::subdirs`].
pub proof fn law_subdirs_are_distinct_and_listed(a: MediaKind, b: MediaKind)
    ensures
        spec_subdirs().contains(spec_subdir(a)),
        a != b ==> spec_subdir(a) != spec_subdir(b),
{
    reveal_strlit("Files");
    reveal_strlit("Images");
    reveal_strlit("Video");
    reveal_strlit("Audio");
    reveal_strlit("Avatars/Users");
    reveal_strlit("Avatars/Rooms");
    let i: int = match a {
        MediaKind::File => 0,
        MediaKind::Image => 1,
        MediaKind::Video => 2,
        MediaKind::Audio => 3,
        MediaKind::UserAvatar => 4,
        MediaKind::RoomAvatar => 5,
    };
    assert(spec_subdirs()[i] == spec_subdir(a));
    if a != b && spec_subdir(a) == spec_subdir(b) {
        assert(spec_subdir(a).len() == spec_subdir(b).len());
        assert(spec_subdir(a)[0] == spec_subdir(b)[0]);
        assert(spec_subdir(a)[1] == spec_subdir(b)[1]);
        assert(spec_subdir(a)[8] == spec_subdir(b)[8]);
    }
}


/// Whether two results of processing stand for the same thing: both nothing, the same
/// text with the same metadata, or the same media.
pub open spec fn same_processable<E>(a: Option<ProcessableEvent<E>>, b: Option<ProcessableEvent<E>>) -> bool {
    match (a, b) {
        (None, None) => true,
        (
            Some(ProcessableEvent::Text { body: b1, metadata: m1 }),
            Some(ProcessableEvent::Text { body: b2, metadata: m2 }),
        ) => b1@ == b2@ && m1 == m2,
        (Some(ProcessableEvent::Media(x)), Some(ProcessableEvent::Media(y))) => is_media(
            y,
            x.source,
            x.filename@,
            x.mimetype.deep_view(),
            x.kind,
            x.metadata,
        ),
        _ => false,
    }
}

/// Processing a full timeline event gives what processing its event without the room ID
/// gives: a result `full` that [`ProcessableEvent::try_from_full`] may return on `e` and a
/// result `sync` that [`ProcessableEvent::try_from_sync`] may return on `e.event` are the
/// same.
pub proof fn law_full_event_processes_as_sync<E>(
    e: TimelineEvent<E>,
    full: Option<ProcessableEvent<E>>,
    sync: Option<ProcessableEvent<E>>,
)
    requires
        try_from_sync_spec(e.event, full),
        try_from_sync_spec(e.event, sync),
    ensures
        same_processable(full, sync),
{
}


/// Each media message becomes media of its own kind, with the message's content and
/// metadata: a file message a file, an image an image, a video a video, an audio message
/// audio; text and other messages give no media. Processing a room message event agrees.
pub proof fn law_media_kind_follows_message_type<E>(
    msgtype: MessageType<E>,
    metadata: EventMetadata,
    r: Option<DownloadableMedia<E>>,
)
    requires
        from_message_spec(msgtype, metadata, r),
    ensures
        msgtype is File ==> (r matches Some(m) && m.kind == MediaKind::File),
        msgtype is Image ==> (r matches Some(m) && m.kind == MediaKind::Image),
        msgtype is Video ==> (r matches Some(m) && m.kind == MediaKind::Video),
        msgtype is Audio ==> (r matches Some(m) && m.kind == MediaKind::Audio),
        msgtype is Text || msgtype is Other ==> r is None,
        r matches Some(m) ==> m.metadata == metadata,
        match msgtype {
            MessageType::File(c) | MessageType::Image(c) | MessageType::Video(c) | MessageType::Audio(
                c,
            ) => r matches Some(m) && m.source == c.source && m.filename@ == (if c.filename is Some {
                c.filename.unwrap()@
            } else {
                c.body@
            }) && m.mimetype.deep_view() == (if c.info is Some {
                c.info.unwrap().mimetype.deep_view()
            } else {
                None
            }),
            _ => true,
        },
{
}

/// Avatars found in state events are saved by who or what they belong to: a member's
/// avatar under the member's user ID, a room's avatar under `room.` and the time it was
/// set; both are fetched from the event's URL, and an event without a URL gives nothing.
pub proof fn law_avatar_names<E>(ev: StateEvent, r: Option<ProcessableEvent<E>>)
    requires
        try_from_sync_spec(SyncTimelineEvent::<E>::State(ev), r),
    ensures
        ev.content matches Some(StateContent::RoomMember { avatar_url: Some(url) }) ==> (r matches Some(
            ProcessableEvent::Media(m),
        ) && m.kind == MediaKind::UserAvatar && m.filename@ == ev.metadata.sender@ && m.source
            == MediaSource::<E>::Plain(url)),
        ev.content matches Some(StateContent::RoomAvatar { url: Some(url), mimetype }) ==> (r matches Some(
            ProcessableEvent::Media(m),
        ) && m.kind == MediaKind::RoomAvatar && m.filename@ == seq!['r', 'o', 'o', 'm', '.']
            + ev.metadata.timestamp@ && m.source == MediaSource::<E>::Plain(url)
            && m.mimetype.deep_view() == mimetype.deep_view()),
        ev.content matches Some(StateContent::RoomMember { avatar_url: None }) ==> r is None,
        ev.content matches Some(StateContent::RoomAvatar { url: None, .. }) ==> r is None,
        ev.content is None ==> r is None,
{
    reveal_strlit("room.");
}

/// Processing a room message event of a media type gives media of the kind the message
/// type names.
pub proof fn law_processed_media_kind<E>(
    ev: MessageLikeEvent<E>,
    msgtype: MessageType<E>,
    r: Option<ProcessableEvent<E>>,
)
    requires
        ev.content == Some(MessageLikeContent::RoomMessage(msgtype)),
        try_from_sync_spec(SyncTimelineEvent::MessageLike(ev), r),
    ensures
        msgtype is File ==> (r matches Some(ProcessableEvent::Media(m)) && m.kind == MediaKind::File),
        msgtype is Image ==> (r matches Some(ProcessableEvent::Media(m)) && m.kind == MediaKind::Image),
        msgtype is Video ==> (r matches Some(ProcessableEvent::Media(m)) && m.kind == MediaKind::Video),
        msgtype is Audio ==> (r matches Some(ProcessableEvent::Media(m)) && m.kind == MediaKind::Audio),
{
}

proof fn lemma_without_dots_concat(a: Seq<char>, b: Seq<char>)
    ensures
        without_dots(a + b) == without_dots(a) + without_dots(b),
    decreases b.len(),
{
    if b.len() == 0 {
        assert(a + b =~= a);
        assert(without_dots(a) + without_dots(b) =~= without_dots(a));
    } else {
        assert((a + b).drop_last() =~= a + b.drop_last());
        lemma_without_dots_concat(a, b.drop_last());
        if b.last() == '.' {
        } else {
            assert(without_dots(a) + without_dots(b.drop_last()).push(b.last()) =~= (without_dots(a)
                + without_dots(b.drop_last())).push(b.last()));
        }
    }
}

proof fn lemma_without_dots_dotless(s: Seq<char>)
    requires
        !s.contains('.'),
    ensures
        without_dots(s) == s,
    decreases s.len(),
{
    if s.len() > 0 {
        assert(s[s.len() - 1] == s.last());
        assert(!s.drop_last().contains('.')) by {
            if s.drop_last().contains('.') {
                let k = choose|k: int| 0 <= k < s.drop_last().len() && s.drop_last()[k] == '.';
                assert(s[k] == '.');
            }
        }
        lemma_without_dots_dotless(s.drop_last());
        assert(s.drop_last().push(s.last()) =~= s);
    }
}

proof fn lemma_without_dots_has_none(s: Seq<char>)
    ensures
        !without_dots(s).contains('.'),
    decreases s.len(),
{
    if s.len() > 0 {
        lemma_without_dots_has_none(s.drop_last());
        if s.last() != '.' {
            let w = without_dots(s.drop_last());
            if w.push(s.last()).contains('.') {
                let k = choose|k: int| 0 <= k < w.push(s.last()).len() && w.push(s.last())[k] == '.';
                if k < w.len() {
                    assert(w[k] == '.');
                }
            }
        }
    }
}

/// Avatars, of users and of rooms alike, are saved under their name followed by `.` and the
/// detected extension with its dots taken out; a detected extension such as `.png` (or
/// `png`) gives `{name}.png`, and no extension leaves the name as it is. Other media keep
/// their own file name whatever was detected.
pub proof fn law_avatars_get_the_detected_extension<E>(
    m: DownloadableMedia<E>,
    ext: Seq<char>,
    plain: Seq<char>,
)
    requires
        !plain.contains('.'),
    ensures
        (m.kind == MediaKind::UserAvatar || m.kind == MediaKind::RoomAvatar) && plain.len() > 0
            ==> spec_target_file_name(m, seq!['.'] + plain) == m.filename@ + seq!['.'] + plain
            && spec_target_file_name(m, plain) == m.filename@ + seq!['.'] + plain,
        (m.kind == MediaKind::UserAvatar || m.kind == MediaKind::RoomAvatar)
            ==> spec_target_file_name(m, Seq::empty()) == m.filename@,
        !(m.kind == MediaKind::UserAvatar || m.kind == MediaKind::RoomAvatar)
            ==> spec_target_file_name(m, ext) == m.filename@,
        !without_dots(ext).contains('.'),
{
    lemma_without_dots_dotless(plain);
    lemma_without_dots_concat(seq!['.'], plain);
    let dot = seq!['.'];
    assert(dot.len() == 1 && dot.last() == '.');
    assert(dot.drop_last() =~= Seq::<char>::empty());
    assert(without_dots(Seq::<char>::empty()) == Seq::<char>::empty());
    assert(without_dots(dot) =~= Seq::<char>::empty());
    assert(Seq::<char>::empty() + plain =~= plain);
    lemma_without_dots_has_none(ext);
}

} // verus!
