use met::utils::cache::output_cache::WriteDirs;
use met::utils::media::{
    collect_media, remove_dots, renamed_file_name, request_content_type, DownloadableMedia,
    EventMetadata, MediaContent, MediaError, MediaInfo, MediaKind, MediaSource, MessageLikeContent,
    MessageLikeEvent, MessageType, ProcessableEvent, StateContent, StateEvent, SyncTimelineEvent,
    TimelineEvent,
};
use met::utils::traits::{message_content_type, message_media_path, MediaRequestError};

fn meta() -> EventMetadata {
    EventMetadata {
        sender: "@a:b.org".to_string(),
        timestamp: "TS(1)".to_string(),
        event_id: "$e".to_string(),
    }
}

fn content(filename: Option<&str>, mimetype: Option<&str>) -> MediaContent<()> {
    MediaContent {
        source: MediaSource::Plain("mxc://b.org/x".to_string()),
        body: "body.bin".to_string(),
        filename: filename.map(|s| s.to_string()),
        info: Some(MediaInfo { mimetype: mimetype.map(|s| s.to_string()) }),
    }
}

#[test]
fn subdirs_of_kinds() {
    assert_eq!(MediaKind::File.subdir(), "Files");
    assert_eq!(MediaKind::Image.subdir(), "Images");
    assert_eq!(MediaKind::Video.subdir(), "Video");
    assert_eq!(MediaKind::Audio.subdir(), "Audio");
    assert_eq!(MediaKind::UserAvatar.subdir(), "Avatars/Users");
    assert_eq!(MediaKind::RoomAvatar.subdir(), "Avatars/Rooms");
}

#[test]
fn law_every_kind_has_a_listed_distinct_subdir() {
    let kinds = [
        MediaKind::File,
        MediaKind::Image,
        MediaKind::Video,
        MediaKind::Audio,
        MediaKind::UserAvatar,
        MediaKind::RoomAvatar,
    ];
    let all = MediaKind::subdirs();
    for k in kinds {
        assert!(all.contains(&k.subdir()));
    }
    for a in kinds {
        for b in kinds {
            assert_eq!(a == b, a.subdir() == b.subdir());
        }
    }
}

#[test]
fn media_from_message_types() {
    let m = DownloadableMedia::from_message_type(MessageType::Image(content(Some("cat.png"), Some("image/png"))), meta()).unwrap();
    assert_eq!(m.kind, MediaKind::Image);
    assert_eq!(m.filename, "cat.png");
    assert_eq!(m.mimetype.as_deref(), Some("image/png"));
    let f = DownloadableMedia::from_message_type(MessageType::File(content(None, None)), meta()).unwrap();
    assert_eq!(f.filename, "body.bin");
    assert_eq!(f.mimetype, None);
    assert!(DownloadableMedia::<()>::from_message_type(MessageType::Text { body: "hi".to_string() }, meta()).is_none());
    assert!(DownloadableMedia::<()>::from_message_type(MessageType::Other { msgtype: "m.emote".to_string() }, meta()).is_none());
}

#[test]
fn avatar_media_names() {
    let u = DownloadableMedia::<()>::from_member_avatar(Some("mxc://u".to_string()), meta()).unwrap();
    assert_eq!(u.filename, "@a:b.org");
    assert_eq!(u.kind, MediaKind::UserAvatar);
    assert!(matches!(u.source, MediaSource::Plain(ref s) if s == "mxc://u"));
    let r = DownloadableMedia::<()>::from_room_avatar(Some("mxc://r".to_string()), Some("image/jpeg".to_string()), meta()).unwrap();
    assert_eq!(r.filename, "room.TS(1)");
    assert_eq!(r.kind, MediaKind::RoomAvatar);
    assert_eq!(r.mimetype.as_deref(), Some("image/jpeg"));
    assert!(DownloadableMedia::<()>::from_member_avatar(None, meta()).is_none());
    assert!(DownloadableMedia::<()>::from_room_avatar(None, None, meta()).is_none());
}

#[test]
fn processable_events_from_timeline() {
    let text = SyncTimelineEvent::<()>::MessageLike(MessageLikeEvent {
        metadata: meta(),
        content: Some(MessageLikeContent::RoomMessage(MessageType::Text { body: "hello".to_string() })),
    });
    match ProcessableEvent::try_from_sync(text) {
        Some(ProcessableEvent::Text { body, metadata }) => {
            assert_eq!(body, "hello");
            assert_eq!(metadata, meta());
        }
        _ => panic!("expected text"),
    }
    let redacted = SyncTimelineEvent::<()>::MessageLike(MessageLikeEvent { metadata: meta(), content: None });
    assert!(ProcessableEvent::try_from_sync(redacted).is_none());
    let reaction = SyncTimelineEvent::<()>::MessageLike(MessageLikeEvent { metadata: meta(), content: Some(MessageLikeContent::Other) });
    assert!(ProcessableEvent::try_from_sync(reaction).is_none());
    let member = SyncTimelineEvent::<()>::State(StateEvent {
        metadata: meta(),
        content: Some(StateContent::RoomMember { avatar_url: Some("mxc://m".to_string()) }),
    });
    match ProcessableEvent::try_from_sync(member) {
        Some(ProcessableEvent::Media(m)) => assert_eq!(m.kind, MediaKind::UserAvatar),
        _ => panic!("expected media"),
    }
    let no_avatar = SyncTimelineEvent::<()>::State(StateEvent {
        metadata: meta(),
        content: Some(StateContent::RoomMember { avatar_url: None }),
    });
    assert!(ProcessableEvent::try_from_sync(no_avatar).is_none());
    let full = TimelineEvent {
        room_id: "!r:b.org".to_string(),
        event: SyncTimelineEvent::<()>::State(StateEvent {
            metadata: meta(),
            content: Some(StateContent::RoomAvatar { url: Some("mxc://a".to_string()), mimetype: None }),
        }),
    };
    match ProcessableEvent::try_from_full(full) {
        Some(ProcessableEvent::Media(m)) => assert_eq!(m.filename, "room.TS(1)"),
        _ => panic!("expected media"),
    }
}

#[test]
fn collect_media_keeps_media_in_order() {
    let a = DownloadableMedia::<()>::from_member_avatar(Some("mxc://1".to_string()), meta()).unwrap();
    let b = DownloadableMedia::<()>::from_room_avatar(Some("mxc://2".to_string()), None, meta()).unwrap();
    let events = vec![
        ProcessableEvent::Media(a),
        ProcessableEvent::Text { body: "x".to_string(), metadata: meta() },
        ProcessableEvent::Media(b),
    ];
    let media = collect_media(events);
    assert_eq!(media.len(), 2);
    assert_eq!(media[0].kind, MediaKind::UserAvatar);
    assert_eq!(media[1].kind, MediaKind::RoomAvatar);
}

#[test]
fn content_types_parse_or_fail() {
    let ok = request_content_type(&None).unwrap();
    assert_eq!(ok.to_string(), "application/octet-stream");
    assert_eq!(request_content_type(&Some("image/png".to_string())).unwrap().to_string(), "image/png");
    assert_eq!(request_content_type(&Some("not a mime".to_string())).err(), Some(MediaError::InvalidMimeType));
    let m = DownloadableMedia::from_message_type(MessageType::Image(content(None, Some("bogus"))), meta()).unwrap();
    assert_eq!(m.content_type().err(), Some(MediaError::InvalidMimeType));
    // the parsed type is the parse of the requested one
    let png = DownloadableMedia::from_message_type(MessageType::Image(content(None, Some("image/png"))), meta()).unwrap();
    assert_eq!(png.content_type().unwrap(), "image/png".parse::<mime::Mime>().unwrap());
    assert_eq!(
        request_content_type(&Some("text/plain; charset=utf-8".to_string())).unwrap(),
        "text/plain; charset=utf-8".parse::<mime::Mime>().unwrap()
    );
}

#[test]
fn download_targets() {
    let dirs = WriteDirs::new("Room");
    let u = DownloadableMedia::<()>::from_member_avatar(Some("mxc://u".to_string()), meta()).unwrap();
    assert_eq!(u.target_dir(&dirs), "Room/media/Avatars/Users");
    assert_eq!(u.target_file_name(".png"), "@a:b.org.png");
    assert_eq!(u.target_file_name(""), "@a:b.org");
    let f = DownloadableMedia::from_message_type(MessageType::File(content(Some("doc.pdf"), None)), meta()).unwrap();
    assert_eq!(f.target_dir(&dirs), "Room/media/Files");
    assert_eq!(f.target_file_name(".png"), "doc.pdf");
    assert_eq!(renamed_file_name("TS(1)", "doc.pdf"), "TS(1) - doc.pdf");
    // the avatar's extension comes from the detected type of its first bytes
    let png_header = [0x89u8, b'P', b'N', b'G', 0x0D, 0x0A, 0x1A, 0x0A, 0, 0, 0, 0x0D, b'I', b'H', b'D', b'R'];
    assert_eq!(u.saved_file_name(&png_header), "@a:b.org.png");
    assert_eq!(u.saved_file_name(b"GIF89a\x01\x00\x01\x00\x00\x00\x00;"), "@a:b.org.gif");
    // other media keep their own name whatever the bytes
    assert_eq!(f.saved_file_name(&png_header), "doc.pdf");
    assert_eq!(remove_dots(".tar.gz"), "targz");
    assert_eq!(remove_dots(""), "");
}

#[test]
fn message_media_requests() {
    let dirs = WriteDirs::new("Room");
    let v = MessageType::Video(content(Some("clip.mp4"), Some("video/mp4")));
    assert_eq!(message_media_path(&v, &dirs).unwrap(), "Room/media/Video/clip.mp4");
    let t = MessageType::<()>::Text { body: "x".to_string() };
    assert_eq!(message_media_path(&t, &dirs), None);
    assert_eq!(
        message_content_type(&content(None, Some("video/mp4"))).unwrap(),
        "video/mp4".parse::<mime::Mime>().unwrap()
    );
    assert!(message_content_type(&content(None, None)).is_ok());
    let no_info = MediaContent::<()> { info: None, ..content(None, None) };
    assert_eq!(message_content_type(&no_info).err(), Some(MediaRequestError::MissingInfo));
    assert_eq!(message_content_type(&content(None, Some("??"))).err(), Some(MediaRequestError::InvalidMimeType));
}
