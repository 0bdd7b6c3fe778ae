use met::utils::cache::output_cache::{split_event_kinds, split_media_types, TimelineEntry};
use met::utils::media::text::{format_text_line, process_text_event, TextBuffer};
use met::utils::media::{EventMetadata, MediaContent, MediaInfo, MediaSource, MessageType, RoomMessageEvent};
use met::utils::traits::ProcessableTextEvent;

fn meta(ts: &str) -> EventMetadata {
    EventMetadata { sender: "@s:x".to_string(), timestamp: ts.to_string(), event_id: "$1".to_string() }
}

fn msg(ts: &str, content: MessageType<()>) -> RoomMessageEvent<()> {
    RoomMessageEvent { metadata: meta(ts), content }
}

fn image() -> MessageType<()> {
    MessageType::Image(MediaContent {
        source: MediaSource::Plain("mxc://x".to_string()),
        body: "i.png".to_string(),
        filename: None,
        info: Some(MediaInfo { mimetype: None }),
    })
}

#[test]
fn text_line_format() {
    assert_eq!(format_text_line("TS", "@s:x", "hello"), "TS - @s:x: hello\n");
}

#[test]
fn text_line_keeps_one_message_per_line() {
    assert_eq!(format_text_line("TS", "@s:x", "two\nlines"), "TS - @s:x: two lines\n");
    assert_eq!(format_text_line("TS", "@s:x", "a\r\nb\n"), "TS - @s:x: a  b \n");
    let line = format_text_line("TS", "@s:x", "x\ny\nz");
    assert_eq!(line.matches('\n').count(), 1);
    assert!(line.ends_with('\n'));
}

#[test]
fn text_buffer_writes_lines_in_order() {
    let mut b = TextBuffer::new("out.txt".to_string());
    assert!(b.lines().is_empty());
    b.push_line("one\n".to_string());
    b.push_line("two\n".to_string());
    assert_eq!(b.take_output(), "one\ntwo\n");
    assert!(b.lines().is_empty());
    assert_eq!(b.take_output(), "");
    assert_eq!(b.file, "out.txt");
}

#[test]
fn process_text_event_buffers_formatted_line() {
    let mut b = TextBuffer::new("f".to_string());
    process_text_event("hi", &meta("T1"), &mut b);
    assert_eq!(b.lines(), &vec!["T1 - @s:x: hi\n".to_string()]);
}

#[test]
fn only_text_messages_are_sent_to_the_text_buffer() {
    let mut b = TextBuffer::new("f".to_string());
    msg("T1", MessageType::Text { body: "a".to_string() }).send_to_process(&mut b);
    msg("T2", image()).send_to_process(&mut b);
    msg("T3", MessageType::Text { body: "c".to_string() }).send_to_process(&mut b);
    assert_eq!(b.take_output(), "T1 - @s:x: a\nT3 - @s:x: c\n");
}

#[test]
fn split_event_kinds_pairs_and_utd() {
    let list: Vec<TimelineEntry<u32, &str>> = vec![
        TimelineEntry::PlainText { message: Some(1), json: Some("j1") },
        TimelineEntry::Decrypted { message: None, json: Some("not a message") },
        TimelineEntry::UnableToDecrypt { readable: true, json: Some("u1") },
        TimelineEntry::Decrypted { message: Some(2), json: Some("j2") },
        TimelineEntry::UnableToDecrypt { readable: false, json: Some("u2") },
        TimelineEntry::PlainText { message: Some(3), json: None },
        TimelineEntry::UnableToDecrypt { readable: true, json: None },
    ];
    let (ser, de, utd) = split_event_kinds(list);
    // law: same events, same order
    assert_eq!(ser, vec!["j1", "j2"]);
    assert_eq!(de, vec![1, 2]);
    assert_eq!(utd, vec!["u1"]);
}

#[test]
fn split_media_types_partitions() {
    let events = vec![
        msg("1", MessageType::Text { body: "a".to_string() }),
        msg("2", image()),
        msg("3", MessageType::Other { msgtype: "m.notice".to_string() }),
        msg("4", MessageType::Text { body: "b".to_string() }),
    ];
    let (text, media) = split_media_types(events);
    assert_eq!(text.iter().map(|e| e.metadata.timestamp.as_str()).collect::<Vec<_>>(), vec!["1", "4"]);
    assert_eq!(media.iter().map(|e| e.metadata.timestamp.as_str()).collect::<Vec<_>>(), vec!["2", "3"]);
}
