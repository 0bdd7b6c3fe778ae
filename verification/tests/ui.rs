use met::ui::icons::AppIcon;
use met::ui::session::{
    build_client_session, generate_db_passphrase, keyring_entry_name, SessionError,
    ACCESS_TOKEN_KEY, DB_PASSPHRASE_KEY,
};
use met::ui::user::{ExportUser, ValidUser};
use met::ui::views::dashboard::{room_item_labels, TodoView};
use met::ui::{
    add_initial_tasks, add_verification_task, avatar_format, avatar_image, last_message,
    rooms_to_update, AppState, AvatarFormat, AvatarImage, CrossSigningStatus, CrossStatus,
    BackgroundSync, LastMessage, LatestEvent, RoomData, SessionEvent, SyncStatus, APP_ID,
};
use met::ui::tasks::{TodoTaskKind, UserTodoTasks};
use met::utils::media::{MediaContent, MediaSource, MessageType};

#[test]
fn last_message_texts() {
    assert_eq!(LastMessage::Text("hey".to_string()).display_text(), "hey");
    assert_eq!(LastMessage::Image.display_text(), "Sent an image");
    assert_eq!(LastMessage::Video.display_text(), "Sent a video");
    assert_eq!(LastMessage::Audio.display_text(), "Sent an audio message");
    assert_eq!(LastMessage::File("a.pdf".to_string()).display_text(), "Sent a file: a.pdf");
    assert_eq!(LastMessage::Unknown.display_text(), "Sent a message");
    assert_eq!(LastMessage::NoMessages.display_text(), "No messages");
}

#[test]
fn last_message_of_latest_event() {
    let file = MessageType::<()>::File(MediaContent {
        source: MediaSource::Plain("mxc://f".to_string()),
        body: "report.pdf".to_string(),
        filename: Some("other.pdf".to_string()),
        info: None,
    });
    assert_eq!(last_message(Some(LatestEvent::RoomMessage(file))), LastMessage::File("report.pdf".to_string()));
    assert_eq!(last_message(Some(LatestEvent::<()>::RoomMessage(MessageType::Text { body: "x".to_string() }))), LastMessage::Text("x".to_string()));
    assert_eq!(last_message(Some(LatestEvent::<()>::RoomMessage(MessageType::Other { msgtype: "m.emote".to_string() }))), LastMessage::Unknown);
    assert_eq!(last_message(Some(LatestEvent::<()>::OtherMessageLike)), LastMessage::Unknown);
    assert_eq!(last_message(Some(LatestEvent::<()>::Other)), LastMessage::NoMessages);
    assert_eq!(last_message::<()>(None), LastMessage::NoMessages);
}

#[test]
fn avatar_formats() {
    assert_eq!(avatar_format("image/png"), Some(AvatarFormat::Png));
    assert_eq!(avatar_format("image/jpeg"), Some(AvatarFormat::Jpeg));
    assert_eq!(avatar_format("image/webp"), Some(AvatarFormat::Webp));
    assert_eq!(avatar_format("image/gif"), Some(AvatarFormat::Gif));
    assert_eq!(avatar_format("image/apng"), Some(AvatarFormat::Bmp));
    assert_eq!(avatar_format("text/plain"), None);
}

#[test]
fn avatar_image_detects_bytes() {
    let gif = b"GIF89a\x01\x00\x01\x00\x00\x00\x00;".to_vec();
    let img = avatar_image(gif.clone()).unwrap();
    assert_eq!(img, AvatarImage { format: AvatarFormat::Gif, bytes: gif });
    let jpeg = vec![0xFF, 0xD8, 0xFF, 0xE0, 0x00, 0x10, b'J', b'F', b'I', b'F', 0x00];
    assert_eq!(avatar_image(jpeg).unwrap().format, AvatarFormat::Jpeg);
    assert_eq!(avatar_image(b"just some text".to_vec()), None);
}

#[test]
fn room_data_update_and_avatar() {
    let mut d = RoomData::default();
    assert!(!d.has_picture_avatar());
    let new = RoomData {
        display_name: Some("R".to_string()),
        avatar: Some(AvatarImage { format: AvatarFormat::Png, bytes: vec![1] }),
        last_msg: Some(LastMessage::Image),
    };
    d.update(new.clone());
    assert_eq!(d, new);
    assert!(d.has_picture_avatar());
    // a fetch without an avatar keeps the cached one, and replaces the rest
    d.update(RoomData { display_name: Some("S".to_string()), avatar: None, last_msg: None });
    assert!(d.has_picture_avatar());
    assert_eq!(d.avatar, new.avatar);
    assert_eq!(d.display_name, Some("S".to_string()));
    assert_eq!(d.last_msg, None);
    // a fetch with an avatar replaces it
    let other = AvatarImage { format: AvatarFormat::Gif, bytes: vec![2] };
    d.update(RoomData { display_name: None, avatar: Some(other.clone()), last_msg: None });
    assert_eq!(d.avatar, Some(other));
}

#[test]
fn background_sync_runs_one_loop() {
    let mut b = BackgroundSync::new();
    assert_eq!(b.status, SyncStatus::Unsynced);
    assert!(b.should_start(true));
    assert!(!b.should_start(false));
    b.start();
    assert_eq!(b.status, SyncStatus::Syncing);
    assert!(!b.should_start(true));
    // an error response leaves the loop alive: no second loop starts
    b.on_response(Err("down".to_string()));
    assert_eq!(b.status, SyncStatus::Error("down".to_string()));
    assert!(!b.should_start(true));
    b.on_response(Ok(()));
    assert_eq!(b.status, SyncStatus::Syncing);
    assert!(!b.should_start(true));
    // once the loop ended, a sync starts again
    b.on_response(Err("gone".to_string()));
    b.stopped();
    assert_eq!(b.status, SyncStatus::Error("gone".to_string()));
    assert!(b.should_start(true));
}

#[test]
fn rooms_to_update_skips_rooms_with_avatars() {
    assert_eq!(rooms_to_update(&vec![false, false, true, false], false), vec![true, true, false, true]);
    assert_eq!(rooms_to_update(&vec![true, false], false), vec![false, true]);
    // a forced update fetches every room
    assert_eq!(rooms_to_update(&vec![true, true, false], true), vec![true, true, true]);
    assert_eq!(rooms_to_update(&vec![], false), Vec::<bool>::new());
}

#[test]
fn sync_status_rules() {
    assert_eq!(SyncStatus::default(), SyncStatus::Unsynced);
    assert_eq!(SyncStatus::after_response(Ok(())), SyncStatus::Syncing);
    assert_eq!(SyncStatus::after_response(Err("down".to_string())), SyncStatus::Error("down".to_string()));
    assert_eq!(SyncStatus::Unsynced.icon_and_text(), (AppIcon::SyncDisabled, "Unsynced"));
    assert_eq!(SyncStatus::Syncing.icon_and_text(), (AppIcon::SyncEnabled, "Syncing"));
    assert_eq!(SyncStatus::Error("x".to_string()).icon_and_text(), (AppIcon::SyncError, "Sync error"));
}

#[test]
fn cross_status_from_keys() {
    let s = |m, s, u| CrossSigningStatus { has_master: m, has_self_signing: s, has_user_signing: u };
    assert_eq!(CrossStatus::from_signing(&s(true, true, true)), CrossStatus::Active);
    assert_eq!(CrossStatus::from_signing(&s(true, false, false)), CrossStatus::Partial);
    assert_eq!(CrossStatus::from_signing(&s(false, false, true)), CrossStatus::Partial);
    assert_eq!(CrossStatus::from_signing(&s(false, false, false)), CrossStatus::Inactive);
    assert!(s(true, true, true).is_complete());
    assert!(!s(true, true, false).is_complete());
    assert_eq!(CrossStatus::default(), CrossStatus::Inactive);
    assert_eq!(CrossStatus::Active.icon_and_text(), (AppIcon::GeneralSuccess, "Verified"));
    assert_eq!(CrossStatus::Partial.icon_and_text(), (AppIcon::GeneralPending, "Partially verified"));
    assert_eq!(CrossStatus::Inactive.icon_and_text(), (AppIcon::GeneralError, "Unverified"));
}

#[test]
fn todo_tasks_on_login() {
    let mut tasks = UserTodoTasks::new();
    add_initial_tasks(&mut tasks);
    add_initial_tasks(&mut tasks);
    assert_eq!(tasks.tasks().len(), 1);
    add_verification_task(&mut tasks, Some(CrossSigningStatus { has_master: true, has_self_signing: false, has_user_signing: false }));
    assert_eq!(tasks.tasks().len(), 1);
    add_verification_task(&mut tasks, None);
    assert_eq!(tasks.tasks().len(), 1);
    add_verification_task(&mut tasks, Some(CrossSigningStatus { has_master: false, has_self_signing: false, has_user_signing: false }));
    assert_eq!(tasks.tasks().len(), 2);
    assert_eq!(tasks.get(0).unwrap().kind, TodoTaskKind::InitialKeyImport);
    assert_eq!(tasks.get(1).unwrap().kind, TodoTaskKind::Verification);
    assert!(tasks.get(2).is_none());
}

#[test]
fn app_state_transitions() {
    assert_eq!(AppState::default(), AppState::Login);
    assert_eq!(AppState::Login.after(SessionEvent::SessionFileFound), AppState::Loading);
    assert_eq!(AppState::Loading.after(SessionEvent::RestoreSucceeded), AppState::Dashboard);
    assert_eq!(AppState::Loading.after(SessionEvent::RestoreFailed), AppState::Login);
    assert_eq!(AppState::Login.after(SessionEvent::LoginSucceeded), AppState::Dashboard);
    assert_eq!(AppState::Login.after(SessionEvent::LoginFailed), AppState::Login);
    assert_eq!(AppState::Dashboard.after(SessionEvent::LogoutSucceeded), AppState::Login);
    assert_eq!(AppState::Dashboard.after(SessionEvent::LogoutFailed), AppState::Dashboard);
    assert!(AppState::Dashboard.shows_dashboard());
    assert!(!AppState::Loading.shows_dashboard());
}

#[test]
fn icon_paths() {
    assert_eq!(AppIcon::SyncDisabled.path(), "icons/refresh-cw-off.svg");
    assert_eq!(AppIcon::SyncEnabled.path(), "icons/refresh-cw.svg");
    assert_eq!(AppIcon::SyncError.path(), "icons/server-crash.svg");
    assert_eq!(AppIcon::GeneralSuccess.path(), "icons/circle-check.svg");
    assert_eq!(AppIcon::GeneralError.path(), "icons/circle-x.svg");
    assert_eq!(AppIcon::GeneralPending.path(), "icons/circle-ellipsis.svg");
}

#[test]
fn keyring_names_and_secrets() {
    assert_eq!(keyring_entry_name(DB_PASSPHRASE_KEY, "@u:x"), "db_passphrase:@u:x");
    assert_eq!(keyring_entry_name(ACCESS_TOKEN_KEY, "@u:x"), "access_token:@u:x");
    let p = generate_db_passphrase();
    assert_eq!(p.chars().count(), 32);
    assert!(p.chars().all(|c| c.is_ascii_alphanumeric()));
}

#[test]
fn export_user_layout_and_credentials() {
    let mut u = ExportUser::new("/home/u/.local/share");
    assert_eq!(APP_ID, "io.github.kir68k.met");
    assert_eq!(u.data_dir(), "/home/u/.local/share/io.github.kir68k.met/sessions");
    assert_eq!(u.session_file(), "/home/u/.local/share/io.github.kir68k.met/sessions/user.session");
    u.set_username("@u:x.org".to_string());
    u.set_password("hunter2".to_string());
    assert_eq!(u.userid(), "@u:x.org");
    assert_eq!(u.password(), "hunter2");
    u.clear_password();
    assert_eq!(u.password(), "");
    assert_eq!(u.userid(), "@u:x.org");
}

#[test]
fn client_session_for_user() {
    let u = ExportUser::new("/d");
    let s = build_client_session(&u, Some("x.org".to_string())).unwrap();
    assert_eq!(s.homeserver, "x.org");
    let prefix = "/d/io.github.kir68k.met/sessions/";
    assert!(s.db_path.starts_with(prefix));
    let sub = &s.db_path[prefix.len()..];
    assert_eq!(sub.len(), 7);
    assert!(sub.chars().all(|c| c.is_ascii_alphanumeric()));
    assert_eq!(build_client_session(&u, None).err(), Some(SessionError::InvalidUserId));
}

#[test]
fn room_list_entries() {
    let l = room_item_labels("!abc:x", None);
    assert_eq!(l.display_name, "!abc:x");
    assert_eq!(l.last_msg, "Loading...");
    assert_eq!(l.avatar_fallback, "!");
    let d = RoomData { display_name: Some("straße".to_string()), avatar: None, last_msg: Some(LastMessage::Audio) };
    let l = room_item_labels("!abc:x", Some(&d));
    assert_eq!(l.display_name, "straße");
    assert_eq!(l.last_msg, "Sent an audio message");
    assert_eq!(l.avatar_fallback, "S");
    let e = RoomData { display_name: Some("ßx".to_string()), avatar: None, last_msg: None };
    assert_eq!(room_item_labels("!a", Some(&e)).avatar_fallback, "SS");
    let empty = RoomData { display_name: Some(String::new()), avatar: None, last_msg: None };
    assert_eq!(room_item_labels("!a", Some(&empty)).avatar_fallback, "?");
}

#[test]
fn todo_view_selection() {
    let mut tasks = UserTodoTasks::new();
    add_initial_tasks(&mut tasks);
    let mut v = TodoView::new();
    v.select_task(0, &tasks);
    assert_eq!(v.selected_ix, Some(0));
    assert_eq!(v.task_view, Some(TodoTaskKind::InitialKeyImport));
    v.select_task(5, &tasks);
    assert_eq!(v.selected_ix, Some(5));
    assert_eq!(v.task_view, None);
    v.back_to_list();
    assert_eq!(v, TodoView::new());
}
