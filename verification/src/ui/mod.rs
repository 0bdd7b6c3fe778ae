use vstd::prelude::*;

pub mod icons;
pub mod init;
pub mod rate_limit;
pub mod session;
pub mod tasks;
pub mod user;
pub mod views;

use crate::ui::icons::AppIcon;
use crate::ui::tasks::key_import::InitialKeyImport;
use crate::ui::tasks::verification::VerificationTask;
use crate::ui::tasks::{TodoTaskKind, UserTodoTasks};
use crate::utils::media::MessageType;

verus! {

/// Application ID, also the name of the application's data directory.
pub const APP_ID: &'static str = "io.github.kir68k.met";

/// Which screen the application shows.
#[derive(Clone, Copy, Debug, PartialEq, Eq, Structural)]
pub enum AppState {
    Loading,
    Login,
    Dashboard,
}

impl Default for AppState {
    fn default() -> (s: Self)
        ensures
            s == AppState::Login,
    {
        AppState::Login
    }
}

/// What happens to the user's session.
#[derive(Clone, Copy, Debug, PartialEq, Eq, Structural)]
pub enum SessionEvent {
    /// A saved session was found at start-up; it is being restored.
    SessionFileFound,
    RestoreSucceeded,
    RestoreFailed,
    LoginSucceeded,
    LoginFailed,
    LogoutSucceeded,
    LogoutFailed,
}

/// The screen after `event` on screen `state`.
pub open spec fn spec_after(state: AppState, event: SessionEvent) -> AppState {
    match event {
        SessionEvent::SessionFileFound => AppState::Loading,
        SessionEvent::RestoreSucceeded => AppState::Dashboard,
        SessionEvent::RestoreFailed => AppState::Login,
        SessionEvent::LoginSucceeded => AppState::Dashboard,
        SessionEvent::LoginFailed => state,
        SessionEvent::LogoutSucceeded => AppState::Login,
        SessionEvent::LogoutFailed => state,
    }
}

impl AppState {
    /// The screen after `event`: restoring a saved session shows the loading screen; a
    /// restored session or a login shows the dashboard; a failed restoration or a logout
    /// shows the login; a failed login or logout stays where it was.
    pub fn after(self, event: SessionEvent) -> (next: AppState)
        ensures
            next == spec_after(self, event),
    {
        match event {
            SessionEvent::SessionFileFound => AppState::Loading,
            SessionEvent::RestoreSucceeded => AppState::Dashboard,
            SessionEvent::RestoreFailed => AppState::Login,
            SessionEvent::LoginSucceeded => AppState::Dashboard,
            SessionEvent::LoginFailed => self,
            SessionEvent::LogoutSucceeded => AppState::Login,
            SessionEvent::LogoutFailed => self,
        }
    }

    /// Whether this screen is the dashboard view (the others are drawn by the application).
    pub fn shows_dashboard(&self) -> (d: bool)
        ensures
            d == (*self == AppState::Dashboard),
    {
        match self {
            AppState::Dashboard => true,
            _ => false,
        }
    }
}

/// Last received message event in a room
#[derive(Clone, Debug, PartialEq, Eq)]
pub enum LastMessage {
    Text(String),
    Image,
    Video,
    Audio,
    /// A file, by its body.
    File(String),
    Unknown,
    NoMessages,
}

/// The text a room's last message shows as.
pub open spec fn spec_display_text(m: LastMessage) -> Seq<char> {
    match m {
        LastMessage::Text(text) => text@,
        LastMessage::Image => "Sent an image"@,
        LastMessage::Video => "Sent a video"@,
        LastMessage::Audio => "Sent an audio message"@,
        LastMessage::File(name) => "Sent a file: "@ + name@,
        LastMessage::Unknown => "Sent a message"@,
        LastMessage::NoMessages => "No messages"@,
    }
}

impl LastMessage {
    pub fn display_text(&self) -> (text: String)
        ensures
            text@ == spec_display_text(*self),
    {
        match self {
            LastMessage::Text(text) => text.clone(),
            LastMessage::Image => String::from_str("Sent an image"),
            LastMessage::Video => String::from_str("Sent a video"),
            LastMessage::Audio => String::from_str("Sent an audio message"),
            LastMessage::File(name) => {
                let mut text = String::from_str("Sent a file: ");
                text.append(name.as_str());
                text
            },
            LastMessage::Unknown => String::from_str("Sent a message"),
            LastMessage::NoMessages => String::from_str("No messages"),
        }
    }
}

/// A room's latest event, as far as the room list shows it.
pub enum LatestEvent<E> {
    /// An original room message.
    RoomMessage(MessageType<E>),
    /// Any other message-like event, a redacted room message among them.
    OtherMessageLike,
    /// Any other event.
    Other,
}

/// The last message a room shows for its latest event (none, or one that does not
/// deserialize, shows as no messages).
pub open spec fn spec_last_message<E>(latest: Option<LatestEvent<E>>) -> LastMessage {
    match latest {
        Some(LatestEvent::RoomMessage(msgtype)) => match msgtype {
            MessageType::Text { body } => LastMessage::Text(body),
            MessageType::Image(_) => LastMessage::Image,
            MessageType::Video(_) => LastMessage::Video,
            MessageType::Audio(_) => LastMessage::Audio,
            MessageType::File(f) => LastMessage::File(f.body),
            MessageType::Other { .. } => LastMessage::Unknown,
        },
        Some(LatestEvent::OtherMessageLike) => LastMessage::Unknown,
        _ => LastMessage::NoMessages,
    }
}

/// The last message a room shows.
pub fn last_message<E>(latest: Option<LatestEvent<E>>) -> (m: LastMessage)
    ensures
        m == spec_last_message(latest),
{
    match latest {
        Some(LatestEvent::RoomMessage(msgtype)) => match msgtype {
            MessageType::Text { body } => LastMessage::Text(body),
            MessageType::Image(_) => LastMessage::Image,
            MessageType::Video(_) => LastMessage::Video,
            MessageType::Audio(_) => LastMessage::Audio,
            MessageType::File(f) => LastMessage::File(f.body),
            MessageType::Other { .. } => LastMessage::Unknown,
        },
        Some(LatestEvent::OtherMessageLike) => LastMessage::Unknown,
        _ => LastMessage::NoMessages,
    }
}

/// Image formats that a room avatar is shown in.
#[derive(Clone, Copy, Debug, PartialEq, Eq, Structural)]
pub enum AvatarFormat {
    Png,
    Jpeg,
    Webp,
    Gif,
    Bmp,
}

/// The MIME type that `mimetype_detector` reports for `data`.
pub uninterp spec fn detected_mime(data: Seq<u8>) -> Seq<char>;

/// Detects the MIME type of bytes.
///
/// Calls `mimetype_detector::detect` and `MimeType::mime`. Claimed: the result is a function
/// of the bytes alone (the crate matches a static tree of signatures against them).
#[verifier::external_body]
fn detect_mime(data: &[u8]) -> (mime: &'static str)
    ensures
        mime@ == detected_mime(data@),
{
    mimetype_detector::detect(data).mime()
}

/// The format an avatar of MIME type `mime` is shown in; an APNG is shown as a BMP.
pub open spec fn spec_avatar_format(mime: Seq<char>) -> Option<AvatarFormat> {
    if mime == "image/png"@ {
        Some(AvatarFormat::Png)
    } else if mime == "image/jpeg"@ {
        Some(AvatarFormat::Jpeg)
    } else if mime == "image/webp"@ {
        Some(AvatarFormat::Webp)
    } else if mime == "image/gif"@ {
        Some(AvatarFormat::Gif)
    } else if mime == "image/apng"@ {
        Some(AvatarFormat::Bmp)
    } else {
        None
    }
}

/// The format an avatar of MIME type `mime` is shown in, if it can be shown.
pub fn avatar_format(mime: &str) -> (f: Option<AvatarFormat>)
    ensures
        f == spec_avatar_format(mime@),
{
    let m = String::from_str(mime);
    if m.eq(&String::from_str("image/png")) {
        Some(AvatarFormat::Png)
    } else if m.eq(&String::from_str("image/jpeg")) {
        Some(AvatarFormat::Jpeg)
    } else if m.eq(&String::from_str("image/webp")) {
        Some(AvatarFormat::Webp)
    } else if m.eq(&String::from_str("image/gif")) {
        Some(AvatarFormat::Gif)
    } else if m.eq(&String::from_str("image/apng")) {
        Some(AvatarFormat::Bmp)
    } else {
        None
    }
}

/// A room avatar: its bytes, and the format they are shown in.
#[derive(Clone, Debug, PartialEq, Eq)]
pub struct AvatarImage {
    pub format: AvatarFormat,
    pub bytes: Vec<u8>,
}

/// The avatar image of downloaded bytes, if their detected type can be shown.
pub fn avatar_image(bytes: Vec<u8>) -> (image: Option<AvatarImage>)
    ensures
        match spec_avatar_format(detected_mime(bytes@)) {
            Some(f) => image matches Some(i) && i.format == f && i.bytes@ == bytes@,
            None => image is None,
        },
{
    let mime = detect_mime(bytes.as_slice());
    match avatar_format(mime) {
        Some(format) => Some(AvatarImage { format, bytes }),
        None => None,
    }
}

/// Holds UI-relevant room data to display as a card or on the sidebar
#[derive(Clone, Debug, Default, PartialEq, Eq)]
pub struct RoomData {
    pub display_name: Option<String>,
    pub avatar: Option<AvatarImage>,
    pub last_msg: Option<LastMessage>,
}

impl RoomData {
    /// Take the newly fetched data: the name and last message are replaced, and the avatar
    /// too when one was fetched; a cached avatar stays when the fetch brought none.
    pub fn update(&mut self, new: Self)
        ensures
            final(self).display_name == new.display_name,
            final(self).last_msg == new.last_msg,
            final(self).avatar == (if new.avatar is Some {
                new.avatar
            } else {
                old(self).avatar
            }),
    {
        self.display_name = new.display_name;
        self.last_msg = new.last_msg;
        if new.avatar.is_some() {
            self.avatar = new.avatar;
        }
    }

    pub fn has_picture_avatar(&self) -> (has: bool)
        ensures
            has == self.avatar is Some,
    {
        self.avatar.is_some()
    }
}

/// Which rooms of the list get their data fetched: every room when `force_update` is set,
/// otherwise every room whose cached data has no avatar yet.
pub open spec fn spec_needs_update(cached_avatar: bool, force_update: bool) -> bool {
    force_update || !cached_avatar
}

/// For each room of the list, given whether its cached data has an avatar, whether its data
/// is fetched again.
pub fn rooms_to_update(cached_avatar: &Vec<bool>, force_update: bool) -> (update: Vec<bool>)
    ensures
        update@.len() == cached_avatar@.len(),
        forall|i: int|
            0 <= i < update@.len() ==> #[trigger] update@[i] == spec_needs_update(
                cached_avatar@[i],
                force_update,
            ),
{
    let mut update: Vec<bool> = Vec::new();
    let mut i: usize = 0;
    while i < cached_avatar.len()
        invariant
            0 <= i <= cached_avatar@.len(),
            update@.len() == i,
            forall|j: int|
                0 <= j < i ==> #[trigger] update@[j] == spec_needs_update(cached_avatar@[j], force_update),
        decreases cached_avatar@.len() - i,
    {
        update.push(force_update || !cached_avatar[i]);
        i = i + 1;
    }
    update
}

/// Sync state of the client.
#[derive(Clone, Debug, PartialEq, Eq)]
pub enum SyncStatus {
    Unsynced,
    Syncing,
    Error(String),
}

impl Default for SyncStatus {
    fn default() -> (s: Self)
        ensures
            s == SyncStatus::Unsynced,
    {
        SyncStatus::Unsynced
    }
}

impl SyncStatus {
    /// The icon and text the title bar shows for this status.
    pub fn icon_and_text(&self) -> (shown: (AppIcon, &'static str))
        ensures
            match *self {
                SyncStatus::Unsynced => shown.0 == AppIcon::SyncDisabled && shown.1@ == "Unsynced"@,
                SyncStatus::Syncing => shown.0 == AppIcon::SyncEnabled && shown.1@ == "Syncing"@,
                SyncStatus::Error(_) => shown.0 == AppIcon::SyncError && shown.1@ == "Sync error"@,
            },
    {
        match self {
            SyncStatus::Unsynced => (AppIcon::SyncDisabled, "Unsynced"),
            SyncStatus::Syncing => (AppIcon::SyncEnabled, "Syncing"),
            SyncStatus::Error(_) => (AppIcon::SyncError, "Sync error"),
        }
    }

    /// The status after a sync response: syncing again, or the response's error.
    pub fn after_response(response: Result<(), String>) -> (s: SyncStatus)
        ensures
            match response {
                Ok(()) => s == SyncStatus::Syncing,
                Err(e) => s == SyncStatus::Error(e),
            },
    {
        match response {
            Ok(()) => SyncStatus::Syncing,
            Err(e) => SyncStatus::Error(e),
        }
    }
}

/// The background sync of the app: the status it shows, and whether its sync loop is
/// still alive. A loop stays alive after an error response: only the end of the sync
/// stream, or a logout, stops it.
#[derive(Clone, Debug, PartialEq, Eq)]
pub struct BackgroundSync {
    pub status: SyncStatus,
    pub loop_alive: bool,
}

impl BackgroundSync {
    /// No sync yet, and no loop.
    pub fn new() -> (b: Self)
        ensures
            b.status == SyncStatus::Unsynced,
            !b.loop_alive,
    {
        BackgroundSync { status: SyncStatus::Unsynced, loop_alive: false }
    }

    /// Whether a background sync starts: only with a client, and never while a loop is
    /// alive, so that at most one sync loop runs at a time.
    pub fn should_start(&self, has_client: bool) -> (start: bool)
        ensures
            start == (!self.loop_alive && has_client),
    {
        !self.loop_alive && has_client
    }

    /// A loop was started: it is alive, and the status is syncing.
    pub fn start(&mut self)
        ensures
            final(self).status == SyncStatus::Syncing,
            final(self).loop_alive,
    {
        self.status = SyncStatus::Syncing;
        self.loop_alive = true;
    }

    /// The loop got a sync response; it stays alive either way.
    pub fn on_response(&mut self, response: Result<(), String>)
        ensures
            final(self).status == match response {
                Ok(()) => SyncStatus::Syncing,
                Err(e) => SyncStatus::Error(e),
            },
            final(self).loop_alive == old(self).loop_alive,
    {
        self.status = SyncStatus::after_response(response);
    }

    /// The loop ended; the last status stays shown.
    pub fn stopped(&mut self)
        ensures
            final(self).status == old(self).status,
            !final(self).loop_alive,
    {
        self.loop_alive = false;
    }
}

/// Which cross-signing keys the account has.
#[derive(Clone, Copy, Debug, PartialEq, Eq, Structural)]
pub struct CrossSigningStatus {
    pub has_master: bool,
    pub has_self_signing: bool,
    pub has_user_signing: bool,
}

impl CrossSigningStatus {
    /// Whether all three keys are there.
    pub fn is_complete(&self) -> (c: bool)
        ensures
            c == (self.has_master && self.has_self_signing && self.has_user_signing),
    {
        self.has_master && self.has_self_signing && self.has_user_signing
    }
}

/// Cross-signing state of the session.
#[derive(Clone, Copy, Debug, PartialEq, Eq, Structural)]
pub enum CrossStatus {
    Inactive,
    Active,
    Partial,
}

impl Default for CrossStatus {
    fn default() -> (s: Self)
        ensures
            s == CrossStatus::Inactive,
    {
        CrossStatus::Inactive
    }
}

impl CrossStatus {
    /// The icon and text the title bar shows for this status.
    pub fn icon_and_text(&self) -> (shown: (AppIcon, &'static str))
        ensures
            match *self {
                CrossStatus::Inactive => shown.0 == AppIcon::GeneralError && shown.1@ == "Unverified"@,
                CrossStatus::Active => shown.0 == AppIcon::GeneralSuccess && shown.1@ == "Verified"@,
                CrossStatus::Partial => shown.0 == AppIcon::GeneralPending && shown.1@
                    == "Partially verified"@,
            },
    {
        match self {
            CrossStatus::Inactive => (AppIcon::GeneralError, "Unverified"),
            CrossStatus::Active => (AppIcon::GeneralSuccess, "Verified"),
            CrossStatus::Partial => (AppIcon::GeneralPending, "Partially verified"),
        }
    }

    /// Verified when all keys are there, partially verified when some are, else unverified.
    pub fn from_signing(status: &CrossSigningStatus) -> (s: CrossStatus)
        ensures
            s == if status.has_master && status.has_self_signing && status.has_user_signing {
                CrossStatus::Active
            } else if status.has_master || status.has_self_signing || status.has_user_signing {
                CrossStatus::Partial
            } else {
                CrossStatus::Inactive
            },
    {
        if status.is_complete() {
            CrossStatus::Active
        } else if status.has_master || status.has_self_signing || status.has_user_signing {
            CrossStatus::Partial
        } else {
            CrossStatus::Inactive
        }
    }
}

/// Add the default user todo tasks: the key import when the list is empty.
pub fn add_initial_tasks(tasks: &mut UserTodoTasks)
    ensures
        old(tasks)@.tasks.len() == 0 ==> final(tasks)@.tasks == seq![TodoTaskKind::InitialKeyImport],
        old(tasks)@.tasks.len() != 0 ==> final(tasks)@.tasks == old(tasks)@.tasks,
        final(tasks)@.completed == old(tasks)@.completed,
{
    if tasks.is_empty() {
        tasks.add_task(InitialKeyImport);
        proof {
            assert(tasks@.tasks =~= seq![TodoTaskKind::InitialKeyImport]);
        }
    }
}

/// Whether the verification task is due: the account's cross-signing status is known and
/// it has no cross-signing key at all.
pub open spec fn spec_needs_verification(status: Option<CrossSigningStatus>) -> bool {
    match status {
        Some(s) => !(s.has_master || s.has_self_signing || s.has_user_signing),
        None => false,
    }
}

/// Add the verification task when it is due.
pub fn add_verification_task(tasks: &mut UserTodoTasks, status: Option<CrossSigningStatus>)
    ensures
        spec_needs_verification(status) ==> final(tasks)@.tasks == old(tasks)@.tasks.push(
            TodoTaskKind::Verification,
        ),
        !spec_needs_verification(status) ==> final(tasks)@.tasks == old(tasks)@.tasks,
        final(tasks)@.completed == old(tasks)@.completed,
{
    if let Some(s) = status {
        if !(s.is_complete() || s.has_master || s.has_self_signing || s.has_user_signing) {
            tasks.add_task(VerificationTask);
        }
    }
}

} // verus!
