use vstd::prelude::*;

use crate::utils::media::{spec_subdir, MediaKind, MessageType, RoomMessageEvent};
use crate::utils::paths::{add_extension, join, spec_add_extension, spec_join};

verus! {

/// A timeline event as the server delivered it, reduced to what the export keeps of it.
///
/// `message` is the original room message the event deserializes to, if it is one;
/// `json` is the event serialized to a JSON value, if that succeeded; `readable` tells
/// whether an event that could not be decrypted still deserializes.
pub enum TimelineEntry<M, J> {
    PlainText { message: Option<M>, json: Option<J> },
    Decrypted { message: Option<M>, json: Option<J> },
    UnableToDecrypt { readable: bool, json: Option<J> },
}

/// The serialized and deserialized forms of a readable room message, if `e` is one.
pub open spec fn entry_message<M, J>(e: TimelineEntry<M, J>) -> Option<(J, M)> {
    match e {
        TimelineEntry::PlainText { message: Some(m), json: Some(j) } => Some((j, m)),
        TimelineEntry::Decrypted { message: Some(m), json: Some(j) } => Some((j, m)),
        _ => None,
    }
}

/// The serialized form of a readable event that could not be decrypted, if `e` is one.
pub open spec fn entry_utd<M, J>(e: TimelineEntry<M, J>) -> Option<J> {
    match e {
        TimelineEntry::UnableToDecrypt { readable: true, json: Some(j) } => Some(j),
        _ => None,
    }
}

/// The room messages of `s`, in order, each with its serialized form.
pub open spec fn message_pairs<M, J>(s: Seq<TimelineEntry<M, J>>) -> Seq<(J, M)>
    decreases s.len(),
{
    if s.len() == 0 {
        Seq::empty()
    } else {
        match entry_message(s.last()) {
            Some(p) => message_pairs(s.drop_last()).push(p),
            None => message_pairs(s.drop_last()),
        }
    }
}

/// The serialized events of `s` that could not be decrypted, in order.
pub open spec fn utd_events<M, J>(s: Seq<TimelineEntry<M, J>>) -> Seq<J>
    decreases s.len(),
{
    if s.len() == 0 {
        Seq::empty()
    } else {
        match entry_utd(s.last()) {
            Some(j) => utd_events(s.drop_last()).push(j),
            None => utd_events(s.drop_last()),
        }
    }
}

/// Takes a list of events, filters redacted, and returns three vecs:
/// serialized, plain+decrypted, unable to decrypt (serialized)
///
/// The first two vecs are for the *same* events in the same order,
/// while the third is only for utd events.
pub fn split_event_kinds<M, J>(list: Vec<TimelineEntry<M, J>>) -> (r: (Vec<J>, Vec<M>, Vec<J>))
    ensures
        r.0@ == message_pairs(list@).map_values(|p: (J, M)| p.0),
        r.1@ == message_pairs(list@).map_values(|p: (J, M)| p.1),
        r.2@ == utd_events(list@),
{
    let ghost s = list@;
    let mut serialized: Vec<J> = Vec::new();
    let mut deserialized: Vec<M> = Vec::new();
    let mut utd: Vec<J> = Vec::new();
    for ev in it: list
        invariant
            it.seq() == s,
            serialized@ == message_pairs(s.take(it.index() as int)).map_values(|p: (J, M)| p.0),
            deserialized@ == message_pairs(s.take(it.index() as int)).map_values(|p: (J, M)| p.1),
            utd@ == utd_events(s.take(it.index() as int)),
    {
        let ghost i = it.index() as int;
        proof {
            assert(s.take(i + 1).drop_last() =~= s.take(i));
            assert(s.take(i + 1).last() == ev);
        }
        match ev {
            TimelineEntry::PlainText { message: Some(m), json: Some(j) } => {
                serialized.push(j);
                deserialized.push(m);
            },
            TimelineEntry::Decrypted { message: Some(m), json: Some(j) } => {
                serialized.push(j);
                deserialized.push(m);
            },
            TimelineEntry::UnableToDecrypt { readable: true, json: Some(j) } => {
                utd.push(j);
            },
            _ => {},
        }
        proof {
            assert(serialized@ =~= message_pairs(s.take(i + 1)).map_values(|p: (J, M)| p.0));
            assert(deserialized@ =~= message_pairs(s.take(i + 1)).map_values(|p: (J, M)| p.1));
        }
    }
    proof {
        assert(s.take(s.len() as int) =~= s);
    }
    (serialized, deserialized, utd)
}


/// Whether a room message is text (handled separately from media).
pub open spec fn is_text<E>(ev: RoomMessageEvent<E>) -> bool {
    ev.content is Text
}

/// The messages of `s` for which `keep(is_text(ev))` holds, in order.
pub open spec fn messages_where<E>(s: Seq<RoomMessageEvent<E>>, text: bool) -> Seq<RoomMessageEvent<E>>
    decreases s.len(),
{
    if s.len() == 0 {
        Seq::empty()
    } else if is_text(s.last()) == text {
        messages_where(s.drop_last(), text).push(s.last())
    } else {
        messages_where(s.drop_last(), text)
    }
}

/// Takes a list of already filtered events, and splits text/media into two vecs,
/// while consuming the original list.
///
/// The first vec is for text, the latter for media.
pub fn split_media_types<E>(events: Vec<RoomMessageEvent<E>>) -> (r: (
    Vec<RoomMessageEvent<E>>,
    Vec<RoomMessageEvent<E>>,
))
    ensures
        r.0@ == messages_where(events@, true),
        r.1@ == messages_where(events@, false),
{
    let ghost s = events@;
    let mut text: Vec<RoomMessageEvent<E>> = Vec::new();
    let mut media: Vec<RoomMessageEvent<E>> = Vec::new();
    for ev in it: events
        invariant
            it.seq() == s,
            text@ == messages_where(s.take(it.index() as int), true),
            media@ == messages_where(s.take(it.index() as int), false),
    {
        let ghost i = it.index() as int;
        proof {
            assert(s.take(i + 1).drop_last() =~= s.take(i));
            assert(s.take(i + 1).last() == ev);
        }
        match ev.content {
            MessageType::Text { .. } => text.push(ev),
            _ => media.push(ev),
        }
    }
    proof {
        assert(s.take(s.len() as int) =~= s);
    }
    (text, media)
}

/// The directory of a room's text export.
pub open spec fn spec_text_dir(user: Seq<char>) -> Seq<char> {
    spec_join(user, "text"@)
}

/// The directory of a room's media export.
pub open spec fn spec_media_dir(user: Seq<char>) -> Seq<char> {
    spec_join(user, "media"@)
}

/// The directory of a room's serialized events.
pub open spec fn spec_serialized_dir(user: Seq<char>) -> Seq<char> {
    spec_join(user, "events"@)
}

/// The file `{dir}/{user}{suffix}.{ext}`: the extension is appended to the whole name, so
/// dots in the room's name stay.
pub open spec fn spec_named_file(dir: Seq<char>, user: Seq<char>, suffix: Seq<char>, ext: Seq<char>) -> Seq<char> {
    spec_join(dir, spec_add_extension(user + suffix, ext))
}

/// `{dir}/{user}{suffix}.{ext}`.
fn named_file(dir: &str, user: &str, suffix: &str, ext: &str) -> (p: String)
    ensures
        p@ == spec_named_file(dir@, user@, suffix@, ext@),
{
    let mut name = String::from_str(user);
    name.append(suffix);
    let file = add_extension(name.as_str(), ext);
    join(dir, file.as_str())
}

/// Paths of a room's export, all under a directory named after the room.
#[derive(Clone, Debug)]
pub struct WriteDirs {
    user: String,
    media_dir: String,
    text_file: String,
    /// For serialized output of all events
    serialized_dir: String,
}

/// Plain view of [`WriteDirs`]: the room's name and the paths computed from it.
pub struct WriteDirsView {
    pub user: Seq<char>,
    pub media_dir: Seq<char>,
    pub text_file: Seq<char>,
    pub serialized_dir: Seq<char>,
}

impl View for WriteDirs {
    type V = WriteDirsView;

    closed spec fn view(&self) -> WriteDirsView {
        WriteDirsView {
            user: self.user@,
            media_dir: self.media_dir@,
            text_file: self.text_file@,
            serialized_dir: self.serialized_dir@,
        }
    }
}

/// The directories that setting up an export of `user` creates, in order: the text
/// directory, the media directory, the events directory, and the media
/// subdirectories of files, images, video and audio.
pub open spec fn spec_setup_dirs(user: Seq<char>) -> Seq<Seq<char>> {
    seq![
        spec_text_dir(user),
        spec_media_dir(user),
        spec_serialized_dir(user),
        spec_join(spec_media_dir(user), spec_subdir(MediaKind::File)),
        spec_join(spec_media_dir(user), spec_subdir(MediaKind::Image)),
        spec_join(spec_media_dir(user), spec_subdir(MediaKind::Video)),
        spec_join(spec_media_dir(user), spec_subdir(MediaKind::Audio)),
    ]
}

/// The paths of the export of `user` (the room's name).
pub open spec fn spec_write_dirs(user: Seq<char>) -> WriteDirsView {
    WriteDirsView {
        user: user,
        media_dir: spec_media_dir(user),
        text_file: spec_named_file(spec_text_dir(user), user, " - messages"@, "txt"@),
        serialized_dir: spec_serialized_dir(user),
    }
}

impl WriteDirs {
    /// The paths of the export of `user` (the room's name).
    pub fn new(user: &str) -> (dirs: Self)
        ensures
            dirs@ == spec_write_dirs(user@),
    {
        proof {
            reveal_strlit(" - messages");
        }
        let text_dir = join(user, "text");
        let media_dir = join(user, "media");
        let text_file = named_file(text_dir.as_str(), user, " - messages", "txt");
        let serialized_dir = join(user, "events");
        WriteDirs { user: String::from_str(user), media_dir, text_file, serialized_dir }
    }

    /// The directories to create before an export of `user` starts.
    pub fn setup_dirs(user: &str) -> (dirs: Vec<String>)
        ensures
            dirs.deep_view() == spec_setup_dirs(user@),
    {
        let media_dir = join(user, "media");
        let mut dirs: Vec<String> = Vec::new();
        dirs.push(join(user, "text"));
        dirs.push(join(user, "events"));
        dirs.insert(1, media_dir.clone());
        dirs.push(join(media_dir.as_str(), MediaKind::File.subdir()));
        dirs.push(join(media_dir.as_str(), MediaKind::Image.subdir()));
        dirs.push(join(media_dir.as_str(), MediaKind::Video.subdir()));
        dirs.push(join(media_dir.as_str(), MediaKind::Audio.subdir()));
        proof {
            assert(dirs.deep_view() =~= spec_setup_dirs(user@));
        }
        dirs
    }

    /// Reference to the media directory path
    pub fn media_dir(&self) -> (dir: &String)
        ensures
            dir@ == self@.media_dir,
    {
        &self.media_dir
    }

    /// The file that the text export appends to.
    pub fn text_file(&self) -> (file: &String)
        ensures
            file@ == self@.text_file,
    {
        &self.text_file
    }

    /// File for the serialized events
    pub fn serialized_file(&self) -> (file: String)
        ensures
            file@ == spec_named_file(self@.serialized_dir, self@.user, " - Events"@, "json"@),
    {
        proof {
            reveal_strlit(" - Events");
        }
        named_file(self.serialized_dir.as_str(), self.user.as_str(), " - Events", "json")
    }

    /// File for events which couldn't be decrypted
    pub fn utd_file(&self) -> (file: String)
        ensures
            file@ == spec_named_file(
                self@.serialized_dir,
                self@.user,
                " - Unable to decrypt"@,
                "json"@,
            ),
    {
        proof {
            reveal_strlit(" - Unable to decrypt");
        }
        named_file(self.serialized_dir.as_str(), self.user.as_str(), " - Unable to decrypt", "json")
    }
}

/// Output of a room's export: its name and the paths it writes to.
#[derive(Clone, Debug)]
pub struct FileCache {
    user: String,
    dirs: WriteDirs,
}

impl FileCache {
    /// The output of the export of `user` (the room's name).
    pub fn new(user: String) -> (cache: Self)
        ensures
            cache.spec_user() == user@,
            cache.spec_dirs() == spec_write_dirs(user@),
    {
        let dirs = WriteDirs::new(user.as_str());
        FileCache { user, dirs }
    }

    pub closed spec fn spec_user(&self) -> Seq<char> {
        self.user@
    }

    pub closed spec fn spec_dirs(&self) -> WriteDirsView {
        self.dirs@
    }

    pub fn user(&self) -> (user: &String)
        ensures
            user@ == self.spec_user(),
    {
        &self.user
    }

    pub fn dirs(&self) -> (dirs: &WriteDirs)
        ensures
            dirs@ == self.spec_dirs(),
    {
        &self.dirs
    }
}


/// Every room message of a batch lands in exactly one of the two lists of
/// [`split_media_types`]: text and media together hold as many events as the batch.
pub proof fn law_split_media_is_partition<E>(s: Seq<RoomMessageEvent<E>>)
    ensures
        messages_where(s, true).len() + messages_where(s, false).len() == s.len(),
        forall|i: int| 0 <= i < messages_where(s, true).len() ==> is_text(#[trigger] messages_where(s, true)[i]),
        forall|i: int| 0 <= i < messages_where(s, false).len() ==> !is_text(#[trigger] messages_where(s, false)[i]),
    decreases s.len(),
{
    if s.len() > 0 {
        law_split_media_is_partition(s.drop_last());
    }
}

/// The serialized events and the deserialized messages of [`split_event_kinds`] are for
/// the same events in the same order: equally many, the `i`-th of each from the same event.
pub proof fn law_serialized_matches_deserialized<M, J>(s: Seq<TimelineEntry<M, J>>, i: int)
    requires
        0 <= i < message_pairs(s).len(),
    ensures
        message_pairs(s).map_values(|p: (J, M)| p.0).len() == message_pairs(s).map_values(
            |p: (J, M)| p.1,
        ).len(),
        (message_pairs(s).map_values(|p: (J, M)| p.0)[i], message_pairs(s).map_values(
            |p: (J, M)| p.1,
        )[i]) == message_pairs(s)[i],
{
}


/// How much of a room's event lists was written out so far.
#[derive(Clone, Copy, Debug, PartialEq, Eq, Structural)]
pub struct OutputProgress {
    /// Events in the serialized file after its last write.
    pub serialized_len: usize,
    /// Events in the file of undecryptable events after its last successful write.
    pub utd_len: usize,
}

/// Which files a flush rewrites.
#[derive(Clone, Copy, Debug, PartialEq, Eq, Structural)]
pub struct FlushPlan {
    pub write_serialized: bool,
    pub write_utd: bool,
}

impl OutputProgress {
    pub fn new() -> (p: Self)
        ensures
            p.serialized_len == 0,
            p.utd_len == 0,
    {
        OutputProgress { serialized_len: 0, utd_len: 0 }
    }

    /// A file is rewritten on a flush only when its list grew (or shrank) since it was last
    /// written.
    pub fn plan(&self, serialized_len: usize, utd_len: usize) -> (plan: FlushPlan)
        ensures
            plan.write_serialized == (serialized_len != self.serialized_len),
            plan.write_utd == (utd_len != self.utd_len),
    {
        FlushPlan {
            write_serialized: serialized_len != self.serialized_len,
            write_utd: utd_len != self.utd_len,
        }
    }

    /// The serialized file was written with `len` events.
    pub fn serialized_written(&mut self, len: usize)
        ensures
            final(self).serialized_len == len,
            final(self).utd_len == old(self).utd_len,
    {
        self.serialized_len = len;
    }

    /// The file of undecryptable events was written with `len` events, or failed to be;
    /// a failed write is tried again on the next flush.
    pub fn utd_written(&mut self, len: usize, ok: bool)
        ensures
            final(self).utd_len == if ok {
                len
            } else {
                old(self).utd_len
            },
            final(self).serialized_len == old(self).serialized_len,
    {
        if ok {
            self.utd_len = len;
        }
    }
}

/// An outcome's error text, if any.
pub open spec fn outcome_view(r: Result<(), String>) -> Result<(), Seq<char>> {
    match r {
        Ok(()) => Ok(()),
        Err(e) => Err(e@),
    }
}

/// The outcome of writing a serialized file and flushing it, with an error message that
/// names what failed.
pub open spec fn spec_write_outcome(write: Result<(), Seq<char>>, flush: Result<(), Seq<char>>) -> Result<(), Seq<char>> {
    match (write, flush) {
        (Ok(()), Ok(())) => Ok(()),
        (Ok(()), Err(e)) => Err("Error finishing serialized write: "@ + e),
        (Err(e), Ok(())) => Err("Error writing serialized write: "@ + e),
        (Err(we), Err(fe)) => Err("Errors writing to serialized file: "@ + we + "\n"@ + fe),
    }
}

/// The outcome of writing a serialized file (`write`) and flushing it (`flush`), given the
/// error texts of the two steps.
pub fn write_outcome(write: Result<(), String>, flush: Result<(), String>) -> (r: Result<(), String>)
    ensures
        outcome_view(r) == spec_write_outcome(outcome_view(write), outcome_view(flush)),
{
    match (write, flush) {
        (Ok(()), Ok(())) => Ok(()),
        (Ok(()), Err(e)) => {
            let mut m = String::from_str("Error finishing serialized write: ");
            m.append(e.as_str());
            Err(m)
        },
        (Err(e), Ok(())) => {
            let mut m = String::from_str("Error writing serialized write: ");
            m.append(e.as_str());
            Err(m)
        },
        (Err(we), Err(fe)) => {
            let mut m = String::from_str("Errors writing to serialized file: ");
            m.append(we.as_str());
            m.append("\n");
            m.append(fe.as_str());
            Err(m)
        },
    }
}


/// The events file and the file of events that could not be decrypted are two different
/// files, whatever the room is named, so neither output overwrites the other; and each
/// keeps the room's whole name, dots included.
pub proof fn law_event_files_are_distinct(dir: Seq<char>, user: Seq<char>)
    ensures
        spec_named_file(dir, user, " - Events"@, "json"@) != spec_named_file(
            dir,
            user,
            " - Unable to decrypt"@,
            "json"@,
        ),
        spec_named_file(dir, user, " - Events"@, "json"@) == spec_join(
            dir,
            user + " - Events.json"@,
        ),
        spec_named_file(dir, user, " - Unable to decrypt"@, "json"@) == spec_join(
            dir,
            user + " - Unable to decrypt.json"@,
        ),
{
    reveal_strlit(" - Events");
    reveal_strlit(" - Unable to decrypt");
    reveal_strlit("json");
    reveal_strlit(" - Events.json");
    reveal_strlit(" - Unable to decrypt.json");
    let a = spec_add_extension(user + " - Events"@, "json"@);
    let b = spec_add_extension(user + " - Unable to decrypt"@, "json"@);
    assert(a =~= user + " - Events.json"@);
    assert(b =~= user + " - Unable to decrypt.json"@);
    let k: int = user.len() as int + 3;
    assert(a[k] == 'E');
    assert(b[k] == 'U');
    let ja = spec_join(dir, a);
    let jb = spec_join(dir, b);
    if a[0] == '/' {
        assert(b[0] == a[0]);
        assert(ja[k] != jb[k]);
    } else if dir.len() == 0 {
        assert(ja[k] != jb[k]);
    } else if dir.last() == '/' {
        assert(ja[dir.len() as int + k] != jb[dir.len() as int + k]);
    } else {
        assert(ja[dir.len() as int + 1 + k] != jb[dir.len() as int + 1 + k]);
    }
}

} // verus!
