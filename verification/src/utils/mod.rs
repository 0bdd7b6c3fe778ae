use vstd::prelude::*;

pub mod cache;
pub mod export;
pub mod media;
pub mod paths;
pub mod traits;

use crate::ui::tasks::verification::{offers_sas, supports_sas, VerificationMethod};

verus! {

/// A joined room as the room prompt lists it: by display name, keeping the room ID.
#[derive(Clone, Debug, PartialEq, Eq)]
pub struct RoomDisplayInfo {
    pub display_name: String,
    pub room_id: String,
}

/// The name a room is listed under: its display name, or else its ID marked as such.
pub open spec fn spec_listed_name(display_name: Option<Seq<char>>, room_id: Seq<char>) -> Seq<char> {
    match display_name {
        Some(n) => n,
        None => room_id + "  (name unavailable)"@,
    }
}

impl RoomDisplayInfo {
    /// The prompt's entry of room `room_id`, whose display name is known or not.
    pub fn new(display_name: Option<String>, room_id: String) -> (info: Self)
        ensures
            info.display_name@ == spec_listed_name(display_name.deep_view(), room_id@),
            info.room_id@ == room_id@,
    {
        let display_name = match display_name {
            Some(n) => n,
            None => {
                let mut n = room_id.clone();
                n.append("  (name unavailable)");
                n
            },
        };
        RoomDisplayInfo { display_name, room_id }
    }
}

/// Errors in choosing rooms.
#[derive(Debug, Clone, Copy, PartialEq, Eq, Structural)]
pub enum SelectError {
    NoRoomsSelected,
}

/// The IDs of the ticked entries of the room list, in the order the ticks are given.
pub open spec fn spec_ticked_ids(rooms: Seq<RoomDisplayInfo>, ticked: Seq<usize>) -> Seq<Seq<char>> {
    ticked.map_values(|k: usize| rooms[k as int].room_id@)
}

/// The rooms the user ticked, given by their positions in the room list; ticking none is
/// an error. Each ticked entry gives its own room's ID, also where rooms share a name.
pub fn selected_room_ids(rooms: &Vec<RoomDisplayInfo>, ticked: &Vec<usize>) -> (r: Result<
    Vec<String>,
    SelectError,
>)
    requires
        forall|k: int| 0 <= k < ticked@.len() ==> #[trigger] ticked@[k] < rooms@.len(),
    ensures
        ticked@.len() == 0 <==> r == Err::<Vec<String>, SelectError>(SelectError::NoRoomsSelected),
        r matches Ok(ids) ==> ids.deep_view() == spec_ticked_ids(rooms@, ticked@),
{
    if ticked.len() == 0 {
        return Err(SelectError::NoRoomsSelected);
    }
    let mut ids: Vec<String> = Vec::new();
    let mut i: usize = 0;
    while i < ticked.len()
        invariant
            0 <= i <= ticked@.len(),
            forall|k: int| 0 <= k < ticked@.len() ==> #[trigger] ticked@[k] < rooms@.len(),
            ids.deep_view() == spec_ticked_ids(rooms@, ticked@.take(i as int)),
        decreases ticked@.len() - i,
    {
        let k = ticked[i];
        ids.push(rooms[k].room_id.clone());
        proof {
            assert(spec_ticked_ids(rooms@, ticked@.take(i + 1)) =~= spec_ticked_ids(
                rooms@,
                ticked@.take(i as int),
            ).push(rooms@[k as int].room_id@));
            assert(ids.deep_view() =~= spec_ticked_ids(rooms@, ticked@.take(i + 1)));
        }
        i = i + 1;
    }
    proof {
        assert(ticked@.take(ticked@.len() as int) =~= ticked@);
    }
    Ok(ids)
}

/// Events fetched newest first, put in chronological order.
pub fn chronological<T>(events: Vec<T>) -> (ordered: Vec<T>)
    ensures
        ordered@ == events@.reverse(),
{
    let mut events = events;
    let ghost original = events@;
    let mut ordered: Vec<T> = Vec::new();
    while events.len() > 0
        invariant
            original == events@ + ordered@.reverse(),
        decreases events@.len(),
    {
        let ghost before = events@;
        let e = events.pop().unwrap();
        ordered.push(e);
        proof {
            assert(ordered@.reverse() =~= seq![e] + ordered@.drop_last().reverse());
            assert(before =~= events@.push(e));
        }
    }
    proof {
        assert(ordered@.reverse().reverse() =~= ordered@);
    }
    ordered
}

/// A line of the plain text export: `{timestamp} — {sender}: {body}` and a newline.
pub open spec fn spec_export_line(timestamp: Seq<char>, sender: Seq<char>, body: Seq<char>) -> Seq<char> {
    timestamp + " — "@ + sender + ": "@ + body + "\n"@
}

/// The line of the plain text export of one message.
pub fn export_line(timestamp: &str, sender: &str, body: &str) -> (line: String)
    ensures
        line@ == spec_export_line(timestamp@, sender@, body@),
{
    let mut line = String::from_str(timestamp);
    line.append(" — ");
    line.append(sender);
    line.append(": ");
    line.append(body);
    line.append("\n");
    line
}

/// Whether a confirmation prompt's answer is yes.
pub fn is_yes(answer: &str) -> (yes: bool)
    ensures
        yes == (answer@ == "y"@),
{
    String::from_str(answer).eq(&String::from_str("y"))
}

/// How the command line continues once the verification request settled.
#[derive(Debug, Clone, Copy, PartialEq, Eq, Structural)]
pub enum CliVerification {
    /// Verify by emoji.
    RunSas,
    /// The other device does not support emoji: not verified.
    Unsupported,
    /// The other device's methods are unknown: nothing more to do.
    Done,
}

/// The next step of the command-line verification, given the other device's methods.
pub fn cli_verification_step(their_methods: &Option<Vec<VerificationMethod>>) -> (step: CliVerification)
    ensures
        step == match *their_methods {
            Some(_) => if offers_sas(*their_methods) {
                CliVerification::RunSas
            } else {
                CliVerification::Unsupported
            },
            None => CliVerification::Done,
        },
{
    match their_methods {
        Some(_) => if supports_sas(their_methods) {
            CliVerification::RunSas
        } else {
            CliVerification::Unsupported
        },
        None => CliVerification::Done,
    }
}


/// The plain export line holds the whole message: the timestamp, ` — `, the sender, `: `,
/// the body unshortened and unchanged, and a newline, with nothing else.
pub proof fn law_export_line_holds_the_whole_body(timestamp: Seq<char>, sender: Seq<char>, body: Seq<char>)
    ensures
        ({
            let line = spec_export_line(timestamp, sender, body);
            let t = timestamp.len() as int;
            let sl = sender.len() as int;
            let start = t + sl + 5;
            &&& line.len() == start + body.len() + 1
            &&& line.subrange(0, t) == timestamp
            &&& line.subrange(t, t + 3) == seq![' ', '—', ' ']
            &&& line.subrange(t + 3, t + 3 + sl) == sender
            &&& line.subrange(start - 2, start) == seq![':', ' ']
            &&& line.subrange(start, start + body.len() as int) == body
            &&& line.last() == '\n'
        }),
{
    reveal_strlit(" — ");
    reveal_strlit(": ");
    reveal_strlit("\n");
    let line = spec_export_line(timestamp, sender, body);
    let t = timestamp.len() as int;
    let s = sender.len() as int;
    let start = t + s + 5;
    assert(line.subrange(0, t) =~= timestamp);
    assert(line.subrange(t, t + 3) =~= seq![' ', '—', ' ']);
    assert(line.subrange(t + 3, t + 3 + s) =~= sender);
    assert(line.subrange(start - 2, start) =~= seq![':', ' ']);
    assert(line.subrange(start, start + body.len()) =~= body);
}

} // verus!
