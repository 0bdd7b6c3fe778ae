use vstd::prelude::*;

use crate::utils::cache::CACHE_INTERVAL;
use crate::utils::cache::user_cache::{
    lookup_total, passes, spec_lookup, ExportCache, RoomCacheView, RoomExportCache, RoomLookup, CACHE_DONE,
};

verus! {

/// Errors of an export run.
#[derive(Debug, Clone, Copy, PartialEq, Eq, Structural)]
pub enum ExportError {
    /// The cached token marks the room's export as completed; it is skipped.
    ExportCompleted,
}

/// Whether room `i` is where the scan for `id` first matches.
pub open spec fn is_first_match(rooms: Seq<RoomCacheView>, id: Seq<char>, i: int) -> bool {
    &&& 0 <= i < rooms.len()
    &&& rooms[i].room_id == Some(id)
    &&& forall|j: int| 0 <= j < i ==> #[trigger] passes(rooms, id, j)
}

/// The index of the first cached room whose ID is `id`, if the scan finds one.
pub open spec fn first_match(rooms: Seq<RoomCacheView>, id: Seq<char>) -> Option<int> {
    if exists|i: int| #[trigger] is_first_match(rooms, id, i) {
        Some(choose|i: int| #[trigger] is_first_match(rooms, id, i))
    } else {
        None
    }
}

/// The room cache that a fresh export of room `id` named `name` starts with.
pub open spec fn fresh_room(id: Seq<char>, name: Seq<char>) -> RoomCacheView {
    RoomCacheView { room_id: Some(id), last_token: None, display_name: Some(name) }
}

/// The cache after [`get_room`] and the room it returns: the cached room if there is one,
/// otherwise a fresh room, which is also appended to the cache.
pub open spec fn spec_get_room(rooms: Seq<RoomCacheView>, id: Seq<char>, name: Seq<char>) -> (
    Seq<RoomCacheView>,
    RoomCacheView,
) {
    match first_match(rooms, id) {
        Some(i) => (rooms, rooms[i]),
        None => (rooms.push(fresh_room(id, name)), fresh_room(id, name)),
    }
}

proof fn lemma_found_is_first_match(rooms: Seq<RoomCacheView>, id: Seq<char>, i: int)
    requires
        is_first_match(rooms, id, i),
    ensures
        first_match(rooms, id) == Some(i),
{
    let k = choose|k: int| #[trigger] is_first_match(rooms, id, k);
    if k < i {
        assert(passes(rooms, id, k));
    } else if i < k {
        assert(passes(rooms, id, i));
    }
}

proof fn lemma_absent_has_no_match(rooms: Seq<RoomCacheView>, id: Seq<char>)
    requires
        spec_lookup(rooms, id, RoomLookup::Absent),
    ensures
        first_match(rooms, id) is None,
{
    if exists|i: int| #[trigger] is_first_match(rooms, id, i) {
        let k = choose|k: int| #[trigger] is_first_match(rooms, id, k);
        assert(passes(rooms, id, k));
    }
}

/// Convenience function, returns either a clone of the cached room, or a new one.
/// If it's a new one, it gets added to the cache.
pub fn get_room(cache: &mut ExportCache, room_id: String, name: String) -> (room: RoomExportCache)
    requires
        lookup_total(old(cache)@, room_id@),
    ensures
        (final(cache)@, room@) == spec_get_room(old(cache)@, room_id@, name@),
{
    let ghost id = room_id@;
    match cache.lookup(&room_id) {
        RoomLookup::Found(i) => {
            proof {
                assert(is_first_match(cache@, id, i as int));
                lemma_found_is_first_match(cache@, id, i as int);
            }
            let rooms = cache.rooms();
            let room = rooms[i].clone();
            proof {
                assert(rooms@.map_values(|r: RoomExportCache| r@)[i as int] == rooms@[i as int]@);
            }
            room
        },
        RoomLookup::Absent => {
            proof {
                lemma_absent_has_no_match(cache@, id);
            }
            let mut room = RoomExportCache::default();
            room.add_room_data(room_id, name, None).add_to_global(cache);
            room
        },
        RoomLookup::MissingId(i) => {
            proof {
                let j = choose|j: int| 0 <= j < i && old(cache)@[j].room_id == Some(id);
                assert(passes(old(cache)@, id, j));
            }
            let mut room = RoomExportCache::default();
            room
        },
    }
}

/// Where an export of a room resumes: from the cached token, from the newest message when
/// nothing is cached, or nowhere when the cached token marks the export as completed.
pub open spec fn spec_resume(last_token: Option<Seq<char>>) -> Result<Option<Seq<char>>, ExportError> {
    match last_token {
        Some(t) => if t == CACHE_DONE@ {
            Err(ExportError::ExportCompleted)
        } else {
            Ok(Some(t))
        },
        None => Ok(None),
    }
}

/// The token to resume the export of `room` from.
pub fn resume_token(room: &RoomExportCache) -> (r: Result<Option<String>, ExportError>)
    ensures
        match (r, spec_resume(room@.last_token)) {
            (Ok(t), Ok(s)) => t.deep_view() == s,
            (Err(e), Err(f)) => e == f,
            _ => false,
        },
{
    match room.last_token() {
        Some(token) => {
            let done = String::from_str(CACHE_DONE);
            if token.eq(&done) {
                Err(ExportError::ExportCompleted)
            } else {
                Ok(Some(token.clone()))
            }
        },
        None => Ok(None),
    }
}

/// What the export does after a page of messages was fetched.
#[derive(Debug, PartialEq, Eq)]
pub enum PageAction {
    /// The writer stopped taking chunks: stop fetching.
    Stop,
    /// Fetch the next page from `from`; first save `save_token` in the cache where there is
    /// one, and ask the writer to write out what it holds where `flush` is set.
    Continue { from: String, save_token: Option<String>, flush: bool },
    /// The last page was fetched: save `save_token` (the completion marker) in the cache,
    /// ask the writer to write out what it holds where `flush` is set, and stop.
    Finish { save_token: String, flush: bool },
}

/// Progress of the export of one room: chunks fetched and messages counted.
#[derive(Debug, Clone, Copy, PartialEq, Eq, Structural)]
pub struct ExportProgress {
    /// Pages fetched so far; this is used for caching.
    pub curr_chunk: u64,
    /// Events fetched so far.
    pub total: usize,
}

impl ExportProgress {
    pub fn new() -> (p: Self)
        ensures
            p.curr_chunk == 0,
            p.total == 0,
    {
        ExportProgress { curr_chunk: 0, total: 0 }
    }

    /// Account for a fetched page of `chunk_len` events, which the writer took (`delivered`)
    /// or not, and which ends at `end` (no token on the last page); decide what comes next.
    pub fn on_page(&mut self, chunk_len: usize, delivered: bool, end: Option<String>) -> (action:
        PageAction)
        requires
            old(self).total + chunk_len <= usize::MAX,
            old(self).curr_chunk < u64::MAX,
        ensures
            final(self).total == old(self).total + chunk_len,
            final(self).curr_chunk == old(self).curr_chunk + 1,
            !delivered ==> action == PageAction::Stop,
            delivered ==> match end {
                Some(t) => action matches PageAction::Continue { from, save_token, flush } && from@
                    == t@ && (save_token is Some <==> final(self).curr_chunk % CACHE_INTERVAL == 0)
                    && (save_token matches Some(s) ==> s@ == t@) && flush == save_token is Some,
                None => action matches PageAction::Finish { save_token, flush } && save_token@
                    == CACHE_DONE@ && flush,
            },
    {
        self.total = self.total + chunk_len;
        self.curr_chunk = self.curr_chunk + 1;
        if !delivered {
            return PageAction::Stop;
        }
        match end {
            Some(token) => {
                let save = self.curr_chunk % CACHE_INTERVAL == 0;
                let save_token = if save {
                    Some(token.clone())
                } else {
                    None
                };
                PageAction::Continue { from: token, save_token, flush: save }
            },
            None => PageAction::Finish { save_token: String::from_str(CACHE_DONE), flush: true },
        }
    }
}


proof fn lemma_no_match_all_pass(rooms: Seq<RoomCacheView>, id: Seq<char>, n: int)
    requires
        lookup_total(rooms, id),
        first_match(rooms, id) is None,
        0 <= n <= rooms.len(),
    ensures
        forall|j: int| 0 <= j < n ==> #[trigger] passes(rooms, id, j),
    decreases n,
{
    if n > 0 {
        lemma_no_match_all_pass(rooms, id, n - 1);
        let j = n - 1;
        if rooms[j].room_id == Some(id) {
            assert(is_first_match(rooms, id, j));
        } else if rooms[j].room_id is None {
            let k = choose|k: int| 0 <= k < j && rooms[k].room_id == Some(id);
            assert(passes(rooms, id, k));
        }
    }
}

/// Looking a room up twice gives the same room, and the second lookup leaves the
/// cache as the first one left it: a room is added to the cache at most once.
pub proof fn law_get_room_idempotent(
    rooms: Seq<RoomCacheView>,
    id: Seq<char>,
    name: Seq<char>,
    other_name: Seq<char>,
)
    requires
        lookup_total(rooms, id),
    ensures
        lookup_total(spec_get_room(rooms, id, name).0, id),
        spec_get_room(spec_get_room(rooms, id, name).0, id, other_name) == spec_get_room(
            rooms,
            id,
            name,
        ),
{
    match first_match(rooms, id) {
        Some(i) => {},
        None => {
            lemma_no_match_all_pass(rooms, id, rooms.len() as int);
            let after = rooms.push(fresh_room(id, name));
            assert forall|j: int| 0 <= j < rooms.len() implies #[trigger] passes(after, id, j) by {
                assert(passes(rooms, id, j));
            }
            assert(is_first_match(after, id, rooms.len() as int));
            lemma_found_is_first_match(after, id, rooms.len() as int);
            assert forall|i: int| 0 <= i < after.len() && after[i].room_id is None implies exists|
                j: int,
            | 0 <= j < i && after[j].room_id == Some(id) by {
                assert(passes(rooms, id, i));
            }
        },
    }
}

/// Once the cache holds [`CACHE_DONE`] as a room's token, a later export of that room
/// is skipped.
pub proof fn law_completed_export_is_skipped(room: RoomCacheView)
    requires
        room.last_token == Some(CACHE_DONE@),
    ensures
        spec_resume(room.last_token) == Err::<Option<Seq<char>>, ExportError>(
            ExportError::ExportCompleted,
        ),
{
}


/// After a room's token is replaced, an export of the room resumes from the new token
/// (unless that token is the completion marker).
pub proof fn law_updated_token_resumes(
    rooms: Seq<RoomCacheView>,
    i: int,
    token: Seq<char>,
)
    requires
        0 <= i < rooms.len(),
        token != CACHE_DONE@,
    ensures
        spec_resume(
            rooms.update(i, RoomCacheView { last_token: Some(token), ..rooms[i] })[i].last_token,
        ) == Ok::<Option<Seq<char>>, ExportError>(Some(token)),
{
}

} // verus!
