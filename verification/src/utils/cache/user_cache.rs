use vstd::prelude::*;

verus! {

/// File name for the cache.
pub const CACHE_FILE: &'static str = "met-cache.json";

/// A dummy token. If this is set, the export is skipped.
pub const CACHE_DONE: &'static str = "export_completed";

/// Errors of the export cache.
#[derive(Debug, Clone, Copy, PartialEq, Eq, Structural)]
pub enum CacheError {
    /// No room of the cache has the requested room ID.
    NoRoomFound,
}

/// Plain view of a [`RoomExportCache`].
pub struct RoomCacheView {
    pub room_id: Option<Seq<char>>,
    pub last_token: Option<Seq<char>>,
    pub display_name: Option<Seq<char>>,
}

/// Cache data of one room.
///
/// On larger exports, this cache gets created, and written to a file.
/// The token here is of the last fetched message chunk.
///
/// When the program runs again, this is imported (deserialized), and the export function
/// continues from `last_token`, instead of starting over.
#[derive(Debug)]
pub struct RoomExportCache {
    /// Room ID
    room_id: Option<String>,
    /// Pagination token of the last saved chunk
    last_token: Option<String>,
    /// Room display name
    display_name: Option<String>,
}

impl View for RoomExportCache {
    type V = RoomCacheView;

    closed spec fn view(&self) -> RoomCacheView {
        RoomCacheView {
            room_id: self.room_id.deep_view(),
            last_token: self.last_token.deep_view(),
            display_name: self.display_name.deep_view(),
        }
    }
}

fn clone_opt_string(o: &Option<String>) -> (r: Option<String>)
    ensures
        r.deep_view() == o.deep_view(),
{
    match o {
        Some(s) => Some(s.clone()),
        None => None,
    }
}

impl Clone for RoomExportCache {
    fn clone(&self) -> (r: Self)
        ensures
            r@ == self@,
    {
        RoomExportCache {
            room_id: clone_opt_string(&self.room_id),
            last_token: clone_opt_string(&self.last_token),
            display_name: clone_opt_string(&self.display_name),
        }
    }
}

impl RoomExportCache {
    /// Create a new, empty export cache.
    pub fn new() -> (r: Self)
        ensures
            r@ == (RoomCacheView { room_id: None, last_token: None, display_name: None }),
    {
        RoomExportCache { room_id: None, last_token: None, display_name: None }
    }

    /// A room cache with the given fields, as read back from a cache file.
    pub fn from_parts(
        room_id: Option<String>,
        last_token: Option<String>,
        display_name: Option<String>,
    ) -> (r: Self)
        ensures
            r@.room_id == room_id.deep_view(),
            r@.last_token == last_token.deep_view(),
            r@.display_name == display_name.deep_view(),
    {
        RoomExportCache { room_id, last_token, display_name }
    }

    pub fn last_token(&self) -> (t: Option<&String>)
        ensures
            t.deep_view() == self@.last_token,
    {
        self.last_token.as_ref()
    }

    pub fn room_id(&self) -> (id: Option<&String>)
        ensures
            id.deep_view() == self@.room_id,
    {
        self.room_id.as_ref()
    }

    pub fn display_name(&self) -> (name: Option<&String>)
        ensures
            name.deep_view() == self@.display_name,
    {
        self.display_name.as_ref()
    }

    /// Replace the saved token.
    pub fn set_token(&mut self, token: String) -> (r: Result<(), CacheError>)
        ensures
            r is Ok,
            final(self)@ == (RoomCacheView { last_token: Some(token@), ..old(self)@ }),
    {
        self.last_token = Some(token);
        Ok(())
    }

    /// Add a copy of this room to the global cache.
    pub fn add_to_global(&self, global: &mut ExportCache)
        ensures
            final(global)@ == old(global)@.push(self@),
    {
        global.add_room(self.clone());
    }

    /// Add room data to the cache.
    ///
    /// The token is only replaced when one is given.
    pub fn add_room_data(
        &mut self,
        room_id: String,
        display_name: String,
        last_token: Option<String>,
    ) -> (r: &Self)
        ensures
            final(self)@ == (RoomCacheView {
                room_id: Some(room_id@),
                display_name: Some(display_name@),
                last_token: match last_token {
                    Some(t) => Some(t@),
                    None => old(self)@.last_token,
                },
            }),
            r@ == final(self)@,
    {
        self.room_id = Some(room_id);
        self.display_name = Some(display_name);
        if let Some(token) = last_token {
            self.last_token = Some(token);
        }
        &*self
    }
}

impl Default for RoomExportCache {
    fn default() -> (r: Self)
        ensures
            r@ == (RoomCacheView { room_id: None, last_token: None, display_name: None }),
    {
        Self::new()
    }
}

/// Where a room ID is found in a list of room caches, scanning from the front.
#[derive(Debug, Clone, Copy, PartialEq, Eq, Structural)]
pub enum RoomLookup {
    /// The first room, at this index, whose ID matches.
    Found(usize),
    /// Every room has an ID, and none matches.
    Absent,
    /// The scan reaches, at this index, a room without an ID before any match.
    MissingId(usize),
}

/// Whether the scan for `id` reads past room `j` without stopping:
/// that room has an ID, and it is another one.
pub open spec fn passes(rooms: Seq<RoomCacheView>, id: Seq<char>, j: int) -> bool {
    rooms[j].room_id is Some && rooms[j].room_id.unwrap() != id
}

/// What the scan for `id` over `rooms` finds.
pub open spec fn spec_lookup(rooms: Seq<RoomCacheView>, id: Seq<char>, r: RoomLookup) -> bool {
    match r {
        RoomLookup::Found(i) => {
            &&& 0 <= i < rooms.len()
            &&& rooms[i as int].room_id == Some(id)
            &&& forall|j: int| 0 <= j < i ==> passes(rooms, id, j)
        },
        RoomLookup::MissingId(i) => {
            &&& 0 <= i < rooms.len()
            &&& rooms[i as int].room_id is None
            &&& forall|j: int| 0 <= j < i ==> passes(rooms, id, j)
        },
        RoomLookup::Absent => forall|j: int| 0 <= j < rooms.len() ==> passes(rooms, id, j),
    }
}

/// Whether the scan for `id` finds a match or the end without meeting a room
/// that has no ID (on such a room the lookup of the cache fails).
pub open spec fn lookup_total(rooms: Seq<RoomCacheView>, id: Seq<char>) -> bool {
    forall|i: int| 0 <= i < rooms.len() && rooms[i].room_id is None ==>
        exists|j: int| 0 <= j < i && rooms[j].room_id == Some(id)
}

/// The collection of [`RoomExportCache`]s that can be exported to a file.
#[derive(Debug)]
pub struct ExportCache {
    rooms: Vec<RoomExportCache>,
}

impl View for ExportCache {
    type V = Seq<RoomCacheView>;

    closed spec fn view(&self) -> Seq<RoomCacheView> {
        self.rooms@.map_values(|r: RoomExportCache| r@)
    }
}

impl ExportCache {
    pub fn new() -> (c: Self)
        ensures
            c@ == Seq::<RoomCacheView>::empty(),
    {
        ExportCache { rooms: Vec::new() }
    }

    /// A cache holding the given rooms, in order.
    pub fn from_rooms(rooms: Vec<RoomExportCache>) -> (c: Self)
        ensures
            c@ == rooms@.map_values(|r: RoomExportCache| r@),
    {
        ExportCache { rooms }
    }

    pub fn rooms(&self) -> (rooms: &Vec<RoomExportCache>)
        ensures
            rooms@.map_values(|r: RoomExportCache| r@) == self@,
    {
        &self.rooms
    }

    pub fn add_room(&mut self, room: RoomExportCache)
        ensures
            final(self)@ == old(self)@.push(room@),
    {
        self.rooms.push(room);
        proof {
            assert(self@ =~= old(self)@.push(room@));
        }
    }

    /// Scan the rooms from the front for `room_id`.
    pub fn lookup(&self, room_id: &String) -> (r: RoomLookup)
        ensures
            spec_lookup(self@, room_id@, r),
    {
        let mut i: usize = 0;
        while i < self.rooms.len()
            invariant
                0 <= i <= self.rooms@.len(),
                self@ == self.rooms@.map_values(|r: RoomExportCache| r@),
                forall|j: int| 0 <= j < i ==> passes(self@, room_id@, j),
            decreases self.rooms@.len() - i,
        {
            proof {
                assert(self@[i as int] == self.rooms@[i as int]@);
            }
            match &self.rooms[i].room_id {
                None => {
                    return RoomLookup::MissingId(i);
                },
                Some(id) => {
                    if id.eq(room_id) {
                        return RoomLookup::Found(i);
                    }
                },
            }
            i = i + 1;
        }
        RoomLookup::Absent
    }

    /// Replace an older token of `room_id` in the export cache with a new one
    pub fn update_room_token(&mut self, room_id: &String, token: String) -> (r: Result<
        (),
        CacheError,
    >)
        requires
            lookup_total(old(self)@, room_id@),
        ensures
            match r {
                Ok(()) => exists|i: int|
                    #![trigger old(self)@[i]]
                    spec_lookup(old(self)@, room_id@, RoomLookup::Found(i as usize))
                        && 0 <= i < old(self)@.len()
                        && final(self)@ == old(self)@.update(
                        i,
                        RoomCacheView { last_token: Some(token@), ..old(self)@[i] },
                    ),
                Err(e) => e == CacheError::NoRoomFound && final(self)@ == old(self)@
                    && spec_lookup(old(self)@, room_id@, RoomLookup::Absent),
            },
    {
        match self.lookup(room_id) {
            RoomLookup::Found(i) => {
                let mut room = self.rooms[i].clone();
                let r = room.set_token(token);
                let ghost before = self.rooms@;
                self.rooms.set(i, room);
                proof {
                    assert(self@ =~= old(self)@.update(
                        i as int,
                        RoomCacheView { last_token: Some(token@), ..old(self)@[i as int] },
                    ));
                    assert(spec_lookup(old(self)@, room_id@, RoomLookup::Found(i)));
                }
                r
            },
            RoomLookup::Absent => Err(CacheError::NoRoomFound),
            RoomLookup::MissingId(i) => {
                proof {
                    assert(old(self)@[i as int].room_id is None);
                    let j = choose|j: int| 0 <= j < i && old(self)@[j].room_id == Some(room_id@);
                    assert(passes(old(self)@, room_id@, j));
                }
                Err(CacheError::NoRoomFound)
            },
        }
    }
}

} // verus!
