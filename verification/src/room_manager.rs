use vstd::prelude::*;
use dashmap::DashMap;
use crate::peer_map::{
    by_name, group_keyed_maps, name_entries, name_map_get, name_map_insert, name_map_new, no_names,
};

verus! {

broadcast use group_keyed_maps;

/// Stands for the command queue of one running room, held by the driver.
#[derive(Clone, Copy, Debug, PartialEq, Eq, Hash, Structural)]
pub struct RoomHandle(pub u64);

/// A number as the room queue it stands for.
pub open spec fn as_room() -> spec_fn(u64) -> RoomHandle {
    |number: u64| RoomHandle(number)
}

/// What looking a room up comes to.
#[derive(Clone, Copy, Debug, PartialEq, Eq, Structural)]
pub struct RoomEntry {
    /// The command queue of the room.
    pub handle: RoomHandle,
    /// Whether the room was entered by this call, so that the driver has to
    /// start it.
    pub created: bool,
}

/// The rooms of one process, by name. A room comes into being when it is
/// first asked for.
pub struct RoomManager {
    rooms: DashMap<String, u64>,
}

impl View for RoomManager {
    type V = Map<Seq<char>, RoomHandle>;

    closed spec fn view(&self) -> Map<Seq<char>, RoomHandle> {
        by_name(name_entries(self.rooms), as_room())
    }
}

impl RoomManager {
    /// A manager without rooms.
    pub fn new() -> (manager: RoomManager)
        ensures
            manager@ == Map::<Seq<char>, RoomHandle>::empty(),
    {
        RoomManager { rooms: name_map_new() }
    }

    /// The command queue of a room that exists.
    pub fn find_room(&self, room_id: &str) -> (handle: Option<RoomHandle>)
        ensures
            handle == (if self@.contains_key(room_id@) {
                Some(self@[room_id@])
            } else {
                None
            }),
    {
        match name_map_get(&self.rooms, room_id) {
            Some(handle) => Some(RoomHandle(handle)),
            None => None,
        }
    }

    /// The command queue of the room of that name. Where the room exists
    /// its queue is handed back and nothing changes, so the first creator
    /// wins. Where it does not, the room is entered under `fresh`, the
    /// queue that the caller has ready for it.
    pub fn get_room_sender(&mut self, room_id: &str, fresh: RoomHandle) -> (entry: RoomEntry)
        ensures
            old(self)@.contains_key(room_id@) ==> final(self)@ == old(self)@ && entry == (RoomEntry {
                handle: old(self)@[room_id@],
                created: false,
            }),
            !old(self)@.contains_key(room_id@) ==> final(self)@ == old(self)@.insert(
                room_id@,
                fresh,
            ) && entry == (RoomEntry { handle: fresh, created: true }),
    {
        match self.find_room(room_id) {
            Some(handle) => RoomEntry { handle, created: false },
            None => {
                let _ = name_map_insert(&mut self.rooms, room_id.to_owned(), fresh.0);
                RoomEntry { handle: fresh, created: true }
            },
        }
    }
}

} // verus!
