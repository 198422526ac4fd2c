//! The persistent cache of the protocol messages sent to the application.
//!
//! The cache holds the rooms and users last sent to the application, the sync
//! token of that state and the status the user set. It is saved as files of
//! length-prefixed records: each record is its length as 8 little-endian bytes,
//! followed by that many bytes.
use vstd::bytes::{
    lemma_auto_spec_u64_to_from_le_bytes, spec_u64_from_le_bytes, spec_u64_to_le_bytes,
    u64_from_le_bytes, u64_to_le_bytes,
};
use vstd::prelude::*;
use vstd::slice::{slice_subrange, slice_to_vec};

use crate::chat::{
    opt_status_view, room_after_change, user_after_change, ResponseContent, Room,
    RoomChangeEvent, RoomChangeEventView, RoomView, User, UserChangeEvent, UserChangeEventView,
    UserStatus, UserStatusView, UserView, clone_opt_str,
};
use crate::text::str_equal;

verus! {

/// Why the cache could not do what was asked.
#[derive(Debug, Clone, Copy, PartialEq, Eq, Structural)]
pub enum ProtoCacheError {
    /// The stored records are not well framed.
    DecodeError,
    /// A lock over the cache was poisoned.
    Poisoined,
    /// An unexpected failure.
    Unknown,
}

// ---------------------------------------------------------------------------
// Record framing
// ---------------------------------------------------------------------------

/// A record: the length as 8 little-endian bytes, then the bytes.
pub open spec fn frame(m: Seq<u8>) -> Seq<u8> {
    spec_u64_to_le_bytes(m.len() as u64) + m
}

/// The records of the messages, one after another.
pub open spec fn frames_encoding(ms: Seq<Seq<u8>>) -> Seq<u8>
    decreases ms.len(),
{
    if ms.len() == 0 {
        Seq::empty()
    } else {
        frames_encoding(ms.drop_last()) + frame(ms.last())
    }
}

/// The messages that the bytes hold as records, or none where the bytes do
/// not split into whole records.
pub open spec fn frames_decoding(b: Seq<u8>) -> Option<Seq<Seq<u8>>>
    decreases b.len(),
{
    if b.len() == 0 {
        Some(Seq::empty())
    } else if b.len() < 8 {
        None
    } else {
        let size = spec_u64_from_le_bytes(b.subrange(0, 8));
        if b.len() - 8 < size {
            None
        } else {
            match frames_decoding(b.subrange(8 + size, b.len() as int)) {
                Some(rest) => Some(seq![b.subrange(8, 8 + size)] + rest),
                None => None,
            }
        }
    }
}

/// The bytes of each buffer.
pub open spec fn buffers_view(v: Seq<Vec<u8>>) -> Seq<Seq<u8>> {
    v.map_values(|m: Vec<u8>| m@)
}

/// Writes each message as a record: its length as 8 little-endian bytes,
/// followed by its bytes.
pub fn encode_proto_messages(messages: &Vec<Vec<u8>>) -> (r: Vec<u8>)
    ensures
        r@ == frames_encoding(buffers_view(messages@)),
{
    let mut result: Vec<u8> = Vec::new();
    let mut i: usize = 0;
    while i < messages.len()
        invariant
            i <= messages@.len(),
            result@ == frames_encoding(buffers_view(messages@).take(i as int)),
        decreases messages.len() - i,
    {
        let m = &messages[i];
        let size = u64_to_le_bytes(m.len() as u64);
        let mut j: usize = 0;
        let ghost before = result@;
        while j < 8
            invariant
                j <= 8,
                size@.len() == 8,
                result@ == before + size@.take(j as int),
            decreases 8 - j,
        {
            result.push(size[j]);
            proof {
                assert(size@.take((j + 1) as int) =~= size@.take(j as int).push(size@[j as int]));
            }
            j = j + 1;
        }
        let mut k: usize = 0;
        while k < m.len()
            invariant
                k <= m@.len(),
                result@ == before + size@ + m@.take(k as int),
            decreases m.len() - k,
        {
            result.push(m[k]);
            proof {
                assert(m@.take((k + 1) as int) =~= m@.take(k as int).push(m@[k as int]));
            }
            k = k + 1;
        }
        proof {
            let all = buffers_view(messages@);
            assert(size@.take(8) =~= size@);
            assert(m@.take(m@.len() as int) =~= m@);
            assert(all.take((i + 1) as int).drop_last() =~= all.take(i as int));
            assert(all.take((i + 1) as int).last() == m@);
            assert(result@ =~= before + frame(m@));
        }
        i = i + 1;
    }
    proof {
        assert(buffers_view(messages@).take(i as int) =~= buffers_view(messages@));
    }
    result
}

/// Splits the bytes into the messages of their records. Fails with
/// `DecodeError` exactly where the bytes do not split into whole records.
pub fn decode_proto_messages(encoded: &[u8]) -> (r: Result<Vec<Vec<u8>>, ProtoCacheError>)
    ensures
        match r {
            Ok(ms) => frames_decoding(encoded@) == Some(buffers_view(ms@)),
            Err(e) => e == ProtoCacheError::DecodeError && frames_decoding(encoded@) is None,
        },
{
    let mut result: Vec<Vec<u8>> = Vec::new();
    let mut pos: usize = 0;
    let n = encoded.len();
    proof {
        assert(encoded@.subrange(0, n as int) =~= encoded@);
        match frames_decoding(encoded@) {
            Some(all) => {
                assert(buffers_view(result@) + all =~= all);
            },
            None => {},
        }
    }
    while pos < n
        invariant
            pos <= n,
            n == encoded@.len(),
            frames_decoding(encoded@) == match frames_decoding(encoded@.subrange(pos as int, n as int)) {
                Some(rest) => Some(buffers_view(result@) + rest),
                None => None,
            },
        decreases n - pos,
    {
        let ghost rest = encoded@.subrange(pos as int, n as int);
        if n - pos < 8 {
            proof {
                assert(frames_decoding(rest) is None);
            }
            return Err(ProtoCacheError::DecodeError);
        }
        let size = u64_from_le_bytes(slice_subrange(encoded, pos, pos + 8));
        proof {
            assert(rest.subrange(0, 8) =~= encoded@.subrange(pos as int, pos + 8));
        }
        if ((n - pos - 8) as u64) < size {
            proof {
                assert(frames_decoding(rest) is None);
            }
            return Err(ProtoCacheError::DecodeError);
        }
        let size = size as usize;
        let start = pos + 8;
        let message = slice_to_vec(slice_subrange(encoded, start, start + size));
        let ghost before = result@;
        result.push(message);
        proof {
            assert(rest.subrange(8, 8 + size) =~= message@);
            assert(rest.subrange(8 + size, rest.len() as int) =~= encoded@.subrange(
                (start + size) as int,
                n as int,
            ));
            assert(buffers_view(result@) =~= buffers_view(before).push(message@));
            match frames_decoding(encoded@.subrange((start + size) as int, n as int)) {
                Some(tail) => {
                    assert(buffers_view(before) + (seq![message@] + tail) =~= buffers_view(
                        result@,
                    ) + tail);
                },
                None => {},
            }
        }
        pos = start + size;
    }
    proof {
        assert(encoded@.subrange(pos as int, n as int) =~= Seq::<u8>::empty());
        assert(buffers_view(result@) + Seq::<Seq<u8>>::empty() =~= buffers_view(result@));
    }
    Ok(result)
}

/// The records of the messages, written with the first message in front.
proof fn lemma_encoding_front(ms: Seq<Seq<u8>>)
    requires
        ms.len() > 0,
    ensures
        frames_encoding(ms) == frame(ms[0]) + frames_encoding(ms.drop_first()),
    decreases ms.len(),
{
    if ms.len() == 1 {
        assert(ms.drop_last() =~= Seq::<Seq<u8>>::empty());
        assert(ms.drop_first() =~= Seq::<Seq<u8>>::empty());
        assert(frame(ms[0]) + Seq::<u8>::empty() =~= frame(ms[0]));
    } else {
        lemma_encoding_front(ms.drop_last());
        assert(ms.drop_last().drop_first() =~= ms.drop_first().drop_last());
        assert(ms.drop_first().last() == ms.last());
        assert(frames_encoding(ms.drop_first()) == frames_encoding(ms.drop_first().drop_last())
            + frame(ms.drop_first().last()));
        assert(frame(ms[0]) + frames_encoding(ms.drop_last().drop_first()) + frame(ms.last())
            =~= frame(ms[0]) + (frames_encoding(ms.drop_first().drop_last()) + frame(
            ms.last(),
        )));
    }
}

/// Reading back the records of messages yields the messages, as long as each
/// message's length fits in 8 bytes.
pub proof fn lemma_decode_encoded(ms: Seq<Seq<u8>>)
    requires
        forall|i: int| 0 <= i < ms.len() ==> #[trigger] ms[i].len() <= u64::MAX,
    ensures
        frames_decoding(frames_encoding(ms)) == Some(ms),
    decreases ms.len(),
{
    if ms.len() == 0 {
        assert(frames_encoding(ms) =~= Seq::<u8>::empty());
        assert(ms =~= Seq::<Seq<u8>>::empty());
    } else {
        lemma_encoding_front(ms);
        lemma_auto_spec_u64_to_from_le_bytes();
        let m = ms[0];
        let tail = ms.drop_first();
        assert forall|i: int| 0 <= i < tail.len() implies #[trigger] tail[i].len() <= u64::MAX by {
            assert(tail[i] == ms[i + 1]);
        }
        lemma_decode_encoded(tail);
        let b = frames_encoding(ms);
        let le = spec_u64_to_le_bytes(m.len() as u64);
        assert(le.len() == 8);
        assert(b.subrange(0, 8) =~= le);
        assert(spec_u64_from_le_bytes(le) == m.len() as u64);
        let size = m.len() as int;
        assert(b.subrange(8, 8 + size) =~= m);
        assert(b.subrange(8 + size, b.len() as int) =~= frames_encoding(tail));
        assert(seq![m] + tail =~= ms);
    }
}

/// Bytes that split into whole records are exactly the records of the
/// messages read from them.
pub proof fn lemma_encode_decoded(b: Seq<u8>)
    requires
        frames_decoding(b) is Some,
    ensures
        frames_encoding(frames_decoding(b).unwrap()) == b,
    decreases b.len(),
{
    let ms = frames_decoding(b).unwrap();
    if b.len() == 0 {
        assert(ms =~= Seq::<Seq<u8>>::empty());
        assert(b =~= Seq::<u8>::empty());
    } else {
        lemma_auto_spec_u64_to_from_le_bytes();
        let size = spec_u64_from_le_bytes(b.subrange(0, 8)) as int;
        let tail = b.subrange(8 + size, b.len() as int);
        lemma_encode_decoded(tail);
        let m = b.subrange(8, 8 + size);
        let rest = frames_decoding(tail).unwrap();
        assert(ms =~= seq![m] + rest);
        assert(ms.drop_first() =~= rest);
        lemma_encoding_front(ms);
        assert(spec_u64_to_le_bytes(m.len() as u64) == b.subrange(0, 8));
        assert(frame(m) + tail =~= b);
    }
}


// ---------------------------------------------------------------------------
// Cached state
// ---------------------------------------------------------------------------

/// The rooms by their views.
pub open spec fn rooms_view(v: Seq<Room>) -> Seq<RoomView> {
    v.map_values(|r: Room| r@)
}

/// The users by their views.
pub open spec fn users_view(v: Seq<User>) -> Seq<UserView> {
    v.map_values(|u: User| u@)
}

/// Position `i` holds the first room with the ID.
pub open spec fn first_room_at(s: Seq<RoomView>, id: Seq<char>, i: int) -> bool {
    &&& 0 <= i < s.len()
    &&& s[i].room_id == id
    &&& forall|j: int| 0 <= j < i ==> #[trigger] s[j].room_id != id
}

/// The position of the first room with the ID, if there is one.
pub open spec fn room_position(s: Seq<RoomView>, id: Seq<char>) -> Option<int> {
    if exists|i: int| first_room_at(s, id, i) {
        Some(choose|i: int| first_room_at(s, id, i))
    } else {
        None
    }
}

/// The rooms after caching a room: it replaces the first room with its ID, or
/// is appended when there is none.
pub open spec fn rooms_with(s: Seq<RoomView>, r: RoomView) -> Seq<RoomView> {
    match room_position(s, r.room_id) {
        Some(i) => s.update(i, r),
        None => s.push(r),
    }
}

/// The rooms after caching each room of the list in turn.
pub open spec fn rooms_with_all(s: Seq<RoomView>, list: Seq<RoomView>) -> Seq<RoomView>
    decreases list.len(),
{
    if list.len() == 0 {
        s
    } else {
        rooms_with(rooms_with_all(s, list.drop_last()), list.last())
    }
}

/// The rooms after a room change: the first room with the event's ID takes the
/// change; without such a room nothing changes.
pub open spec fn rooms_changed(s: Seq<RoomView>, e: RoomChangeEventView) -> Seq<RoomView> {
    match room_position(s, e.room_id) {
        Some(i) => s.update(i, room_after_change(e, s[i])),
        None => s,
    }
}

/// The rooms without any room with the ID.
pub open spec fn rooms_without(s: Seq<RoomView>, id: Seq<char>) -> Seq<RoomView> {
    s.filter(|r: RoomView| r.room_id != id)
}

/// Position `i` holds the first user with the ID.
pub open spec fn first_user_at(s: Seq<UserView>, id: Seq<char>, i: int) -> bool {
    &&& 0 <= i < s.len()
    &&& s[i].user_id == id
    &&& forall|j: int| 0 <= j < i ==> #[trigger] s[j].user_id != id
}

/// The position of the first user with the ID, if there is one.
pub open spec fn user_position(s: Seq<UserView>, id: Seq<char>) -> Option<int> {
    if exists|i: int| first_user_at(s, id, i) {
        Some(choose|i: int| first_user_at(s, id, i))
    } else {
        None
    }
}

/// The users after caching a user: it replaces the first user with its ID, or
/// is appended when there is none.
pub open spec fn users_with(s: Seq<UserView>, u: UserView) -> Seq<UserView> {
    match user_position(s, u.user_id) {
        Some(i) => s.update(i, u),
        None => s.push(u),
    }
}

/// The users after a user change: the first user with the event's ID takes the
/// change; without such a user nothing changes.
pub open spec fn users_changed(s: Seq<UserView>, e: UserChangeEventView) -> Seq<UserView> {
    match user_position(s, e.user_id) {
        Some(i) => s.update(i, user_after_change(e, s[i])),
        None => s,
    }
}

/// The first cached user with the ID, if there is one.
pub open spec fn user_lookup(s: Seq<UserView>, id: Seq<char>) -> Option<UserView> {
    match user_position(s, id) {
        Some(i) => Some(s[i]),
        None => None,
    }
}

/// A list that is absent counts as empty.
pub open spec fn or_empty<T>(o: Option<Seq<T>>) -> Seq<T> {
    match o {
        Some(s) => s,
        None => Seq::empty(),
    }
}

proof fn lemma_first_room_unique(s: Seq<RoomView>, id: Seq<char>, i: int)
    requires
        first_room_at(s, id, i),
    ensures
        room_position(s, id) == Some(i),
{
    let j = choose|j: int| first_room_at(s, id, j);
    if j < i {
        assert(s[j].room_id != id);
    }
    if i < j {
        assert(s[i].room_id != id);
    }
}

proof fn lemma_first_user_unique(s: Seq<UserView>, id: Seq<char>, i: int)
    requires
        first_user_at(s, id, i),
    ensures
        user_position(s, id) == Some(i),
{
    let j = choose|j: int| first_user_at(s, id, j);
    if j < i {
        assert(s[j].user_id != id);
    }
    if i < j {
        assert(s[i].user_id != id);
    }
}

/// The position of the first room with the ID.
fn find_room(rooms: &Vec<Room>, id: &str) -> (r: Option<usize>)
    ensures
        match r {
            Some(i) => room_position(rooms_view(rooms@), id@) == Some(i as int),
            None => room_position(rooms_view(rooms@), id@) is None,
        },
{
    let ghost s = rooms_view(rooms@);
    let mut i: usize = 0;
    while i < rooms.len()
        invariant
            i <= rooms@.len(),
            s == rooms_view(rooms@),
            forall|j: int| 0 <= j < i ==> #[trigger] s[j].room_id != id@,
        decreases rooms.len() - i,
    {
        if str_equal(rooms[i].room_id.as_str(), id) {
            proof {
                assert(first_room_at(s, id@, i as int));
                lemma_first_room_unique(s, id@, i as int);
            }
            return Some(i);
        }
        proof {
            assert(s[i as int].room_id == rooms@[i as int].room_id@);
        }
        i = i + 1;
    }
    None
}

/// The position of the first user with the ID.
fn find_user(users: &Vec<User>, id: &str) -> (r: Option<usize>)
    ensures
        match r {
            Some(i) => user_position(users_view(users@), id@) == Some(i as int),
            None => user_position(users_view(users@), id@) is None,
        },
{
    let ghost s = users_view(users@);
    let mut i: usize = 0;
    while i < users.len()
        invariant
            i <= users@.len(),
            s == users_view(users@),
            forall|j: int| 0 <= j < i ==> #[trigger] s[j].user_id != id@,
        decreases users.len() - i,
    {
        if str_equal(users[i].user_id.as_str(), id) {
            proof {
                assert(first_user_at(s, id@, i as int));
                lemma_first_user_unique(s, id@, i as int);
            }
            return Some(i);
        }
        proof {
            assert(s[i as int].user_id == users@[i as int].user_id@);
        }
        i = i + 1;
    }
    None
}

/// The stored information: the sync token of the cached state and the status
/// that the user set.
#[derive(Debug, PartialEq, Eq)]
pub struct Info {
    pub sync_token: Option<String>,
    pub user_status: Option<UserStatus>,
}

impl Default for Info {
    fn default() -> (r: Self)
        ensures
            r.sync_token is None,
            r.user_status is None,
    {
        Info { sync_token: None, user_status: None }
    }
}

impl Clone for Info {
    fn clone(&self) -> (r: Self)
        ensures
            r == *self,
    {
        Info {
            sync_token: clone_opt_str(&self.sync_token),
            user_status: match &self.user_status {
                Some(s) => Some(s.copy()),
                None => None,
            },
        }
    }
}

/// The parts of the cache in the order they are saved: the rooms and the
/// users first, the information with the sync token last, so that the saved
/// data is never older than the saved sync token.
#[derive(Debug, Clone, Copy, PartialEq, Eq, Structural)]
pub enum SavePhase {
    Rooms,
    Users,
    Info,
    /// Saving has ended.
    Done,
}

/// The part to save next, after the part of the phase was written or its
/// writing failed: a failure ends the save; else the next part follows.
pub open spec fn save_transition(phase: SavePhase, written: bool) -> SavePhase {
    if !written {
        SavePhase::Done
    } else {
        match phase {
            SavePhase::Rooms => SavePhase::Users,
            SavePhase::Users => SavePhase::Info,
            SavePhase::Info => SavePhase::Done,
            SavePhase::Done => SavePhase::Done,
        }
    }
}

/// The part to save next, after the part of the phase was written (a part
/// with nothing cached counts as written) or its writing failed.
pub fn next_save_phase(phase: SavePhase, written: bool) -> (r: SavePhase)
    ensures
        r == save_transition(phase, written),
{
    if !written {
        return SavePhase::Done;
    }
    match phase {
        SavePhase::Rooms => SavePhase::Users,
        SavePhase::Users => SavePhase::Info,
        SavePhase::Info => SavePhase::Done,
        SavePhase::Done => SavePhase::Done,
    }
}

/// The phase a save reaches from the rooms, given the outcomes of its writes
/// in order.
pub open spec fn save_run(outcomes: Seq<bool>) -> SavePhase
    decreases outcomes.len(),
{
    if outcomes.len() == 0 {
        SavePhase::Rooms
    } else {
        save_transition(save_run(outcomes.drop_last()), outcomes.last())
    }
}

/// A save writes the information only after the rooms and then the users
/// were written, and a failed write ends the save.
pub proof fn lemma_info_saved_after_data(outcomes: Seq<bool>)
    ensures
        save_run(outcomes) == SavePhase::Info ==> outcomes.len() == 2 && outcomes[0] && outcomes[1],
        forall|i: int| 0 <= i < outcomes.len() && !#[trigger] outcomes[i] ==> save_run(outcomes) == SavePhase::Done,
    decreases outcomes.len(),
{
    if outcomes.len() > 0 {
        let init = outcomes.drop_last();
        lemma_info_saved_after_data(init);
        if save_run(outcomes) == SavePhase::Info {
            assert(save_run(init) == SavePhase::Users);
            if init.len() > 1 {
                let i0 = init.drop_last();
                assert(save_run(i0) != SavePhase::Done);
            }
            assert(init.len() == 1);
            assert(init[0] == outcomes[0]);
            reveal_with_fuel(save_run, 2);
        }
        assert forall|i: int| 0 <= i < outcomes.len() && !#[trigger] outcomes[i] implies save_run(outcomes)
            == SavePhase::Done by {
            if i < init.len() {
                assert(init[i] == outcomes[i]);
            }
        }
    }
}

/// The view of the cache's state.
pub struct ProtoCacheView {
    pub sync_token: Option<Seq<char>>,
    pub user_status: Option<UserStatusView>,
    /// The cached rooms; none where no room was ever cached.
    pub rooms: Option<Seq<RoomView>>,
    /// The cached users; none where no user was ever cached.
    pub users: Option<Seq<UserView>>,
}

/// The cache after caching the user: it replaces the first cached user with
/// its ID, or is appended where there is none; the rest stays.
pub open spec fn with_user_cached(v: ProtoCacheView, u: UserView) -> ProtoCacheView {
    ProtoCacheView { users: Some(users_with(or_empty(v.users), u)), ..v }
}

/// The state of the cache: the information, the rooms and the users.
pub struct ProtoCacheInner {
    info: Info,
    cached_rooms: Option<Vec<Room>>,
    cached_users: Option<Vec<User>>,
}

impl View for ProtoCacheInner {
    type V = ProtoCacheView;

    closed spec fn view(&self) -> ProtoCacheView {
        ProtoCacheView {
            sync_token: self.info.sync_token.deep_view(),
            user_status: opt_status_view(self.info.user_status),
            rooms: match self.cached_rooms {
                Some(v) => Some(rooms_view(v@)),
                None => None,
            },
            users: match self.cached_users {
                Some(v) => Some(users_view(v@)),
                None => None,
            },
        }
    }
}

/// A copy of a list of rooms.
pub fn copy_rooms(v: &Vec<Room>) -> (r: Vec<Room>)
    ensures
        rooms_view(r@) == rooms_view(v@),
{
    let mut r: Vec<Room> = Vec::new();
    let mut i: usize = 0;
    while i < v.len()
        invariant
            i <= v@.len(),
            r@.len() == i,
            rooms_view(r@) == rooms_view(v@).take(i as int),
        decreases v.len() - i,
    {
        let ghost before = r@;
        let c = v[i].copy();
        r.push(c);
        proof {
            assert(r@[i as int] == c);
            assert(forall|j: int| 0 <= j < i ==> r@[j] == before[j]);
            assert(rooms_view(before)[i - 1] == rooms_view(v@)[i - 1] || i == 0);
            assert(rooms_view(r@) =~= rooms_view(v@).take((i + 1) as int));
        }
        i = i + 1;
    }
    proof {
        assert(rooms_view(v@).take(i as int) =~= rooms_view(v@));
    }
    r
}

/// A copy of a list of users.
pub fn copy_users(v: &Vec<User>) -> (r: Vec<User>)
    ensures
        r@ == v@,
{
    let mut r: Vec<User> = Vec::new();
    let mut i: usize = 0;
    while i < v.len()
        invariant
            i <= v@.len(),
            r@ == v@.take(i as int),
        decreases v.len() - i,
    {
        r.push(v[i].copy());
        proof {
            assert(r@ =~= v@.take((i + 1) as int));
        }
        i = i + 1;
    }
    proof {
        assert(v@.take(i as int) =~= v@);
    }
    r
}

impl ProtoCacheInner {
    /// An empty cache: no token, no status, no rooms and no users cached.
    pub fn new() -> (c: Self)
        ensures
            c@.sync_token is None,
            c@.user_status is None,
            c@.rooms is None,
            c@.users is None,
    {
        ProtoCacheInner { info: Info::default(), cached_rooms: None, cached_users: None }
    }

    /// Replaces the information with the stored one.
    pub fn restore_info(&mut self, info: Info)
        ensures
            final(self)@ == (ProtoCacheView {
                sync_token: info.sync_token.deep_view(),
                user_status: opt_status_view(info.user_status),
                ..old(self)@
            }),
    {
        self.info = info;
    }

    /// Replaces the cached rooms with the stored ones.
    pub fn restore_rooms(&mut self, rooms: Vec<Room>)
        ensures
            final(self)@ == (ProtoCacheView { rooms: Some(rooms_view(rooms@)), ..old(self)@ }),
    {
        self.cached_rooms = Some(rooms);
    }

    /// Replaces the cached users with the stored ones.
    pub fn restore_users(&mut self, users: Vec<User>)
        ensures
            final(self)@ == (ProtoCacheView { users: Some(users_view(users@)), ..old(self)@ }),
    {
        self.cached_users = Some(users);
    }

    /// A copy of the information, to be saved.
    pub fn info(&self) -> (r: Result<Info, ProtoCacheError>)
        ensures
            match r {
                Ok(i) => i.sync_token.deep_view() == self@.sync_token && opt_status_view(
                    i.user_status,
                ) == self@.user_status,
                Err(_) => false,
            },
    {
        Ok(self.info.clone())
    }

    /// The sync token of the cached state.
    pub fn sync_token(&self) -> (r: Result<Option<String>, ProtoCacheError>)
        ensures
            match r {
                Ok(t) => t.deep_view() == self@.sync_token,
                Err(_) => false,
            },
    {
        Ok(clone_opt_str(&self.info.sync_token))
    }

    /// Sets the sync token of the cached state.
    pub fn set_sync_token(&mut self, sync_token: String) -> (r: Result<(), ProtoCacheError>)
        ensures
            r is Ok,
            final(self)@ == (ProtoCacheView { sync_token: Some(sync_token@), ..old(self)@ }),
    {
        self.info.sync_token = Some(sync_token);
        Ok(())
    }

    /// The status that the user set.
    pub fn user_status(&self) -> (r: Result<Option<UserStatus>, ProtoCacheError>)
        ensures
            match r {
                Ok(s) => opt_status_view(s) == self@.user_status,
                Err(_) => false,
            },
    {
        Ok(
            match &self.info.user_status {
                Some(s) => Some(s.copy()),
                None => None,
            },
        )
    }

    /// Sets the status that the user set.
    pub fn set_user_status(&mut self, user_status: UserStatus) -> (r: Result<(), ProtoCacheError>)
        ensures
            r is Ok,
            final(self)@ == (ProtoCacheView { user_status: Some(user_status@), ..old(self)@ }),
    {
        self.info.user_status = Some(user_status);
        Ok(())
    }

    /// Caches the room: it replaces the first cached room with its ID, or is
    /// appended when there is none.
    pub fn cache_room(&mut self, room: Room) -> (r: Result<(), ProtoCacheError>)
        ensures
            r is Ok,
            final(self)@ == (ProtoCacheView {
                rooms: Some(rooms_with(or_empty(old(self)@.rooms), room@)),
                ..old(self)@
            }),
    {
        let mut rooms = match self.cached_rooms.take() {
            Some(v) => v,
            None => Vec::new(),
        };
        let ghost s = rooms_view(rooms@);
        let ghost rv = room@;
        proof {
            assert(s == or_empty(old(self)@.rooms)) by {
                if old(self).cached_rooms is None {
                    assert(s =~= Seq::<RoomView>::empty());
                }
            }
        }
        match find_room(&rooms, room.room_id.as_str()) {
            Some(i) => {
                rooms.set(i, room);
                proof {
                    assert(rooms_view(rooms@) =~= s.update(i as int, rv));
                }
            },
            None => {
                rooms.push(room);
                proof {
                    assert(rooms_view(rooms@) =~= s.push(rv));
                }
            },
        }
        self.cached_rooms = Some(rooms);
        Ok(())
    }

    /// Applies the change to the first cached room with the event's room ID;
    /// without such a room nothing changes.
    pub fn update_room(&mut self, event: RoomChangeEvent) -> (r: Result<(), ProtoCacheError>)
        ensures
            r is Ok,
            final(self)@ == (ProtoCacheView {
                rooms: match old(self)@.rooms {
                    Some(s) => Some(rooms_changed(s, event@)),
                    None => None,
                },
                ..old(self)@
            }),
    {
        let mut rooms = match self.cached_rooms.take() {
            Some(v) => v,
            None => {
                return Ok(());
            },
        };
        let ghost s = rooms_view(rooms@);
        match find_room(&rooms, event.room_id.as_str()) {
            Some(i) => {
                let ghost e = event@;
                let mut room = rooms.remove(i);
                event.update_into_room(&mut room);
                rooms.insert(i, room);
                proof {
                    assert(rooms_view(rooms@) =~= s.update(i as int, room_after_change(e, s[i as int])));
                }
            },
            None => {},
        }
        self.cached_rooms = Some(rooms);
        Ok(())
    }

    /// Removes every cached room with the ID.
    pub fn remove_room(&mut self, room_id: &str) -> (r: Result<(), ProtoCacheError>)
        ensures
            r is Ok,
            final(self)@ == (ProtoCacheView {
                rooms: match old(self)@.rooms {
                    Some(s) => Some(rooms_without(s, room_id@)),
                    None => None,
                },
                ..old(self)@
            }),
    {
        let mut rest = match self.cached_rooms.take() {
            Some(v) => v,
            None => {
                return Ok(());
            },
        };
        let ghost all = rooms_view(rest@);
        let ghost pred = |r: RoomView| r.room_id != room_id@;
        let mut kept: Vec<Room> = Vec::new();
        let ghost mut n: int = 0;
        proof {
            assert(all.take(0) =~= Seq::<RoomView>::empty());
            reveal_with_fuel(Seq::<_>::filter, 1);
            assert(all.subrange(0, all.len() as int) =~= all);
        }
        while rest.len() > 0
            invariant
                0 <= n <= all.len(),
                rooms_view(rest@) == all.subrange(n, all.len() as int),
                rooms_view(kept@) == all.take(n).filter(pred),
                pred == (|r: RoomView| r.room_id != room_id@),
            decreases rest.len(),
        {
            let ghost old_rest = rest@;
            proof {
                assert(rooms_view(old_rest).len() == old_rest.len());
            }
            let room = rest.remove(0);
            proof {
                assert(rooms_view(old_rest)[0] == room@);
                assert(all[n] == room@);
                assert forall|j: int| 0 <= j < rooms_view(rest@).len() implies rooms_view(rest@)[j]
                    == all.subrange(n + 1, all.len() as int)[j] by {
                    assert(rest@[j] == old_rest[j + 1]);
                    assert(rooms_view(old_rest)[j + 1] == all[n + 1 + j]);
                }
                assert(rooms_view(rest@) =~= all.subrange(n + 1, all.len() as int));
                assert(all.take(n + 1).drop_last() =~= all.take(n));
                assert(all.take(n + 1).last() == room@);
                reveal_with_fuel(Seq::<_>::filter, 1);
            }
            if !str_equal(room.room_id.as_str(), room_id) {
                let ghost before = kept@;
                kept.push(room);
                proof {
                    assert(rooms_view(kept@) =~= rooms_view(before).push(all[n]));
                }
            }
            proof {
                n = n + 1;
            }
        }
        proof {
            assert(all.take(n) =~= all);
        }
        self.cached_rooms = Some(kept);
        Ok(())
    }

    /// A copy of the cached rooms; none where no room was ever cached.
    pub fn room_list(&self) -> (r: Result<Option<Vec<Room>>, ProtoCacheError>)
        ensures
            match r {
                Ok(Some(v)) => self@.rooms == Some(rooms_view(v@)),
                Ok(None) => self@.rooms is None,
                Err(_) => false,
            },
    {
        Ok(
            match &self.cached_rooms {
                Some(v) => Some(copy_rooms(v)),
                None => None,
            },
        )
    }

    /// A copy of the cached users; none where no user was ever cached.
    pub fn user_list(&self) -> (r: Result<Option<Vec<User>>, ProtoCacheError>)
        ensures
            match r {
                Ok(Some(v)) => self@.users == Some(users_view(v@)),
                Ok(None) => self@.users is None,
                Err(_) => false,
            },
    {
        Ok(
            match &self.cached_users {
                Some(v) => Some(copy_users(v)),
                None => None,
            },
        )
    }

    /// Caches the user: it replaces the first cached user with its ID, or is
    /// appended when there is none.
    pub fn cache_user(&mut self, user: User) -> (r: Result<(), ProtoCacheError>)
        ensures
            r is Ok,
            final(self)@ == with_user_cached(old(self)@, user@),
    {
        let mut users = match self.cached_users.take() {
            Some(v) => v,
            None => Vec::new(),
        };
        let ghost s = users_view(users@);
        let ghost uv = user@;
        proof {
            assert(s == or_empty(old(self)@.users)) by {
                if old(self).cached_users is None {
                    assert(s =~= Seq::<UserView>::empty());
                }
            }
        }
        match find_user(&users, user.user_id.as_str()) {
            Some(i) => {
                users.set(i, user);
                proof {
                    assert(users_view(users@) =~= s.update(i as int, uv));
                }
            },
            None => {
                users.push(user);
                proof {
                    assert(users_view(users@) =~= s.push(uv));
                }
            },
        }
        self.cached_users = Some(users);
        Ok(())
    }

    /// Applies the change to the first cached user with the event's user ID;
    /// without such a user nothing changes.
    pub fn update_user(&mut self, event: UserChangeEvent) -> (r: Result<(), ProtoCacheError>)
        ensures
            r is Ok,
            final(self)@ == (ProtoCacheView {
                users: match old(self)@.users {
                    Some(s) => Some(users_changed(s, event@)),
                    None => None,
                },
                ..old(self)@
            }),
    {
        let mut users = match self.cached_users.take() {
            Some(v) => v,
            None => {
                return Ok(());
            },
        };
        let ghost s = users_view(users@);
        match find_user(&users, event.user_id.as_str()) {
            Some(i) => {
                let ghost e = event@;
                let mut user = users.remove(i);
                event.update_into_user(&mut user);
                users.insert(i, user);
                proof {
                    assert(users_view(users@) =~= s.update(i as int, user_after_change(e, s[i as int])));
                }
            },
            None => {},
        }
        self.cached_users = Some(users);
        Ok(())
    }

    /// A copy of the first cached user with the ID, if there is one.
    pub fn get_user(&self, user_id: &str) -> (r: Result<Option<User>, ProtoCacheError>)
        ensures
            match r {
                Ok(Some(u)) => user_lookup(or_empty(self@.users), user_id@) == Some(u@),
                Ok(None) => user_lookup(or_empty(self@.users), user_id@) is None,
                Err(_) => false,
            },
    {
        match &self.cached_users {
            Some(users) => match find_user(users, user_id) {
                Some(i) => Ok(Some(users[i].copy())),
                None => Ok(None),
            },
            None => {
                proof {
                    assert(or_empty(self@.users) =~= Seq::<UserView>::empty());
                }
                Ok(None)
            },
        }
    }
}


/// The rooms after caching each room of a list: a list without rooms leaves
/// even an absent room list absent.
pub open spec fn rooms_after_list(o: Option<Seq<RoomView>>, list: Seq<RoomView>) -> Option<
    Seq<RoomView>,
> {
    if list.len() == 0 {
        o
    } else {
        Some(rooms_with_all(or_empty(o), list))
    }
}

/// The state of the cache after it took in the response content.
pub open spec fn cache_after_response(v: ProtoCacheView, c: ResponseContent) -> ProtoCacheView {
    match c {
        ResponseContent::RoomListResponse(l) => ProtoCacheView {
            rooms: rooms_after_list(v.rooms, rooms_view(l.room_list@)),
            ..v
        },
        ResponseContent::RoomCreatedEvent(room) => ProtoCacheView {
            rooms: Some(rooms_with(or_empty(v.rooms), room@)),
            ..v
        },
        ResponseContent::RoomLeftEvent(e) => ProtoCacheView {
            rooms: match v.rooms {
                Some(s) => Some(rooms_without(s, e.room_id@)),
                None => None,
            },
            ..v
        },
        ResponseContent::RoomChangeEvent(e) => ProtoCacheView {
            rooms: match v.rooms {
                Some(s) => Some(rooms_changed(s, e@)),
                None => None,
            },
            ..v
        },
        ResponseContent::UserResponse(u) => ProtoCacheView {
            users: Some(users_with(or_empty(v.users), u@)),
            ..v
        },
        ResponseContent::UserChangeEvent(e) => ProtoCacheView {
            users: match v.users {
                Some(s) => Some(users_changed(s, e@)),
                None => None,
            },
            ..v
        },
        _ => v,
    }
}

/// The cache of the protocol messages sent to the application.
pub struct ProtoCache {
    inner: ProtoCacheInner,
}

impl View for ProtoCache {
    type V = ProtoCacheView;

    closed spec fn view(&self) -> ProtoCacheView {
        self.inner@
    }
}

impl ProtoCache {
    /// A cache over the given state.
    pub fn from_inner(inner: ProtoCacheInner) -> (c: Self)
        ensures
            c@ == inner@,
    {
        ProtoCache { inner }
    }

    /// The state of the cache, to be saved.
    pub fn inner(&self) -> (r: &ProtoCacheInner)
        ensures
            r@ == self@,
    {
        &self.inner
    }

    /// The sync token of the cached state.
    pub fn sync_token(&self) -> (r: Option<String>)
        ensures
            r.deep_view() == self@.sync_token,
    {
        match self.inner.sync_token() {
            Ok(t) => t,
            Err(_) => None,
        }
    }

    /// Sets the sync token of the cached state.
    pub fn set_sync_token(&mut self, sync_token: String)
        ensures
            final(self)@ == (ProtoCacheView { sync_token: Some(sync_token@), ..old(self)@ }),
    {
        let _ = self.inner.set_sync_token(sync_token);
    }

    /// The status that the user set.
    pub fn user_status(&self) -> (r: Option<UserStatus>)
        ensures
            opt_status_view(r) == self@.user_status,
    {
        match self.inner.user_status() {
            Ok(s) => s,
            Err(_) => None,
        }
    }

    /// Sets the status that the user set.
    pub fn set_user_status(&mut self, user_status: UserStatus)
        ensures
            final(self)@ == (ProtoCacheView { user_status: Some(user_status@), ..old(self)@ }),
    {
        let _ = self.inner.set_user_status(user_status);
    }

    /// Takes in the content of a response sent to the application: room lists,
    /// created, left and changed rooms, and users and their changes.
    pub fn cache_response_content(&mut self, content: &ResponseContent)
        ensures
            final(self)@ == cache_after_response(old(self)@, *content),
    {
        match content {
            ResponseContent::RoomListResponse(room_list) => {
                self.cache_rooms(copy_rooms(&room_list.room_list));
            },
            ResponseContent::RoomCreatedEvent(room) => {
                self.cache_room(room.copy());
            },
            ResponseContent::RoomLeftEvent(event) => {
                self.remove_room(event.room_id.as_str());
            },
            ResponseContent::RoomChangeEvent(event) => {
                self.update_room(event.copy());
            },
            ResponseContent::UserResponse(user) => {
                self.cache_user(user.copy());
            },
            ResponseContent::UserChangeEvent(event) => {
                self.update_user(event.copy());
            },
            _ => {},
        }
    }

    /// The cached rooms; none where no room was ever cached.
    pub fn cached_rooms(&self) -> (r: Option<Vec<Room>>)
        ensures
            match r {
                Some(v) => self@.rooms == Some(rooms_view(v@)),
                None => self@.rooms is None,
            },
    {
        match self.inner.room_list() {
            Ok(r) => r,
            Err(_) => None,
        }
    }

    /// The first cached user with the ID, if there is one.
    pub fn cached_user(&self, user_id: &str) -> (r: Option<User>)
        ensures
            match r {
                Some(u) => user_lookup(or_empty(self@.users), user_id@) == Some(u@),
                None => user_lookup(or_empty(self@.users), user_id@) is None,
            },
    {
        match self.inner.get_user(user_id) {
            Ok(u) => u,
            Err(_) => None,
        }
    }

    fn cache_room(&mut self, room: Room)
        ensures
            final(self)@ == (ProtoCacheView {
                rooms: Some(rooms_with(or_empty(old(self)@.rooms), room@)),
                ..old(self)@
            }),
    {
        let _ = self.inner.cache_room(room);
    }

    fn update_room(&mut self, event: RoomChangeEvent)
        ensures
            final(self)@ == (ProtoCacheView {
                rooms: match old(self)@.rooms {
                    Some(s) => Some(rooms_changed(s, event@)),
                    None => None,
                },
                ..old(self)@
            }),
    {
        let _ = self.inner.update_room(event);
    }

    fn cache_rooms(&mut self, rooms: Vec<Room>)
        ensures
            final(self)@ == (ProtoCacheView {
                rooms: rooms_after_list(old(self)@.rooms, rooms_view(rooms@)),
                ..old(self)@
            }),
    {
        let ghost all = rooms_view(rooms@);
        let ghost start = self@;
        let mut rest = rooms;
        let ghost mut n: int = 0;
        proof {
            assert(all.take(0) =~= Seq::<RoomView>::empty());
            assert(all.subrange(0, all.len() as int) =~= all);
        }
        while rest.len() > 0
            invariant
                0 <= n <= all.len(),
                rooms_view(rest@) == all.subrange(n, all.len() as int),
                self@ == (ProtoCacheView { rooms: rooms_after_list(start.rooms, all.take(n)), ..start }),
            decreases rest.len(),
        {
            let ghost old_rest = rest@;
            proof {
                assert(rooms_view(old_rest).len() == old_rest.len());
            }
            let room = rest.remove(0);
            proof {
                assert(rooms_view(old_rest)[0] == room@);
                assert(all[n] == room@);
                assert forall|j: int| 0 <= j < rooms_view(rest@).len() implies rooms_view(rest@)[j]
                    == all.subrange(n + 1, all.len() as int)[j] by {
                    assert(rest@[j] == old_rest[j + 1]);
                    assert(rooms_view(old_rest)[j + 1] == all[n + 1 + j]);
                }
                assert(rooms_view(rest@) =~= all.subrange(n + 1, all.len() as int));
                assert(all.take(n + 1).drop_last() =~= all.take(n));
                assert(all.take(n + 1).last() == room@);
                if n == 0 {
                    assert(all.take(0).len() == 0);
                    assert(rooms_with_all(or_empty(start.rooms), all.take(0)) == or_empty(start.rooms));
                }
            }
            self.cache_room(room);
            proof {
                n = n + 1;
            }
        }
        proof {
            assert(all.take(n) =~= all);
        }
    }

    fn remove_room(&mut self, room_id: &str)
        ensures
            final(self)@ == (ProtoCacheView {
                rooms: match old(self)@.rooms {
                    Some(s) => Some(rooms_without(s, room_id@)),
                    None => None,
                },
                ..old(self)@
            }),
    {
        let _ = self.inner.remove_room(room_id);
    }

    fn cache_user(&mut self, user: User)
        ensures
            final(self)@ == with_user_cached(old(self)@, user@),
    {
        let _ = self.inner.cache_user(user);
    }

    fn update_user(&mut self, event: UserChangeEvent)
        ensures
            final(self)@ == (ProtoCacheView {
                users: match old(self)@.users {
                    Some(s) => Some(users_changed(s, event@)),
                    None => None,
                },
                ..old(self)@
            }),
    {
        let _ = self.inner.update_user(event);
    }
}

// ---------------------------------------------------------------------------
// Laws
// ---------------------------------------------------------------------------

/// A cached room is found under its ID afterwards, and the rooms before the
/// place it took are unchanged.
pub proof fn lemma_cached_room_is_found(s: Seq<RoomView>, r: RoomView)
    ensures
        room_position(rooms_with(s, r), r.room_id) is Some,
        rooms_with(s, r)[room_position(rooms_with(s, r), r.room_id).unwrap()] == r,
        forall|j: int|
            0 <= j < room_position(rooms_with(s, r), r.room_id).unwrap() ==> #[trigger] rooms_with(
                s,
                r,
            )[j] == s[j],
{
    let t = rooms_with(s, r);
    match room_position(s, r.room_id) {
        Some(i) => {
            let w = choose|w: int| first_room_at(s, r.room_id, w);
            assert(first_room_at(t, r.room_id, i));
            lemma_first_room_unique(t, r.room_id, i);
        },
        None => {
            assert forall|j: int| 0 <= j < s.len() implies #[trigger] s[j].room_id != r.room_id by {
                if s[j].room_id == r.room_id {
                    lemma_some_room_has_first(s, r.room_id, j);
                }
            }
            assert(first_room_at(t, r.room_id, s.len() as int));
            lemma_first_room_unique(t, r.room_id, s.len() as int);
        },
    }
}

/// Caching a room changes only the entry with its ID: where a room with the
/// ID is cached, the first such room is replaced in place and the length
/// stays; else the room is appended. Every other entry stays at its
/// position, unchanged.
pub proof fn lemma_caching_room_changes_only_its_entry(s: Seq<RoomView>, r: RoomView)
    ensures
        (exists|i: int| 0 <= i < s.len() && #[trigger] s[i].room_id == r.room_id) ==> rooms_with(s, r).len()
            == s.len(),
        !(exists|i: int| 0 <= i < s.len() && #[trigger] s[i].room_id == r.room_id) ==> (rooms_with(s, r).len()
            == s.len() + 1 && rooms_with(s, r)[s.len() as int] == r),
        forall|i: int| first_room_at(s, r.room_id, i) ==> #[trigger] rooms_with(s, r)[i] == r,
        forall|i: int, j: int|
            #![trigger first_room_at(s, r.room_id, i), rooms_with(s, r)[j]]
            first_room_at(s, r.room_id, i) && 0 <= j < s.len() && j != i ==> rooms_with(s, r)[j] == s[j],
        forall|j: int|
            0 <= j < s.len() && s[j].room_id != r.room_id ==> #[trigger] rooms_with(s, r)[j] == s[j],
{
    if exists|i: int| 0 <= i < s.len() && #[trigger] s[i].room_id == r.room_id {
        let k = choose|i: int| 0 <= i < s.len() && #[trigger] s[i].room_id == r.room_id;
        lemma_some_room_has_first(s, r.room_id, k);
    } else {
        if room_position(s, r.room_id) is Some {
            let w = choose|w: int| first_room_at(s, r.room_id, w);
            assert(s[w].room_id == r.room_id);
        }
    }
    assert forall|i: int| first_room_at(s, r.room_id, i) implies #[trigger] rooms_with(s, r)[i] == r by {
        lemma_first_room_unique(s, r.room_id, i);
    }
    assert forall|i: int, j: int|
        #![trigger first_room_at(s, r.room_id, i), rooms_with(s, r)[j]]
        first_room_at(s, r.room_id, i) && 0 <= j < s.len() && j != i implies rooms_with(s, r)[j] == s[j] by {
        lemma_first_room_unique(s, r.room_id, i);
    }
    assert forall|j: int| 0 <= j < s.len() && s[j].room_id != r.room_id implies #[trigger] rooms_with(s, r)[j]
        == s[j] by {
        if room_position(s, r.room_id) is Some {
            let w = choose|w: int| first_room_at(s, r.room_id, w);
            assert(s[w].room_id == r.room_id);
        }
    }
}

/// Caching a user changes only the entry with its ID: where a user with the
/// ID is cached, the first such user is replaced in place and the length
/// stays; else the user is appended. Every other entry stays at its
/// position, unchanged.
pub proof fn lemma_caching_user_changes_only_its_entry(s: Seq<UserView>, u: UserView)
    ensures
        (exists|i: int| 0 <= i < s.len() && #[trigger] s[i].user_id == u.user_id) ==> users_with(s, u).len()
            == s.len(),
        !(exists|i: int| 0 <= i < s.len() && #[trigger] s[i].user_id == u.user_id) ==> (users_with(s, u).len()
            == s.len() + 1 && users_with(s, u)[s.len() as int] == u),
        forall|i: int| first_user_at(s, u.user_id, i) ==> #[trigger] users_with(s, u)[i] == u,
        forall|i: int, j: int|
            #![trigger first_user_at(s, u.user_id, i), users_with(s, u)[j]]
            first_user_at(s, u.user_id, i) && 0 <= j < s.len() && j != i ==> users_with(s, u)[j] == s[j],
        forall|j: int|
            0 <= j < s.len() && s[j].user_id != u.user_id ==> #[trigger] users_with(s, u)[j] == s[j],
{
    if exists|i: int| 0 <= i < s.len() && #[trigger] s[i].user_id == u.user_id {
        let k = choose|i: int| 0 <= i < s.len() && #[trigger] s[i].user_id == u.user_id;
        lemma_some_user_has_first(s, u.user_id, k);
    } else {
        if user_position(s, u.user_id) is Some {
            let w = choose|w: int| first_user_at(s, u.user_id, w);
            assert(s[w].user_id == u.user_id);
        }
    }
    assert forall|i: int| first_user_at(s, u.user_id, i) implies #[trigger] users_with(s, u)[i] == u by {
        lemma_first_user_unique(s, u.user_id, i);
    }
    assert forall|i: int, j: int|
        #![trigger first_user_at(s, u.user_id, i), users_with(s, u)[j]]
        first_user_at(s, u.user_id, i) && 0 <= j < s.len() && j != i implies users_with(s, u)[j] == s[j] by {
        lemma_first_user_unique(s, u.user_id, i);
    }
    assert forall|j: int| 0 <= j < s.len() && s[j].user_id != u.user_id implies #[trigger] users_with(s, u)[j]
        == s[j] by {
        if user_position(s, u.user_id) is Some {
            let w = choose|w: int| first_user_at(s, u.user_id, w);
            assert(s[w].user_id == u.user_id);
        }
    }
}

/// A room change changes only the first room with the event's ID, which
/// takes the change; the length and every other room stay. Without a room
/// with the ID nothing changes.
pub proof fn lemma_room_change_changes_only_its_entry(s: Seq<RoomView>, e: RoomChangeEventView)
    ensures
        rooms_changed(s, e).len() == s.len(),
        !(exists|i: int| 0 <= i < s.len() && #[trigger] s[i].room_id == e.room_id) ==> rooms_changed(s, e) == s,
        forall|i: int| first_room_at(s, e.room_id, i) ==> #[trigger] rooms_changed(s, e)[i] == room_after_change(e, s[i]),
        forall|j: int|
            0 <= j < s.len() && s[j].room_id != e.room_id ==> #[trigger] rooms_changed(s, e)[j] == s[j],
        forall|i: int, j: int|
            #![trigger first_room_at(s, e.room_id, i), rooms_changed(s, e)[j]]
            first_room_at(s, e.room_id, i) && 0 <= j < s.len() && j != i ==> rooms_changed(s, e)[j] == s[j],
{
    if room_position(s, e.room_id) is Some {
        let w = choose|w: int| first_room_at(s, e.room_id, w);
        assert(s[w].room_id == e.room_id);
    }
    assert forall|i: int| first_room_at(s, e.room_id, i) implies #[trigger] rooms_changed(s, e)[i] == room_after_change(
        e,
        s[i],
    ) by {
        lemma_first_room_unique(s, e.room_id, i);
    }
    assert forall|i: int, j: int|
        #![trigger first_room_at(s, e.room_id, i), rooms_changed(s, e)[j]]
        first_room_at(s, e.room_id, i) && 0 <= j < s.len() && j != i implies rooms_changed(s, e)[j] == s[j] by {
        lemma_first_room_unique(s, e.room_id, i);
    }
}

/// A user change changes only the first user with the event's ID, which
/// takes the change; the length and every other user stay. Without a user
/// with the ID nothing changes.
pub proof fn lemma_user_change_changes_only_its_entry(s: Seq<UserView>, e: UserChangeEventView)
    ensures
        users_changed(s, e).len() == s.len(),
        !(exists|i: int| 0 <= i < s.len() && #[trigger] s[i].user_id == e.user_id) ==> users_changed(s, e) == s,
        forall|i: int| first_user_at(s, e.user_id, i) ==> #[trigger] users_changed(s, e)[i] == user_after_change(e, s[i]),
        forall|j: int|
            0 <= j < s.len() && s[j].user_id != e.user_id ==> #[trigger] users_changed(s, e)[j] == s[j],
        forall|i: int, j: int|
            #![trigger first_user_at(s, e.user_id, i), users_changed(s, e)[j]]
            first_user_at(s, e.user_id, i) && 0 <= j < s.len() && j != i ==> users_changed(s, e)[j] == s[j],
{
    if user_position(s, e.user_id) is Some {
        let w = choose|w: int| first_user_at(s, e.user_id, w);
        assert(s[w].user_id == e.user_id);
    }
    assert forall|i: int| first_user_at(s, e.user_id, i) implies #[trigger] users_changed(s, e)[i] == user_after_change(
        e,
        s[i],
    ) by {
        lemma_first_user_unique(s, e.user_id, i);
    }
    assert forall|i: int, j: int|
        #![trigger first_user_at(s, e.user_id, i), users_changed(s, e)[j]]
        first_user_at(s, e.user_id, i) && 0 <= j < s.len() && j != i implies users_changed(s, e)[j] == s[j] by {
        lemma_first_user_unique(s, e.user_id, i);
    }
}

/// Leaving a room keeps every other cached room: each room with another ID
/// is still cached, and no room is added.
pub proof fn lemma_leaving_room_keeps_others(s: Seq<RoomView>, id: Seq<char>)
    ensures
        forall|j: int| 0 <= j < s.len() && s[j].room_id != id ==> #[trigger] rooms_without(s, id).contains(s[j]),
        forall|k: int| 0 <= k < rooms_without(s, id).len() ==> s.contains(#[trigger] rooms_without(s, id)[k]),
        rooms_without(s, id).len() <= s.len(),
{
    let pred = |r: RoomView| r.room_id != id;
    assert forall|j: int| 0 <= j < s.len() && s[j].room_id != id implies #[trigger] rooms_without(s, id).contains(s[j]) by {
        s.lemma_filter_contains(pred, j);
    }
    assert forall|k: int| 0 <= k < rooms_without(s, id).len() implies s.contains(#[trigger] rooms_without(s, id)[k]) by {
        let t = rooms_without(s, id);
        assert(t.contains(t[k]));
        s.lemma_filter_contains_rev(pred, t[k]);
    }
    s.lemma_filter_len(pred);
}

/// Where a room with the ID exists, a first one exists.
proof fn lemma_some_room_has_first(s: Seq<RoomView>, id: Seq<char>, j: int)
    requires
        0 <= j < s.len(),
        s[j].room_id == id,
    ensures
        room_position(s, id) is Some,
    decreases j,
{
    if forall|k: int| 0 <= k < j ==> #[trigger] s[k].room_id != id {
        assert(first_room_at(s, id, j));
    } else {
        let k = choose|k: int| 0 <= k < j && #[trigger] s[k].room_id == id;
        lemma_some_room_has_first(s, id, k);
    }
}

/// Where a user with the ID exists, a first one exists.
proof fn lemma_some_user_has_first(s: Seq<UserView>, id: Seq<char>, j: int)
    requires
        0 <= j < s.len(),
        s[j].user_id == id,
    ensures
        user_position(s, id) is Some,
    decreases j,
{
    if forall|k: int| 0 <= k < j ==> #[trigger] s[k].user_id != id {
        assert(first_user_at(s, id, j));
    } else {
        let k = choose|k: int| 0 <= k < j && #[trigger] s[k].user_id == id;
        lemma_some_user_has_first(s, id, k);
    }
}

/// A cached user is what a lookup of its ID gives back.
pub proof fn lemma_cached_user_is_found(s: Seq<UserView>, u: UserView)
    ensures
        user_lookup(users_with(s, u), u.user_id) == Some(u),
{
    let t = users_with(s, u);
    match user_position(s, u.user_id) {
        Some(i) => {
            let w = choose|w: int| first_user_at(s, u.user_id, w);
            assert(first_user_at(t, u.user_id, i));
            lemma_first_user_unique(t, u.user_id, i);
        },
        None => {
            assert forall|j: int| 0 <= j < s.len() implies #[trigger] s[j].user_id != u.user_id by {
                if s[j].user_id == u.user_id {
                    lemma_some_user_has_first(s, u.user_id, j);
                }
            }
            assert(first_user_at(t, u.user_id, s.len() as int));
            lemma_first_user_unique(t, u.user_id, s.len() as int);
        },
    }
}

/// Caching a user leaves the lookup of every other ID as it was.
pub proof fn lemma_caching_user_keeps_others(s: Seq<UserView>, u: UserView, id: Seq<char>)
    requires
        id != u.user_id,
    ensures
        user_lookup(users_with(s, u), id) == user_lookup(s, id),
{
    let t = users_with(s, u);
    match user_position(s, id) {
        Some(i) => {
            let w = choose|w: int| first_user_at(s, id, w);
            assert(first_user_at(t, id, i));
            lemma_first_user_unique(t, id, i);
        },
        None => {
            assert forall|j: int| 0 <= j < t.len() implies #[trigger] t[j].user_id != id by {
                if j < s.len() && s[j].user_id == id {
                    lemma_some_user_has_first(s, id, j);
                }
            }
            if user_position(t, id) is Some {
                let k = choose|k: int| first_user_at(t, id, k);
                assert(t[k].user_id == id);
            }
        },
    }
}

/// After the application left a room, no cached room has its ID.
pub proof fn lemma_left_room_is_gone(s: Seq<RoomView>, id: Seq<char>)
    ensures
        forall|j: int|
            0 <= j < rooms_without(s, id).len() ==> #[trigger] rooms_without(s, id)[j].room_id
                != id,
        room_position(rooms_without(s, id), id) is None,
{
    let pred = |r: RoomView| r.room_id != id;
    let t = s.filter(pred);
    assert forall|j: int| 0 <= j < t.len() implies #[trigger] t[j].room_id != id by {
        broadcast use vstd::seq_lib::group_filter_ensures;
        assert(pred(t[j]));
    }
    if room_position(t, id) is Some {
        let k = choose|k: int| first_room_at(t, id, k);
        assert(t[k].room_id == id);
    }
}


/// The user of a user response sent to the application is what the cache
/// gives back for the user's ID afterwards, and every other ID gives back
/// what it gave before.
pub proof fn lemma_user_response_read_back(v: ProtoCacheView, u: User, id: Seq<char>)
    ensures
        user_lookup(or_empty(cache_after_response(v, ResponseContent::UserResponse(u)).users), u.user_id@) == Some(u@),
        id != u.user_id@ ==> user_lookup(or_empty(cache_after_response(v, ResponseContent::UserResponse(u)).users), id)
            == user_lookup(or_empty(v.users), id),
{
    lemma_cached_user_is_found(or_empty(v.users), u@);
    if id != u.user_id@ {
        lemma_caching_user_keeps_others(or_empty(v.users), u@, id);
    }
}

/// Reading a user back after caching it gives that user, and every other
/// ID reads back what it read before.
pub proof fn lemma_cached_user_read_back(v: ProtoCacheView, u: UserView, id: Seq<char>)
    ensures
        user_lookup(or_empty(with_user_cached(v, u).users), u.user_id) == Some(u),
        id != u.user_id ==> user_lookup(or_empty(with_user_cached(v, u).users), id) == user_lookup(
            or_empty(v.users),
            id,
        ),
{
    lemma_cached_user_is_found(or_empty(v.users), u);
    if id != u.user_id {
        lemma_caching_user_keeps_others(or_empty(v.users), u, id);
    }
}

} // verus!
