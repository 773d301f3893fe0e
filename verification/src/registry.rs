//! The room registry: the authoritative mapping from room id to member set,
//! and the fan-out computation of the broadcast relay.
use vstd::prelude::*;

verus! {

/// One room: its id and the identities of its joined members.
pub struct Room {
    pub room_id: String,
    pub members: Vec<u64>,
}

/// The mapping from room id to member set. A member is a connection identity
/// chosen by the caller, unique for the lifetime of that connection; the
/// caller keeps the member's write handle under the same identity.
pub struct RoomRegistry {
    rooms: Vec<Room>,
}

impl RoomRegistry {
    /// The registry holds a room named `room`.
    pub closed spec fn has_room(self, room: Seq<char>) -> bool {
        exists|k: int|
            0 <= k < self.rooms@.len() && (#[trigger] self.rooms@[k]).room_id@ == room
    }

    /// The member `m` is joined to the room named `room`.
    pub closed spec fn is_member(self, room: Seq<char>, m: u64) -> bool {
        exists|k: int|
            0 <= k < self.rooms@.len() && (#[trigger] self.rooms@[k]).room_id@ == room
                && self.rooms@[k].members@.contains(m)
    }

    /// Well-formed: room ids are unique and no room lists a member twice.
    pub closed spec fn wf(self) -> bool {
        &&& forall|k1: int, k2: int|
            #![trigger self.rooms@[k1], self.rooms@[k2]]
            0 <= k1 < k2 < self.rooms@.len() ==> self.rooms@[k1].room_id@
                != self.rooms@[k2].room_id@
        &&& forall|k: int|
            0 <= k < self.rooms@.len() ==> (#[trigger] self.rooms@[k]).members@.no_duplicates()
    }

    /// A registry with no rooms and no members.
    pub fn new() -> (r: RoomRegistry)
        ensures
            r.wf(),
            forall|room: Seq<char>| !r.has_room(room),
            forall|room: Seq<char>, m: u64| !r.is_member(room, m),
    {
        RoomRegistry { rooms: Vec::new() }
    }

    /// The index of the room named by `room_id`, if the registry holds one.
    fn find_room(&self, room_id: &String) -> (r: Option<usize>)
        ensures
            r matches Some(k) ==> (k < self.rooms@.len() && self.rooms@[k as int].room_id@
                == room_id@),
            r is None ==> !self.has_room(room_id@),
    {
        let n = self.rooms.len();
        let mut k: usize = 0;
        while k < n
            invariant
                n == self.rooms@.len(),
                k <= n,
                forall|j: int| 0 <= j < k ==> (#[trigger] self.rooms@[j]).room_id@ != room_id@,
            decreases n - k,
        {
            if self.rooms[k].room_id == *room_id {
                return Some(k);
            }
            k += 1;
        }
        None
    }

    /// Adds `member` to the room named `room_id`, creating the room if the
    /// registry does not hold it yet; joining a room one is already in
    /// changes nothing. No other membership changes.
    pub fn join_room(&mut self, room_id: String, member: u64)
        requires
            old(self).wf(),
        ensures
            final(self).wf(),
            forall|r: Seq<char>, m: u64|
                final(self).is_member(r, m) <==> (old(self).is_member(r, m) || (r == room_id@ && m
                    == member)),
            forall|r: Seq<char>|
                final(self).has_room(r) <==> (old(self).has_room(r) || r == room_id@),
    {
        match self.find_room(&room_id) {
            None => {
                let mut members: Vec<u64> = Vec::new();
                members.push(member);
                self.rooms.push(Room { room_id, members });
                proof {
                    let s_old = old(self).rooms@;
                    let s_new = self.rooms@;
                    let n = s_old.len() as int;
                    assert(s_new[n].members@ =~= seq![member]);
                    assert forall|j: int| 0 <= j < n implies s_new[j] == s_old[j] by {}
                    assert forall|r: Seq<char>, m: u64|
                        self.is_member(r, m) implies (old(self).is_member(r, m) || (r
                        == s_new[n].room_id@ && m == member)) by {
                        let j = choose|j: int|
                            0 <= j < s_new.len() && (#[trigger] s_new[j]).room_id@ == r
                                && s_new[j].members@.contains(m);
                        if j < n {
                            assert(s_old[j].room_id@ == r && s_old[j].members@.contains(m));
                        }
                    }
                    assert forall|r: Seq<char>, m: u64|
                        old(self).is_member(r, m) implies self.is_member(r, m) by {
                        let j = choose|j: int|
                            0 <= j < s_old.len() && (#[trigger] s_old[j]).room_id@ == r
                                && s_old[j].members@.contains(m);
                        assert(s_new[j].room_id@ == r && s_new[j].members@.contains(m));
                    }
                    assert forall|r: Seq<char>|
                        self.has_room(r) implies (old(self).has_room(r) || r == s_new[n].room_id@) by {
                        let j = choose|j: int|
                            0 <= j < s_new.len() && (#[trigger] s_new[j]).room_id@ == r;
                        if j < n {
                            assert(s_old[j].room_id@ == r);
                        }
                    }
                    assert forall|r: Seq<char>|
                        old(self).has_room(r) implies self.has_room(r) by {
                        let j = choose|j: int|
                            0 <= j < s_old.len() && (#[trigger] s_old[j]).room_id@ == r;
                        assert(s_new[j].room_id@ == r);
                    }
                    assert(self.is_member(s_new[n].room_id@, member)) by {
                        assert(s_new[n].members@[0] == member);
                        assert(s_new[n].members@.contains(member));
                    }
                }
            },
            Some(k) => {
                let mut room = self.rooms.remove(k);
                let already = members_contain(&room.members, member);
                if !already {
                    room.members.push(member);
                }
                let ghost updated = room;
                self.rooms.push(room);
                proof {
                    let s_old = old(self).rooms@;
                    let s_new = self.rooms@;
                    let n = s_old.len() as int;
                    s_old.remove_ensures(k as int);
                    assert(s_new.len() == n);
                    assert forall|j: int|
                        0 <= j < n - 1 implies s_new[j] == (if j < k {
                        s_old[j]
                    } else {
                        s_old[j + 1]
                    }) by {
                        assert(s_new[j] == s_old.remove(k as int)[j]);
                    }
                    assert(s_new[n - 1] == updated);
                    assert(updated.room_id@ == s_old[k as int].room_id@);
                    assert forall|m: u64| updated.members@.contains(m) implies (
                    s_old[k as int].members@.contains(m) || m == member) by {
                        let jm = choose|jm: int|
                            0 <= jm < updated.members@.len() && updated.members@[jm] == m;
                        if jm < s_old[k as int].members@.len() {
                            assert(s_old[k as int].members@.contains(m));
                        }
                    }
                    assert forall|m: u64| s_old[k as int].members@.contains(m) implies
                        updated.members@.contains(m) by {
                        let jm = choose|jm: int|
                            0 <= jm < s_old[k as int].members@.len() && s_old[k
                                as int].members@[jm] == m;
                        assert(updated.members@[jm] == m);
                    }
                    assert(updated.members@.contains(member)) by {
                        if !already {
                            assert(updated.members@[updated.members@.len() - 1] == member);
                        }
                    }
                    assert(updated.members@.no_duplicates()) by {
                        if !old(self).rooms@[k as int].members@.contains(member) {
                            let ms = s_old[k as int].members@;
                            assert forall|i1: int, i2: int|
                                0 <= i1 < updated.members@.len() && 0 <= i2
                                    < updated.members@.len() && i1 != i2 implies updated.members@[i1]
                                != updated.members@[i2] by {
                                if i1 < ms.len() && i2 < ms.len() {
                                    assert(ms[i1] == updated.members@[i1]);
                                    assert(ms[i2] == updated.members@[i2]);
                                } else if i1 < ms.len() {
                                    assert(ms.contains(ms[i1]));
                                } else if i2 < ms.len() {
                                    assert(ms.contains(ms[i2]));
                                }
                            }
                        }
                    }
                    assert forall|r: Seq<char>, m: u64|
                        self.is_member(r, m) implies (old(self).is_member(r, m) || (r
                        == updated.room_id@ && m == member)) by {
                        let j = choose|j: int|
                            0 <= j < s_new.len() && (#[trigger] s_new[j]).room_id@ == r
                                && s_new[j].members@.contains(m);
                        if j < n - 1 {
                            if j < k {
                                assert(s_old[j].room_id@ == r && s_old[j].members@.contains(m));
                            } else {
                                assert(s_old[j + 1].room_id@ == r && s_old[j
                                    + 1].members@.contains(m));
                            }
                        } else {
                            if s_old[k as int].members@.contains(m) {
                                assert(s_old[k as int].room_id@ == r);
                            }
                        }
                    }
                    assert forall|r: Seq<char>, m: u64|
                        old(self).is_member(r, m) implies self.is_member(r, m) by {
                        let j = choose|j: int|
                            0 <= j < s_old.len() && (#[trigger] s_old[j]).room_id@ == r
                                && s_old[j].members@.contains(m);
                        if j == k {
                            assert(s_new[n - 1].room_id@ == r && s_new[n - 1].members@.contains(m));
                        } else if j < k {
                            assert(s_new[j].room_id@ == r && s_new[j].members@.contains(m));
                        } else {
                            assert(s_new[j - 1].room_id@ == r && s_new[j - 1].members@.contains(m));
                        }
                    }
                    assert(self.is_member(updated.room_id@, member)) by {
                        assert(s_new[n - 1].members@.contains(member));
                    }
                    assert forall|r: Seq<char>|
                        self.has_room(r) implies (old(self).has_room(r) || r == updated.room_id@) by {
                        let j = choose|j: int|
                            0 <= j < s_new.len() && (#[trigger] s_new[j]).room_id@ == r;
                        if j < n - 1 {
                            if j < k {
                                assert(s_old[j].room_id@ == r);
                            } else {
                                assert(s_old[j + 1].room_id@ == r);
                            }
                        } else {
                            assert(s_old[k as int].room_id@ == r);
                        }
                    }
                    assert forall|r: Seq<char>|
                        old(self).has_room(r) implies self.has_room(r) by {
                        let j = choose|j: int|
                            0 <= j < s_old.len() && (#[trigger] s_old[j]).room_id@ == r;
                        if j == k {
                            assert(s_new[n - 1].room_id@ == r);
                        } else if j < k {
                            assert(s_new[j].room_id@ == r);
                        } else {
                            assert(s_new[j - 1].room_id@ == r);
                        }
                    }
                    assert forall|k1: int, k2: int|
                        #![trigger s_new[k1], s_new[k2]]
                        0 <= k1 < k2 < s_new.len() implies s_new[k1].room_id@
                        != s_new[k2].room_id@ by {
                        let o1: int = if k1 < k { k1 } else { k1 + 1 };
                        if k2 < n - 1 {
                            let o2: int = if k2 < k { k2 } else { k2 + 1 };
                            assert(s_new[k1] == s_old[o1] && s_new[k2] == s_old[o2]);
                        } else {
                            assert(s_new[k1] == s_old[o1]);
                            assert(s_new[k2].room_id@ == s_old[k as int].room_id@);
                        }
                    }
                }
            },
        }
    }

    /// The fan-out of one broadcast: every member of the room named `room_id`
    /// except the sender, each exactly once. An unknown room fans out to
    /// nobody.
    pub fn broadcast_targets(&self, room_id: &String, sender: u64) -> (r: Vec<u64>)
        requires
            self.wf(),
        ensures
            r@.no_duplicates(),
            forall|m: u64|
                r@.contains(m) <==> (self.is_member(room_id@, m) && m != sender),
            !self.has_room(room_id@) ==> r@.len() == 0,
    {
        match self.find_room(room_id) {
            None => {
                let targets: Vec<u64> = Vec::new();
                proof {
                    assert forall|m: u64| !self.is_member(room_id@, m) by {
                        if self.is_member(room_id@, m) {
                            let j = choose|j: int|
                                0 <= j < self.rooms@.len() && (#[trigger] self.rooms@[j]).room_id@
                                    == room_id@ && self.rooms@[j].members@.contains(m);
                            assert(self.has_room(room_id@));
                        }
                    }
                }
                targets
            },
            Some(k) => {
                let mut targets: Vec<u64> = Vec::new();
                let n = self.rooms[k].members.len();
                let mut idx: usize = 0;
                while idx < n
                    invariant
                        self.wf(),
                        k < self.rooms@.len(),
                        self.rooms@[k as int].room_id@ == room_id@,
                        n == self.rooms@[k as int].members@.len(),
                        idx <= n,
                        targets@.no_duplicates(),
                        forall|m: u64|
                            targets@.contains(m) <==> (exists|j: int|
                                0 <= j < idx && self.rooms@[k as int].members@[j] == m && m
                                    != sender),
                    decreases n - idx,
                {
                    let ghost ms = self.rooms@[k as int].members@;
                    let m = self.rooms[k].members[idx];
                    if m != sender {
                        proof {
                            if targets@.contains(m) {
                                let j = choose|j: int| 0 <= j < idx && ms[j] == m && m != sender;
                                assert(ms[j] == ms[idx as int]);
                            }
                            assert(!targets@.contains(m));
                        }
                        let ghost t_old = targets@;
                        targets.push(m);
                        proof {
                            assert forall|mm: u64| targets@.contains(mm) implies (exists|j: int|
                                0 <= j < idx + 1 && ms[j] == mm && mm != sender) by {
                                let jt = choose|jt: int|
                                    0 <= jt < targets@.len() && targets@[jt] == mm;
                                if jt < t_old.len() {
                                    assert(t_old[jt] == mm);
                                    assert(t_old.contains(mm));
                                    let j = choose|j: int| 0 <= j < idx && ms[j] == mm && mm != sender;
                                    assert(0 <= j < idx + 1 && ms[j] == mm && mm != sender);
                                } else {
                                    assert(ms[idx as int] == mm);
                                }
                            }
                            assert forall|mm: u64|
                                (exists|j: int| 0 <= j < idx + 1 && ms[j] == mm && mm != sender)
                                    implies targets@.contains(mm) by {
                                let j = choose|j: int| 0 <= j < idx + 1 && ms[j] == mm && mm != sender;
                                if j < idx {
                                    assert(t_old.contains(mm));
                                    let jt = choose|jt: int| 0 <= jt < t_old.len() && t_old[jt] == mm;
                                    assert(targets@[jt] == mm);
                                } else {
                                    assert(targets@[targets@.len() - 1] == mm);
                                }
                            }
                        }
                    } else {
                        proof {
                            assert forall|mm: u64|
                                (exists|j: int| 0 <= j < idx + 1 && ms[j] == mm && mm != sender)
                                    implies targets@.contains(mm) by {
                                let j = choose|j: int| 0 <= j < idx + 1 && ms[j] == mm && mm != sender;
                                assert(0 <= j < idx && ms[j] == mm && mm != sender);
                            }
                        }
                    }
                    idx += 1;
                }
                proof {
                    let ms = self.rooms@[k as int].members@;
                    assert forall|m: u64|
                        targets@.contains(m) implies (self.is_member(room_id@, m) && m
                        != sender) by {
                        let j = choose|j: int| 0 <= j < n && ms[j] == m && m != sender;
                        assert(ms.contains(m));
                    }
                    assert forall|m: u64|
                        self.is_member(room_id@, m) && m != sender implies targets@.contains(
                        m,
                    ) by {
                        let j = choose|j: int|
                            0 <= j < self.rooms@.len() && (#[trigger] self.rooms@[j]).room_id@
                                == room_id@ && self.rooms@[j].members@.contains(m);
                        assert(j == k);
                        let jm = choose|jm: int| 0 <= jm < ms.len() && ms[jm] == m;
                        assert(0 <= jm < n && ms[jm] == m && m != sender);
                    }
                }
                targets
            },
        }
    }
}

/// Whether `m` occurs in `members`.
fn members_contain(members: &Vec<u64>, m: u64) -> (r: bool)
    ensures
        r == members@.contains(m),
{
    let n = members.len();
    let mut k: usize = 0;
    while k < n
        invariant
            n == members@.len(),
            k <= n,
            forall|j: int| 0 <= j < k ==> members@[j] != m,
        decreases n - k,
    {
        if members[k] == m {
            return true;
        }
        k += 1;
    }
    proof {
        if members@.contains(m) {
            let j = choose|j: int| 0 <= j < members@.len() && members@[j] == m;
            assert(members@[j] != m);
        }
    }
    false
}

} // verus!
