use crate::devices::device::Device;
use crate::report_provider::DeviceInfoProvider;
use crate::room::Room;
use crate::room::RoomDevice;
use crate::errors::SmartHouseError;
use crate::text::lemma_seq_str_lt_connected;
use crate::text::lemma_seq_str_lt_irrefl;
use crate::text::lemma_seq_str_lt_trans;
use crate::text::seq_str_lt;
use crate::text::str_eq;
use crate::text::str_lt;
use vstd::prelude::*;
use vstd::string::StringExecFns;

verus! {

/// The house registry: rooms under unique names, kept sorted by name so
/// that reports come out in a fixed order.
#[derive(Debug)]
pub struct House {
    pub name: String,
    pub rooms: Vec<Room>,
}

/// The report line of one device.
pub open spec fn spec_device_line(d: RoomDevice) -> Seq<char> {
    "  Device: "@ + d.spec_name() + "\n"@ + "    Description: "@ + d.spec_description() + "\n"@
}

/// The report lines of a room's devices, in order, keeping only the
/// devices whose names the provider listed.
pub open spec fn spec_device_lines(ds: Seq<RoomDevice>, allowed: Seq<Seq<char>>) -> Seq<char>
    decreases ds.len(),
{
    if ds.len() == 0 {
        Seq::empty()
    } else {
        spec_device_lines(ds.drop_last(), allowed) + if allowed.contains(ds.last().spec_name()) {
            spec_device_line(ds.last())
        } else {
            Seq::empty()
        }
    }
}

/// The report section of one room.
pub open spec fn spec_room_section(r: Room, allowed: Seq<Seq<char>>) -> Seq<char> {
    "Room: "@ + r.name@ + "\n"@ + spec_device_lines(r.devices@, allowed)
}

/// The report sections of a run of rooms, in order.
pub open spec fn spec_room_sections(rs: Seq<Room>, allowed: Seq<Seq<char>>) -> Seq<char>
    decreases rs.len(),
{
    if rs.len() == 0 {
        Seq::empty()
    } else {
        spec_room_sections(rs.drop_last(), allowed) + spec_room_section(rs.last(), allowed)
    }
}

/// The whole report of a house, given the device names a provider listed.
pub open spec fn spec_report(h: House, allowed: Seq<Seq<char>>) -> Seq<char> {
    "House: "@ + h.name@ + "\n"@ + spec_room_sections(h.rooms@, allowed)
}

/// Whether a name is among the listed ones.
fn contains_str(allowed: &Vec<&str>, name: &str) -> (r: bool)
    ensures
        r == allowed.deep_view().contains(name@),
{
    let n = allowed.len();
    let mut i: usize = 0;
    while i < n
        invariant
            0 <= i <= n,
            n == allowed@.len(),
            forall|k: int| 0 <= k < i ==> allowed.deep_view()[k] != name@,
        decreases n - i,
    {
        if str_eq(allowed[i], name) {
            assert(allowed.deep_view()[i as int] == name@);
            return true;
        }
        i = i + 1;
    }
    false
}

impl House {
    /// The registry invariant: rooms strictly sorted by name (so names are
    /// unique), each room well formed.
    pub open spec fn wf(&self) -> bool {
        &&& forall|i: int, j: int|
            0 <= i < j < self.rooms@.len() ==> seq_str_lt(
                self.rooms@[i].name@,
                self.rooms@[j].name@,
            )
        &&& forall|i: int| 0 <= i < self.rooms@.len() ==> (#[trigger] self.rooms@[i]).wf()
    }

    /// Whether the house has a room under the given name.
    pub open spec fn spec_has_room(&self, name: Seq<char>) -> bool {
        exists|i: int| 0 <= i < self.rooms@.len() && self.rooms@[i].name@ == name
    }

    pub fn new(name: &str) -> (h: House)
        ensures
            h.name@ == name@,
            h.rooms@ =~= Seq::<Room>::empty(),
            h.wf(),
    {
        House { name: name.to_owned(), rooms: Vec::new() }
    }

    pub fn get_name(&self) -> (r: &str)
        ensures
            r@ == self.name@,
    {
        self.name.as_str()
    }

    /// The index of the room with the given name, if the house has one.
    fn find_room(&self, name: &str) -> (r: Option<usize>)
        ensures
            match r {
                Some(i) => 0 <= i < self.rooms@.len() && self.rooms@[i as int].name@ == name@,
                None => !self.spec_has_room(name@),
            },
    {
        let n = self.rooms.len();
        let mut i: usize = 0;
        while i < n
            invariant
                0 <= i <= n,
                n == self.rooms@.len(),
                forall|k: int| 0 <= k < i ==> self.rooms@[k].name@ != name@,
            decreases n - i,
        {
            if str_eq(self.rooms[i].name.as_str(), name) {
                return Some(i);
            }
            i = i + 1;
        }
        None
    }

    /// Adds an empty room under the given name, keeping the rooms sorted.
    /// Fails, and changes nothing, when a room of that name exists.
    pub fn add_room(&mut self, name: &str) -> (r: Result<(), SmartHouseError>)
        requires
            old(self).wf(),
        ensures
            final(self).wf(),
            final(self).name == old(self).name,
            match r {
                Ok(()) => !old(self).spec_has_room(name@) && final(self).rooms@.len() == old(self).rooms@.len() + 1 && (exists|p: int|
                    0 <= p <= old(self).rooms@.len() && (#[trigger] final(self).rooms@[p]).name@
                        == name@ && final(self).rooms@[p].devices@.len() == 0 && (forall|k: int|
                        0 <= k < p ==> final(self).rooms@[k] == old(self).rooms@[k]) && (forall|
                        k: int,
                    |
                        p < k < final(self).rooms@.len() ==> final(self).rooms@[k] == old(self).rooms@[k - 1])),
                Err(e) => old(self).spec_has_room(name@) && *final(self) == *old(self) && (
                e matches SmartHouseError::RoomAlreadyExistsError(n) && n@ == name@),
            },
    {
        let n = self.rooms.len();
        let mut p: usize = 0;
        while p < n && str_lt(self.rooms[p].name.as_str(), name)
            invariant
                0 <= p <= n,
                n == self.rooms@.len(),
                forall|k: int| 0 <= k < p ==> seq_str_lt((#[trigger] self.rooms@[k]).name@, name@),
            decreases n - p,
        {
            p = p + 1;
        }
        if p < n && str_eq(self.rooms[p].name.as_str(), name) {
            proof {
                assert(self.spec_has_room(name@));
            }
            return Err(SmartHouseError::RoomAlreadyExistsError(name.to_owned()));
        }
        proof {
            lemma_seq_str_lt_irrefl(name@);
            if p < self.rooms@.len() {
                lemma_seq_str_lt_connected(self.rooms@[p as int].name@, name@);
            }
            assert forall|k: int| 0 <= k < self.rooms@.len() implies (#[trigger] self.rooms@[k]).name@
                != name@ by {
                lemma_seq_str_lt_irrefl(self.rooms@[k].name@);
                if k >= p as int {
                    if self.rooms@[k].name@ == name@ {
                        if k > p as int {
                            assert(seq_str_lt(self.rooms@[p as int].name@, self.rooms@[k].name@));
                        }
                        assert(seq_str_lt(name@, name@));
                    }
                }
            }
        }
        let ghost old_rooms = self.rooms@;
        let room = Room::new(name);
        let ghost new_room = room;
        self.rooms.insert(p, room);
        proof {
            let pp = p as int;
            assert(self.rooms@ == old_rooms.insert(pp, new_room));
            assert(self.rooms@[pp] == new_room);
            assert(forall|k: int| 0 <= k < pp ==> self.rooms@[k] == old_rooms[k]);
            assert(forall|k: int| pp < k < self.rooms@.len() ==> self.rooms@[k] == old_rooms[k - 1]);
            assert((#[trigger] self.rooms@[pp]).name@ == name@ && self.rooms@[pp].devices@.len()
                == 0);
            assert forall|i: int, j: int|
                0 <= i < j < self.rooms@.len() implies seq_str_lt(
                self.rooms@[i].name@,
                self.rooms@[j].name@,
            ) by {
                if j == p as int {
                    assert(self.rooms@[i] == old_rooms[i]);
                } else if i == p as int {
                    assert(self.rooms@[j] == old_rooms[j - 1]);
                    if j - 1 > p as int {
                        assert(seq_str_lt(old_rooms[p as int].name@, old_rooms[j - 1].name@));
                        lemma_seq_str_lt_trans(name@, old_rooms[p as int].name@, old_rooms[j - 1].name@);
                    }
                } else if i < p as int && j > p as int {
                    assert(self.rooms@[i] == old_rooms[i]);
                    assert(self.rooms@[j] == old_rooms[j - 1]);
                    if j - 1 == i {
                        assert(false);
                    }
                }
            }
        }
        Ok(())
    }

    /// Removes the room with the given name.  Fails, and changes nothing,
    /// when the house has no room under that name.
    pub fn remove_room(&mut self, name: &str) -> (r: Result<(), SmartHouseError>)
        requires
            old(self).wf(),
        ensures
            final(self).wf(),
            final(self).name == old(self).name,
            match r {
                Ok(()) => exists|i: int|
                    0 <= i < old(self).rooms@.len() && (#[trigger] old(self).rooms@[i]).name@
                        == name@ && final(self).rooms@ == old(self).rooms@.remove(i),
                Err(e) => !old(self).spec_has_room(name@) && *final(self) == *old(self) && (
                e matches SmartHouseError::RoomNotFoundError(n) && n@ == name@),
            },
    {
        match self.find_room(name) {
            None => Err(SmartHouseError::RoomNotFoundError(name.to_owned())),
            Some(i) => {
                self.rooms.remove(i);
                Ok(())
            },
        }
    }

    /// The rooms, sorted by name.
    pub fn get_rooms(&self) -> (r: &Vec<Room>)
        ensures
            r@ == self.rooms@,
    {
        &self.rooms
    }

    /// Mutable access to the room with the given name, if the house has
    /// one.  The final state of the house carries whatever the caller did
    /// with the room.
    pub fn get_room_mut<'a>(&'a mut self, name: &str) -> (r: Option<&'a mut Room>)
        ensures
            match r {
                None => !old(self).spec_has_room(name@) && *final(self) == *old(self),
                Some(room) => final(self).name == old(self).name && (exists|i: int|
                    0 <= i < old(self).rooms@.len() && (#[trigger] old(self).rooms@[i]).name@
                        == name@ && *room == old(self).rooms@[i] && final(self).rooms@ == old(self).rooms@.update(i, *final(room))),
            },
    {
        match self.find_room(name) {
            None => None,
            Some(i) => Some(&mut self.rooms[i]),
        }
    }

    /// Builds the report for the device names in `allowed`: the house
    /// heading, then one section per room in order, listing the room's
    /// devices whose names are among `allowed`.
    pub fn report_for(&self, allowed: &Vec<&str>) -> (r: String)
        ensures
            r@ == spec_report(*self, allowed.deep_view()),
    {
        let mut report = "House: ".to_owned();
        report.append(self.name.as_str());
        report.append("\n");
        let n = self.rooms.len();
        let mut i: usize = 0;
        proof {
            assert(report@ =~= "House: "@ + self.name@ + "\n"@ + spec_room_sections(
                self.rooms@.take(0),
                allowed.deep_view(),
            ));
        }
        while i < n
            invariant
                0 <= i <= n,
                n == self.rooms@.len(),
                report@ == "House: "@ + self.name@ + "\n"@ + spec_room_sections(
                    self.rooms@.take(i as int),
                    allowed.deep_view(),
                ),
            decreases n - i,
        {
            let room = &self.rooms[i];
            report.append("Room: ");
            report.append(room.name.as_str());
            report.append("\n");
            let m = room.devices.len();
            let mut j: usize = 0;
            proof {
                assert(report@ =~= "House: "@ + self.name@ + "\n"@ + spec_room_sections(
                    self.rooms@.take(i as int),
                    allowed.deep_view(),
                ) + ("Room: "@ + room.name@ + "\n"@ + spec_device_lines(
                    room.devices@.take(0),
                    allowed.deep_view(),
                )));
            }
            while j < m
                invariant
                    0 <= j <= m,
                    0 <= i < n,
                    n == self.rooms@.len(),
                    m == room.devices@.len(),
                    room == &self.rooms[i as int],
                    report@ == "House: "@ + self.name@ + "\n"@ + spec_room_sections(
                        self.rooms@.take(i as int),
                        allowed.deep_view(),
                    ) + ("Room: "@ + room.name@ + "\n"@ + spec_device_lines(
                        room.devices@.take(j as int),
                        allowed.deep_view(),
                    )),
                decreases m - j,
            {
                let d = &room.devices[j];
                if contains_str(allowed, d.get_name()) {
                    report.append("  Device: ");
                    report.append(d.get_name());
                    report.append("\n");
                    report.append("    Description: ");
                    report.append(d.get_description());
                    report.append("\n");
                }
                proof {
                    assert(room.devices@.take(j + 1).drop_last() =~= room.devices@.take(j as int));
                    assert(room.devices@.take(j + 1).last() == room.devices@[j as int]);
                    assert(report@ =~= "House: "@ + self.name@ + "\n"@ + spec_room_sections(
                        self.rooms@.take(i as int),
                        allowed.deep_view(),
                    ) + ("Room: "@ + room.name@ + "\n"@ + spec_device_lines(
                        room.devices@.take(j + 1),
                        allowed.deep_view(),
                    )));
                }
                j = j + 1;
            }
            proof {
                assert(room.devices@.take(m as int) =~= room.devices@);
                assert(self.rooms@.take(i + 1).drop_last() =~= self.rooms@.take(i as int));
                assert(self.rooms@.take(i + 1).last() == self.rooms@[i as int]);
                assert(report@ =~= "House: "@ + self.name@ + "\n"@ + spec_room_sections(
                    self.rooms@.take(i + 1),
                    allowed.deep_view(),
                ));
            }
            i = i + 1;
        }
        proof {
            assert(self.rooms@.take(n as int) =~= self.rooms@);
        }
        report
    }

    /// Builds the report for whatever device names the provider lists.
    pub fn create_report<P: DeviceInfoProvider>(&self, device_info_provider: &P) -> (r: String)
        ensures
            exists|allowed: Seq<Seq<char>>| r@ == spec_report(*self, allowed),
    {
        let devices = device_info_provider.get_devices();
        let r = self.report_for(&devices);
        proof {
            assert(r@ == spec_report(*self, devices.deep_view()));
        }
        r
    }
}

} // verus!
