use crate::devices::device::Device;
use crate::devices::smart_socket::SmartSocket;
use crate::devices::thermometer::SmartThermometer;
use crate::errors::SmartHouseError;
use crate::text::str_eq;
use vstd::prelude::*;

verus! {

/// A device as a room keeps it: either a socket or a thermometer.
#[derive(Debug)]
pub enum RoomDevice {
    SmartSocket(SmartSocket),
    Thermometer(SmartThermometer),
}

impl Device for RoomDevice {
    open spec fn spec_name(&self) -> Seq<char> {
        match self {
            RoomDevice::Thermometer(t) => t.name@,
            RoomDevice::SmartSocket(s) => s.name@,
        }
    }

    open spec fn spec_description(&self) -> Seq<char> {
        match self {
            RoomDevice::Thermometer(t) => t.description@,
            RoomDevice::SmartSocket(s) => s.description@,
        }
    }

    fn get_name(&self) -> (r: &str) {
        match self {
            RoomDevice::Thermometer(t) => t.name.as_str(),
            RoomDevice::SmartSocket(s) => s.name.as_str(),
        }
    }

    fn get_description(&self) -> (r: &str) {
        match self {
            RoomDevice::Thermometer(t) => t.description.as_str(),
            RoomDevice::SmartSocket(s) => s.description.as_str(),
        }
    }
}

impl From<SmartSocket> for RoomDevice {
    fn from(socket: SmartSocket) -> (r: Self) {
        RoomDevice::SmartSocket(socket)
    }
}

impl vstd::std_specs::convert::FromSpecImpl<SmartSocket> for RoomDevice {
    open spec fn obeys_from_spec() -> bool {
        true
    }

    open spec fn from_spec(v: SmartSocket) -> Self {
        RoomDevice::SmartSocket(v)
    }
}

impl From<SmartThermometer> for RoomDevice {
    fn from(thermometer: SmartThermometer) -> (r: Self) {
        RoomDevice::Thermometer(thermometer)
    }
}

impl vstd::std_specs::convert::FromSpecImpl<SmartThermometer> for RoomDevice {
    open spec fn obeys_from_spec() -> bool {
        true
    }

    open spec fn from_spec(v: SmartThermometer) -> Self {
        RoomDevice::Thermometer(v)
    }
}

/// A room of the house: a name and the devices it holds, each device under
/// a name of its own.
#[derive(Debug)]
pub struct Room {
    pub name: String,
    pub devices: Vec<RoomDevice>,
}

impl Room {
    /// The registry invariant: no two devices of the room share a name.
    pub open spec fn wf(&self) -> bool {
        forall|i: int, j: int|
            0 <= i < j < self.devices@.len() ==> self.devices@[i].spec_name()
                != self.devices@[j].spec_name()
    }

    /// Whether the room holds a device under the given name.
    pub open spec fn spec_has_device(&self, name: Seq<char>) -> bool {
        exists|i: int| 0 <= i < self.devices@.len() && self.devices@[i].spec_name() == name
    }

    pub fn new(name: &str) -> (r: Room)
        ensures
            r.name@ == name@,
            r.devices@ =~= Seq::<RoomDevice>::empty(),
            r.wf(),
    {
        Room { name: name.to_owned(), devices: Vec::new() }
    }

    pub fn get_name(&self) -> (r: &str)
        ensures
            r@ == self.name@,
    {
        self.name.as_str()
    }

    /// The index of the device with the given name, if the room has one.
    fn find_device(&self, name: &str) -> (r: Option<usize>)
        ensures
            match r {
                Some(i) => 0 <= i < self.devices@.len() && self.devices@[i as int].spec_name()
                    == name@,
                None => !self.spec_has_device(name@),
            },
    {
        let n = self.devices.len();
        let mut i: usize = 0;
        while i < n
            invariant
                0 <= i <= n,
                n == self.devices@.len(),
                forall|k: int| 0 <= k < i ==> self.devices@[k].spec_name() != name@,
            decreases n - i,
        {
            if str_eq(self.devices[i].get_name(), name) {
                return Some(i);
            }
            i = i + 1;
        }
        None
    }

    /// Adds a device under its own name.  Fails, and changes nothing, when
    /// the room already holds a device under that name.
    pub fn add_device(&mut self, device: RoomDevice) -> (r: Result<(), SmartHouseError>)
        requires
            old(self).wf(),
        ensures
            final(self).wf(),
            match r {
                Ok(()) => !old(self).spec_has_device(device.spec_name()) && final(self).name@
                    == old(self).name@ && final(self).devices@ == old(self).devices@.push(device),
                Err(e) => old(self).spec_has_device(device.spec_name()) && *final(self)
                    == *old(self) && (e matches SmartHouseError::DeviceAlreadyExistsError(n)
                    && n@ == device.spec_name()),
            },
    {
        if let Some(_i) = self.find_device(device.get_name()) {
            return Err(SmartHouseError::DeviceAlreadyExistsError(device.get_name().to_owned()));
        }
        self.devices.push(device);
        Ok(())
    }

    /// Removes the device with the given name.  Fails, and changes nothing,
    /// when the room holds no device under that name.
    pub fn remove_device(&mut self, name: &str) -> (r: Result<(), SmartHouseError>)
        requires
            old(self).wf(),
        ensures
            final(self).wf(),
            match r {
                Ok(()) => final(self).name@ == old(self).name@ && (exists|i: int|
                    0 <= i < old(self).devices@.len() && old(self).devices@[i].spec_name() == name@
                        && final(self).devices@ == old(self).devices@.remove(i)),
                Err(e) => !old(self).spec_has_device(name@) && *final(self) == *old(self) && (
                e matches SmartHouseError::DeviceNotFoundError(n) && n@ == name@),
            },
    {
        match self.find_device(name) {
            None => Err(SmartHouseError::DeviceNotFoundError(name.to_owned())),
            Some(i) => {
                self.devices.remove(i);
                Ok(())
            },
        }
    }

    /// The names of the room's devices, in the order they were added.
    pub fn device_names(&self) -> (r: Vec<String>)
        ensures
            r@.len() == self.devices@.len(),
            forall|i: int| 0 <= i < r@.len() ==> (#[trigger] r@[i])@ == self.devices@[i].spec_name(),
    {
        let n = self.devices.len();
        let mut names: Vec<String> = Vec::new();
        let mut i: usize = 0;
        while i < n
            invariant
                0 <= i <= n,
                n == self.devices@.len(),
                names@.len() == i,
                forall|k: int|
                    0 <= k < i ==> (#[trigger] names@[k])@ == self.devices@[k].spec_name(),
            decreases n - i,
        {
            names.push(self.devices[i].get_name().to_owned());
            i = i + 1;
        }
        names
    }

    /// The devices of the room, in the order they were added.
    pub fn get_devices(&self) -> (r: &Vec<RoomDevice>)
        ensures
            r@ == self.devices@,
    {
        &self.devices
    }
}

} // verus!
