use crate::devices::device::Device;
use crate::errors::SmartHouseError;
use crate::house::House;
use crate::report_provider::DeviceInfoProvider;
use crate::text::str_eq;
use vstd::prelude::*;
use vstd::string::StringExecFns;

verus! {

/// The errors the HTTP facade reports: a registry error passed through,
/// or a path that names no room or device.
#[derive(Debug)]
pub enum ApiError {
    SmartHouse(SmartHouseError),
    NotFound,
}

impl From<SmartHouseError> for ApiError {
    fn from(e: SmartHouseError) -> (r: Self) {
        ApiError::SmartHouse(e)
    }
}

impl vstd::std_specs::convert::FromSpecImpl<SmartHouseError> for ApiError {
    open spec fn obeys_from_spec() -> bool {
        true
    }

    open spec fn from_spec(v: SmartHouseError) -> Self {
        ApiError::SmartHouse(v)
    }
}

impl ApiError {
    /// The HTTP status the error maps to: a registry error is the
    /// caller's fault, a missing resource is not found.
    pub fn status_code(&self) -> (r: u16)
        ensures
            r == (match self {
                ApiError::SmartHouse(_) => 400u16,
                ApiError::NotFound => 404u16,
            }),
    {
        match self {
            ApiError::SmartHouse(_) => 400,
            ApiError::NotFound => 404,
        }
    }

    /// The text the error responds with.
    pub open spec fn spec_message(&self) -> Seq<char> {
        match self {
            ApiError::SmartHouse(e) => "Smart house error: "@ + e.spec_message(),
            ApiError::NotFound => "Not found"@,
        }
    }

    /// Renders the error as text.
    pub fn message(&self) -> (r: String)
        ensures
            r@ == self.spec_message(),
    {
        match self {
            ApiError::SmartHouse(e) => {
                let mut s = "Smart house error: ".to_owned();
                s.append(e.message().as_str());
                s
            },
            ApiError::NotFound => "Not found".to_owned(),
        }
    }
}

/// One room as the rooms listing reports it.
#[derive(Debug)]
pub struct RoomResponse {
    pub name: String,
    pub devices: Vec<String>,
}

/// The body of a request that creates a room.
#[derive(Debug)]
pub struct CreateRoomRequest {
    pub name: String,
}

/// The body of a request that creates a socket device.
#[derive(Debug)]
pub struct CreateDeviceRequest {
    pub name: String,
    pub description: String,
    pub power: u32,
}

/// A fixed provider for the report endpoint: it always lists the two
/// demonstration sockets.
#[derive(Debug)]
pub struct MockDeviceInfoProvider;

impl DeviceInfoProvider for MockDeviceInfoProvider {
    fn get_devices(&self) -> Vec<&str> {
        let mut v: Vec<&str> = Vec::new();
        v.push("Socket1");
        v.push("Socket2");
        v
    }
}

/// The pure part of the rooms listing: every room with its name and the
/// names of its devices, in registry order.
pub fn rooms_response(house: &House) -> (r: Vec<RoomResponse>)
    ensures
        r@.len() == house.rooms@.len(),
        forall|i: int|
            0 <= i < r@.len() ==> (#[trigger] r@[i]).name@ == house.rooms@[i].name@ && r@[i].devices@.len()
                == house.rooms@[i].devices@.len() && (forall|j: int|
                0 <= j < r@[i].devices@.len() ==> (#[trigger] r@[i].devices@[j])@
                    == house.rooms@[i].devices@[j].spec_name()),
{
    let n = house.rooms.len();
    let mut out: Vec<RoomResponse> = Vec::new();
    let mut i: usize = 0;
    while i < n
        invariant
            0 <= i <= n,
            n == house.rooms@.len(),
            out@.len() == i,
            forall|k: int|
                0 <= k < i ==> (#[trigger] out@[k]).name@ == house.rooms@[k].name@
                    && out@[k].devices@.len() == house.rooms@[k].devices@.len() && (forall|j: int|
                    0 <= j < out@[k].devices@.len() ==> (#[trigger] out@[k].devices@[j])@
                        == house.rooms@[k].devices@[j].spec_name()),
        decreases n - i,
    {
        let room = &house.rooms[i];
        out.push(RoomResponse { name: room.get_name().to_owned(), devices: room.device_names() });
        i = i + 1;
    }
    out
}

/// The pure part of the device listing: the device names of the room at
/// the given path, or `NotFound` when no room has that name.
pub fn room_device_names(house: &House, room_name: &str) -> (r: Result<Vec<String>, ApiError>)
    ensures
        match r {
            Ok(names) => exists|i: int|
                0 <= i < house.rooms@.len() && (#[trigger] house.rooms@[i]).name@ == room_name@
                    && names@.len() == house.rooms@[i].devices@.len() && (forall|j: int|
                    0 <= j < names@.len() ==> (#[trigger] names@[j])@
                        == house.rooms@[i].devices@[j].spec_name()),
            Err(e) => (e matches ApiError::NotFound) && !house.spec_has_room(room_name@),
        },
{
    let n = house.rooms.len();
    let mut i: usize = 0;
    while i < n
        invariant
            0 <= i <= n,
            n == house.rooms@.len(),
            forall|k: int| 0 <= k < i ==> (#[trigger] house.rooms@[k]).name@ != room_name@,
        decreases n - i,
    {
        if str_eq(house.rooms[i].get_name(), room_name) {
            return Ok(house.rooms[i].device_names());
        }
        i = i + 1;
    }
    Err(ApiError::NotFound)
}

} // verus!
