use vstd::prelude::*;
use vstd::string::StringExecFns;

verus! {

/// The errors that the house and room registries report.  Each variant
/// carries the name of the room or device that the operation was about.
#[derive(Debug)]
pub enum SmartHouseError {
    RoomAlreadyExistsError(String),
    RoomNotFoundError(String),
    DeviceAlreadyExistsError(String),
    DeviceNotFoundError(String),
}

impl SmartHouseError {
    /// The text that the error prints as, one line per variant.
    pub open spec fn spec_message(&self) -> Seq<char> {
        match self {
            SmartHouseError::RoomAlreadyExistsError(name) => "Room already exists: "@ + name@,
            SmartHouseError::RoomNotFoundError(name) => "Room not found: "@ + name@,
            SmartHouseError::DeviceAlreadyExistsError(name) => "Device already exists: "@ + name@,
            SmartHouseError::DeviceNotFoundError(name) => "Device not found: "@ + name@,
        }
    }

    /// Renders the error as text.
    pub fn message(&self) -> (r: String)
        ensures
            r@ == self.spec_message(),
    {
        match self {
            SmartHouseError::RoomAlreadyExistsError(name) => {
                let mut s = "Room already exists: ".to_owned();
                s.append(name.as_str());
                s
            },
            SmartHouseError::RoomNotFoundError(name) => {
                let mut s = "Room not found: ".to_owned();
                s.append(name.as_str());
                s
            },
            SmartHouseError::DeviceAlreadyExistsError(name) => {
                let mut s = "Device already exists: ".to_owned();
                s.append(name.as_str());
                s
            },
            SmartHouseError::DeviceNotFoundError(name) => {
                let mut s = "Device not found: ".to_owned();
                s.append(name.as_str());
                s
            },
        }
    }
}

} // verus!
