use smart_home::devices::smart_socket::SmartSocket;
use smart_home::errors::SmartHouseError;
use smart_home::house::House;
use smart_home::report_provider::DeviceInfoProvider;
use smart_home::room::Room;

struct TestDeviceInfoProvider;

impl DeviceInfoProvider for TestDeviceInfoProvider {
    fn get_devices(&self) -> Vec<&str> {
        vec!["Socket"]
    }
}

#[test]
fn room_test_add_remove_device() {
    let mut room = Room::new("bedroom");

    let name = "socket near the bed";
    let socket = SmartSocket::new(name, "Smart socket", 1);
    room.add_device(socket.into()).unwrap();
    assert!(room.get_devices().len() == 1);

    room.remove_device(name).unwrap();
    assert!(room.get_devices().len() == 0);
}

#[test]
fn test_house() {
    let mut house = House::new("House");
    assert_eq!(house.get_name(), "House");

    house.add_room("Room1").unwrap();
    house.add_room("Room2").unwrap();

    assert_eq!(house.get_rooms().len(), 2);

    house.remove_room("Room1").unwrap();
    assert_eq!(house.get_rooms().len(), 1);

    house.add_room("Room1").unwrap();
    house.add_room("Room3").unwrap();

    let room = house.get_room_mut("Room1").unwrap();
    room.add_device(SmartSocket::new("Socket", "A smart socket", 100).into()).unwrap();

    let report = house.create_report(&TestDeviceInfoProvider);
    assert_eq!(
        report,
        "House: House\nRoom: Room1\n  Device: Socket\n    Description: A smart socket\nRoom: Room2\nRoom: Room3\n"
    );
}

#[test]
fn test_add_duplicate_room() {
    let mut house = House::new("House");
    house.add_room("Hall").unwrap();
    let result = house.add_room("Hall");
    assert!(matches!(result, Err(SmartHouseError::RoomAlreadyExistsError(n)) if n == "Hall"));
    assert_eq!(house.get_rooms().len(), 1);
}

#[test]
fn test_remove_missing_room() {
    let mut house = House::new("House");
    let result = house.remove_room("Hall");
    assert!(matches!(result, Err(SmartHouseError::RoomNotFoundError(n)) if n == "Hall"));
}

#[test]
fn test_add_duplicate_device() {
    let mut room = Room::new("bedroom");
    room.add_device(SmartSocket::new("Socket", "first", 1).into()).unwrap();
    let result = room.add_device(SmartSocket::new("Socket", "second", 2).into());
    assert!(matches!(result, Err(SmartHouseError::DeviceAlreadyExistsError(n)) if n == "Socket"));
    assert_eq!(room.get_devices().len(), 1);
}

#[test]
fn test_remove_missing_device() {
    let mut room = Room::new("bedroom");
    let result = room.remove_device("Socket");
    assert!(matches!(result, Err(SmartHouseError::DeviceNotFoundError(n)) if n == "Socket"));
}

#[test]
fn test_missing_room_lookup() {
    let mut house = House::new("House");
    house.add_room("Hall").unwrap();
    assert!(house.get_room_mut("Cellar").is_none());
}

#[test]
fn test_error_messages() {
    let e = SmartHouseError::RoomAlreadyExistsError("Hall".to_string());
    assert_eq!(e.message(), "Room already exists: Hall");
    let e = SmartHouseError::RoomNotFoundError("Hall".to_string());
    assert_eq!(e.message(), "Room not found: Hall");
    let e = SmartHouseError::DeviceAlreadyExistsError("Socket".to_string());
    assert_eq!(e.message(), "Device already exists: Socket");
    let e = SmartHouseError::DeviceNotFoundError("Socket".to_string());
    assert_eq!(e.message(), "Device not found: Socket");
}

#[test]
fn test_rooms_sorted_in_report() {
    let mut house = House::new("Sweet");
    house.add_room("kitchen").unwrap();
    house.add_room("attic").unwrap();
    house.add_room("bedroom").unwrap();
    let names: Vec<&str> = house.get_rooms().iter().map(|r| r.get_name()).collect();
    assert_eq!(names, vec!["attic", "bedroom", "kitchen"]);
}
