use smart_home::devices::smart_socket::SmartSocket;
use smart_home::errors::SmartHouseError;
use smart_home::house::House;
use smart_home::report_provider::DeviceInfoProvider;
use smart_home::return_code::exchange_outcome;
use smart_home::return_code::ReturnCode;
use smart_home::web::room_device_names;
use smart_home::web::rooms_response;
use smart_home::web::ApiError;
use smart_home::web::MockDeviceInfoProvider;

#[test]
fn api_error_statuses() {
    let e = ApiError::from(SmartHouseError::RoomNotFoundError("Hall".to_string()));
    assert_eq!(e.status_code(), 400);
    assert_eq!(e.message(), "Smart house error: Room not found: Hall");

    let e = ApiError::NotFound;
    assert_eq!(e.status_code(), 404);
    assert_eq!(e.message(), "Not found");
}

#[test]
fn rooms_listing() {
    let mut house = House::new("House");
    house.add_room("Hall").unwrap();
    house
        .get_room_mut("Hall")
        .unwrap()
        .add_device(SmartSocket::new("Socket1", "hall socket", 10).into())
        .unwrap();

    let rooms = rooms_response(&house);
    assert_eq!(rooms.len(), 1);
    assert_eq!(rooms[0].name, "Hall");
    assert_eq!(rooms[0].devices, vec!["Socket1".to_string()]);
}

#[test]
fn device_listing_for_missing_room() {
    let house = House::new("House");
    let result = room_device_names(&house, "Hall");
    assert!(matches!(result, Err(ApiError::NotFound)));
}

#[test]
fn device_listing_for_existing_room() {
    let mut house = House::new("House");
    house.add_room("Hall").unwrap();
    house
        .get_room_mut("Hall")
        .unwrap()
        .add_device(SmartSocket::new("Socket1", "hall socket", 10).into())
        .unwrap();
    let names = room_device_names(&house, "Hall").unwrap();
    assert_eq!(names, vec!["Socket1".to_string()]);
}

#[test]
fn mock_provider_lists_both_sockets() {
    let devices = MockDeviceInfoProvider.get_devices();
    assert_eq!(devices, vec!["Socket1", "Socket2"]);
}

#[test]
fn exchange_outcome_table() {
    assert!(matches!(exchange_outcome(false, false, false), ReturnCode::ConnectionError));
    assert!(matches!(exchange_outcome(true, false, false), ReturnCode::ProtocolError));
    assert!(matches!(exchange_outcome(true, true, false), ReturnCode::ParseError));
    assert!(matches!(exchange_outcome(true, true, true), ReturnCode::Okay));
}

#[test]
fn return_code_bytes() {
    assert_eq!(ReturnCode::Okay.as_byte(), 0);
    assert_eq!(ReturnCode::ConnectionError.as_byte(), 1);
    assert_eq!(ReturnCode::ParseError.as_byte(), 2);
    assert_eq!(ReturnCode::ProtocolError.as_byte(), 3);
}
