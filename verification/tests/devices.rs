use smart_home::devices::device::Device;
use smart_home::devices::smart_socket::SmartSocket;
use smart_home::devices::temperature::sample_from_be_bytes;
use smart_home::devices::temperature::Temperature;
use smart_home::devices::thermometer::SmartThermometer;

#[test]
fn test_smart_socket() {
    let mut smart_socket = SmartSocket::new("Socket", "A smart socket", 100);
    assert_eq!(smart_socket.get_name(), "Socket");
    assert_eq!(smart_socket.get_description(), "A smart socket");
    assert_eq!(smart_socket.power_consumption(), 100);
    assert!(!smart_socket.is_on());

    smart_socket.turn_on();
    assert!(smart_socket.is_on());

    smart_socket.turn_off();
    assert!(!smart_socket.is_on());
}

#[test]
fn test_smart_thermometer() {
    let smart_thermometer = SmartThermometer::new("Thermometer", "A smart thermometer");
    assert_eq!(smart_thermometer.get_name(), "Thermometer");
    assert_eq!(smart_thermometer.get_description(), "A smart thermometer");
}

#[test]
fn test_switch_parity() {
    let mut socket = SmartSocket::new("Socket", "A smart socket", 1);
    for _ in 0..5 {
        socket.switch();
    }
    assert!(socket.is_on());

    let mut socket = SmartSocket::new("Socket", "A smart socket", 1);
    for _ in 0..4 {
        socket.switch();
    }
    assert!(!socket.is_on());
}

#[test]
fn test_temperature() {
    let mut temperature = Temperature::default();
    temperature.set(20.0f32.to_bits());
    assert_eq!(f32::from_bits(temperature.get()), 20.0);
}

#[test]
fn test_sample_from_be_bytes() {
    let v = 21.5f32;
    let bytes = v.to_be_bytes();
    assert_eq!(f32::from_bits(sample_from_be_bytes(&bytes)), v);
}

#[test]
fn test_apply_sample() {
    let mut temperature = Temperature::new();
    temperature.apply_sample(Some(19.25f32.to_bits()));
    assert_eq!(f32::from_bits(temperature.get()), 19.25);
    temperature.apply_sample(None);
    assert_eq!(f32::from_bits(temperature.get()), 19.25);
}
