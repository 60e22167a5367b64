use smart_home::devices::thermometer::SmartThermometer;
use smart_home::udp::protocol::receive_message;
use smart_home::udp::protocol::send_message;
use smart_home::udp::protocol::DatagramSocket;
use smart_home::udp::protocol::ProtocolError;
use smart_home::udp::thermometer::ThermometerSocketServer;

#[test]
fn send_receive_message_test() {
    let mut sender = DatagramSocket::new(vec![]);
    send_message(&mut sender, "hello").expect("Could not send message");

    let mut receiver = DatagramSocket::new(sender.outgoing);
    let message = receive_message(&mut receiver).expect("Invalid message");
    assert_eq!(message, "hello");
}

#[test]
fn scenario_hello_framing() {
    let mut sender = DatagramSocket::new(vec![]);
    let sent = send_message(&mut sender, "hello").expect("Could not send message");
    assert_eq!(sent, 5);
    assert_eq!(sender.outgoing.len(), 2);
    assert_eq!(sender.outgoing[0], vec![5u8, 0, 0, 0]);
    assert_eq!(sender.outgoing[1], b"hello".to_vec());
}

#[test]
fn send_message_too_large_test() {
    let mut sender = DatagramSocket::new(vec![]);
    let large_message = "a".repeat(65504);
    let result = send_message(&mut sender, &large_message);
    assert!(matches!(result, Err(ProtocolError::InvalidMessage(_))));
    assert!(sender.outgoing.is_empty());
}

#[test]
fn send_message_at_the_bound() {
    let mut sender = DatagramSocket::new(vec![]);
    let message = "a".repeat(65503);
    let sent = send_message(&mut sender, &message).expect("a payload at the bound is accepted");
    assert_eq!(sent, 65503);
    assert_eq!(sender.outgoing.len(), 2);
}

#[test]
fn receive_message_invalid_length_test() {
    let invalid_length = u32::to_le_bytes(65504);
    let mut receiver = DatagramSocket::new(vec![invalid_length.to_vec()]);
    let result = receive_message(&mut receiver);
    assert!(matches!(result, Err(ProtocolError::InvalidMessage(_))));
}

#[test]
fn receive_message_without_traffic() {
    let mut receiver = DatagramSocket::new(vec![]);
    let result = receive_message(&mut receiver);
    assert!(matches!(result, Err(ProtocolError::InvalidMessage(_))));
}

#[test]
fn receive_message_missing_payload() {
    let mut receiver = DatagramSocket::new(vec![vec![5u8, 0, 0, 0]]);
    let result = receive_message(&mut receiver);
    assert!(matches!(result, Err(ProtocolError::InvalidMessage(_))));
}

#[test]
fn receive_message_rejects_bad_encoding() {
    let mut receiver = DatagramSocket::new(vec![vec![2u8, 0, 0, 0], vec![0xFF, 0xFE]]);
    let result = receive_message(&mut receiver);
    assert!(matches!(result, Err(ProtocolError::InvalidMessage(_))));
}

#[test]
fn scenario_successive_samples() {
    let mut server = ThermometerSocketServer::new(SmartThermometer::new(
        "Thermometer",
        "A smart thermometer",
    ));
    for &v in &[20.1f32, 20.3, 19.9] {
        server.record_sample(Some(v.to_bits()));
        assert_eq!(f32::from_bits(server.get_temperature()), v);
    }
    server.record_sample(None);
    assert_eq!(f32::from_bits(server.get_temperature()), 19.9);
}

#[test]
fn thermometer_server_keeps_its_device() {
    let server = ThermometerSocketServer::new(SmartThermometer::new(
        "Thermometer",
        "A smart thermometer",
    ));
    let device = server.get_device();
    assert_eq!(device.name, "Thermometer");
    assert_eq!(device.description, "A smart thermometer");
}
