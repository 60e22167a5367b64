use smart_home::binary::serve_byte;
use smart_home::binary::serve_connection;
use smart_home::binary::Command;
use smart_home::binary::ExecCommand;
use smart_home::binary::Response;
use smart_home::devices::smart_socket::SmartSocket;
use smart_home::stream::ByteStream;

#[test]
fn test_exec_command_for_smart_socket() {
    let mut socket = SmartSocket::new("test", "test description", 0);

    assert!(matches!(socket.exec_command(Command::Status), Response::Disabled));

    assert!(matches!(socket.exec_command(Command::Switch), Response::Okay));
    assert!(matches!(socket.exec_command(Command::Status), Response::Enabled));

    assert!(matches!(socket.exec_command(Command::Switch), Response::Okay));
    assert!(matches!(socket.exec_command(Command::Status), Response::Disabled));

    assert!(matches!(socket.exec_command(Command::Unknown), Response::Error));
}

#[test]
fn test_client_server_interaction() {
    let mut device = SmartSocket::new("test_socket", "test description", 100);
    let mut stream = ByteStream::new(vec![1u8, 0, 1, 0, 1, 255]);
    serve_connection(&mut device, &mut stream);
    assert_eq!(stream.output, vec![2u8, 0, 1, 0, 2, 255]);
    assert!(!device.is_on());
}

#[test]
fn scenario_switch_then_status() {
    let mut device = SmartSocket::new("socket", "socket", 1);
    let mut stream = ByteStream::new(vec![0u8, 1]);
    serve_connection(&mut device, &mut stream);
    assert_eq!(stream.output, vec![0u8, 1]);
    assert!(device.is_on());
}

#[test]
fn test_serve_byte() {
    let mut device = SmartSocket::new("socket", "socket", 1);
    assert_eq!(serve_byte(&mut device, 1), 2);
    assert_eq!(serve_byte(&mut device, 0), 0);
    assert_eq!(serve_byte(&mut device, 1), 1);
    assert_eq!(serve_byte(&mut device, 9), 255);
}

#[test]
fn byte_vocabulary_round_trip() {
    assert!(matches!(Command::from(u8::from(Command::Switch)), Command::Switch));
    assert!(matches!(Command::from(u8::from(Command::Status)), Command::Status));
    assert!(matches!(Command::from(u8::from(Command::Unknown)), Command::Unknown));

    assert_eq!(u8::from(Response::from(0u8)), 0);
    assert_eq!(u8::from(Response::from(1u8)), 1);
    assert_eq!(u8::from(Response::from(2u8)), 2);
}

#[test]
fn unknown_bytes_decode_to_designated_members() {
    assert!(matches!(Command::from(7u8), Command::Unknown));
    assert!(matches!(Command::from(255u8), Command::Unknown));
    assert!(matches!(Response::from(7u8), Response::Error));
    assert!(matches!(Response::from(200u8), Response::Error));
}
