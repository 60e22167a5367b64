use smart_home::devices::smart_socket::SmartSocket;
use smart_home::stream::ByteStream;
use smart_home::tcp::client::receive_response;
use smart_home::tcp::client::send_command;
use smart_home::tcp::handshake::try_handshake;
use smart_home::tcp::handshake::ConnectError;
use smart_home::tcp::protocol::read_till_rn;
use smart_home::tcp::protocol::ProtocolCommand;
use smart_home::tcp::protocol::ProtocolError;
use smart_home::tcp::socket::SocketCommand;
use smart_home::tcp::socket::SocketServer;

#[test]
fn read_till_new_line_test() {
    let mut reader = ByteStream::new(b"hello\r\nworld\r\n".to_vec());
    let result = read_till_rn(&mut reader).expect("Failed to read");
    assert_eq!(result, "hello\r\n");
}

#[test]
fn read_till_rn_without_terminator() {
    let mut reader = ByteStream::new(b"hello".to_vec());
    let result = read_till_rn(&mut reader);
    assert!(matches!(result, Err(ProtocolError::InvalidResponse)));
}

#[test]
fn read_till_rn_rejects_bad_encoding() {
    let mut reader = ByteStream::new(vec![0xFF, 0x0D, 0x0A]);
    let result = read_till_rn(&mut reader);
    assert!(matches!(result, Err(ProtocolError::InvalidResponse)));
}

#[test]
fn test_send() {
    let mut stream = ByteStream::new(b"serv".to_vec());
    send_command(SocketCommand::Switch, &mut stream).expect("Failed to send command");
    assert_eq!(stream.output, b"clntswitch\r\n".to_vec());
}

#[test]
fn test_send_receive() {
    let mut stream = ByteStream::new(b"servswitch\r\n".to_vec());
    send_command(SocketCommand::Switch, &mut stream).expect("Failed to send command");
    let response = receive_response(&mut stream).expect("Failed to receive response");
    assert_eq!(response, "switch\r\n");
    assert_eq!(stream.output, b"clntswitch\r\n".to_vec());
}

#[test]
fn client_rejects_wrong_server_token() {
    let mut stream = ByteStream::new(b"sxrv".to_vec());
    let result = send_command(SocketCommand::Status, &mut stream);
    assert!(matches!(result, Err(ProtocolError::BadHandshake)));
    assert_eq!(stream.output, b"clnt".to_vec());
}

#[test]
fn server_accepts_good_token() {
    let mut stream = ByteStream::new(b"clnt".to_vec());
    try_handshake(&mut stream).expect("handshake should succeed");
    assert_eq!(stream.output, b"serv".to_vec());
}

#[test]
fn server_rejects_wrong_token_before_any_command() {
    let mut stream = ByteStream::new(b"clxtstatus\r\n".to_vec());
    let result = try_handshake(&mut stream);
    assert!(matches!(result, Err(ConnectError::BadHandshake)));
    assert!(stream.output.is_empty());
    assert_eq!(stream.read_pos, 4);
}

#[test]
fn server_reports_transport_fault_on_short_token() {
    let mut stream = ByteStream::new(b"cl".to_vec());
    let result = try_handshake(&mut stream);
    assert!(matches!(result, Err(ConnectError::Io)));
    assert!(stream.output.is_empty());
}

#[test]
fn scenario_status_switch_status() {
    let mut server = SocketServer::new(SmartSocket::new("socket", "socket", 1000));
    let mut stream = ByteStream::new(b"status\r\nswitch\r\nstatus\r\n".to_vec());

    server.handle(&mut stream).expect("status should be served");
    assert_eq!(stream.output, b"off\r\n".to_vec());

    server.handle(&mut stream).expect("switch should be served");
    assert_eq!(stream.output, b"off\r\nok\r\n".to_vec());

    server.handle(&mut stream).expect("status should be served");
    assert_eq!(stream.output, b"off\r\nok\r\non\r\n".to_vec());
}

#[test]
fn server_answers_unknown_command_line() {
    let mut server = SocketServer::new(SmartSocket::new("socket", "socket", 1));
    let mut stream = ByteStream::new(b"fly\r\n".to_vec());
    server.handle(&mut stream).expect("a vocabulary error is recoverable");
    assert_eq!(stream.output, b"Unknown command: fly\r\n".to_vec());
    assert!(!server.device.is_on());
}

#[test]
fn server_keeps_serving_after_unknown_command() {
    let mut server = SocketServer::new(SmartSocket::new("socket", "socket", 1));
    let mut stream = ByteStream::new(b"fly\r\nswitch\r\n".to_vec());
    server.handle(&mut stream).expect("a vocabulary error is recoverable");
    server.handle(&mut stream).expect("the switch is served");
    assert_eq!(stream.output, b"Unknown command: fly\r\nok\r\n".to_vec());
    assert!(server.device.is_on());
}

#[test]
fn connection_serves_only_after_good_token() {
    let mut server = SocketServer::new(SmartSocket::new("socket", "socket", 1));
    let mut stream = ByteStream::new(b"clntstatus\r\n".to_vec());
    server.serve_connection(&mut stream).expect("token and command are served");
    assert_eq!(stream.output, b"servoff\r\n".to_vec());
}

#[test]
fn connection_with_wrong_token_reads_no_command() {
    let mut server = SocketServer::new(SmartSocket::new("socket", "socket", 1));
    let mut stream = ByteStream::new(b"clxtswitch\r\n".to_vec());
    let result = server.serve_connection(&mut stream);
    assert!(matches!(result, Err(ConnectError::BadHandshake)));
    assert!(stream.output.is_empty());
    assert_eq!(stream.read_pos, 4);
    assert!(!server.device.is_on());
}

#[test]
fn connection_with_short_token_is_a_fault() {
    let mut server = SocketServer::new(SmartSocket::new("socket", "socket", 1));
    let mut stream = ByteStream::new(b"cl".to_vec());
    let result = server.serve_connection(&mut stream);
    assert!(matches!(result, Err(ConnectError::Io)));
    assert!(stream.output.is_empty());
}

#[test]
fn scenario_client_server_loopback() {
    let mut server = SocketServer::new(SmartSocket::new("socket", "socket", 1));

    // The client runs its half of the exchange against the server's
    // expected reply, producing the token and the command line.
    let mut client_out = ByteStream::new(b"serv".to_vec());
    send_command(SocketCommand::Status, &mut client_out).expect("client exchange");

    // The server consumes exactly what the client wrote.
    let mut server_stream = ByteStream::new(client_out.output);
    try_handshake(&mut server_stream).expect("server handshake");
    server.handle(&mut server_stream).expect("server exchange");

    // The server's output opens with its token, which the client already
    // consumed; the rest is the reply line.
    let mut client_in = ByteStream::new(server_stream.output[4..].to_vec());
    let response = receive_response(&mut client_in).expect("client receive");
    assert_eq!(response, "off\r\n");
}

#[test]
fn line_vocabulary_round_trip() {
    let switch_line = SocketCommand::Switch.to_string();
    assert_eq!(switch_line, "switch\r\n");
    assert!(matches!(SocketCommand::from_str(&switch_line), Ok(SocketCommand::Switch)));

    let status_line = SocketCommand::Status.to_string();
    assert_eq!(status_line, "status\r\n");
    assert!(matches!(SocketCommand::from_str(&status_line), Ok(SocketCommand::Status)));

    assert!(SocketCommand::from_str("warm\r\n").is_err());
}
