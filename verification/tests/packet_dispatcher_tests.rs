use luanti::auth_db::AuthDatabaseMemory;
use luanti::command_handler::CommandHandler;
use luanti::frame::{build_control_ack, build_set_peer_id};
use luanti::packet_dispatcher::PacketDispatcher;
use luanti::protocol::{ControlType, PacketType, BASE_HEADER_SIZE, PROTOCOL_ID};
use luanti::session::PeerAddress;

fn dispatcher() -> PacketDispatcher<AuthDatabaseMemory> {
    PacketDispatcher::new(CommandHandler::new(37, 43, AuthDatabaseMemory::new()))
}

fn peer(port: u16) -> PeerAddress {
    PeerAddress::V4 { ip: 0x7f00_0001, port }
}

fn init_cmd() -> Vec<u8> {
    let mut init_cmd = Vec::new();
    init_cmd.extend_from_slice(&0x0002u16.to_be_bytes());
    init_cmd.push(29);
    init_cmd.extend_from_slice(&0u16.to_be_bytes());
    init_cmd.extend_from_slice(&37u16.to_be_bytes());
    init_cmd.extend_from_slice(&43u16.to_be_bytes());
    init_cmd.extend_from_slice(&3u16.to_be_bytes());
    init_cmd.extend_from_slice(b"nrz");
    init_cmd
}

fn reliable_datagram(sender: u16, seqnum: u16, command: &[u8]) -> Vec<u8> {
    let mut datagram = vec![0u8; BASE_HEADER_SIZE];
    datagram[0..4].copy_from_slice(&PROTOCOL_ID.to_be_bytes());
    datagram[4..6].copy_from_slice(&sender.to_be_bytes());
    datagram[6] = 1;
    datagram.push(PacketType::Reliable.to_u8());
    datagram.extend_from_slice(&seqnum.to_be_bytes());
    datagram.push(PacketType::Original.to_u8());
    datagram.extend_from_slice(command);
    datagram
}

#[test]
fn reliable_srp_bytes_a_after_init() {
    let mut d = dispatcher();
    let p = peer(55555);

    let responses = d.handle_datagram(&reliable_datagram(0, 0xFFFB, &init_cmd()), p, 0).unwrap();
    assert_eq!(responses.len(), 3);
    assert_eq!(responses[2][7], PacketType::Reliable.to_u8());
    assert_eq!(
        responses[2][10],
        PacketType::Original.to_u8(),
        "reliable response must include inner Original type byte for C++ client"
    );
    let cmd = u16::from_be_bytes([responses[2][11], responses[2][12]]);
    assert_eq!(cmd, 0x0002, "expected TOCLIENT_HELLO (0x0002)");

    let mut srp_cmd = Vec::new();
    srp_cmd.extend_from_slice(&0x0051u16.to_be_bytes());
    srp_cmd.extend_from_slice(&256u16.to_be_bytes());
    srp_cmd.extend_from_slice(&vec![0xAAu8; 256]);
    srp_cmd.push(0x01);

    let responses = d.handle_datagram(&reliable_datagram(0, 0xFFFC, &srp_cmd), p, 0).unwrap();
    assert_eq!(responses.len(), 2);
    assert_eq!(responses[0][7], PacketType::Control.to_u8());
    assert_eq!(responses[0][8], ControlType::Ack.to_u8());
    assert_eq!(responses[1][7], PacketType::Reliable.to_u8());
    assert_eq!(
        responses[1][10],
        PacketType::Original.to_u8(),
        "reliable response must include inner Original type byte for C++ client"
    );
    let cmd = u16::from_be_bytes([responses[1][11], responses[1][12]]);
    assert_eq!(cmd, 0x000A, "expected TOCLIENT_ACCESS_DENIED (0x000A)");
}

#[test]
fn first_srp_double_wrapped_is_recognised() {
    let mut d = dispatcher();
    let p = peer(55556);

    let _ = d.handle_datagram(&reliable_datagram(0, 0xFFFB, &init_cmd()), p, 0).unwrap();

    let salt = vec![0x42u8; 16];
    let verifier = vec![0xAAu8; 256];
    let mut first_srp = Vec::new();
    first_srp.extend_from_slice(&0x0050u16.to_be_bytes());
    first_srp.extend_from_slice(&(salt.len() as u16).to_be_bytes());
    first_srp.extend_from_slice(&salt);
    first_srp.extend_from_slice(&(verifier.len() as u16).to_be_bytes());
    first_srp.extend_from_slice(&verifier);
    first_srp.push(0);

    let responses = d.handle_datagram(&reliable_datagram(0, 0xFFFC, &first_srp), p, 0).unwrap();
    assert_eq!(responses.len(), 2, "expected ACK + AUTH_ACCEPT, got {} responses", responses.len());
    assert_eq!(responses[0][7], PacketType::Control.to_u8());
    assert_eq!(responses[0][8], ControlType::Ack.to_u8());
    assert_eq!(responses[1][7], PacketType::Reliable.to_u8());
    assert_eq!(
        responses[1][10],
        PacketType::Original.to_u8(),
        "reliable response must include inner Original type byte for C++ client"
    );
    let cmd = u16::from_be_bytes([responses[1][11], responses[1][12]]);
    assert_eq!(cmd, 0x0003, "expected TOCLIENT_AUTH_ACCEPT (0x0003), got 0x{:04x}", cmd);
    assert_eq!(
        responses[1].len(),
        7 + 1 + 2 + 1 + 2 + 12 + 8 + 4 + 4,
        "AUTH_ACCEPT response total wire size mismatch"
    );
}

#[test]
fn short_or_foreign_datagrams_are_dropped() {
    let mut d = dispatcher();
    assert!(d.handle_datagram(&[0u8; 6], peer(1), 0).unwrap().is_empty());
    let mut foreign = vec![0u8; 10];
    foreign[0..4].copy_from_slice(&0xDEADBEEFu32.to_be_bytes());
    assert!(d.handle_datagram(&foreign, peer(1), 0).unwrap().is_empty());
    assert_eq!(d.sessions().session_count(), 0);
}

#[test]
fn bare_header_from_new_peer_gets_its_peer_id() {
    let mut d = dispatcher();
    let mut probe = PROTOCOL_ID.to_be_bytes().to_vec();
    probe.extend_from_slice(&[0, 0, 0]);
    let responses = d.handle_datagram(&probe, peer(2), 0).unwrap();
    assert_eq!(responses.len(), 1);
    assert_eq!(responses[0][7], PacketType::Control.to_u8());
    assert_eq!(responses[0][8], ControlType::SetPeerId.to_u8());
    assert_eq!(&responses[0][9..11], &2u16.to_be_bytes());
    // The same address is recognised again and not re-announced.
    let responses = d.handle_datagram(&probe, peer(2), 5).unwrap();
    assert!(responses.is_empty());
    assert_eq!(d.sessions().session_count(), 1);
}

#[test]
fn ping_is_echoed_and_reliable_frames_are_acked() {
    let mut d = dispatcher();
    let mut ping = PROTOCOL_ID.to_be_bytes().to_vec();
    ping.extend_from_slice(&[0, 5, 0, PacketType::Control.to_u8(), ControlType::Ping.to_u8()]);
    let responses = d.handle_datagram(&ping, peer(3), 0).unwrap();
    assert_eq!(responses.len(), 2);
    assert_eq!(&responses[0][7..9], &[PacketType::Control.to_u8(), ControlType::SetPeerId.to_u8()]);
    assert_eq!(&responses[1][4..6], &1u16.to_be_bytes());
    assert_eq!(&responses[1][7..], &[PacketType::Control.to_u8(), ControlType::Ping.to_u8()]);

    // An unknown command in a reliable frame is still acknowledged.
    let responses = d.handle_datagram(&reliable_datagram(5, 0x1234, &[0x7f, 0x7f]), peer(3), 1).unwrap();
    assert_eq!(responses.len(), 1);
    assert_eq!(&responses[0][7..11], &[PacketType::Control.to_u8(), ControlType::Ack.to_u8(), 0x12, 0x34]);
}

#[test]
fn disconnect_marks_the_session() {
    let mut d = dispatcher();
    let mut disco = PROTOCOL_ID.to_be_bytes().to_vec();
    disco.extend_from_slice(&[0, 9, 0, PacketType::Control.to_u8(), ControlType::Disco.to_u8()]);
    let _ = d.handle_datagram(&disco, peer(4), 0).unwrap();
    let s = d.sessions().get_session(9).unwrap();
    assert!(!s.connected);
}

#[test]
fn first_datagram_gets_peer_id_two_then_ack_then_hello() {
    let mut d = dispatcher();
    let rs = d.handle_datagram(&reliable_datagram(0, 0xFFFB, &init_cmd()), peer(55557), 0).unwrap();
    assert_eq!(rs.len(), 3);
    assert_eq!(rs[0], build_set_peer_id(2));
    assert_eq!(rs[1], build_control_ack(0xFFFB));
    assert_eq!(rs[2][7], 3);
    assert_eq!(rs[2][10], 1);
    assert_eq!(u16::from_be_bytes([rs[2][11], rs[2][12]]), 0x0002);
}
