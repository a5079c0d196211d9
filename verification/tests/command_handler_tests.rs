use luanti::auth_db::AuthDatabaseMemory;
use luanti::command_handler::{handler_state, CommandHandler};
use luanti::network_packet::NetworkPacket;
use luanti::opcodes::{AuthMechanism, ToServerCommand};
use luanti::session::{PeerAddress, Session, SessionPhase};
use luanti::auth::encode_srp_verifier;
use luanti::auth_db::AuthDatabase;
use luanti::opcodes::AccessDeniedCode;

fn pkt(command: u16, payload: &[u8]) -> NetworkPacket {
    let mut p = NetworkPacket::new(command, payload.len());
    for b in payload {
        p.write_u8(*b);
    }
    p
}

fn local() -> PeerAddress {
    PeerAddress::V4 { ip: 0x7f00_0001, port: 0 }
}

fn handler() -> CommandHandler<AuthDatabaseMemory> {
    CommandHandler::new(40, 42, AuthDatabaseMemory::new())
}

fn init_packet(name: &str) -> NetworkPacket {
    let mut p = NetworkPacket::new(0x0002, 0);
    p.write_u8(29);
    p.write_u16(0);
    p.write_u16(40);
    p.write_u16(42);
    p.write_utf8(name);
    p
}

fn first_srp_packet() -> NetworkPacket {
    let mut p = NetworkPacket::new(0x0050, 0);
    p.write_string(b"salt");
    p.write_string(b"verifier");
    p.write_u8(0);
    p
}

fn client_ready_packet() -> NetworkPacket {
    let mut p = NetworkPacket::new(0x0043, 0);
    p.write_u8(5);
    p.write_u8(8);
    p.write_u8(0);
    p.write_u8(0);
    p.write_utf8("5.8.0");
    p
}

#[test]
fn command_handler_init_rejects_wrong_version() {
    let mut session = Session::new(2, local(), 0);
    let mut h = handler();

    let mut p = NetworkPacket::new(0x0002, 0);
    p.write_u8(29);
    p.write_u16(0);
    p.write_u16(10);
    p.write_u16(20);
    p.write_utf8("x");

    let responses = h.handle_command(&mut session, &p, 0).unwrap();
    assert_eq!(responses.len(), 1);
    assert_eq!(responses[0].command(), 0x0A);
}

#[test]
fn command_handler_init_rejects_invalid_name() {
    let mut session = Session::new(2, local(), 0);
    let mut h = handler();

    let mut p = NetworkPacket::new(0x0002, 0);
    p.write_u8(29);
    p.write_u16(0);
    p.write_u16(40);
    p.write_u16(42);
    p.write_utf8("x x");

    let responses = h.handle_command(&mut session, &p, 0).unwrap();
    assert_eq!(responses.len(), 1);
    assert_eq!(responses[0].command(), 0x0A);
}

#[test]
fn media_commands_rejected_before_init2() {
    let mut session = Session::new(2, local(), 0);
    let mut h = handler();

    let p = pkt(0x0040, &[0x00, 0x00]);
    let responses = h.handle_command(&mut session, &p, 0).unwrap();
    assert_eq!(responses.len(), 1);
    assert_eq!(responses[0].command(), 0x0038);
}

#[test]
fn command_handler_srp_bytes_a_rejects_disallowed_mech() {
    let mut session = Session::new(2, local(), 0);
    session.player_name = Some("nrz".to_string());
    session.enc_pwd = Some("#1#fake".to_string());
    session.allowed_auth_mechs = AuthMechanism::LegacyPassword.to_u32();

    let mut h = handler();

    let mut p = NetworkPacket::new(0x0051, 0);
    p.write_string(b"some-bytes");
    p.write_u8(1);

    let responses = h.handle_command(&mut session, &p, 0).unwrap();
    assert_eq!(responses.len(), 1);
    assert_eq!(responses[0].command(), 0x0A);
}

#[test]
fn command_handler_full_handshake() {
    let mut session = Session::new(2, local(), 0);
    let mut h = handler();

    let r = h.handle_command(&mut session, &init_packet("nrz"), 0).unwrap();
    assert_eq!(r.len(), 1);
    assert_eq!(r[0].command(), 0x0002);
    assert_eq!(session.phase, SessionPhase::HelloSent);

    let r = h.handle_command(&mut session, &first_srp_packet(), 0).unwrap();
    assert_eq!(r.len(), 1);
    assert_eq!(r[0].command(), 0x0003);

    let p = NetworkPacket::new(0x0011, 0);
    let r = h.handle_command(&mut session, &p, 0).unwrap();
    assert_eq!(r.len(), 6);
    assert_eq!(r[0].command(), 0x003D);
    assert_eq!(r[1].command(), 0x003A);
    assert_eq!(r[2].command(), 0x003C);
    assert_eq!(r[3].command(), 0x0045);
    assert_eq!(r[4].command(), 0x0029);
    assert_eq!(r[5].command(), 0x002A);
    assert_eq!(session.phase, SessionPhase::DefinitionsSent);

    let r2 = h.handle_command(&mut session, &NetworkPacket::new(0x0011, 0), 0).unwrap();
    assert!(r2.is_empty(), "INIT2 must be dropped in MediaLoading");

    let r = h.handle_command(&mut session, &client_ready_packet(), 0).unwrap();
    assert!(r.is_empty());
    assert_eq!(session.phase, SessionPhase::Active);
}

#[test]
fn handshake_retransmits_are_accepted_at_any_phase() {
    let mut session = Session::new(2, local(), 0);
    let mut h = handler();

    h.handle_command(&mut session, &init_packet("nrz"), 0).unwrap();
    h.handle_command(&mut session, &first_srp_packet(), 0).unwrap();
    h.handle_command(&mut session, &NetworkPacket::new(0x0011, 0), 0).unwrap();
    h.handle_command(&mut session, &client_ready_packet(), 0).unwrap();
    assert_eq!(session.phase, SessionPhase::Active);

    let mut p = NetworkPacket::new(0x0051, 0);
    p.write_string(&vec![0u8; 256]);
    p.write_u8(1);
    let r = h.handle_command(&mut session, &p, 0).unwrap();
    assert!(!r.is_empty(), "SRP_BYTES_A must be re-accepted");

    let r = h.handle_command(&mut session, &NetworkPacket::new(0x0011, 0), 0).unwrap();
    assert!(r.is_empty(), "INIT2 must NOT be re-processed in Active phase");

    let r = h.handle_command(&mut session, &client_ready_packet(), 0).unwrap();
    assert!(r.is_empty(), "CLIENT_READY is ack-only");
}

#[test]
fn ingame_commands_dropped_before_active() {
    let mut session = Session::new(2, local(), 0);
    let mut h = handler();

    h.handle_command(&mut session, &init_packet("nrz"), 0).unwrap();
    h.handle_command(&mut session, &first_srp_packet(), 0).unwrap();
    h.handle_command(&mut session, &NetworkPacket::new(0x0011, 0), 0).unwrap();
    assert_eq!(session.phase, SessionPhase::DefinitionsSent);

    let mut p = NetworkPacket::new(0x0041, 0);
    p.write_u8(0);
    let r = h.handle_command(&mut session, &p, 0).unwrap();
    assert!(r.is_empty(), "HAVE_MEDIA must be dropped pre-Active");
}

#[test]
fn handler_table_state_matches_cpp_to_server_command_table() {
    let mut seen = 0;
    for raw in 0u16..=u16::MAX {
        if let Some(cmd) = ToServerCommand::from_u16(raw) {
            seen += 1;
            assert_eq!(cmd.to_u16(), raw);
            assert_eq!(
                handler_state(cmd),
                cmd.required_state(),
                "handler table state mismatch for {:?} (0x{:04x})",
                cmd,
                raw
            );
        }
    }
    assert!(seen > 0);
}

#[test]
fn modchannel_accepted_in_awaiting_init2_rejected_before() {
    let mut session = Session::new(2, local(), 0);
    let mut h = handler();

    h.handle_command(&mut session, &init_packet("nrz"), 0).unwrap();
    h.handle_command(&mut session, &first_srp_packet(), 0).unwrap();
    assert_eq!(session.phase, SessionPhase::AwaitingInit2);

    let mut p = NetworkPacket::new(0x0017, 0);
    p.write_utf8("chan");
    let r = h.handle_command(&mut session, &p, 0).unwrap();
    assert!(r.is_empty(), "MODCHANNEL_JOIN must be dropped in AwaitingInit2");
}

#[test]
fn unknown_command_answers_nothing() {
    let mut session = Session::new(2, local(), 0);
    let mut h = handler();
    let r = h.handle_command(&mut session, &pkt(0x7777, &[1, 2]), 0).unwrap();
    assert!(r.is_empty());
    assert_eq!(session.phase, SessionPhase::Created);
}

#[test]
fn first_srp_stores_the_new_player() {
    let mut session = Session::new(2, local(), 0);
    let mut h = handler();
    h.handle_command(&mut session, &init_packet("nrz"), 0).unwrap();
    h.handle_command(&mut session, &first_srp_packet(), 0).unwrap();
    let entry = h.auth_db_mut().get_auth("nrz").unwrap();
    assert_eq!(entry.name, "nrz");
    assert_eq!(entry.password, encode_srp_verifier(b"verifier", b"salt"));
    assert!(entry.privileges.is_empty());
    assert_eq!(entry.last_login, 0);
    assert_eq!(session.enc_pwd.as_deref(), Some(entry.password.as_str()));
    assert_eq!(session.phase, SessionPhase::AwaitingInit2);
}

#[test]
fn srp_bytes_m_wrong_proof_and_no_pending() {
    let mut session = Session::new(2, local(), 0);
    session.player_name = Some("nrz".to_string());
    session.enc_pwd = Some(encode_srp_verifier(&[5u8; 256], &[1u8; 16]));
    session.allowed_auth_mechs = AuthMechanism::Srp.to_u32();
    let mut h = handler();

    // No SRP_BYTES_A yet: M is unexpected.
    let mut p = NetworkPacket::new(0x0052, 0);
    p.write_string(&[0u8; 32]);
    let r = h.handle_command(&mut session, &p, 0).unwrap();
    assert_eq!(r.len(), 1);
    assert_eq!(r[0].command(), 0x0A);
    assert_eq!(r[0].as_slice()[0], AccessDeniedCode::UnexpectedData.to_u8());

    // With a pending exchange, a wrong proof is a wrong password.
    let mut a = NetworkPacket::new(0x0051, 0);
    a.write_string(&vec![3u8; 256]);
    a.write_u8(1);
    let r = h.handle_command(&mut session, &a, 0).unwrap();
    assert_eq!(r.len(), 1);
    assert_eq!(r[0].command(), 0x0060);
    assert_eq!(&r[0].as_slice()[0..18], &[&[0u8, 16][..], &[1u8; 16][..]].concat()[..]);
    assert_eq!(session.chosen_mech, AuthMechanism::Srp.to_u32());
    let r = h.handle_command(&mut session, &p, 0).unwrap();
    assert_eq!(r[0].command(), 0x0A);
    assert_eq!(r[0].as_slice()[0], AccessDeniedCode::WrongPassword.to_u8());

    // A short proof is unexpected data.
    h.handle_command(&mut session, &a, 0).unwrap();
    let mut short = NetworkPacket::new(0x0052, 0);
    short.write_string(&[0u8; 4]);
    let r = h.handle_command(&mut session, &short, 0).unwrap();
    assert_eq!(r[0].as_slice()[0], AccessDeniedCode::UnexpectedData.to_u8());
}

#[test]
fn first_srp_for_a_known_player_is_refused_and_keeps_the_entry() {
    let mut db = AuthDatabaseMemory::new();
    let mut e = luanti::auth_db::AuthEntry {
        id: 0,
        name: "nrz".to_string(),
        password: "old".to_string(),
        privileges: vec![],
        last_login: 0,
    };
    db.create_auth(&mut e).unwrap();
    let mut h = CommandHandler::new(40, 42, db);
    let mut session = Session::new(2, local(), 0);
    session.player_name = Some("nrz".to_string());
    session.allowed_auth_mechs = AuthMechanism::FirstSrp.to_u32();
    session.phase = SessionPhase::HelloSent;
    let r = h.handle_command(&mut session, &first_srp_packet(), 0).unwrap();
    assert_eq!(r[0].command(), 0x0A);
    assert_eq!(r[0].as_slice()[0], AccessDeniedCode::AlreadyConnected.to_u8());
    assert_eq!(h.auth_db_mut().get_auth("nrz").unwrap().password, "old");
    assert_eq!(session.phase, SessionPhase::HelloSent);
}
