use luanti::auth;
use luanti::auth_db::{AuthDatabase, AuthDatabaseMemory};
use luanti::command_handler::CommandHandler;
use luanti::network_packet::NetworkPacket;
use luanti::opcodes::{ToClientCommand, ToServerCommand};
use luanti::session::{PeerAddress, Session, SessionPhase};
use luanti::wire::WireReader;
use luanti::auth_db::AuthEntry;
use luanti::opcodes::AuthMechanism;

fn cmd(op: ToServerCommand) -> NetworkPacket {
    NetworkPacket::new(op.to_u16(), 0)
}

fn op_of(payload: &NetworkPacket) -> ToClientCommand {
    ToClientCommand::from_u16(payload.command()).expect("unknown TOCLIENT opcode")
}

fn localhost(port: u16) -> PeerAddress {
    PeerAddress::V4 { ip: 0x7f00_0001, port }
}

fn init(name: &str) -> NetworkPacket {
    let mut init = cmd(ToServerCommand::Init);
    init.write_u8(29);
    init.write_u16(0);
    init.write_u16(37);
    init.write_u16(43);
    init.write_utf8(name);
    init
}

#[test]
fn auth_flow_full_handshake() {
    let mut handler = CommandHandler::new(37, 43, AuthDatabaseMemory::new());
    let mut session = Session::new(42, localhost(12345), 0);

    let responses = handler.handle_command(&mut session, &init("alice"), 0).unwrap();
    assert_eq!(responses.len(), 1, "INIT must produce exactly one response");
    let hello = &responses[0];
    assert_eq!(op_of(hello), ToClientCommand::Hello);
    assert_eq!(session.phase, SessionPhase::HelloSent);
    assert_eq!(session.player_name.as_deref(), Some("alice"));

    let encoded = auth::get_encoded_srp_verifier("alice", "hunter2").unwrap();
    let (verifier, salt) = {
        let mut v = Vec::new();
        let mut s = Vec::new();
        assert!(auth::decode_srp_verifier_and_salt(&encoded, &mut v, &mut s));
        (v, s)
    };
    let mut first_srp = cmd(ToServerCommand::FirstSrp);
    first_srp.write_string(&salt);
    first_srp.write_string(&verifier);
    first_srp.write_u8(0);
    let responses = handler.handle_command(&mut session, &first_srp, 0).unwrap();
    assert_eq!(responses.len(), 1, "FIRST_SRP must produce AUTH_ACCEPT");
    assert_eq!(op_of(&responses[0]), ToClientCommand::AuthAccept);

    let entry = handler.auth_db_mut().get_auth("alice").expect("player should be in DB");
    assert_eq!(entry.password, encoded);

    let init2 = cmd(ToServerCommand::Init2);
    let init_responses = handler.handle_command(&mut session, &init2, 0).unwrap();
    assert_eq!(
        session.phase,
        SessionPhase::DefinitionsSent,
        "session should be past media loading (C++ CS_DefinitionsSent)"
    );

    let opcodes: Vec<ToClientCommand> = init_responses.iter().map(|r| op_of(r)).collect();
    assert!(opcodes.contains(&ToClientCommand::ItemDef), "missing ItemDef: {:?}", opcodes);
    assert!(opcodes.contains(&ToClientCommand::NodeDef), "missing NodeDef: {:?}", opcodes);
    assert!(opcodes.contains(&ToClientCommand::AnnounceMedia), "missing AnnounceMedia: {:?}", opcodes);
    assert!(opcodes.contains(&ToClientCommand::TimeOfDay), "missing TimeOfDay: {:?}", opcodes);
    assert!(opcodes.contains(&ToClientCommand::CsmRestrictionFlags), "missing CSM: {:?}", opcodes);
    assert!(opcodes.contains(&ToClientCommand::Movement), "missing Movement: {:?}", opcodes);

    let mut req = cmd(ToServerCommand::RequestMedia);
    req.write_u16(0);
    let responses = handler.handle_command(&mut session, &req, 0).unwrap();
    assert_eq!(responses.len(), 1, "REQUEST_MEDIA should return one (empty) bunch");
    let media_pkt = &responses[0];
    assert_eq!(op_of(media_pkt), ToClientCommand::Media);
    let mut r = WireReader::new(media_pkt.as_slice());
    assert_eq!(r.read_u16().unwrap(), 1, "total_bunches");
    assert_eq!(r.read_u16().unwrap(), 0, "bunch_index");
    assert_eq!(r.read_u32().unwrap(), 0, "num_files");

    let mut have = cmd(ToServerCommand::HaveMedia);
    have.write_u8(0);
    let responses = handler.handle_command(&mut session, &have, 0).unwrap();
    assert!(responses.is_empty(), "HAVE_MEDIA has no response");

    let mut ready = cmd(ToServerCommand::ClientReady);
    ready.write_u8(5);
    ready.write_u8(9);
    ready.write_u8(0);
    ready.write_u8(0);
    ready.write_utf8("5.9.0");
    let responses = handler.handle_command(&mut session, &ready, 0).unwrap();
    assert!(responses.is_empty(), "CLIENT_READY has no response");
    assert_eq!(session.phase, SessionPhase::Active);
}

#[test]
fn auth_flow_init_rejects_invalid_name() {
    let mut handler = CommandHandler::new(37, 43, AuthDatabaseMemory::new());
    let mut session = Session::new(7, localhost(12346), 0);

    let responses = handler.handle_command(&mut session, &init("bad name"), 0).unwrap();
    assert_eq!(responses.len(), 1);
    assert_eq!(op_of(&responses[0]), ToClientCommand::AccessDenied);
}

#[test]
fn auth_flow_init_rejects_wrong_version() {
    let mut handler = CommandHandler::new(37, 43, AuthDatabaseMemory::new());
    let mut session = Session::new(8, localhost(12347), 0);

    let mut init = cmd(ToServerCommand::Init);
    init.write_u8(29);
    init.write_u16(0);
    init.write_u16(1);
    init.write_u16(5);
    init.write_utf8("bob");

    let responses = handler.handle_command(&mut session, &init, 0).unwrap();
    assert_eq!(responses.len(), 1);
    assert_eq!(op_of(&responses[0]), ToClientCommand::AccessDenied);
}

#[test]
fn request_media_accepted_before_init2() {
    let mut handler = CommandHandler::new(37, 43, AuthDatabaseMemory::new());
    let mut session = Session::new(9, localhost(12348), 0);

    let _ = handler.handle_command(&mut session, &init("carol"), 0).unwrap();

    let mut req = cmd(ToServerCommand::RequestMedia);
    req.write_u16(0);
    let responses = handler.handle_command(&mut session, &req, 0).unwrap();
    assert_eq!(responses.len(), 1);
    assert_eq!(op_of(&responses[0]), ToClientCommand::Media);
    let mut r = WireReader::new(responses[0].as_slice());
    assert_eq!(r.read_u16().unwrap(), 1, "total_bunches");
    assert_eq!(r.read_u16().unwrap(), 0, "bunch_index");
    assert_eq!(r.read_u32().unwrap(), 0, "num_files");
}

#[test]
fn auth_flow_srp_bytes_a_rejects_disallowed_mech() {
    let mut handler = CommandHandler::new(37, 43, AuthDatabaseMemory::new());
    let mut session = Session::new(10, localhost(12349), 0);

    let _ = handler.handle_command(&mut session, &init("dave"), 0).unwrap();

    let mut a = cmd(ToServerCommand::SrpBytesA);
    a.write_string(&vec![0u8; 256]);
    a.write_u8(0);
    let responses = handler.handle_command(&mut session, &a, 0).unwrap();
    assert_eq!(responses.len(), 1);
    assert_eq!(op_of(&responses[0]), ToClientCommand::AccessDenied);
}

#[test]
fn registered_player_is_offered_srp() {
    let mut db = AuthDatabaseMemory::new();
    let mut e = AuthEntry {
        id: 0,
        name: "erin".to_string(),
        password: auth::encode_srp_verifier(&[1u8; 256], &[2u8; 16]),
        privileges: vec![],
        last_login: 0,
    };
    db.create_auth(&mut e).unwrap();
    let mut handler = CommandHandler::new(37, 43, db);
    let mut session = Session::new(11, localhost(12350), 0);
    let responses = handler.handle_command(&mut session, &init("erin"), 0).unwrap();
    assert_eq!(op_of(&responses[0]), ToClientCommand::Hello);
    assert_eq!(session.allowed_auth_mechs, AuthMechanism::Srp.to_u32());
    let hello = responses[0].as_slice();
    assert_eq!(&hello[5..9], &AuthMechanism::Srp.to_u32().to_be_bytes());
}

#[test]
fn init_for_unknown_player_offers_first_srp() {
    let mut handler = CommandHandler::new(37, 43, AuthDatabaseMemory::new());
    let mut session = Session::new(42, localhost(12351), 0);
    let r = handler.handle_command(&mut session, &init("alice"), 0).unwrap();
    assert_eq!(r.len(), 1);
    assert_eq!(r[0].command(), 0x0002);
    assert_eq!(r[0].as_slice(), &[29, 0, 0, 0, 43, 0, 0, 0, 4, 0, 0]);
    assert_eq!(session.phase, SessionPhase::HelloSent);
    assert_eq!(session.player_name.as_deref(), Some("alice"));
    assert_eq!(session.protocol_version, Some(43));
    assert_eq!(session.allowed_auth_mechs, 4);
    assert!(session.enc_pwd.is_none());
}
