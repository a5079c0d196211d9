use luanti::auth_db::AuthDatabaseMemory;
use luanti::command_handler::CommandHandler;
use luanti::network_packet::NetworkPacket;
use luanti::opcodes::{InteractAction, ModChannelSignal, ToClientCommand, ToServerCommand};
use luanti::session::{PeerAddress, Session, SessionPhase};
use luanti::wire::WireReader;

fn make_active_session(handler: &mut CommandHandler<AuthDatabaseMemory>) -> (Session, PeerAddress) {
    let peer = PeerAddress::V4 { ip: 0x7f00_0001, port: 30000 };
    let mut session = Session::new(1, peer, 0);

    let mut init = NetworkPacket::new(ToServerCommand::Init.to_u16(), 0);
    init.write_u8(29);
    init.write_u16(0);
    init.write_u16(37);
    init.write_u16(43);
    init.write_utf8("nrz");
    handler.handle_command(&mut session, &init, 0).expect("INIT must succeed");

    let mut first_srp = NetworkPacket::new(ToServerCommand::FirstSrp.to_u16(), 0);
    first_srp.write_string(b"salt-1234567890ab");
    first_srp.write_string(&vec![0xAAu8; 256]);
    first_srp.write_u8(0);
    handler.handle_command(&mut session, &first_srp, 0).expect("FIRST_SRP must succeed");

    let init2 = NetworkPacket::new(ToServerCommand::Init2.to_u16(), 0);
    let _ = handler.handle_command(&mut session, &init2, 0).expect("INIT2 must succeed");

    let mut ready = NetworkPacket::new(ToServerCommand::ClientReady.to_u16(), 0);
    ready.write_u8(5);
    ready.write_u8(9);
    ready.write_u8(0);
    ready.write_u8(0);
    ready.write_utf8("5.9.0");
    handler.handle_command(&mut session, &ready, 0).expect("CLIENT_READY must succeed");

    assert_eq!(session.phase, SessionPhase::Active);

    (session, peer)
}

fn make_handler() -> CommandHandler<AuthDatabaseMemory> {
    CommandHandler::new(37, 43, AuthDatabaseMemory::new())
}

#[test]
fn deleted_blocks_acked_without_response() {
    let mut handler = make_handler();
    let (mut session, _peer) = make_active_session(&mut handler);

    let mut p = NetworkPacket::new(ToServerCommand::DeletedBlocks.to_u16(), 0);
    p.write_u8(2);
    p.write_v3s16(1, 2, 3);
    p.write_v3s16(-4, 5, -6);

    let r = handler.handle_command(&mut session, &p, 0).unwrap();
    assert!(r.is_empty(), "DELETEDBLOCKS has no response in the C++ server either");
}

#[test]
fn damage_parses_u16_payload() {
    let mut handler = make_handler();
    let (mut session, _peer) = make_active_session(&mut handler);

    let mut p = NetworkPacket::new(ToServerCommand::Damage.to_u16(), 0);
    p.write_u16(7);
    let r = handler.handle_command(&mut session, &p, 0).unwrap();
    assert!(r.is_empty());
}

#[test]
fn damage_truncated_payload_errors() {
    let mut handler = make_handler();
    let (mut session, _peer) = make_active_session(&mut handler);

    let p = NetworkPacket::new(ToServerCommand::Damage.to_u16(), 0);
    assert!(handler.handle_command(&mut session, &p, 0).is_err());
}

#[test]
fn player_item_parses_u16_payload() {
    let mut handler = make_handler();
    let (mut session, _peer) = make_active_session(&mut handler);

    let mut p = NetworkPacket::new(ToServerCommand::PlayerItem.to_u16(), 0);
    p.write_u16(3);
    let r = handler.handle_command(&mut session, &p, 0).unwrap();
    assert!(r.is_empty());
}

#[test]
fn respawn_legacy_empty_payload() {
    let mut handler = make_handler();
    let (mut session, _peer) = make_active_session(&mut handler);

    let p = NetworkPacket::new(ToServerCommand::RespawnLegacy.to_u16(), 0);
    let r = handler.handle_command(&mut session, &p, 0).unwrap();
    assert!(r.is_empty());
}

fn write_player_pos(p: &mut NetworkPacket, x: i32, y: i32, z: i32) {
    p.write_v3s32(x, y, z);
    p.write_v3s32(0, 0, 0);
    p.write_i32(0);
    p.write_i32(0);
    p.write_u32(0);
    p.write_u8(80);
    p.write_u8(5);
}

#[test]
fn interact_digging_completed_at_node_consumes_payload() {
    let mut handler = make_handler();
    let (mut session, _peer) = make_active_session(&mut handler);

    let mut p = NetworkPacket::new(ToServerCommand::Interact.to_u16(), 0);
    p.write_u8(InteractAction::DiggingCompleted.to_u8());
    p.write_u16(0);

    let mut pt = Vec::new();
    pt.push(0u8);
    pt.push(1u8);
    pt.extend_from_slice(&1i16.to_be_bytes());
    pt.extend_from_slice(&2i16.to_be_bytes());
    pt.extend_from_slice(&3i16.to_be_bytes());
    pt.extend_from_slice(&1i16.to_be_bytes());
    pt.extend_from_slice(&3i16.to_be_bytes());
    pt.extend_from_slice(&3i16.to_be_bytes());

    p.write_u32(pt.len() as u32);
    p.put_raw(&pt);

    write_player_pos(&mut p, 100, 200, 300);

    let r = handler.handle_command(&mut session, &p, 0).unwrap();
    assert!(r.is_empty());
}

#[test]
fn interact_unknown_action_is_ignored() {
    let mut handler = make_handler();
    let (mut session, _peer) = make_active_session(&mut handler);

    let mut p = NetworkPacket::new(ToServerCommand::Interact.to_u16(), 0);
    p.write_u8(0xFE);
    p.write_u16(0);
    p.write_u32(0);
    write_player_pos(&mut p, 0, 0, 0);

    let r = handler.handle_command(&mut session, &p, 0).unwrap();
    assert!(r.is_empty());
}

#[test]
fn interact_truncated_payload_errors() {
    let mut handler = make_handler();
    let (mut session, _peer) = make_active_session(&mut handler);

    let p = NetworkPacket::new(ToServerCommand::Interact.to_u16(), 0);
    assert!(handler.handle_command(&mut session, &p, 0).is_err());
}

#[test]
fn removed_sounds_parses_count_then_i32s() {
    let mut handler = make_handler();
    let (mut session, _peer) = make_active_session(&mut handler);

    let mut p = NetworkPacket::new(ToServerCommand::RemovedSounds.to_u16(), 0);
    p.write_u16(2);
    p.write_i32(42);
    p.write_i32(-1);
    let r = handler.handle_command(&mut session, &p, 0).unwrap();
    assert!(r.is_empty());
}

#[test]
fn removed_sounds_empty_count_is_valid() {
    let mut handler = make_handler();
    let (mut session, _peer) = make_active_session(&mut handler);

    let mut p = NetworkPacket::new(ToServerCommand::RemovedSounds.to_u16(), 0);
    p.write_u16(0);
    let r = handler.handle_command(&mut session, &p, 0).unwrap();
    assert!(r.is_empty());
}

#[test]
fn nodemeta_fields_parses_pos_formname_and_field_pairs() {
    let mut handler = make_handler();
    let (mut session, _peer) = make_active_session(&mut handler);

    let mut p = NetworkPacket::new(ToServerCommand::NodeMetaFields.to_u16(), 0);
    p.write_v3s16(10, 20, 30);
    p.write_utf8("my_form");
    p.write_u16(1);
    p.write_utf8("key");
    p.write_long_string(b"value");

    let r = handler.handle_command(&mut session, &p, 0).unwrap();
    assert!(r.is_empty());
}

#[test]
fn nodemeta_fields_oversized_payload_is_rejected() {
    let mut handler = make_handler();
    let (mut session, _peer) = make_active_session(&mut handler);

    let mut p = NetworkPacket::new(ToServerCommand::NodeMetaFields.to_u16(), 0);
    p.write_v3s16(0, 0, 0);
    p.write_utf8("big");
    p.write_u16(1);
    p.write_utf8("k");
    p.write_long_string(&vec![0u8; 700 * 1024]);

    let r = handler.handle_command(&mut session, &p, 0).unwrap();
    assert!(r.is_empty());
}

#[test]
fn inventory_fields_parses_formname_and_field_pairs() {
    let mut handler = make_handler();
    let (mut session, _peer) = make_active_session(&mut handler);

    let mut p = NetworkPacket::new(ToServerCommand::InventoryFields.to_u16(), 0);
    p.write_utf8("");
    p.write_u16(2);
    p.write_utf8("quit");
    p.write_long_string(b"true");
    p.write_utf8("x");
    p.write_long_string(b"1");

    let r = handler.handle_command(&mut session, &p, 0).unwrap();
    assert!(r.is_empty());
}

#[test]
fn inventory_action_consumes_raw_blob() {
    let mut handler = make_handler();
    let (mut session, _peer) = make_active_session(&mut handler);

    let mut p = NetworkPacket::new(ToServerCommand::InventoryAction.to_u16(), 0);
    p.put_raw(b"Move 1 player:nrz\n main 0 player:nrz\n craftresult 1\n");

    let r = handler.handle_command(&mut session, &p, 0).unwrap();
    assert!(r.is_empty());
}

#[test]
fn modchannel_join_returns_join_failure_signal() {
    let mut handler = make_handler();
    let (mut session, _peer) = make_active_session(&mut handler);

    let mut p = NetworkPacket::new(ToServerCommand::ModChannelJoin.to_u16(), 0);
    p.write_utf8("mychan");

    let r = handler.handle_command(&mut session, &p, 0).unwrap();
    assert_eq!(r.len(), 1);
    assert_eq!(r[0].command(), ToClientCommand::ModChannelSignal.to_u16());
    assert_eq!(r[0].as_slice()[0], ModChannelSignal::JoinFailure.to_u8());
    let mut rd = WireReader::new(r[0].as_slice());
    rd.read_u8().unwrap();
    assert_eq!(rd.read_utf8().unwrap(), "mychan");
}

#[test]
fn modchannel_leave_returns_leave_ok_signal() {
    let mut handler = make_handler();
    let (mut session, _peer) = make_active_session(&mut handler);

    let mut p = NetworkPacket::new(ToServerCommand::ModChannelLeave.to_u16(), 0);
    p.write_utf8("mychan");

    let r = handler.handle_command(&mut session, &p, 0).unwrap();
    assert_eq!(r.len(), 1);
    assert_eq!(r[0].command(), ToClientCommand::ModChannelSignal.to_u16());
    assert_eq!(r[0].as_slice()[0], ModChannelSignal::LeaveOk.to_u8());
}

#[test]
fn modchannel_msg_silently_dropped() {
    let mut handler = make_handler();
    let (mut session, _peer) = make_active_session(&mut handler);

    let mut p = NetworkPacket::new(ToServerCommand::ModChannelMsg.to_u16(), 0);
    p.write_utf8("mychan");
    p.write_utf8("hello world");

    let r = handler.handle_command(&mut session, &p, 0).unwrap();
    assert!(r.is_empty());
}

#[test]
fn update_client_info_parses_full_payload() {
    let mut handler = make_handler();
    let (mut session, _peer) = make_active_session(&mut handler);

    let mut p = NetworkPacket::new(ToServerCommand::UpdateClientInfo.to_u16(), 0);
    p.write_i32(1920);
    p.write_i32(1080);
    p.write_u32(1.5f32.to_bits());
    p.write_u32(2.0f32.to_bits());
    p.write_i32(1920);
    p.write_i32(1080);
    p.write_u8(1);

    let r = handler.handle_command(&mut session, &p, 0).unwrap();
    assert!(r.is_empty());
}

#[test]
fn update_client_info_truncated_payload_is_silently_ignored() {
    let mut handler = make_handler();
    let (mut session, _peer) = make_active_session(&mut handler);

    let mut p = NetworkPacket::new(ToServerCommand::UpdateClientInfo.to_u16(), 0);
    p.write_i32(0);
    p.write_i32(0);
    p.write_u32(1.0f32.to_bits());
    p.write_u32(1.0f32.to_bits());

    let r = handler.handle_command(&mut session, &p, 0).unwrap();
    assert!(r.is_empty());
}

#[test]
fn chat_message_is_echoed_to_the_sender() {
    let mut handler = make_handler();
    let (mut session, _peer) = make_active_session(&mut handler);

    let mut p = NetworkPacket::new(ToServerCommand::ChatMessage.to_u16(), 0);
    p.write_wstring("hi");
    let r = handler.handle_command(&mut session, &p, 1_700_000_000).unwrap();
    assert_eq!(r.len(), 1);
    assert_eq!(r[0].command(), ToClientCommand::ChatMessage.to_u16());
    let body = r[0].as_slice();
    assert_eq!(&body[0..4], &[1, 0, 0, 3]);
    assert_eq!(&body[4..10], &[0, b'n', 0, b'r', 0, b'z']);
    assert_eq!(&body[10..16], &[0, 2, 0, b'h', 0, b'i']);
    assert_eq!(&body[16..], &1_700_000_000u64.to_be_bytes());
}
