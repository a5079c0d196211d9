use luanti::opcodes::{AccessDeniedCode, InteractAction, ModChannelSignal, ToClientCommand, ToServerCommand, ToServerConnectionState};
use luanti::protocol::{seqnum_higher, seqnum_in_window, BaseHeader, ControlType, PacketType, PROTOCOL_ID, SEQNUM_INITIAL};
use luanti::session::{PeerAddress, Session, SessionManager, SessionPhase};

fn addr(port: u16) -> PeerAddress {
    PeerAddress::V4 { ip: 0x0a00_0001, port }
}

#[test]
fn seqnum_order_wraps() {
    assert!(seqnum_higher(5, 3));
    assert!(!seqnum_higher(3, 5));
    assert!(!seqnum_higher(7, 7));
    assert!(seqnum_higher(2, 65530));
    assert!(!seqnum_higher(65530, 2));
}

#[test]
fn seqnum_window_wraps() {
    assert!(seqnum_in_window(10, 10, 5));
    assert!(!seqnum_in_window(15, 10, 5));
    assert!(seqnum_in_window(1, 65534, 4));
    assert!(seqnum_in_window(65535, 65534, 4));
    assert!(!seqnum_in_window(2, 65534, 4));
}

#[test]
fn base_header_roundtrip() {
    let h = BaseHeader { protocol_id: PROTOCOL_ID, sender_peer_id: 0x0102, channel: 2 };
    let bytes = h.to_bytes();
    assert_eq!(bytes, vec![0x4f, 0x45, 0x74, 0x03, 0x01, 0x02, 0x02]);
    let back = BaseHeader::parse(&bytes).unwrap();
    assert_eq!(back.sender_peer_id, 0x0102);
    assert!(BaseHeader::parse(&bytes[..6]).is_err());
}

#[test]
fn packet_and_control_type_codes() {
    for v in 0u8..=3 {
        assert_eq!(PacketType::from_u8(v).unwrap().to_u8(), v);
        assert_eq!(ControlType::from_u8(v).unwrap().to_u8(), v);
    }
    assert!(PacketType::from_u8(4).is_none());
    assert!(ControlType::from_u8(200).is_none());
}

#[test]
fn opcode_tables_roundtrip() {
    let init = ToServerCommand::from_u16(0x02).unwrap();
    assert_eq!(init, ToServerCommand::Init);
    assert_eq!(init.name(), "TOSERVER_INIT");
    assert_eq!(init.required_state(), ToServerConnectionState::NotConnected);
    assert!(ToServerCommand::from_u16(0x01).is_none());
    let hello = ToClientCommand::from_u16(0x02).unwrap();
    assert_eq!(hello, ToClientCommand::Hello);
    assert_eq!(hello.name(), "TOCLIENT_HELLO");
    assert_eq!(hello.channel(), 0);
    assert!(hello.is_reliable());
    for raw in 0u16..=0xFF {
        if let Some(c) = ToClientCommand::from_u16(raw) {
            assert_eq!(c.to_u16(), raw);
        }
    }
    assert_eq!(InteractAction::from_u8(2).unwrap().to_u8(), 2);
    assert!(InteractAction::from_u8(200).is_none());
    assert_eq!(ModChannelSignal::from_u8(0).unwrap().to_u8(), 0);
    assert_eq!(AccessDeniedCode::WrongVersion.to_u8(), 3);
}

#[test]
fn session_counters_and_seqnums() {
    let mut s = Session::new(3, addr(1), 100);
    assert!(s.take_newly_created());
    assert!(!s.take_newly_created());
    assert_eq!(s.phase, SessionPhase::Created);
    s.on_packet_received(150);
    assert_eq!(s.packets_received, 1);
    assert_eq!(s.last_activity, 150);
    s.on_packet_sent();
    assert_eq!(s.packets_sent, 1);
    assert!(!s.is_timed_out(200, 100));
    assert!(s.is_timed_out(300, 100));
    assert!(!s.is_timed_out(10, 0));
    assert_eq!(s.get_next_outgoing_seqnum(), SEQNUM_INITIAL);
    s.next_outgoing_seqnum = 65535;
    assert_eq!(s.get_next_outgoing_seqnum(), 65535);
    assert_eq!(s.next_outgoing_seqnum, 0);
    s.pending_acks = vec![4, 9, 4];
    s.handle_ack(4);
    assert_eq!(s.pending_acks, vec![9, 4]);
    s.handle_ack(7);
    assert_eq!(s.pending_acks, vec![9, 4]);
    s.set_peer_id(12);
    assert_eq!(s.peer_id, 12);
    s.disconnect();
    assert!(!s.connected);
}

#[test]
fn phase_order() {
    assert!(SessionPhase::Created.rank() < SessionPhase::HelloSent.rank());
    assert!(SessionPhase::Active.is_active());
    assert!(!SessionPhase::HelloSent.is_active());
    assert!(SessionPhase::Active.has_reached_init_done());
    assert!(!SessionPhase::AwaitingInit2.has_reached_init_done());
}

#[test]
fn session_manager_allocates_and_reuses() {
    let mut m = SessionManager::new();
    let id = m.get_or_create_session(0, addr(1), 0).peer_id;
    assert_eq!(id, 2);
    assert_eq!(m.lookup_address(addr(1)), Some(2));
    assert_eq!(m.lookup_address(addr(9)), None);
    assert_eq!(m.get_or_create_session(0, addr(1), 5).peer_id, 2);
    let id2 = m.get_or_create_session(0, addr(2), 5).peer_id;
    assert_eq!(id2, 3);
    assert_eq!(m.get_or_create_session(7, addr(3), 5).peer_id, 7);
    assert_eq!(m.session_count(), 3);
    assert!(m.get_session(7).is_some());
    m.get_session_mut(7).unwrap().last_activity = 1_000_000;
    m.cleanup_timed_out_sessions(40_000);
    assert_eq!(m.session_count(), 1);
    assert!(m.get_session(7).is_some());
    // The timed-out session's address binding went with it.
    let fresh = m.get_or_create_session(0, addr(1), 40_000);
    assert_eq!(fresh.peer_id, 4);
    assert!(fresh.newly_created);
    m.remove_session(4);
    m.remove_session(7);
    assert_eq!(m.session_count(), 0);
    assert!(m.get_session(7).is_none());
}
