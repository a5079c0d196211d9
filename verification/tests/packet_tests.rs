use luanti::packet::{make_auto_split_packet, make_packet, make_reliable_packet, IncomingSplitPacket};
use luanti::protocol::{BASE_HEADER_SIZE, PROTOCOL_ID};

#[test]
fn test_make_packet() {
    let data = b"Hello, World!";
    let packet = make_packet(PROTOCOL_ID, 123, 0, data);

    assert_eq!(packet.len(), BASE_HEADER_SIZE + data.len());
    assert_eq!(&packet[0..4], &PROTOCOL_ID.to_be_bytes());
    assert_eq!(&packet[4..6], &123u16.to_be_bytes());
    assert_eq!(packet[6], 0);
    assert_eq!(&packet[7..], data);
}

#[test]
fn test_split_packet() {
    let mut split_seqnum = 0;
    let data = vec![0u8; 1000];
    let packets = make_auto_split_packet(&data, 400, &mut split_seqnum);

    assert_eq!(packets.len(), 3);
    assert_eq!(split_seqnum, 1);
}

#[test]
fn test_incoming_split_packet() {
    let mut incoming = IncomingSplitPacket::new(3, false);

    assert!(!incoming.is_complete());

    incoming.insert(0, vec![1, 2, 3]);
    assert!(!incoming.is_complete());

    incoming.insert(1, vec![4, 5, 6]);
    assert!(!incoming.is_complete());

    incoming.insert(2, vec![7, 8, 9]);
    assert!(incoming.is_complete());

    let reassembled = incoming.reassemble().unwrap();
    assert_eq!(reassembled, vec![1, 2, 3, 4, 5, 6, 7, 8, 9]);
}

#[test]
fn reliable_packet_layout() {
    let p = make_reliable_packet(&[9, 8], 0x1234);
    assert_eq!(p, vec![3, 0x12, 0x34, 9, 8]);
}

#[test]
fn split_chunks_carry_headers_and_reassemble() {
    let data: Vec<u8> = (0..10u8).collect();
    let mut seq = 7u16;
    let packets = make_auto_split_packet(&data, 4, &mut seq);
    assert_eq!(seq, 8);
    assert_eq!(packets.len(), 3);
    let mut incoming = IncomingSplitPacket::new(3, true);
    for (i, p) in packets.iter().enumerate() {
        assert_eq!(p[0], 2);
        assert_eq!(&p[1..3], &7u16.to_be_bytes());
        assert_eq!(&p[3..5], &3u16.to_be_bytes());
        assert_eq!(&p[5..7], &(i as u16).to_be_bytes());
        incoming.insert(i as u16, p[7..].to_vec());
    }
    assert_eq!(incoming.reassemble().unwrap(), data);
}

#[test]
fn small_payload_is_not_split() {
    let mut seq = 0u16;
    let packets = make_auto_split_packet(&[1, 2, 3], 400, &mut seq);
    assert_eq!(seq, 0);
    assert_eq!(packets, vec![vec![1, 1, 2, 3]]);
}

#[test]
fn reassemble_incomplete_is_none() {
    let mut incoming = IncomingSplitPacket::new(2, false);
    incoming.insert(1, vec![1]);
    assert!(incoming.reassemble().is_none());
}
