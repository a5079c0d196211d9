//! Datagram dispatch: a datagram's base header is checked, its session is
//! found or created, and the frame is handled by type (`Control`,
//! `Original`, `Split`, `Reliable`), giving the datagrams to send back.
//!
//! The current time is handed in by the caller, in milliseconds.

use vstd::prelude::*;
use crate::auth_db::AuthDatabase;
use crate::bytes::{u16_of, u32_of, push_slice};
use crate::command_handler::{views, CommandHandler, HandlerError};
use crate::frame::{build_base_header, build_control_ack, build_set_peer_id, control_frame, original_frame, reliable_frame, wrap_original, wrap_reliable};
use crate::network_packet::{raw_bytes, NetworkPacket, PacketView};
use crate::protocol::{control_type_code, header_bytes, packet_type_code, ControlType, PacketType, BASE_HEADER_SIZE, PEER_ID_INEXISTENT, PEER_ID_SERVER, PROTOCOL_ID};
use crate::session::{allocated_from, counter_after, is_fresh_session, next_peer_id_after, seqnum_after, without_first, PeerAddress, Session, SessionManager};

verus! {

/// The `n`-th sequence number after `s`.
pub open spec fn seqnum_plus(s: u16, n: nat) -> u16
    decreases n,
{
    if n == 0 { s } else { seqnum_after(seqnum_plus(s, (n - 1) as nat)) }
}

proof fn lemma_seqnum_plus_mod(s: u16, n: nat)
    ensures
        seqnum_plus(s, n) as int == (s + n) % 65536,
    decreases n,
{
    if n > 0 {
        lemma_seqnum_plus_mod(s, (n - 1) as nat);
        assert((s + n) % 65536 == ((s + (n - 1)) % 65536 + 1) % 65536) by (nonlinear_arith);
    }
}

/// Reliable answers to one peer carry consecutive sequence numbers: `n`
/// answers advance the session's next outgoing sequence number by `n`,
/// modulo 65536, and leave the rest of the session as it was. The first
/// datagram is the acknowledgement of `ack` (type `Control`, `Ack`, then
/// `ack` big-endian); the `k`-th answer datagram after it is `Reliable`
/// and carries in its bytes 8 and 9 the big-endian starting number plus
/// `k`, modulo 65536, so no two answers in a row share a number.
pub proof fn law_reliable_answers_number_consecutively(
    v: Vec<NetworkPacket>,
    s_cmd: Session,
    s1: Session,
    ack: u16,
    out: Seq<Seq<u8>>,
    k: int,
)
    requires
        answered(Ok(v), s_cmd, s1, true, ack, out),
    ensures
        s1.next_outgoing_seqnum == (s_cmd.next_outgoing_seqnum + v@.len()) % 65536,
        s1 == (Session { next_outgoing_seqnum: s1.next_outgoing_seqnum, ..s_cmd }),
        out.len() == v@.len() + 1,
        out[0].len() == 11 && out[0][7] == 0 && out[0][8] == 0 && out[0][9] * 256 + out[0][10] == ack,
        0 <= k < v@.len() ==> out[k + 1].len() >= 10
            && out[k + 1][7] == 3
            && out[k + 1][8] * 256 + out[k + 1][9] == (s_cmd.next_outgoing_seqnum + k) % 65536,
        0 <= k && k + 1 < v@.len() ==> out[k + 1].subrange(8, 10) != out[k + 2].subrange(8, 10),
{
    let first = s_cmd.next_outgoing_seqnum;
    lemma_seqnum_plus_mod(first, v@.len());
    let fr = framed(views(v@), true, first);
    assert(out == seq![control_frame(ControlType::Ack, ack)] + fr);
    assert(out[0] == control_frame(ControlType::Ack, ack));
    assert((ack / 256) as u8 * 256 + (ack % 256) as u8 == ack) by (nonlinear_arith);
    if 0 <= k < v@.len() {
        lemma_seqnum_plus_mod(first, k as nat);
        let q = seqnum_plus(first, k as nat);
        assert(out[k + 1] == fr[k]);
        assert(fr[k] == reliable_frame(q, seq![packet_type_code(PacketType::Original)] + raw_bytes(views(v@)[k].command, views(v@)[k].data)));
        assert(out[k + 1][8] == (q / 256) as u8);
        assert(out[k + 1][9] == (q % 256) as u8);
        assert((q / 256) as u8 * 256 + (q % 256) as u8 == q) by (nonlinear_arith)
            requires 0 <= q < 65536;
    }
    if 0 <= k && k + 1 < v@.len() {
        lemma_seqnum_plus_mod(first, k as nat);
        lemma_seqnum_plus_mod(first, (k + 1) as nat);
        let q0 = seqnum_plus(first, k as nat);
        let q1 = seqnum_plus(first, (k + 1) as nat);
        assert(q0 != q1) by (nonlinear_arith)
            requires q0 == (first + k) % 65536, q1 == (first + (k + 1)) % 65536;
        assert(out[k + 1] == fr[k]);
        assert(out[k + 2] == fr[k + 1]);
        if out[k + 1].subrange(8, 10) == out[k + 2].subrange(8, 10) {
            assert(out[k + 1].subrange(8, 10)[0] == out[k + 1][8]);
            assert(out[k + 1].subrange(8, 10)[1] == out[k + 1][9]);
            assert(out[k + 2].subrange(8, 10)[0] == out[k + 2][8]);
            assert(out[k + 2].subrange(8, 10)[1] == out[k + 2][9]);
            assert((q0 / 256) as u8 * 256 + (q0 % 256) as u8 == q0) by (nonlinear_arith)
                requires 0 <= q0 < 65536;
            assert((q1 / 256) as u8 * 256 + (q1 % 256) as u8 == q1) by (nonlinear_arith)
                requires 0 <= q1 < 65536;
        }
    }
}

/// Datagrams carrying the answers `v`: `Original` frames, or `Reliable`
/// frames (each holding an `Original` type byte then the command) with
/// sequence numbers counting up from `first`.
pub open spec fn framed(v: Seq<PacketView>, reliable: bool, first: u16) -> Seq<Seq<u8>> {
    Seq::new(v.len(), |i: int| if reliable {
        reliable_frame(seqnum_plus(first, i as nat), seq![packet_type_code(PacketType::Original)] + raw_bytes(v[i].command, v[i].data))
    } else {
        original_frame(raw_bytes(v[i].command, v[i].data))
    })
}

/// What a control frame body `data` does to a session and answers.
pub open spec fn control_post(s0: Session, s1: Session, data: Seq<u8>, out: Seq<Seq<u8>>) -> bool {
    if data.len() == 0 || data[0] > 3 {
        out.len() == 0 && s1 == s0
    } else if data[0] == control_type_code(ControlType::Ack) {
        out.len() == 0 && if data.len() < 3 {
            s1 == s0
        } else {
            s1 == (Session { pending_acks: s1.pending_acks, ..s0 })
                && s1.pending_acks@ == without_first(s0.pending_acks@, u16_of(data[1], data[2]))
        }
    } else if data[0] == control_type_code(ControlType::SetPeerId) {
        out.len() == 0 && if data.len() < 3 {
            s1 == s0
        } else {
            s1 == (Session { peer_id: u16_of(data[1], data[2]), ..s0 })
        }
    } else if data[0] == control_type_code(ControlType::Ping) {
        out == seq![header_bytes(PROTOCOL_ID, PEER_ID_SERVER, 0) + seq![packet_type_code(PacketType::Control)] + data]
            && s1 == s0
    } else {
        out.len() == 0 && s1 == (Session { connected: false, ..s0 })
    }
}

/// What a split frame body does: counts the packet when its header is
/// complete; reassembly is not done, so nothing is answered.
pub open spec fn split_post(s0: Session, s1: Session, data: Seq<u8>, now_ms: u64, out: Seq<Seq<u8>>) -> bool {
    &&& out.len() == 0
    &&& if data.len() < 6 {
        s1 == s0
    } else {
        s1 == (Session { last_activity: now_ms, packets_received: counter_after(s0.packets_received), ..s0 })
    }
}

/// The command packet in a frame body `data`, for a session with peer
/// id `peer_id`.
pub open spec fn command_packet(data: Seq<u8>, peer_id: u16) -> PacketView {
    PacketView { command: u16_of(data[0], data[1]), data: data.subrange(2, data.len() as int), read_pos: 0, peer_id }
}

/// Whether `out` and `s1` follow from the command handler's answer `r`
/// for a session left as `s_cmd`.
pub open spec fn answered(
    r: Result<Vec<NetworkPacket>, HandlerError>,
    s_cmd: Session,
    s1: Session,
    reliable: bool,
    ack: u16,
    out: Seq<Seq<u8>>,
) -> bool {
    match r {
        Ok(v) => {
            &&& out == (if reliable { seq![control_frame(ControlType::Ack, ack)] } else { Seq::empty() })
                + framed(views(v@), reliable, s_cmd.next_outgoing_seqnum)
            &&& s1 == (if reliable {
                Session { next_outgoing_seqnum: seqnum_plus(s_cmd.next_outgoing_seqnum, v@.len()), ..s_cmd }
            } else {
                s_cmd
            })
        },
        Err(_) => out.len() == 0 && s1 == s_cmd,
    }
}

impl<D: AuthDatabase> CommandHandler<D> {
    /// What a command frame body `data` does to this handler (becoming
    /// `new`) and a session, and answers; a reliable frame is acknowledged
    /// with `ack` and answered reliably.
    pub open spec fn frame_command_post(
        &self,
        new: &Self,
        s0: Session,
        s1: Session,
        data: Seq<u8>,
        reliable: bool,
        ack: u16,
        now_ms: u64,
        out: Seq<Seq<u8>>,
    ) -> bool {
        if data.len() < 2 {
            out.len() == 0 && s1 == s0 && *new == *self
        } else {
            let s_mid = Session { last_activity: now_ms, packets_received: counter_after(s0.packets_received), ..s0 };
            exists|s_cmd: Session, r: Result<Vec<NetworkPacket>, HandlerError>| {
                &&& #[trigger] self.command_post(new, s_mid, s_cmd, command_packet(data, s0.peer_id), now_ms / 1000, r)
                &&& answered(r, s_cmd, s1, reliable, ack, out)
            }
        }
    }

    /// What a reliable frame body `data` does to this handler and a
    /// session, and answers.
    pub open spec fn reliable_post(&self, new: &Self, s0: Session, s1: Session, data: Seq<u8>, now_ms: u64, out: Seq<Seq<u8>>) -> bool {
        if data.len() <= 2 {
            out.len() == 0 && s1 == s0 && *new == *self
        } else {
            let inner = data.subrange(3, data.len() as int);
            let t = data[2];
            if t == packet_type_code(PacketType::Control) {
                control_post(s0, s1, inner, out) && *new == *self
            } else if t == packet_type_code(PacketType::Original) {
                self.frame_command_post(new, s0, s1, inner, true, u16_of(data[0], data[1]), now_ms, out)
            } else if t == packet_type_code(PacketType::Split) {
                split_post(s0, s1, inner, now_ms, out) && *new == *self
            } else {
                out.len() == 0 && s1 == s0 && *new == *self
            }
        }
    }

    /// What a frame of type `t` with body `data` does to this handler and
    /// a session, and answers.
    pub open spec fn frame_post(&self, new: &Self, s0: Session, s1: Session, t: u8, data: Seq<u8>, now_ms: u64, out: Seq<Seq<u8>>) -> bool {
        if t == packet_type_code(PacketType::Control) {
            control_post(s0, s1, data, out) && *new == *self
        } else if t == packet_type_code(PacketType::Original) {
            self.frame_command_post(new, s0, s1, data, false, 0, now_ms, out)
        } else if t == packet_type_code(PacketType::Split) {
            split_post(s0, s1, data, now_ms, out) && *new == *self
        } else if t == packet_type_code(PacketType::Reliable) {
            self.reliable_post(new, s0, s1, data, now_ms, out)
        } else {
            out.len() == 0 && s1 == s0 && *new == *self
        }
    }
}

/// Handles a control frame body.
fn handle_control(session: &mut Session, data: &[u8]) -> (out: Vec<Vec<u8>>)
    ensures
        control_post(*old(session), *final(session), data@, out@.map_values(|v: Vec<u8>| v@)),
{
    let mut out: Vec<Vec<u8>> = Vec::new();
    assert(out@.map_values(|v: Vec<u8>| v@) =~= Seq::<Seq<u8>>::empty());
    if data.len() == 0 {
        return out;
    }
    match ControlType::from_u8(data[0]) {
        Some(ControlType::Ack) => {
            if data.len() < 3 {
                return out;
            }
            let seqnum = crate::bytes::get_u16(data, 1);
            session.handle_ack(seqnum);
            out
        },
        Some(ControlType::SetPeerId) => {
            if data.len() < 3 {
                return out;
            }
            let new_peer_id = crate::bytes::get_u16(data, 1);
            session.set_peer_id(new_peer_id);
            out
        },
        Some(ControlType::Ping) => {
            let mut response: Vec<u8> = Vec::new();
            let h = build_base_header(PEER_ID_SERVER, 0);
            push_slice(&mut response, &h);
            response.push(PacketType::Control.to_u8());
            push_slice(&mut response, data);
            assert(response@ =~= header_bytes(PROTOCOL_ID, PEER_ID_SERVER, 0) + seq![packet_type_code(PacketType::Control)] + data@);
            out.push(response);
            assert(out@.map_values(|v: Vec<u8>| v@) =~= seq![
                header_bytes(PROTOCOL_ID, PEER_ID_SERVER, 0) + seq![packet_type_code(PacketType::Control)] + data@]);
            out
        },
        Some(ControlType::Disco) => {
            session.disconnect();
            out
        },
        None => out,
    }
}

/// Handles a split frame body; reassembly is not done.
fn handle_split(session: &mut Session, data: &[u8], now_ms: u64) -> (out: Vec<Vec<u8>>)
    ensures
        split_post(*old(session), *final(session), data@, now_ms, out@.map_values(|v: Vec<u8>| v@)),
{
    let out: Vec<Vec<u8>> = Vec::new();
    assert(out@.map_values(|v: Vec<u8>| v@) =~= Seq::<Seq<u8>>::empty());
    if data.len() < 6 {
        return out;
    }
    session.on_packet_received(now_ms);
    out
}

/// Frames the answers `responses`, reliably (acknowledging `ack` first)
/// or not.
fn frame_responses(session: &mut Session, responses: &Vec<NetworkPacket>, reliable: bool, ack: u16) -> (out: Vec<Vec<u8>>)
    ensures
        answered(Ok::<Vec<NetworkPacket>, HandlerError>(*responses), *old(session), *final(session), reliable, ack,
            out@.map_values(|v: Vec<u8>| v@)),
{
    let ghost first = session.next_outgoing_seqnum;
    let ghost rv = views(responses@);
    let ghost s_cmd = *session;
    let mut out: Vec<Vec<u8>> = Vec::new();
    if reliable {
        out.push(build_control_ack(ack));
    }
    let ghost prefix = out@.map_values(|v: Vec<u8>| v@);
    assert(prefix == (if reliable { seq![control_frame(ControlType::Ack, ack)] } else { Seq::<Seq<u8>>::empty() }));
    let mut i: usize = 0;
    while i < responses.len()
        invariant
            rv == views(responses@),
            i <= responses@.len(),
            out@.map_values(|v: Vec<u8>| v@) == prefix + framed(rv, reliable, first).take(i as int),
            *session == (if reliable {
                Session { next_outgoing_seqnum: seqnum_plus(first, i as nat), ..s_cmd }
            } else {
                s_cmd
            }),
        decreases responses.len() - i,
    {
        let raw = responses[i].into_raw_bytes();
        let ghost before = out@.map_values(|v: Vec<u8>| v@);
        if reliable {
            let seq = session.get_next_outgoing_seqnum();
            let mut inner: Vec<u8> = Vec::new();
            inner.push(PacketType::Original.to_u8());
            push_slice(&mut inner, raw.as_slice());
            out.push(wrap_reliable(seq, inner.as_slice()));
        } else {
            out.push(wrap_original(raw.as_slice()));
        }
        proof {
            assert(framed(rv, reliable, first).take(i + 1) =~= framed(rv, reliable, first).take(i as int).push(
                framed(rv, reliable, first)[i as int]));
            assert(out@.map_values(|v: Vec<u8>| v@) =~= before.push(framed(rv, reliable, first)[i as int]));
        }
        i = i + 1;
    }
    assert(framed(rv, reliable, first).take(i as int) =~= framed(rv, reliable, first));
    out
}

/// Handles a command frame body: parses the command packet, counts it,
/// runs the command handler and frames its answers; a failed command
/// answers nothing.
fn handle_command_frame<D: AuthDatabase>(
    commands: &mut CommandHandler<D>,
    session: &mut Session,
    data: &[u8],
    reliable: bool,
    ack: u16,
    now_ms: u64,
) -> (out: Vec<Vec<u8>>)
    ensures
        old(commands).frame_command_post(&*final(commands), *old(session), *final(session), data@, reliable, ack, now_ms,
            out@.map_values(|v: Vec<u8>| v@)),
{
    let packet = match NetworkPacket::from_raw(data, session.peer_id) {
        Ok(p) => p,
        Err(_) => {
            let out: Vec<Vec<u8>> = Vec::new();
            assert(out@.map_values(|v: Vec<u8>| v@) =~= Seq::<Seq<u8>>::empty());
            return out;
        },
    };
    session.on_packet_received(now_ms);
    let ghost s_mid = *session;
    let ghost c0 = *commands;
    let result = commands.handle_command(session, &packet, now_ms / 1000);
    let ghost s_cmd = *session;
    match result {
        Ok(responses) => {
            let out = frame_responses(session, &responses, reliable, ack);
            proof {
                assert(c0.command_post(&*commands, s_mid, s_cmd, command_packet(data@, old(session).peer_id), now_ms / 1000,
                    Ok::<Vec<NetworkPacket>, HandlerError>(responses)));
            }
            out
        },
        Err(e) => {
            let out: Vec<Vec<u8>> = Vec::new();
            assert(out@.map_values(|v: Vec<u8>| v@) =~= Seq::<Seq<u8>>::empty());
            proof {
                assert(c0.command_post(&*commands, s_mid, s_cmd, command_packet(data@, old(session).peer_id), now_ms / 1000,
                    Err::<Vec<NetworkPacket>, HandlerError>(e)));
            }
            out
        },
    }
}

/// Handles a reliable frame body: the sequence number, then an inner frame
/// of type `Control`, `Original` or `Split`.
fn handle_reliable<D: AuthDatabase>(commands: &mut CommandHandler<D>, session: &mut Session, data: &[u8], now_ms: u64) -> (out: Vec<Vec<u8>>)
    ensures
        old(commands).reliable_post(&*final(commands), *old(session), *final(session), data@, now_ms, out@.map_values(|v: Vec<u8>| v@)),
{
    let empty: Vec<Vec<u8>> = Vec::new();
    assert(empty@.map_values(|v: Vec<u8>| v@) =~= Seq::<Seq<u8>>::empty());
    if data.len() <= 2 {
        return empty;
    }
    let seqnum = crate::bytes::get_u16(data, 0);
    let inner_type = data[2];
    let inner_payload = crate::bytes::copy_range(data, 3, data.len());
    match PacketType::from_u8(inner_type) {
        Some(PacketType::Control) => handle_control(session, inner_payload.as_slice()),
        Some(PacketType::Original) => handle_command_frame(commands, session, inner_payload.as_slice(), true, seqnum, now_ms),
        Some(PacketType::Split) => handle_split(session, inner_payload.as_slice(), now_ms),
        Some(PacketType::Reliable) => empty,
        None => empty,
    }
}

/// The bytes of each datagram in `v`.
pub open spec fn datagram_bytes(v: Seq<Vec<u8>>) -> Seq<Seq<u8>> {
    v.map_values(|x: Vec<u8>| x@)
}

/// What the part of a datagram `data` after its base header does to this
/// handler and a session, and answers: nothing for a bare header.
pub open spec fn after_header_post<D: AuthDatabase>(
    c0: CommandHandler<D>,
    c1: CommandHandler<D>,
    s0: Session,
    s1: Session,
    data: Seq<u8>,
    now_ms: u64,
    out: Seq<Seq<u8>>,
) -> bool {
    if data.len() <= BASE_HEADER_SIZE {
        out.len() == 0 && s1 == s0 && c1 == c0
    } else {
        c0.frame_post(&c1, s0, s1, data[7], data.subrange(8, data.len() as int), now_ms, out)
    }
}

/// Handles the frame that follows the base header of `data`.
fn handle_after_header<D: AuthDatabase>(commands: &mut CommandHandler<D>, session: &mut Session, data: &[u8], now_ms: u64) -> (out: Vec<Vec<u8>>)
    requires
        data@.len() >= BASE_HEADER_SIZE,
    ensures
        after_header_post(*old(commands), *final(commands), *old(session), *final(session), data@, now_ms,
            out@.map_values(|v: Vec<u8>| v@)),
{
    let empty: Vec<Vec<u8>> = Vec::new();
    assert(empty@.map_values(|v: Vec<u8>| v@) =~= Seq::<Seq<u8>>::empty());
    if data.len() == BASE_HEADER_SIZE {
        return empty;
    }
    let packet_type = data[BASE_HEADER_SIZE];
    let frame_payload = crate::bytes::copy_range(data, BASE_HEADER_SIZE + 1, data.len());
    match PacketType::from_u8(packet_type) {
        Some(PacketType::Control) => handle_control(session, frame_payload.as_slice()),
        Some(PacketType::Original) => handle_command_frame(commands, session, frame_payload.as_slice(), false, 0, now_ms),
        Some(PacketType::Split) => handle_split(session, frame_payload.as_slice(), now_ms),
        Some(PacketType::Reliable) => handle_reliable(commands, session, frame_payload.as_slice(), now_ms),
        None => empty,
    }
}

/// Server-side datagram dispatcher: the sessions and the command handler.
pub struct PacketDispatcher<D: AuthDatabase> {
    sessions: SessionManager,
    commands: CommandHandler<D>,
}

impl<D: AuthDatabase> PacketDispatcher<D> {
    pub closed spec fn session_table(&self) -> SessionManager {
        self.sessions
    }

    pub closed spec fn handler(&self) -> CommandHandler<D> {
        self.commands
    }

    /// One datagram `data` from `peer_addr` with a valid base header,
    /// handled at `now_ms`: it went to the session with id `id`, which was
    /// `s0` (looked up or created) and became `s1`; the frame answered
    /// `out`, and `answers` is what is sent back.
    pub open spec fn datagram_step(
        &self,
        new: &Self,
        data: Seq<u8>,
        peer_addr: PeerAddress,
        now_ms: u64,
        id: u16,
        s0: Session,
        s1: Session,
        out: Seq<Seq<u8>>,
        answers: Seq<Seq<u8>>,
    ) -> bool {
        let t0 = self.session_table();
        let t1 = new.session_table();
        let sender = u16_of(data[4], data[5]);
        &&& t1.sessions() == t0.sessions().insert(id, s1)
        &&& t1.timeout_ms() == t0.timeout_ms()
        &&& (sender != PEER_ID_INEXISTENT ==> id == sender)
        &&& (sender != PEER_ID_INEXISTENT && t0.sessions().contains_key(sender) ==> t1.addresses() == t0.addresses())
        &&& (sender != PEER_ID_INEXISTENT && !t0.sessions().contains_key(sender)
            ==> t1.addresses() == t0.addresses().insert(peer_addr, sender))
        &&& (sender == PEER_ID_INEXISTENT && t0.addresses().contains_key(peer_addr)
            ==> id == t0.addresses()[peer_addr] && t1.addresses() == t0.addresses())
        &&& (sender == PEER_ID_INEXISTENT && !t0.addresses().contains_key(peer_addr) ==> {
            &&& !t0.sessions().contains_key(id)
            &&& allocated_from(t0.sessions().dom(), t0.next_id(), id)
            &&& t1.next_id() == next_peer_id_after(id)
            &&& t1.addresses() == t0.addresses().insert(peer_addr, id)
        })
        &&& (!(sender == PEER_ID_INEXISTENT && !t0.addresses().contains_key(peer_addr)) ==> t1.next_id() == t0.next_id())
        &&& (t0.sessions().contains_key(id) ==> s0 == t0.sessions()[id])
        &&& (!t0.sessions().contains_key(id) ==> is_fresh_session(s0, id, peer_addr, now_ms))
        &&& after_header_post(self.handler(), new.handler(), Session { newly_created: false, ..s0 }, s1, data, now_ms, out)
        &&& answers == (if s0.newly_created {
            seq![control_frame(ControlType::SetPeerId, s1.peer_id)] + out
        } else {
            out
        })
    }

    pub fn new(commands: CommandHandler<D>) -> (d: Self)
        ensures
            d.session_table().wf(),
            d.session_table().next_id() == PEER_ID_SERVER + 1,
            d.session_table().sessions() == Map::<u16, Session>::empty(),
            d.session_table().addresses() == Map::<PeerAddress, u16>::empty(),
            d.handler() == commands,
    {
        PacketDispatcher { sessions: SessionManager::new(), commands }
    }

    /// The session manager.
    pub fn sessions(&self) -> (s: &SessionManager)
        ensures
            *s == self.session_table(),
    {
        &self.sessions
    }

    /// Mutable access to the session manager.
    pub fn sessions_mut(&mut self) -> (s: &mut SessionManager)
        ensures
            *s == old(self).session_table(),
            final(self).session_table() == *final(s),
            final(self).handler() == old(self).handler(),
    {
        &mut self.sessions
    }

    /// The command handler.
    pub fn commands(&self) -> (c: &CommandHandler<D>)
        ensures
            *c == self.handler(),
    {
        &self.commands
    }

    /// Mutable access to the command handler.
    pub fn commands_mut(&mut self) -> (c: &mut CommandHandler<D>)
        ensures
            *c == old(self).handler(),
            final(self).handler() == *final(c),
            final(self).session_table() == old(self).session_table(),
    {
        &mut self.commands
    }

    /// Processes one datagram from `peer_addr` at time `now_ms` and returns
    /// the datagrams to send back. A datagram shorter than a base header,
    /// or with another protocol id, is dropped; otherwise its session is
    /// found or created, the frame is handled, and a new session is first
    /// told its peer id.
    pub fn handle_datagram(&mut self, data: &[u8], peer_addr: PeerAddress, now_ms: u64) -> (r: Result<Vec<Vec<u8>>, HandlerError>)
        requires
            old(self).session_table().wf(),
            data@.len() >= BASE_HEADER_SIZE && u32_of(data@) == PROTOCOL_ID && u16_of(data@[4], data@[5]) == PEER_ID_INEXISTENT
                && !old(self).session_table().addresses().contains_key(peer_addr)
                ==> old(self).session_table().sessions().len() < 0xFFFE,
        ensures
            final(self).session_table().wf(),
            data@.len() < BASE_HEADER_SIZE || u32_of(data@) != PROTOCOL_ID ==> {
                &&& r matches Ok(v) && v@.len() == 0
                &&& *final(self) == *old(self)
            },
            data@.len() >= BASE_HEADER_SIZE && u32_of(data@) == PROTOCOL_ID ==> (r matches Ok(v)
                && exists|id: u16, s0: Session, s1: Session, out: Seq<Seq<u8>>|
                        #[trigger] old(self).datagram_step(&*final(self), data@, peer_addr, now_ms, id, s0, s1, out,
                        datagram_bytes(v@))),
    {
        let empty: Vec<Vec<u8>> = Vec::new();
        if data.len() < BASE_HEADER_SIZE {
            return Ok(empty);
        }
        let header = match crate::frame::parse_base_header(data) {
            Some(h) => h,
            None => return Ok(empty),
        };
        if header.protocol_id != PROTOCOL_ID {
            return Ok(empty);
        }
        let ghost t0 = self.sessions;
        let ghost c0 = self.commands;
        let ghost sender = header.sender_peer_id;
        let session = self.sessions.get_or_create_session(header.sender_peer_id, peer_addr, now_ms);
        let ghost s0 = *session;
        let was_newly_created = session.take_newly_created();
        let mut responses = handle_after_header(&mut self.commands, session, data, now_ms);
        let ghost out = responses@.map_values(|x: Vec<u8>| x@);
        let peer_id = session.peer_id;
        let ghost s1 = *session;
        if was_newly_created {
            responses.insert(0, build_set_peer_id(peer_id));
        }
        proof {
            let answers = datagram_bytes(responses@);
            if s0.newly_created {
                assert(answers =~= seq![control_frame(ControlType::SetPeerId, s1.peer_id)] + out);
            } else {
                assert(answers =~= out);
            }
        }
        proof {
            let id = if sender == PEER_ID_INEXISTENT && t0.addresses().contains_key(peer_addr) {
                t0.addresses()[peer_addr]
            } else if sender == PEER_ID_INEXISTENT {
                s0.peer_id
            } else {
                sender
            };
            assert(self.sessions.sessions() == t0.sessions().insert(id, s1));
            assert(after_header_post(c0, self.commands, Session { newly_created: false, ..s0 }, s1, data@, now_ms, out));
            assert(old(self).datagram_step(&*self, data@, peer_addr, now_ms, id, s0, s1, out, datagram_bytes(responses@)));
        }
        let r: Result<Vec<Vec<u8>>, HandlerError> = Ok(responses);
        assert(r->Ok_0@ == responses@);
        assert(exists|id: u16, s0: Session, s1: Session, out: Seq<Seq<u8>>|
                    #[trigger] old(self).datagram_step(&*self, data@, peer_addr, now_ms, id, s0, s1, out,
                        datagram_bytes(r->Ok_0@)));
        r
    }
}

/// Whenever a command carried by a reliable frame is answered at all, the
/// first datagram sent back acknowledges the frame's sequence number.
pub proof fn law_reliable_command_acked_first<D: AuthDatabase>(
    c0: CommandHandler<D>,
    c1: CommandHandler<D>,
    s0: Session,
    s1: Session,
    data: Seq<u8>,
    now_ms: u64,
    out: Seq<Seq<u8>>,
)
    requires
        c0.reliable_post(&c1, s0, s1, data, now_ms, out),
        data.len() > 2,
        data[2] == packet_type_code(PacketType::Original),
        out.len() > 0,
    ensures
        out[0] == control_frame(ControlType::Ack, u16_of(data[0], data[1])),
{
    let inner = data.subrange(3, data.len() as int);
    if inner.len() >= 2 {
        let s_mid = Session { last_activity: now_ms, packets_received: counter_after(s0.packets_received), ..s0 };
        let (s_cmd, r) = choose|s_cmd: Session, r: Result<Vec<NetworkPacket>, HandlerError>| {
            &&& #[trigger] c0.command_post(&c1, s_mid, s_cmd, command_packet(inner, s0.peer_id), now_ms / 1000, r)
            &&& answered(r, s_cmd, s1, true, u16_of(data[0], data[1]), out)
        };
        match r {
            Ok(v) => {
                assert(out[0] == (seq![control_frame(ControlType::Ack, u16_of(data[0], data[1]))]
                    + framed(views(v@), true, s_cmd.next_outgoing_seqnum))[0]);
            },
            Err(_) => {},
        }
    }
}

/// A datagram that opens a session is answered first with the
/// `SET_PEER_ID` control frame telling the peer the id it now has.
pub proof fn law_new_peer_told_its_id_first<D: AuthDatabase>(
    d0: PacketDispatcher<D>,
    d1: PacketDispatcher<D>,
    data: Seq<u8>,
    peer_addr: PeerAddress,
    now_ms: u64,
    id: u16,
    s0: Session,
    s1: Session,
    out: Seq<Seq<u8>>,
    answers: Seq<Seq<u8>>,
)
    requires
        d0.datagram_step(&d1, data, peer_addr, now_ms, id, s0, s1, out, answers),
        !d0.session_table().sessions().contains_key(id),
    ensures
        answers.len() == out.len() + 1,
        answers[0] == control_frame(ControlType::SetPeerId, s1.peer_id),
        d1.session_table().sessions()[id] == s1,
{
}

} // verus!
