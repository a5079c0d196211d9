//! Peer sessions: the handshake phase of each peer, its sequence
//! numbers and counters, and the table of sessions keyed by peer id.
//!
//! Time is a plain millisecond count that the caller reads from its
//! clock and hands in.

use vstd::prelude::*;
use std::collections::HashMap;
use std::collections::hash_map::Entry;
use crate::protocol::{PEER_ID_INEXISTENT, PEER_ID_SERVER, SEQNUM_INITIAL, SEQNUM_MAX};

verus! {

broadcast use vstd::std_specs::hash::group_hash_axioms;

/// Network address of a peer.
#[derive(Debug, Clone, Copy, PartialEq, Eq, Structural, Hash)]
pub enum PeerAddress {
    V4 { ip: u32, port: u16 },
    V6 { ip: u128, port: u16, flowinfo: u32, scope_id: u32 },
}

/// Progress of a client through the connection handshake.
///
/// ```text
/// Created → HelloSent → AwaitingInit2 → InitDone → DefinitionsSent
///                                                          ↓
///                                                       Active ↔ SudoMode
/// ```
#[derive(Debug, Clone, Copy, PartialEq, Eq, Structural)]
pub enum SessionPhase {
    /// Sentinel for an unused slot.
    Invalid,
    /// Peer is being torn down.
    Disconnecting,
    /// Access was denied.
    Denied,
    /// Session created, `TOSERVER_INIT` not yet received.
    Created,
    /// `TOSERVER_INIT` processed, `TOCLIENT_HELLO` sent.
    HelloSent,
    /// Auth negotiation done, waiting for `TOSERVER_INIT2`.
    AwaitingInit2,
    /// `TOSERVER_INIT2` processed, init data not yet fully sent.
    InitDone,
    /// Item and node definitions sent; the client may request media.
    DefinitionsSent,
    /// `TOSERVER_CLIENT_READY` received, fully in game.
    Active,
    /// Elevated privileges.
    SudoMode,
}

/// Position of a phase in the handshake order.
pub open spec fn phase_rank(p: SessionPhase) -> u8 {
    match p {
        SessionPhase::Invalid => 0,
        SessionPhase::Disconnecting => 1,
        SessionPhase::Denied => 2,
        SessionPhase::Created => 3,
        SessionPhase::HelloSent => 4,
        SessionPhase::AwaitingInit2 => 5,
        SessionPhase::InitDone => 6,
        SessionPhase::DefinitionsSent => 7,
        SessionPhase::Active => 8,
        SessionPhase::SudoMode => 9,
    }
}

/// Coarse view of a [`SessionPhase`].
#[derive(Debug, Clone, Copy, PartialEq, Eq, Structural)]
pub enum CoarsePhase {
    /// `Invalid`, `Disconnecting` or `Denied`.
    Invalid,
    /// `Created`, `HelloSent` or `AwaitingInit2`.
    Init,
    /// `InitDone` or `DefinitionsSent`.
    MediaLoading,
    /// `Active` or `SudoMode`.
    Active,
}

/// The coarse bucket of a phase.
pub open spec fn coarse_of(p: SessionPhase) -> CoarsePhase {
    if phase_rank(p) <= 2 {
        CoarsePhase::Invalid
    } else if phase_rank(p) <= 5 {
        CoarsePhase::Init
    } else if phase_rank(p) <= 7 {
        CoarsePhase::MediaLoading
    } else {
        CoarsePhase::Active
    }
}

impl SessionPhase {
    /// Position of this phase in the handshake order.
    pub fn rank(self) -> (r: u8)
        ensures
            r == phase_rank(self),
    {
        match self {
            SessionPhase::Invalid => 0,
            SessionPhase::Disconnecting => 1,
            SessionPhase::Denied => 2,
            SessionPhase::Created => 3,
            SessionPhase::HelloSent => 4,
            SessionPhase::AwaitingInit2 => 5,
            SessionPhase::InitDone => 6,
            SessionPhase::DefinitionsSent => 7,
            SessionPhase::Active => 8,
            SessionPhase::SudoMode => 9,
        }
    }

    /// `true` once the session has reached `InitDone`, the floor that
    /// `Startup` opcodes need.
    pub fn has_reached_init_done(self) -> (b: bool)
        ensures
            b == (phase_rank(self) >= phase_rank(SessionPhase::InitDone)),
    {
        self.rank() >= 6
    }

    /// `true` in `Active` or `SudoMode`.
    pub fn is_active(self) -> (b: bool)
        ensures
            b == (phase_rank(self) >= phase_rank(SessionPhase::Active)),
            b <==> (self == SessionPhase::Active || self == SessionPhase::SudoMode),
    {
        self.rank() >= 8
    }

    /// Coarse progress bucket of this phase.
    pub fn coarse(self) -> (c: CoarsePhase)
        ensures
            c == coarse_of(self),
    {
        match self {
            SessionPhase::Created | SessionPhase::HelloSent | SessionPhase::AwaitingInit2 => CoarsePhase::Init,
            SessionPhase::InitDone | SessionPhase::DefinitionsSent => CoarsePhase::MediaLoading,
            SessionPhase::Active | SessionPhase::SudoMode => CoarsePhase::Active,
            SessionPhase::Invalid | SessionPhase::Disconnecting | SessionPhase::Denied => CoarsePhase::Invalid,
        }
    }
}

/// Distinct phases have distinct ranks, so the handshake order is total.
pub proof fn law_phase_rank_injective(a: SessionPhase, b: SessionPhase)
    ensures
        phase_rank(a) == phase_rank(b) <==> a == b,
{
}

/// A connection session with a peer.
#[derive(Debug)]
pub struct Session {
    pub peer_id: u16,
    pub address: PeerAddress,
    pub connected: bool,
    /// Time of the last received packet, in milliseconds.
    pub last_activity: u64,
    pub packets_received: u64,
    pub packets_sent: u64,
    pub next_outgoing_seqnum: u16,
    pub next_incoming_seqnum: u16,
    pub pending_acks: Vec<u16>,
    pub protocol_version: Option<u16>,
    pub player_name: Option<String>,
    /// Encrypted password (`#1#...` SRP format or base64 legacy),
    /// set once `TOSERVER_INIT` is processed.
    pub enc_pwd: Option<String>,
    /// Auth mechanism chosen for the current authentication step.
    pub chosen_mech: u32,
    /// Whether to create the player on successful authentication.
    pub create_player_on_auth_success: bool,
    /// Mask of the auth mechanisms the server allows this session.
    pub allowed_auth_mechs: u32,
    /// Progress through the handshake.
    pub phase: SessionPhase,
    /// Set on creation; the next packet-processing turn tells the
    /// client its peer id and clears it.
    pub newly_created: bool,
}

/// Whether `s` is a fresh session for `peer_id` at `address` created at `now`.
pub open spec fn is_fresh_session(s: Session, peer_id: u16, address: PeerAddress, now: u64) -> bool {
    &&& s.peer_id == peer_id
    &&& s.address == address
    &&& s.connected
    &&& s.last_activity == now
    &&& s.packets_received == 0
    &&& s.packets_sent == 0
    &&& s.next_outgoing_seqnum == SEQNUM_INITIAL
    &&& s.next_incoming_seqnum == SEQNUM_INITIAL
    &&& s.pending_acks@ == Seq::<u16>::empty()
    &&& s.protocol_version is None
    &&& s.player_name is None
    &&& s.enc_pwd is None
    &&& s.chosen_mech == 0
    &&& !s.create_player_on_auth_success
    &&& s.allowed_auth_mechs == 0
    &&& s.phase == SessionPhase::Created
    &&& s.newly_created
}

/// Counter value after one more packet, wrapping to 0 after `u64::MAX`.
pub open spec fn counter_after(c: u64) -> u64 {
    if c == u64::MAX { 0 } else { (c + 1) as u64 }
}

/// Sequence number that follows `s`, wrapping after `SEQNUM_MAX`.
pub open spec fn seqnum_after(s: u16) -> u16 {
    if s == SEQNUM_MAX { 0 } else { (s + 1) as u16 }
}

/// `seqs` without its first occurrence of `v` (unchanged when absent).
pub open spec fn without_first(seqs: Seq<u16>, v: u16) -> Seq<u16> {
    if seqs.contains(v) {
        let i = choose|i: int| 0 <= i < seqs.len() && seqs[i] == v && forall|j: int| 0 <= j < i ==> seqs[j] != v;
        seqs.remove(i)
    } else {
        seqs
    }
}

impl Session {
    pub fn new(peer_id: u16, address: PeerAddress, now: u64) -> (s: Self)
        ensures
            is_fresh_session(s, peer_id, address, now),
    {
        Session {
            peer_id,
            address,
            connected: true,
            last_activity: now,
            packets_received: 0,
            packets_sent: 0,
            next_outgoing_seqnum: SEQNUM_INITIAL,
            next_incoming_seqnum: SEQNUM_INITIAL,
            pending_acks: Vec::new(),
            protocol_version: None,
            player_name: None,
            enc_pwd: None,
            chosen_mech: 0,
            create_player_on_auth_success: false,
            allowed_auth_mechs: 0,
            phase: SessionPhase::Created,
            newly_created: true,
        }
    }

    /// Whether the session was just created; clears the flag.
    pub fn take_newly_created(&mut self) -> (n: bool)
        ensures
            n == old(self).newly_created,
            *final(self) == (Session { newly_created: false, ..*old(self) }),
    {
        let n = self.newly_created;
        self.newly_created = false;
        n
    }

    /// Records a received packet at time `now`; the counter wraps.
    pub fn on_packet_received(&mut self, now: u64)
        ensures
            *final(self) == (Session {
                last_activity: now,
                packets_received: counter_after(old(self).packets_received),
                ..*old(self)
            }),
    {
        self.last_activity = now;
        self.packets_received = self.packets_received.wrapping_add(1);
    }

    /// Records a sent packet; the counter wraps.
    pub fn on_packet_sent(&mut self)
        ensures
            *final(self) == (Session { packets_sent: counter_after(old(self).packets_sent), ..*old(self) }),
    {
        self.packets_sent = self.packets_sent.wrapping_add(1);
    }

    /// Drops the first pending acknowledgement for `seqnum`, if any.
    pub fn handle_ack(&mut self, seqnum: u16)
        ensures
            final(self).pending_acks@ == without_first(old(self).pending_acks@, seqnum),
            *final(self) == (Session { pending_acks: final(self).pending_acks, ..*old(self) }),
    {
        let mut i: usize = 0;
        let n = self.pending_acks.len();
        while i < n
            invariant
                *self == *old(self),
                i <= n,
                n == self.pending_acks.len(),
                forall|j: int| 0 <= j < i ==> self.pending_acks@[j] != seqnum,
            decreases n - i,
        {
            if self.pending_acks[i] == seqnum {
                let ghost old_acks = self.pending_acks@;
                proof {
                    let k = choose|k: int| 0 <= k < old_acks.len() && old_acks[k] == seqnum
                        && forall|j: int| 0 <= j < k ==> old_acks[j] != seqnum;
                    if k < i {
                    } else if k > i {
                        assert(old_acks[i as int] == seqnum);
                    }
                    assert(k == i);
                }
                self.pending_acks.remove(i);
                return;
            }
            i = i + 1;
        }
        assert(!self.pending_acks@.contains(seqnum));
    }

    pub fn set_peer_id(&mut self, new_peer_id: u16)
        ensures
            *final(self) == (Session { peer_id: new_peer_id, ..*old(self) }),
    {
        self.peer_id = new_peer_id;
    }

    pub fn disconnect(&mut self)
        ensures
            *final(self) == (Session { connected: false, ..*old(self) }),
    {
        self.connected = false;
    }

    /// Whether more than `timeout` milliseconds passed between the last
    /// received packet and `now` (a clock reading before the last packet
    /// counts as no time elapsed).
    pub fn is_timed_out(&self, now: u64, timeout: u64) -> (b: bool)
        ensures
            b == (now > self.last_activity && now - self.last_activity > timeout),
    {
        now > self.last_activity && now - self.last_activity > timeout
    }

    /// Hands out the next outgoing sequence number and advances it,
    /// wrapping after `SEQNUM_MAX`.
    pub fn get_next_outgoing_seqnum(&mut self) -> (s: u16)
        ensures
            s == old(self).next_outgoing_seqnum,
            *final(self) == (Session { next_outgoing_seqnum: seqnum_after(s), ..*old(self) }),
    {
        let seqnum = self.next_outgoing_seqnum;
        self.next_outgoing_seqnum = if self.next_outgoing_seqnum == SEQNUM_MAX {
            0
        } else {
            self.next_outgoing_seqnum + 1
        };
        seqnum
    }
}

/// Map of a list of address bindings; later bindings win.
pub open spec fn address_map(s: Seq<(PeerAddress, u16)>) -> Map<PeerAddress, u16>
    decreases s.len(),
{
    if s.len() == 0 {
        Map::empty()
    } else {
        address_map(s.drop_last()).insert(s.last().0, s.last().1)
    }
}

/// Whether a binding is not for `a`.
pub open spec fn not_for(a: PeerAddress) -> spec_fn((PeerAddress, u16)) -> bool {
    |p: (PeerAddress, u16)| p.0 != a
}

proof fn lemma_address_map_filter(s: Seq<(PeerAddress, u16)>, a: PeerAddress)
    ensures
        address_map(s.filter(not_for(a))) == address_map(s).remove(a),
    decreases s.len(),
{
    reveal(Seq::filter);
    if s.len() > 0 {
        lemma_address_map_filter(s.drop_last(), a);
        let f = s.drop_last().filter(not_for(a));
        if s.last().0 != a {
            assert(s.filter(not_for(a)) == f.push(s.last()));
            assert(f.push(s.last()).drop_last() =~= f);
            assert(address_map(s.filter(not_for(a))) =~= address_map(s).remove(a));
        } else {
            assert(s.filter(not_for(a)) == f);
            assert(address_map(s.filter(not_for(a))) =~= address_map(s).remove(a));
        }
    } else {
        assert(address_map(s).remove(a) =~= Map::empty());
    }
}

/// The ids `lo..=65535`.
pub open spec fn ids_from(lo: int) -> Set<u16> {
    Set::new(|k: u16| lo <= k)
}

proof fn lemma_ids_from_len(lo: int)
    requires
        0 <= lo <= 0x10000,
    ensures
        ids_from(lo).finite(),
        ids_from(lo).len() == 0x10000 - lo,
    decreases 0x10000 - lo,
{
    if lo == 0x10000 {
        assert(ids_from(lo) =~= Set::empty());
    } else {
        lemma_ids_from_len(lo + 1);
        assert(ids_from(lo) =~= ids_from(lo + 1).insert(lo as u16));
    }
}

/// Id that follows `id` in the allocation cycle `2..=65535`.
pub open spec fn next_peer_id_after(id: u16) -> u16 {
    if id == SEQNUM_MAX { (PEER_ID_SERVER + 1) as u16 } else { (id + 1) as u16 }
}

/// Whether `id` is the id the allocator hands out when the ids in `used`
/// are taken and its cursor is at `start`: the first free id at or after
/// `start` in the cycle `2..=65535`.
pub open spec fn allocated_from(used: Set<u16>, start: u16, id: u16) -> bool {
    &&& id >= PEER_ID_SERVER + 1
    &&& !used.contains(id)
    &&& if id >= start {
        forall|k: u16| start <= k < id ==> used.contains(k)
    } else {
        &&& forall|k: u16| start <= k ==> used.contains(k)
        &&& forall|k: u16| PEER_ID_SERVER + 1 <= k < id ==> used.contains(k)
    }
}

/// The first id a fresh session table hands out is 2.
pub proof fn law_first_allocated_id_is_two(id: u16)
    requires
        allocated_from(Set::<u16>::empty(), 2u16, id),
    ensures
        id == PEER_ID_SERVER + 1,
{
    if id > PEER_ID_SERVER + 1 {
        assert(!Set::<u16>::empty().contains(2u16));
    }
}

/// Addresses of the sessions of `m` whose ids are in `ids`.
pub open spec fn addresses_of(m: Map<u16, Session>, ids: Set<u16>) -> Set<PeerAddress> {
    Set::new(|a: PeerAddress| exists|id: u16| #[trigger] ids.contains(id) && m.contains_key(id) && m[id].address == a)
}

/// All active sessions.
pub struct SessionManager {
    sessions: HashMap<u16, Session>,
    address_to_peer_id: Vec<(PeerAddress, u16)>,
    next_peer_id: u16,
    /// Inactivity after which a session times out, in milliseconds.
    timeout: u64,
}

impl SessionManager {
    /// Sessions by peer id.
    pub closed spec fn sessions(&self) -> Map<u16, Session> {
        self.sessions@
    }

    /// Peer id bound to each known address.
    pub closed spec fn addresses(&self) -> Map<PeerAddress, u16> {
        address_map(self.address_to_peer_id@)
    }

    /// Next id the allocator tries.
    pub closed spec fn next_id(&self) -> u16 {
        self.next_peer_id
    }

    /// Inactivity timeout in milliseconds.
    pub closed spec fn timeout_ms(&self) -> u64 {
        self.timeout
    }

    /// The allocator only hands out ids `2..=65535`.
    pub closed spec fn wf(&self) -> bool {
        self.next_peer_id >= PEER_ID_SERVER + 1
    }

    pub fn new() -> (m: Self)
        ensures
            m.wf(),
            m.sessions() == Map::<u16, Session>::empty(),
            m.addresses() == Map::<PeerAddress, u16>::empty(),
            m.next_id() == PEER_ID_SERVER + 1,
            m.timeout_ms() == 30000,
    {
        SessionManager {
            sessions: HashMap::new(),
            address_to_peer_id: Vec::new(),
            next_peer_id: PEER_ID_SERVER + 1,
            timeout: 30000,
        }
    }

    /// The peer id bound to `address`, if any.
    pub fn lookup_address(&self, address: PeerAddress) -> (r: Option<u16>)
        ensures
            r == self.addresses().get(address),
    {
        let mut i = self.address_to_peer_id.len();
        assert(self.address_to_peer_id@.take(i as int) =~= self.address_to_peer_id@);
        while i > 0
            invariant
                i <= self.address_to_peer_id@.len(),
                self.addresses().get(address) == address_map(self.address_to_peer_id@.take(i as int)).get(address),
            decreases i,
        {
            let ghost pre = self.address_to_peer_id@.take(i as int);
            assert(pre.drop_last() =~= self.address_to_peer_id@.take(i - 1));
            let (a, id) = self.address_to_peer_id[i - 1];
            if a == address {
                return Some(id);
            }
            i = i - 1;
        }
        None
    }

    /// Binds `address` to `peer_id`, replacing an earlier binding.
    fn bind_address(&mut self, address: PeerAddress, peer_id: u16)
        ensures
            final(self).addresses() == old(self).addresses().insert(address, peer_id),
            final(self).sessions == old(self).sessions,
            final(self).next_peer_id == old(self).next_peer_id,
            final(self).timeout == old(self).timeout,
    {
        self.unbind_address(address);
        self.address_to_peer_id.push((address, peer_id));
        proof {
            assert(self.address_to_peer_id@.drop_last() =~= old(self).address_to_peer_id@.filter(not_for(address)));
        }
    }

    /// Removes the binding of `address`.
    fn unbind_address(&mut self, address: PeerAddress)
        ensures
            final(self).address_to_peer_id@ == old(self).address_to_peer_id@.filter(not_for(address)),
            final(self).addresses() == old(self).addresses().remove(address),
            final(self).sessions == old(self).sessions,
            final(self).next_peer_id == old(self).next_peer_id,
            final(self).timeout == old(self).timeout,
    {
        let mut kept: Vec<(PeerAddress, u16)> = Vec::new();
        let mut i: usize = 0;
        let n = self.address_to_peer_id.len();
        while i < n
            invariant
                i <= n,
                n == self.address_to_peer_id@.len(),
                kept@ == self.address_to_peer_id@.take(i as int).filter(not_for(address)),
            decreases n - i,
        {
            let ghost pre = self.address_to_peer_id@.take(i + 1);
            assert(pre.drop_last() =~= self.address_to_peer_id@.take(i as int));
            let p = self.address_to_peer_id[i];
            assert(pre.last() == p);
            proof {
                reveal(Seq::filter);
            }
            if p.0 != address {
                kept.push(p);
                assert(pre.filter(not_for(address)) == pre.drop_last().filter(not_for(address)).push(p));
            } else {
                assert(pre.filter(not_for(address)) == pre.drop_last().filter(not_for(address)));
            }
            i = i + 1;
        }
        assert(self.address_to_peer_id@.take(n as int) =~= self.address_to_peer_id@);
        proof {
            lemma_address_map_filter(self.address_to_peer_id@, address);
        }
        self.address_to_peer_id = kept;
    }

    /// Returns the session for `peer_id`, creating it at `now` when
    /// absent. Peer id 0 asks for a new connection: the session bound to
    /// `address` is reused when there is one, else a fresh id is allocated.
    pub fn get_or_create_session(&mut self, peer_id: u16, address: PeerAddress, now: u64) -> (s: &mut Session)
        requires
            old(self).wf(),
            peer_id == PEER_ID_INEXISTENT && !old(self).addresses().contains_key(address)
                ==> old(self).sessions().len() < 0xFFFE,
        ensures
            final(self).wf(),
            final(self).timeout_ms() == old(self).timeout_ms(),
            peer_id == PEER_ID_INEXISTENT && !old(self).addresses().contains_key(address) ==> {
                &&& allocated_from(old(self).sessions().dom(), old(self).next_id(), s.peer_id)
                &&& final(self).next_id() == next_peer_id_after(s.peer_id)
            },
            !(peer_id == PEER_ID_INEXISTENT && !old(self).addresses().contains_key(address))
                ==> final(self).next_id() == old(self).next_id(),
            ({
                let id = if peer_id == PEER_ID_INEXISTENT && old(self).addresses().contains_key(address) {
                    old(self).addresses()[address]
                } else if peer_id == PEER_ID_INEXISTENT {
                    s.peer_id
                } else {
                    peer_id
                };
                &&& final(self).sessions() == old(self).sessions().insert(id, *final(s))
                &&& old(self).sessions().contains_key(id) ==> *s == old(self).sessions()[id]
                &&& !old(self).sessions().contains_key(id) ==> is_fresh_session(*s, id, address, now)
                &&& (peer_id == PEER_ID_INEXISTENT && !old(self).addresses().contains_key(address) ==> {
                    &&& !old(self).sessions().contains_key(id)
                    &&& id >= PEER_ID_SERVER + 1
                    &&& final(self).addresses() == old(self).addresses().insert(address, id)
                })
                &&& (peer_id == PEER_ID_INEXISTENT && old(self).addresses().contains_key(address)
                    ==> final(self).addresses() == old(self).addresses())
                &&& (peer_id != PEER_ID_INEXISTENT && old(self).sessions().contains_key(peer_id)
                    ==> final(self).addresses() == old(self).addresses())
                &&& (peer_id != PEER_ID_INEXISTENT && !old(self).sessions().contains_key(peer_id)
                    ==> final(self).addresses() == old(self).addresses().insert(address, peer_id))
            }),
    {
        if peer_id == PEER_ID_INEXISTENT {
            match self.lookup_address(address) {
                Some(existing) => {
                    return self.sessions.entry(existing).or_insert(Session::new(existing, address, now));
                },
                None => {},
            }
            let new_peer_id = self.allocate_peer_id();
            self.bind_address(address, new_peer_id);
            return self.sessions.entry(new_peer_id).or_insert(Session::new(new_peer_id, address, now));
        }
        if !self.sessions.contains_key(&peer_id) {
            self.bind_address(address, peer_id);
        }
        self.sessions.entry(peer_id).or_insert(Session::new(peer_id, address, now))
    }

    pub fn get_session(&self, peer_id: u16) -> (r: Option<&Session>)
        ensures
            match r {
                Some(s) => self.sessions().contains_key(peer_id) && *s == self.sessions()[peer_id],
                None => !self.sessions().contains_key(peer_id),
            },
    {
        self.sessions.get(&peer_id)
    }

    pub fn get_session_mut(&mut self, peer_id: u16) -> (r: Option<&mut Session>)
        ensures
            final(self).addresses() == old(self).addresses(),
            final(self).next_id() == old(self).next_id(),
            final(self).timeout_ms() == old(self).timeout_ms(),
            old(self).wf() ==> final(self).wf(),
            match r {
                Some(s) => {
                    &&& old(self).sessions().contains_key(peer_id)
                    &&& *s == old(self).sessions()[peer_id]
                    &&& final(self).sessions() == old(self).sessions().insert(peer_id, *final(s))
                },
                None => !old(self).sessions().contains_key(peer_id) && final(self).sessions() == old(self).sessions(),
            },
    {
        match self.sessions.entry(peer_id) {
            Entry::Occupied(e) => Some(e.into_mut()),
            Entry::Vacant(_) => None,
        }
    }

    /// Sessions whose last packet is more than the timeout older than `now`.
    pub open spec fn timed_out_ids(self, now: u64) -> Set<u16> {
        self.sessions().dom().filter(|id: u16| {
            let s = self.sessions()[id];
            now > s.last_activity && now - s.last_activity > self.timeout_ms()
        })
    }

    /// Removes the session of `peer_id` and the binding of its address.
    pub fn remove_session(&mut self, peer_id: u16)
        ensures
            final(self).sessions() == old(self).sessions().remove(peer_id),
            old(self).sessions().contains_key(peer_id) ==> final(self).addresses()
                == old(self).addresses().remove(old(self).sessions()[peer_id].address),
            !old(self).sessions().contains_key(peer_id) ==> final(self).addresses() == old(self).addresses(),
            final(self).next_id() == old(self).next_id(),
            final(self).timeout_ms() == old(self).timeout_ms(),
            old(self).wf() ==> final(self).wf(),
    {
        match self.sessions.remove(&peer_id) {
            Some(session) => {
                self.unbind_address(session.address);
            },
            None => {},
        }
    }

    /// Hands out the first id at or after the cursor, in the cycle
    /// `2..=65535`, that no session holds, and moves the cursor past it.
    fn allocate_peer_id(&mut self) -> (id: u16)
        requires
            old(self).wf(),
            old(self).sessions@.len() < 0xFFFE,
        ensures
            allocated_from(old(self).sessions@.dom(), old(self).next_peer_id, id),
            final(self).next_peer_id == next_peer_id_after(id),
            final(self).sessions == old(self).sessions,
            final(self).address_to_peer_id == old(self).address_to_peer_id,
            final(self).timeout == old(self).timeout,
    {
        let start = self.next_peer_id;
        let mut cand: u16 = start;
        loop
            invariant
                *self == *old(self),
                start == self.next_peer_id,
                start >= 2,
                start <= cand,
                forall|k: u16| start <= k < cand ==> self.sessions@.contains_key(k),
                self.sessions@.len() < 0xFFFE,
            ensures
                *self == *old(self),
                start == old(self).next_peer_id,
                forall|k: u16| start <= k ==> self.sessions@.contains_key(k),
            decreases 0x10000 - cand,
        {
            if !self.sessions.contains_key(&cand) {
                self.next_peer_id = if cand == SEQNUM_MAX { PEER_ID_SERVER + 1 } else { cand + 1 };
                return cand;
            }
            if cand == SEQNUM_MAX {
                break;
            }
            cand = cand + 1;
        }
        let mut cand: u16 = PEER_ID_SERVER + 1;
        while cand < start
            invariant
                *self == *old(self),
                start == old(self).next_peer_id,
                start >= 2,
                2 <= cand <= start,
                forall|k: u16| start <= k ==> self.sessions@.contains_key(k),
                forall|k: u16| 2 <= k < cand ==> self.sessions@.contains_key(k),
                self.sessions@.len() < 0xFFFE,
            decreases start - cand,
        {
            if !self.sessions.contains_key(&cand) {
                self.next_peer_id = cand + 1;
                return cand;
            }
            cand = cand + 1;
        }
        proof {
            lemma_ids_from_len(2);
            assert(ids_from(2).subset_of(self.sessions@.dom()));
            vstd::set_lib::lemma_len_subset(ids_from(2), self.sessions@.dom());
            assert(false);
        }
        0
    }

    /// Removes every session that timed out by `now`, with the bindings of
    /// their addresses.
    pub fn cleanup_timed_out_sessions(&mut self, now: u64)
        ensures
            final(self).sessions() == old(self).sessions().remove_keys(old(self).timed_out_ids(now)),
            forall|id: u16| #[trigger] old(self).sessions().contains_key(id) ==> (final(self).sessions().contains_key(id)
                <==> (now <= old(self).sessions()[id].last_activity
                    || now - old(self).sessions()[id].last_activity <= old(self).timeout_ms())),
            forall|id: u16| #[trigger] final(self).sessions().contains_key(id) ==> old(self).sessions().contains_key(id)
                && final(self).sessions()[id] == old(self).sessions()[id],
            final(self).addresses() == old(self).addresses().remove_keys(
                addresses_of(old(self).sessions(), old(self).timed_out_ids(now))),
            final(self).next_id() == old(self).next_id(),
            final(self).timeout_ms() == old(self).timeout_ms(),
            old(self).wf() ==> final(self).wf(),
    {
        broadcast use vstd::seq_lib::group_seq_properties;
        let ghost doomed = self.timed_out_ids(now);
        let mut timed_out: Vec<u16> = Vec::new();
        for id in it: self.sessions.keys()
            invariant
                forall|j: int| 0 <= j < timed_out.len() ==> doomed.contains(#[trigger] timed_out@[j]),
                forall|j: int| 0 <= j < it.index() && doomed.contains(*(#[trigger] it.seq()[j]))
                    ==> timed_out@.contains(*it.seq()[j]),
                doomed == self.timed_out_ids(now),
            ensures
                forall|j: int| 0 <= j < timed_out.len() ==> doomed.contains(#[trigger] timed_out@[j]),
                forall|j: int| 0 <= j < it.seq().len() && doomed.contains(*(#[trigger] it.seq()[j]))
                    ==> timed_out@.contains(*it.seq()[j]),
                it.seq().unref().to_set() == self.sessions@.dom(),
        {
            let ghost t0 = timed_out@;
            match self.sessions.get(id) {
                Some(s) => {
                    if s.is_timed_out(now, self.timeout) {
                        timed_out.push(*id);
                    }
                },
                None => {},
            }
            proof {
                assert(*id == *it.seq()[it.index()]);
                assert forall|j: int| 0 <= j <= it.index() && doomed.contains(*(#[trigger] it.seq()[j]))
                    implies timed_out@.contains(*it.seq()[j]) by {
                    if j < it.index() {
                        assert(t0.contains(*it.seq()[j]));
                        if timed_out@ != t0 {
                            vstd::seq_lib::lemma_seq_contains_after_push(t0, *id, *it.seq()[j]);
                        }
                    } else {
                        assert(self.sessions@.contains_key(*id));
                        vstd::seq_lib::lemma_seq_contains_after_push(t0, *id, *id);
                    }
                }
            }
        }
        let mut i: usize = 0;
        while i < timed_out.len()
            invariant
                i <= timed_out.len(),
                forall|j: int| 0 <= j < timed_out.len() ==> doomed.contains(#[trigger] timed_out@[j]),
                forall|k: u16| doomed.contains(k) ==> timed_out@.contains(k),
                doomed <= old(self).sessions().dom(),
                self.sessions() == old(self).sessions().remove_keys(timed_out@.take(i as int).to_set()),
                self.addresses() == old(self).addresses().remove_keys(
                    addresses_of(old(self).sessions(), timed_out@.take(i as int).to_set())),
                self.next_peer_id == old(self).next_peer_id,
                self.timeout == old(self).timeout,
            decreases timed_out.len() - i,
        {
            let id = timed_out[i];
            let ghost before = *self;
            let ghost t = timed_out@.take(i as int).to_set();
            self.remove_session(id);
            i = i + 1;
            assert(timed_out@.take(i as int) =~= timed_out@.take(i - 1).push(id));
            proof {
                timed_out@.take(i - 1).lemma_push_to_set_commute(id);
                let m0 = old(self).sessions();
                let a0 = old(self).addresses();
                if before.sessions().contains_key(id) {
                    let a = m0[id].address;
                    assert forall|x: PeerAddress| #[trigger] addresses_of(m0, t.insert(id)).contains(x)
                        <==> addresses_of(m0, t).insert(a).contains(x) by {
                        if addresses_of(m0, t.insert(id)).contains(x) {
                            let id2 = choose|id2: u16| #[trigger] t.insert(id).contains(id2) && m0.contains_key(id2) && m0[id2].address == x;
                            if id2 != id {
                                assert(t.contains(id2));
                            }
                        }
                        if addresses_of(m0, t).contains(x) {
                            let id2 = choose|id2: u16| #[trigger] t.contains(id2) && m0.contains_key(id2) && m0[id2].address == x;
                            assert(t.insert(id).contains(id2));
                        }
                        if x == a {
                            assert(t.insert(id).contains(id));
                        }
                    }
                    assert(addresses_of(m0, t.insert(id)) =~= addresses_of(m0, t).insert(a));
                    assert(a0.remove_keys(addresses_of(m0, t)).remove(a) =~= a0.remove_keys(addresses_of(m0, t).insert(a)));
                } else {
                    assert(doomed.contains(id));
                    assert(t.contains(id));
                    assert(t.insert(id) =~= t);
                }
            }
            assert(self.sessions() =~= old(self).sessions().remove_keys(timed_out@.take(i as int).to_set()));
        }
        assert(timed_out@.take(i as int).to_set() =~= doomed) by {
            assert(timed_out@.take(i as int) =~= timed_out@);
        }
        assert forall|id: u16| #[trigger] old(self).sessions().contains_key(id) implies (self.sessions().contains_key(id)
            <==> (now <= old(self).sessions()[id].last_activity
                || now - old(self).sessions()[id].last_activity <= old(self).timeout_ms())) by {
            assert(doomed.contains(id) <==> (now > old(self).sessions()[id].last_activity
                && now - old(self).sessions()[id].last_activity > old(self).timeout_ms()));
        }
    }

    pub fn session_count(&self) -> (n: usize)
        ensures
            n == self.sessions().len(),
    {
        self.sessions.len()
    }
}

} // verus!
