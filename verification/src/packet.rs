//! Transport-level packet buffers: buffered outgoing packets, reassembly
//! of split packets, and framing helpers.

use vstd::prelude::*;
use std::collections::HashMap;
use crate::bytes::{be_u16, be_u32, copy_range, push_slice, push_u16, push_u32};
use crate::protocol::{header_bytes, packet_type_code, PacketType, BASE_HEADER_SIZE, RELIABLE_HEADER_SIZE, SEQNUM_MAX};

verus! {

broadcast use vstd::std_specs::hash::group_hash_axioms;

/// A buffered packet with metadata.
#[derive(Debug)]
pub struct BufferedPacket {
    pub data: Vec<u8>,
    pub seqnum: Option<u16>,
    pub resend_count: u32,
}

impl BufferedPacket {
    pub fn new(data: Vec<u8>) -> (p: Self)
        ensures
            p.data@ == data@,
            p.seqnum is None,
            p.resend_count == 0,
    {
        BufferedPacket { data, seqnum: None, resend_count: 0 }
    }

    pub fn get_seqnum(&self) -> (s: Option<u16>)
        ensures
            s == self.seqnum,
    {
        self.seqnum
    }

    /// Overwrites the sender peer id (bytes 4 and 5 of the base header) when
    /// the buffer is long enough to hold it.
    pub fn set_sender_peer_id(&mut self, id: u16)
        ensures
            final(self).seqnum == old(self).seqnum,
            final(self).resend_count == old(self).resend_count,
            old(self).data@.len() >= 6 ==> final(self).data@ == old(self).data@.update(4, be_u16(id)[0]).update(5, be_u16(id)[1]),
            old(self).data@.len() < 6 ==> final(self).data@ == old(self).data@,
    {
        if self.data.len() >= 6 {
            self.data.set(4, (id / 256) as u8);
            self.data.set(5, (id % 256) as u8);
        }
    }
}

/// Concatenation of the chunks numbered `0..n` of a chunk map.
pub open spec fn concat_chunks(chunks: Map<u16, Vec<u8>>, n: nat) -> Seq<u8>
    decreases n,
{
    if n == 0 {
        Seq::empty()
    } else {
        concat_chunks(chunks, (n - 1) as nat) + chunks[(n - 1) as u16]@
    }
}

/// Every chunk number below `n` is present.
pub open spec fn has_chunks_below(chunks: Map<u16, Vec<u8>>, n: nat) -> bool {
    forall|i: u16| i < n ==> #[trigger] chunks.contains_key(i)
}

/// Reassembly state of one split packet.
#[derive(Debug)]
pub struct IncomingSplitPacket {
    pub chunk_count: u16,
    pub chunks: HashMap<u16, Vec<u8>>,
    pub reliable: bool,
}

impl IncomingSplitPacket {
    pub fn new(chunk_count: u16, reliable: bool) -> (p: Self)
        ensures
            p.chunk_count == chunk_count,
            p.chunks@ == Map::<u16, Vec<u8>>::empty(),
            p.reliable == reliable,
    {
        IncomingSplitPacket { chunk_count, chunks: HashMap::new(), reliable }
    }

    /// Stores chunk `chunk_num` (ignored when out of range) and reports
    /// whether every chunk has arrived.
    pub fn insert(&mut self, chunk_num: u16, data: Vec<u8>) -> (complete: bool)
        ensures
            final(self).chunk_count == old(self).chunk_count,
            final(self).reliable == old(self).reliable,
            chunk_num >= old(self).chunk_count ==> !complete && final(self).chunks@ == old(self).chunks@,
            chunk_num < old(self).chunk_count ==> final(self).chunks@ == old(self).chunks@.insert(chunk_num, data)
                && complete == (final(self).chunks@.len() == old(self).chunk_count),
    {
        if chunk_num >= self.chunk_count {
            return false;
        }
        self.chunks.insert(chunk_num, data);
        self.is_complete()
    }

    pub fn is_complete(&self) -> (b: bool)
        ensures
            b == (self.chunks@.len() == self.chunk_count),
    {
        self.chunks.len() == self.chunk_count as usize
    }

    /// The chunks `0..chunk_count` concatenated in order, once all of them
    /// have arrived.
    pub fn reassemble(&self) -> (r: Option<Vec<u8>>)
        ensures
            match r {
                Some(v) => self.chunks@.len() == self.chunk_count
                    && has_chunks_below(self.chunks@, self.chunk_count as nat)
                    && v@ == concat_chunks(self.chunks@, self.chunk_count as nat),
                None => self.chunks@.len() != self.chunk_count
                    || !has_chunks_below(self.chunks@, self.chunk_count as nat),
            },
    {
        if !self.is_complete() {
            return None;
        }
        let mut result: Vec<u8> = Vec::new();
        let mut i: u16 = 0;
        while i < self.chunk_count
            invariant
                i <= self.chunk_count,
                has_chunks_below(self.chunks@, i as nat),
                result@ == concat_chunks(self.chunks@, i as nat),
            decreases self.chunk_count - i,
        {
            match self.chunks.get(&i) {
                Some(chunk) => {
                    push_slice(&mut result, chunk.as_slice());
                },
                None => {
                    return None;
                },
            }
            i = i + 1;
            assert forall|k: u16| k < i implies #[trigger] self.chunks@.contains_key(k) by {
                if k < i - 1 {
                    assert(has_chunks_below(self.chunks@, (i - 1) as nat));
                }
            }
        }
        Some(result)
    }
}

/// Create a base packet with header.
pub fn make_packet(protocol_id: u32, sender_peer_id: u16, channel: u8, data: &[u8]) -> (packet: Vec<u8>)
    ensures
        packet@ == header_bytes(protocol_id, sender_peer_id, channel) + data@,
{
    let mut packet: Vec<u8> = Vec::new();
    push_u32(&mut packet, protocol_id);
    push_u16(&mut packet, sender_peer_id);
    packet.push(channel);
    push_slice(&mut packet, data);
    assert(packet@ =~= header_bytes(protocol_id, sender_peer_id, channel) + data@);
    packet
}

/// Create a reliable packet wrapper: type byte, sequence number, data.
pub fn make_reliable_packet(data: &[u8], seqnum: u16) -> (packet: Vec<u8>)
    ensures
        packet@ == seq![packet_type_code(PacketType::Reliable)] + be_u16(seqnum) + data@,
{
    let mut packet: Vec<u8> = Vec::new();
    packet.push(PacketType::Reliable.to_u8());
    push_u16(&mut packet, seqnum);
    push_slice(&mut packet, data);
    assert(packet@ =~= seq![packet_type_code(PacketType::Reliable)] + be_u16(seqnum) + data@);
    packet
}

/// Number of chunks of at most `max` bytes needed for `len` bytes.
pub open spec fn chunk_count_of(len: nat, max: nat) -> nat {
    ((len + max - 1) / max as int) as nat
}

/// The bytes of chunk `i` when `data` is cut into chunks of `max` bytes.
pub open spec fn chunk_of(data: Seq<u8>, max: nat, i: nat) -> Seq<u8> {
    let start: int = (i * max) as int;
    let end: int = if start + max <= data.len() { start + max } else { data.len() as int };
    data.subrange(start, end)
}

/// Frame of one chunk of a split packet.
pub open spec fn split_frame(seqnum: u16, count: u16, num: u16, payload: Seq<u8>) -> Seq<u8> {
    seq![packet_type_code(PacketType::Split)] + be_u16(seqnum) + be_u16(count) + be_u16(num) + payload
}

/// Next split sequence number, wrapping after `SEQNUM_MAX`.
pub open spec fn next_seqnum(s: u16) -> u16 {
    if s == SEQNUM_MAX { 0 } else { (s + 1) as u16 }
}

proof fn lemma_chunk_start_in_bounds(i: nat, len: nat, max: nat)
    requires
        max > 0,
        i < chunk_count_of(len, max),
    ensures
        i * max < len,
        i * max + max == (i + 1) * max,
{
    assert(i * max < len) by (nonlinear_arith)
        requires
            max > 0,
            i < (len + max - 1) / max as int,
    {
        let q = (len + max - 1) / max as int;
        assert(q * max <= len + max - 1);
        assert(i + 1 <= q);
        assert((i + 1) * max <= q * max);
    }
    assert(i * max + max == (i + 1) * max) by (nonlinear_arith);
}

/// Split data into chunks for split packets; data that fits in one chunk
/// is sent as a single `Original` packet.
pub fn make_auto_split_packet(data: &[u8], chunksize_max: usize, split_seqnum: &mut u16) -> (packets: Vec<Vec<u8>>)
    requires
        data@.len() > chunksize_max ==> chunksize_max > 0,
        data@.len() + chunksize_max <= usize::MAX,
    ensures
        data@.len() <= chunksize_max ==> {
            &&& packets@.len() == 1
            &&& packets@[0]@ == seq![packet_type_code(PacketType::Original)] + data@
            &&& *final(split_seqnum) == *old(split_seqnum)
        },
        data@.len() > chunksize_max ==> {
            let count = chunk_count_of(data@.len(), chunksize_max as nat) as u16;
            &&& *final(split_seqnum) == next_seqnum(*old(split_seqnum))
            &&& packets@.len() == count
            &&& forall|i: int| 0 <= i < count ==> #[trigger] packets@[i]@ == split_frame(
                *old(split_seqnum),
                count,
                i as u16,
                chunk_of(data@, chunksize_max as nat, i as nat),
            )
        },
{
    if data.len() <= chunksize_max {
        let mut packet: Vec<u8> = Vec::new();
        packet.push(PacketType::Original.to_u8());
        push_slice(&mut packet, data);
        let mut packets: Vec<Vec<u8>> = Vec::new();
        packets.push(packet);
        assert(packets@[0]@ =~= seq![packet_type_code(PacketType::Original)] + data@);
        return packets;
    }
    let ghost total = chunk_count_of(data@.len(), chunksize_max as nat);
    let chunk_count = ((data.len() + chunksize_max - 1) / chunksize_max) as u16;
    let seqnum = *split_seqnum;
    *split_seqnum = if *split_seqnum == SEQNUM_MAX { 0 } else { *split_seqnum + 1 };
    proof {
        assert(chunk_count as nat <= total);
    }
    let mut packets: Vec<Vec<u8>> = Vec::new();
    let mut chunk_num: u16 = 0;
    let mut start: usize = 0;
    while chunk_num < chunk_count
        invariant
            chunk_num <= chunk_count,
            chunk_count as nat <= total,
            total == chunk_count_of(data@.len(), chunksize_max as nat),
            chunksize_max > 0,
            data@.len() + chunksize_max <= usize::MAX,
            start as int == chunk_num as int * chunksize_max as int,
            packets@.len() == chunk_num,
            forall|i: int| 0 <= i < chunk_num ==> #[trigger] packets@[i]@ == split_frame(
                seqnum,
                chunk_count,
                i as u16,
                chunk_of(data@, chunksize_max as nat, i as nat),
            ),
        decreases chunk_count - chunk_num,
    {
        proof {
            lemma_chunk_start_in_bounds(chunk_num as nat, data@.len(), chunksize_max as nat);
        }
        let end = if start + chunksize_max <= data.len() { start + chunksize_max } else { data.len() };
        let mut packet: Vec<u8> = Vec::new();
        packet.push(PacketType::Split.to_u8());
        push_u16(&mut packet, seqnum);
        push_u16(&mut packet, chunk_count);
        push_u16(&mut packet, chunk_num);
        let chunk = copy_range(data, start, end);
        push_slice(&mut packet, chunk.as_slice());
        assert(packet@ =~= split_frame(seqnum, chunk_count, chunk_num, chunk_of(data@, chunksize_max as nat, chunk_num as nat)));
        packets.push(packet);
        chunk_num = chunk_num + 1;
        start = start + chunksize_max;
    }
    packets
}

proof fn lemma_concat_prefix(data: Seq<u8>, max: nat, chunks: Map<u16, Vec<u8>>, k: nat)
    requires
        max > 0,
        k <= chunk_count_of(data.len(), max),
        chunk_count_of(data.len(), max) <= 0x10000,
        forall|i: u16| i < chunk_count_of(data.len(), max) ==> #[trigger] chunks[i]@ == chunk_of(data, max, i as nat),
    ensures
        concat_chunks(chunks, k) == data.subrange(0, if k * max <= data.len() { (k * max) as int } else { data.len() as int }),
    decreases k,
{
    if k > 0 {
        let j = (k - 1) as nat;
        lemma_concat_prefix(data, max, chunks, j);
        lemma_chunk_start_in_bounds(j, data.len(), max);
        assert(j * max + max == k * max) by (nonlinear_arith)
            requires
                j + 1 == k,
        ;
        assert((j as u16) as nat == j);
        let prev_end: int = (j * max) as int;
        let end: int = if k * max <= data.len() { (k * max) as int } else { data.len() as int };
        assert(data.subrange(0, prev_end) + data.subrange(prev_end, end) =~= data.subrange(0, end));
    } else {
        assert(data.subrange(0, 0) =~= Seq::<u8>::empty());
    }
}

/// Reassembling the chunks that a split of `data` produces, each stored
/// under its chunk number, gives `data` back.
pub proof fn law_split_reassemble(data: Seq<u8>, max: nat, chunks: Map<u16, Vec<u8>>)
    requires
        max > 0,
        chunk_count_of(data.len(), max) <= 0xFFFF,
        forall|i: u16| i < chunk_count_of(data.len(), max) ==> #[trigger] chunks[i]@ == chunk_of(data, max, i as nat),
    ensures
        concat_chunks(chunks, chunk_count_of(data.len(), max)) == data,
{
    let n = chunk_count_of(data.len(), max);
    lemma_concat_prefix(data, max, chunks, n);
    assert(n * max >= data.len()) by (nonlinear_arith)
        requires
            max > 0,
            n == (data.len() + max - 1) / max as int,
    ;
    assert(data.subrange(0, data.len() as int) =~= data);
}

} // verus!
