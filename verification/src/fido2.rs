//! CTAPHID framing and the CTAP2 relay between a local virtual FIDO2
//! device and a remote peer.
//!
//! The relay itself is a state machine: it takes one event at a time (a raw
//! 64-byte HID packet from the device, a response from the network, a failed
//! network send) and answers with the new state and the list of actions to
//! perform (packets for the device, requests for the network). The loop that
//! moves packets between channels lives outside this crate.
use vstd::prelude::*;
use std::collections::{HashMap, HashSet};
use vstd::std_specs::iter::IteratorSpec;
use crate::bytes::{be32, be16_value, be32_value, zeros, push_be32, push_range, push_zeros, read_be32, copy_range};
use crate::text::{decimal, push_decimal};

verus! {

broadcast use vstd::std_specs::hash::group_hash_axioms;

// =========================================================================
// CTAPHID constants
// =========================================================================

/// CTAPHID packet size (always 64 bytes for FIDO HID).
pub const HID_PACKET_SIZE: usize = 64;
/// Data capacity in an initialisation packet (64 − 7 header bytes).
pub const INIT_DATA_SIZE: usize = HID_PACKET_SIZE - 7;
/// Data capacity in a continuation packet (64 − 5 header bytes).
pub const CONT_DATA_SIZE: usize = HID_PACKET_SIZE - 5;
/// Broadcast channel used for CTAPHID_INIT.
pub const CID_BROADCAST: u32 = 0xFFFF_FFFF;

pub const CTAPHID_PING: u8 = 0x01;
pub const CTAPHID_MSG: u8 = 0x03;
pub const CTAPHID_INIT: u8 = 0x06;
pub const CTAPHID_CBOR: u8 = 0x10;
pub const CTAPHID_CANCEL: u8 = 0x11;
pub const CTAPHID_KEEPALIVE: u8 = 0x3B;
pub const CTAPHID_ERROR: u8 = 0x3F;

pub const ERR_INVALID_CMD: u8 = 0x01;
pub const ERR_INVALID_PAR: u8 = 0x02;
pub const ERR_INVALID_LEN: u8 = 0x03;
pub const ERR_INVALID_SEQ: u8 = 0x04;
pub const ERR_MSG_TIMEOUT: u8 = 0x05;
pub const ERR_CHANNEL_BUSY: u8 = 0x06;
pub const ERR_INVALID_CHANNEL: u8 = 0x0B;
pub const ERR_OTHER: u8 = 0x7F;

pub const CTAP2_MAKE_CREDENTIAL: u8 = 0x01;
pub const CTAP2_GET_ASSERTION: u8 = 0x02;
pub const CTAP2_GET_INFO: u8 = 0x04;

/// FIDO2 HID report descriptor: usage page 0xF1D0 (FIDO Alliance) with
/// 64-byte input and output reports.
pub const FIDO_HID_REPORT_DESCRIPTOR: [u8; 34] = [
    0x06, 0xD0, 0xF1, 0x09, 0x01, 0xA1, 0x01, 0x09, 0x20, 0x15, 0x00, 0x26, 0xFF, 0x00, 0x75,
    0x08, 0x95, 0x40, 0x81, 0x02, 0x09, 0x21, 0x15, 0x00, 0x26, 0xFF, 0x00, 0x75, 0x08, 0x95,
    0x40, 0x91, 0x02, 0xC0,
];

// =========================================================================
// Errors and network-facing types
// =========================================================================

/// Errors from the FIDO2 subsystem.
#[derive(Debug)]
pub enum Fido2Error {
    InvalidPacket(String),
    DeviceError(String),
    RelayError(String),
    Io(std::io::Error),
    ChannelClosed,
}

/// A FIDO2 request to be sent over the network.
#[derive(Debug, Clone)]
pub struct NetworkFido2Request {
    pub request_id: u32,
    pub command: u8,
    pub payload: Vec<u8>,
}

/// A FIDO2 response received from the network.
#[derive(Debug, Clone)]
pub struct NetworkFido2Response {
    pub request_id: u32,
    pub status: u8,
    pub payload: Vec<u8>,
}

/// A fully reassembled CTAPHID message.
#[derive(Debug)]
pub struct CtapHidMessage {
    pub channel_id: u32,
    pub command: u8,
    pub data: Vec<u8>,
}

// =========================================================================
// Packet serialisation
// =========================================================================

pub open spec fn min_nat(a: nat, b: nat) -> nat {
    if a <= b {
        a
    } else {
        b
    }
}

/// Number of continuation packets needed after the initialisation packet
/// for a payload of `n` bytes.
pub open spec fn cont_count(n: nat) -> nat {
    if n <= INIT_DATA_SIZE {
        0
    } else {
        ((n - INIT_DATA_SIZE) + (CONT_DATA_SIZE - 1)) as nat / (CONT_DATA_SIZE as nat)
    }
}

/// Offset of the end of the data carried by the first `i + 1` packets.
pub open spec fn carried(n: nat, i: nat) -> nat {
    min_nat(n, (INIT_DATA_SIZE + CONT_DATA_SIZE * i) as nat)
}

/// The initialisation packet of a message.
pub open spec fn init_packet(cid: u32, cmd: u8, data: Seq<u8>) -> Seq<u8> {
    let n = data.len();
    let k = carried(n, 0);
    be32(cid) + seq![0x80u8 | cmd, ((n % 0x1_0000) / 0x100) as u8, (n % 0x100) as u8]
        + data.take(k as int) + zeros((INIT_DATA_SIZE - k) as nat)
}

/// Continuation packet `i` (0-based) of a message.
pub open spec fn cont_packet(cid: u32, data: Seq<u8>, i: nat) -> Seq<u8> {
    let n = data.len();
    let s = carried(n, i);
    let e = carried(n, i + 1);
    be32(cid) + seq![(i % 0x100) as u8] + data.subrange(s as int, e as int) + zeros(
        (CONT_DATA_SIZE - (e - s)) as nat,
    )
}

/// The HID packets that carry a message, in order.
pub open spec fn hid_packets(cid: u32, cmd: u8, data: Seq<u8>) -> Seq<Seq<u8>> {
    Seq::new(
        1 + cont_count(data.len()),
        |k: int|
            if k == 0 {
                init_packet(cid, cmd, data)
            } else {
                cont_packet(cid, data, (k - 1) as nat)
            },
    )
}

/// `cont_count(n)` continuation packets are exactly enough for `n` bytes.
pub proof fn lemma_cont_count(n: nat)
    ensures
        carried(n, cont_count(n)) == n,
        cont_count(n) > 0 ==> carried(n, (cont_count(n) - 1) as nat) < n,
{
    if n > INIT_DATA_SIZE {
        let m = (n - INIT_DATA_SIZE) as int;
        let c = cont_count(n) as int;
        vstd::arithmetic::div_mod::lemma_fundamental_div_mod(m + 58, 59);
        vstd::arithmetic::div_mod::lemma_mod_pos_bound(m + 58, 59);
        assert(c == (m + 58) / 59);
        assert(59 * c <= m + 58 < 59 * c + 59);
    }
}

proof fn lemma_carried_monotone(n: nat, i: nat, j: nat)
    requires
        i <= j,
    ensures
        carried(n, i) <= carried(n, j),
{
    assert(CONT_DATA_SIZE * i <= CONT_DATA_SIZE * j) by (nonlinear_arith)
        requires
            i <= j,
    ;
}

/// Serialize a message into one or more 64-byte HID packets.
pub fn serialize_response(msg: &CtapHidMessage) -> (packets: Vec<Vec<u8>>)
    ensures
        packets@.len() == hid_packets(msg.channel_id, msg.command, msg.data@).len(),
        forall|k: int|
            0 <= k < packets@.len() ==> #[trigger] packets@[k]@ == hid_packets(
                msg.channel_id,
                msg.command,
                msg.data@,
            )[k],
{
    let data = &msg.data;
    let total_len = data.len();
    let ghost n = total_len as nat;
    let ghost spec_pkts = hid_packets(msg.channel_id, msg.command, msg.data@);
    let mut packets: Vec<Vec<u8>> = Vec::new();

    // Initialisation packet.
    let mut pkt: Vec<u8> = Vec::with_capacity(HID_PACKET_SIZE);
    push_be32(&mut pkt, msg.channel_id);
    pkt.push(0x80u8 | msg.command);
    pkt.push(((total_len % 0x1_0000) / 0x100) as u8);
    pkt.push((total_len % 0x100) as u8);
    let first_chunk = if total_len < INIT_DATA_SIZE {
        total_len
    } else {
        INIT_DATA_SIZE
    };
    push_range(&mut pkt, data.as_slice(), 0, first_chunk);
    push_zeros(&mut pkt, INIT_DATA_SIZE - first_chunk);
    assert(pkt@ =~= init_packet(msg.channel_id, msg.command, msg.data@));
    packets.push(pkt);

    // Continuation packets.
    let mut offset = first_chunk;
    let mut seq: u8 = 0;
    let mut i: usize = 0;
    proof {
        lemma_cont_count(n);
    }
    while offset < total_len
        invariant
            total_len == data@.len(),
            n == total_len,
            data == msg.data,
            spec_pkts == hid_packets(msg.channel_id, msg.command, msg.data@),
            i <= cont_count(n),
            offset == carried(n, i as nat),
            seq == (i % 0x100) as u8,
            packets@.len() == 1 + i,
            forall|k: int| 0 <= k < packets@.len() ==> #[trigger] packets@[k]@ == spec_pkts[k],
            carried(n, cont_count(n)) == n,
            cont_count(n) > 0 ==> carried(n, (cont_count(n) - 1) as nat) < n,
        decreases total_len - offset,
    {
        proof {
            if i as nat >= cont_count(n) {
                lemma_carried_monotone(n, cont_count(n), i as nat);
            }
        }
        let mut pkt: Vec<u8> = Vec::with_capacity(HID_PACKET_SIZE);
        push_be32(&mut pkt, msg.channel_id);
        pkt.push(seq);
        let rest = total_len - offset;
        let chunk = if rest < CONT_DATA_SIZE {
            rest
        } else {
            CONT_DATA_SIZE
        };
        push_range(&mut pkt, data.as_slice(), offset, offset + chunk);
        push_zeros(&mut pkt, CONT_DATA_SIZE - chunk);
        assert(offset + chunk == carried(n, (i + 1) as nat)) by {
            assert(INIT_DATA_SIZE == 57 && CONT_DATA_SIZE == 59);
            assert(59 * (i + 1) == 59 * i + 59);
        }
        assert(pkt@ =~= cont_packet(msg.channel_id, msg.data@, i as nat));
        packets.push(pkt);
        offset = offset + chunk;
        seq = seq.wrapping_add(1);
        assert(((i + 1) % 0x100) as u8 == ((i % 0x100) as u8).wrapping_add(1)) by (bit_vector);
        i = i + 1;
    }
    proof {
        if (i as nat) < cont_count(n) {
            lemma_carried_monotone(n, i as nat, (cont_count(n) - 1) as nat);
        }
    }
    packets
}

// =========================================================================
// Message reassembly
// =========================================================================

/// Bytes kept from the first packet's payload when `expected` bytes are due.
pub open spec fn asm_start(payload: Seq<u8>, expected: nat) -> Seq<u8> {
    payload.take(min_nat(payload.len(), expected) as int)
}

/// Bytes after a continuation payload is added to `data`.
pub open spec fn asm_extend(data: Seq<u8>, expected: nat, payload: Seq<u8>) -> Seq<u8> {
    data + payload.take(min_nat(payload.len(), (expected - data.len()) as nat) as int)
}

/// What an assembler holds: the message header, the announced length, the
/// bytes received so far and the sequence number due next.
pub struct AsmModel {
    pub channel_id: u32,
    pub command: u8,
    pub expected_len: nat,
    pub data: Seq<u8>,
    pub next_seq: u8,
}

/// Accumulates continuation packets until a full CTAPHID message is ready.
#[derive(Debug)]
pub struct MessageAssembler {
    channel_id: u32,
    command: u8,
    expected_len: usize,
    data: Vec<u8>,
    next_seq: u8,
}

impl View for MessageAssembler {
    type V = AsmModel;

    closed spec fn view(&self) -> AsmModel {
        AsmModel {
            channel_id: self.channel_id,
            command: self.command,
            expected_len: self.expected_len as nat,
            data: self.data@,
            next_seq: self.next_seq,
        }
    }
}

impl MessageAssembler {
    /// The assembler never holds more than the announced payload length.
    #[verifier::type_invariant]
    spec fn wf(&self) -> bool {
        self.data@.len() <= self.expected_len
    }

    pub fn new(channel_id: u32, command: u8, expected_len: usize, initial_data: &[u8]) -> (r: Self)
        ensures
            r@ == (AsmModel {
                channel_id,
                command,
                expected_len: expected_len as nat,
                data: asm_start(initial_data@, expected_len as nat),
                next_seq: 0,
            }),
    {
        let take = if initial_data.len() < expected_len {
            initial_data.len()
        } else {
            expected_len
        };
        let mut data: Vec<u8> = Vec::new();
        push_range(&mut data, initial_data, 0, take);
        assert(data@ =~= asm_start(initial_data@, expected_len as nat));
        MessageAssembler { channel_id, command, expected_len, data, next_seq: 0 }
    }

    pub fn channel_id(&self) -> (r: u32)
        ensures
            r == self@.channel_id,
    {
        self.channel_id
    }

    pub fn is_complete(&self) -> (r: bool)
        ensures
            r == (self@.data.len() >= self@.expected_len),
    {
        self.data.len() >= self.expected_len
    }

    pub fn add_continuation(&mut self, seq: u8, payload: &[u8]) -> (r: Result<(), Fido2Error>)
        ensures
            seq != old(self)@.next_seq ==> final(self)@ == old(self)@ && (r matches Err(Fido2Error::InvalidPacket(m))
                && m@ == "expected seq "@ + decimal(old(self)@.next_seq as nat) + ", got "@ + decimal(seq as nat)),
            seq == old(self)@.next_seq ==> r is Ok && final(self)@ == (AsmModel {
                data: asm_extend(old(self)@.data, old(self)@.expected_len, payload@),
                next_seq: old(self)@.next_seq.wrapping_add(1),
                ..old(self)@
            }),
    {
        proof {
            use_type_invariant(&*self);
        }
        if seq != self.next_seq {
            return Err(Fido2Error::InvalidPacket(seq_error_text(self.next_seq, seq)));
        }
        self.next_seq = self.next_seq.wrapping_add(1);
        let remaining = self.expected_len - self.data.len();
        let take = if payload.len() < remaining {
            payload.len()
        } else {
            remaining
        };
        let mut data: Vec<u8> = Vec::new();
        std::mem::swap(&mut data, &mut self.data);
        let ghost before = data@;
        push_range(&mut data, payload, 0, take);
        assert(data@ =~= asm_extend(before, self.expected_len as nat, payload@));
        self.data = data;
        Ok(())
    }

    pub fn into_message(self) -> (m: CtapHidMessage)
        ensures
            m.channel_id == self@.channel_id,
            m.command == self@.command,
            m.data@ == self@.data,
    {
        CtapHidMessage { channel_id: self.channel_id, command: self.command, data: self.data }
    }
}

/// The payload bytes of an initialisation packet, as the relay reads them.
pub open spec fn init_payload(raw: Seq<u8>) -> Seq<u8> {
    raw.subrange(7, min_nat(raw.len(), (7 + INIT_DATA_SIZE) as nat) as int)
}

/// The payload bytes of a continuation packet, as the relay reads them.
pub open spec fn cont_payload(raw: Seq<u8>) -> Seq<u8> {
    raw.subrange(5, min_nat(raw.len(), (5 + CONT_DATA_SIZE) as nat) as int)
}

/// The payload length announced by an initialisation packet.
pub open spec fn announced_len(raw: Seq<u8>) -> nat {
    be16_value(raw[5], raw[6]) as nat
}

/// The bytes an assembler holds after the initialisation packet and the
/// first `k` continuation packets of `pkts` have been fed to it.
pub open spec fn reassembled(pkts: Seq<Seq<u8>>, k: nat) -> Seq<u8>
    decreases k,
{
    if k == 0 {
        asm_start(init_payload(pkts[0]), announced_len(pkts[0]))
    } else {
        asm_extend(reassembled(pkts, (k - 1) as nat), announced_len(pkts[0]), cont_payload(pkts[k as int]))
    }
}

/// Framing law: the packets that `serialize_response` produces, read back the
/// way the relay reads device packets, give back the message. The
/// initialisation packet announces the length and carries the command with
/// the type bit; each continuation packet carries the channel and the
/// sequence number the assembler expects next; the assembler holds the data
/// seen so far after each packet, and the whole message exactly after the last
/// one. The length field has 16 bits, so the message holds at most 0xFFFF
/// bytes.
pub proof fn lemma_framing_roundtrip(cid: u32, cmd: u8, data: Seq<u8>)
    requires
        data.len() <= 0xFFFF,
    ensures
        ({
            let pkts = hid_packets(cid, cmd, data);
            let c = cont_count(data.len());
            &&& pkts[0].len() == HID_PACKET_SIZE
            &&& pkts[0].take(4) == be32(cid)
            &&& pkts[0][4] == 0x80u8 | cmd
            &&& announced_len(pkts[0]) == data.len()
            &&& forall|k: int|
                1 <= k <= c ==> {
                    &&& (#[trigger] pkts[k]).len() == HID_PACKET_SIZE
                    &&& pkts[k].take(4) == be32(cid)
                    &&& pkts[k][4] == ((k - 1) % 0x100) as u8
                }
            &&& forall|k: nat|
                k <= c ==> #[trigger] reassembled(pkts, k) == data.take(carried(data.len(), k) as int)
            &&& reassembled(pkts, c) == data
            &&& forall|k: nat| k < c ==> (#[trigger] reassembled(pkts, k)).len() < data.len()
        }),
{
    let n = data.len();
    let pkts = hid_packets(cid, cmd, data);
    let c = cont_count(n);
    lemma_cont_count(n);
    assert(pkts[0] == init_packet(cid, cmd, data));
    lemma_init_packet_layout(cid, cmd, data);
    assert(pkts[0].take(4) =~= be32(cid));
    assert(announced_len(pkts[0]) == n);
    assert forall|k: int| 1 <= k <= c implies {
        &&& (#[trigger] pkts[k]).len() == HID_PACKET_SIZE
        &&& pkts[k].take(4) == be32(cid)
        &&& pkts[k][4] == ((k - 1) % 0x100) as u8
    } by {
        let i = (k - 1) as nat;
        assert(pkts[k] == cont_packet(cid, data, i));
        lemma_carried_step(n, i);
        lemma_cont_packet_layout(cid, data, i);
        assert(pkts[k].take(4) =~= be32(cid));
    }
    assert forall|k: nat| k <= c implies #[trigger] reassembled(pkts, k) == data.take(
        carried(n, k) as int,
    ) by {
        lemma_reassembled_prefix(cid, cmd, data, k);
    }
    assert(data.take(n as int) =~= data);
    assert forall|k: nat| k < c implies (#[trigger] reassembled(pkts, k)).len() < n by {
        lemma_reassembled_prefix(cid, cmd, data, k);
        lemma_carried_monotone(n, k, (c - 1) as nat);
    }
}

proof fn lemma_init_packet_layout(cid: u32, cmd: u8, data: Seq<u8>)
    ensures
        ({
            let p = init_packet(cid, cmd, data);
            let n = data.len();
            &&& p.len() == HID_PACKET_SIZE
            &&& p[5] == ((n % 0x1_0000) / 0x100) as u8
            &&& p[6] == (n % 0x100) as u8
            &&& init_payload(p) == data.take(carried(n, 0) as int) + zeros(
                (INIT_DATA_SIZE - carried(n, 0)) as nat,
            )
        }),
{
    let p = init_packet(cid, cmd, data);
    let n = data.len();
    let k = carried(n, 0);
    let head = be32(cid) + seq![0x80u8 | cmd, ((n % 0x1_0000) / 0x100) as u8, (n % 0x100) as u8];
    assert(head.len() == 7);
    assert(p == head + (data.take(k as int) + zeros((INIT_DATA_SIZE - k) as nat)));
    assert(init_payload(p) =~= data.take(k as int) + zeros((INIT_DATA_SIZE - k) as nat));
}

proof fn lemma_cont_packet_layout(cid: u32, data: Seq<u8>, i: nat)
    requires
        carried(data.len(), i) <= carried(data.len(), i + 1),
        carried(data.len(), i + 1) - carried(data.len(), i) <= CONT_DATA_SIZE,
    ensures
        ({
            let p = cont_packet(cid, data, i);
            let n = data.len();
            let s = carried(n, i);
            let e = carried(n, i + 1);
            &&& p.len() == HID_PACKET_SIZE
            &&& p[4] == (i % 0x100) as u8
            &&& cont_payload(p) == data.subrange(s as int, e as int) + zeros(
                (CONT_DATA_SIZE - (e - s)) as nat,
            )
        }),
{
    let n = data.len();
    let s = carried(n, i);
    let e = carried(n, i + 1);
    let p = cont_packet(cid, data, i);
    let head = be32(cid) + seq![(i % 0x100) as u8];
    assert(head.len() == 5);
    assert(p == head + (data.subrange(s as int, e as int) + zeros((CONT_DATA_SIZE - (e - s)) as nat)));
    assert(cont_payload(p) =~= data.subrange(s as int, e as int) + zeros(
        (CONT_DATA_SIZE - (e - s)) as nat,
    ));
}

proof fn lemma_carried_step(n: nat, i: nat)
    ensures
        carried(n, i) <= carried(n, i + 1),
        carried(n, i + 1) - carried(n, i) <= CONT_DATA_SIZE,
        carried(n, i) < n ==> carried(n, i) == INIT_DATA_SIZE + CONT_DATA_SIZE * i,
{
    lemma_carried_monotone(n, i, i + 1);
    assert(59 * (i + 1) == 59 * i + 59);
}

proof fn lemma_reassembled_prefix(cid: u32, cmd: u8, data: Seq<u8>, k: nat)
    requires
        data.len() <= 0xFFFF,
        k <= cont_count(data.len()),
    ensures
        reassembled(hid_packets(cid, cmd, data), k) == data.take(carried(data.len(), k) as int),
    decreases k,
{
    let n = data.len();
    let pkts = hid_packets(cid, cmd, data);
    lemma_init_packet_layout(cid, cmd, data);
    assert(pkts[0] == init_packet(cid, cmd, data));
    assert(announced_len(pkts[0]) == n);
    if k == 0 {
        assert(reassembled(pkts, 0) =~= data.take(carried(n, 0) as int));
    } else {
        let i = (k - 1) as nat;
        lemma_reassembled_prefix(cid, cmd, data, i);
        assert(pkts[k as int] == cont_packet(cid, data, i));
        lemma_carried_step(n, i);
        lemma_cont_packet_layout(cid, data, i);
        let s = carried(n, i);
        let e = carried(n, k);
        let prev = data.take(s as int);
        assert(reassembled(pkts, k) == asm_extend(prev, n, cont_payload(pkts[k as int])));
        assert(reassembled(pkts, k) =~= data.take(e as int));
    }
}

/// The text of a sequence error: "expected seq E, got G".
fn seq_error_text(expected: u8, got: u8) -> (s: String)
    ensures
        s@ == "expected seq "@ + decimal(expected as nat) + ", got "@ + decimal(got as nat),
{
    let mut s = String::from_str("expected seq ");
    push_decimal(&mut s, expected as u64);
    s.append(", got ");
    push_decimal(&mut s, got as u64);
    s
}

} // verus!

verus! {

// =========================================================================
// Relay state machine
// =========================================================================

/// Tracks a request that has been forwarded to the network.
#[derive(Debug, Clone, Copy, PartialEq, Eq)]
pub struct PendingRequest {
    pub channel_id: u32,
    pub command: u8,
}

/// Something the relay asks its surroundings to do.
#[derive(Debug)]
pub enum RelayAction {
    /// Send this 64-byte packet to the virtual device.
    ToDevice(Vec<u8>),
    /// Forward this request to the network layer.
    ToNetwork(NetworkFido2Request),
}

/// `acts` sends exactly the packets `pkts` to the device, in order.
pub open spec fn sends_packets(acts: Seq<RelayAction>, pkts: Seq<Seq<u8>>) -> bool {
    &&& acts.len() == pkts.len()
    &&& forall|i: int|
        0 <= i < acts.len() ==> (#[trigger] acts[i] matches RelayAction::ToDevice(p) && p@
            == pkts[i])
}

/// The packets of a CTAPHID error reply.
pub open spec fn error_packets(cid: u32, code: u8) -> Seq<Seq<u8>> {
    hid_packets(cid, CTAPHID_ERROR, seq![code])
}

/// The data of a CTAPHID_INIT reply: the nonce (at most 8 bytes, zero
/// padded to 8), the new channel id, protocol version 2, device version
/// 0.1.0 and the capability flags (CBOR supported).
pub open spec fn init_reply_data(nonce: Seq<u8>, new_cid: u32) -> Seq<u8> {
    let k = min_nat(nonce.len(), 8);
    nonce.take(k as int) + zeros((8 - k) as nat) + be32(new_cid) + seq![2u8, 0u8, 1u8, 0u8, 0x04u8]
}

/// The channel id handed out after `c`: the next one, skipping 0 (reserved)
/// and the broadcast channel.
pub open spec fn next_channel_after(c: u32) -> u32 {
    let n = c.wrapping_add(1);
    if n == 0 || n == CID_BROADCAST {
        1
    } else {
        n
    }
}

/// The outcome of feeding one device packet to the assembler.
pub enum AssembledModel {
    Ignored,
    Pending,
    Complete { channel_id: u32, command: u8, data: Seq<u8> },
    Rejected { channel_id: u32, error: u8 },
}

/// The channel id in the first four bytes of a packet.
pub open spec fn packet_cid(raw: Seq<u8>) -> u32 {
    be32_value(raw.take(4)) as u32
}

/// How the assembler state and one raw device packet determine the next
/// assembler state and the outcome.
pub open spec fn assemble_step(a: Option<AsmModel>, raw: Seq<u8>) -> (Option<AsmModel>, AssembledModel) {
    if raw.len() < 5 {
        (a, AssembledModel::Ignored)
    } else if raw[4] & 0x80 != 0 {
        if raw.len() < 7 {
            (a, AssembledModel::Ignored)
        } else {
            let expected = announced_len(raw);
            let d = asm_start(init_payload(raw), expected);
            let cid = packet_cid(raw);
            let cmd = raw[4] & 0x7F;
            if d.len() >= expected {
                (a, AssembledModel::Complete { channel_id: cid, command: cmd, data: d })
            } else {
                (
                    Some(AsmModel { channel_id: cid, command: cmd, expected_len: expected, data: d, next_seq: 0 }),
                    AssembledModel::Pending,
                )
            }
        }
    } else {
        let cid = packet_cid(raw);
        match a {
            None => (None, AssembledModel::Rejected { channel_id: cid, error: ERR_INVALID_SEQ }),
            Some(m) => {
                if m.channel_id != cid {
                    (a, AssembledModel::Rejected { channel_id: cid, error: ERR_INVALID_CHANNEL })
                } else if raw[4] != m.next_seq {
                    (None, AssembledModel::Rejected { channel_id: cid, error: ERR_INVALID_SEQ })
                } else {
                    let d = asm_extend(m.data, m.expected_len, cont_payload(raw));
                    if d.len() >= m.expected_len {
                        (None, AssembledModel::Complete { channel_id: m.channel_id, command: m.command, data: d })
                    } else {
                        (Some(AsmModel { data: d, next_seq: m.next_seq.wrapping_add(1), ..m }), AssembledModel::Pending)
                    }
                }
            }
        }
    }
}

/// The outcome of feeding one device packet to the assembler.
#[derive(Debug)]
pub enum Assembled {
    /// The packet was too short to mean anything.
    Ignored,
    /// More packets are needed.
    Pending,
    /// A whole message is ready.
    Complete(CtapHidMessage),
    /// The packet was refused; the device is to get this error code.
    Rejected { channel_id: u32, error: u8 },
}

impl View for Assembled {
    type V = AssembledModel;

    open spec fn view(&self) -> AssembledModel {
        match self {
            Assembled::Ignored => AssembledModel::Ignored,
            Assembled::Pending => AssembledModel::Pending,
            Assembled::Complete(m) => AssembledModel::Complete {
                channel_id: m.channel_id,
                command: m.command,
                data: m.data@,
            },
            Assembled::Rejected { channel_id, error } => AssembledModel::Rejected {
                channel_id: *channel_id,
                error: *error,
            },
        }
    }
}

pub open spec fn asm_view(a: Option<MessageAssembler>) -> Option<AsmModel> {
    match a {
        Some(m) => Some(m@),
        None => None,
    }
}

/// The decision core of the FIDO2 relay: message assembly, channel
/// allocation and the table of requests forwarded to the network.
pub struct RelayState {
    assembler: Option<MessageAssembler>,
    channels: HashSet<u32>,
    next_channel_id: u32,
    pending: HashMap<u32, PendingRequest>,
    next_request_id: u32,
}

impl RelayState {
    /// The relay's invariant: the next channel id is neither reserved (0)
    /// nor the broadcast channel.
    #[verifier::type_invariant]
    spec fn wf(&self) -> bool {
        &&& self.next_channel_id != 0
        &&& self.next_channel_id != CID_BROADCAST
    }

    pub closed spec fn assembler_view(&self) -> Option<AsmModel> {
        asm_view(self.assembler)
    }

    /// Channel ids handed out so far.
    pub closed spec fn channels(&self) -> Set<u32> {
        self.channels@
    }

    pub closed spec fn next_channel_id(&self) -> u32 {
        self.next_channel_id
    }

    /// Requests forwarded to the network and not yet answered, by request id.
    pub closed spec fn pending(&self) -> Map<u32, PendingRequest> {
        self.pending@
    }

    pub closed spec fn next_request_id(&self) -> u32 {
        self.next_request_id
    }

    /// A relay that has handed out no channel and forwarded no request.
    pub fn new() -> (r: Self)
        ensures
            r.assembler_view() is None,
            r.channels() == Set::<u32>::empty(),
            r.next_channel_id() == 1,
            r.pending() == Map::<u32, PendingRequest>::empty(),
            r.next_request_id() == 1,
    {
        RelayState {
            assembler: None,
            channels: HashSet::new(),
            next_channel_id: 1,
            pending: HashMap::new(),
            next_request_id: 1,
        }
    }

    /// Feeds one raw device packet to the assembler.
    pub fn assemble(&mut self, raw: &[u8]) -> (r: Assembled)
        ensures
            (final(self).assembler_view(), r@) == assemble_step(old(self).assembler_view(), raw@),
            final(self).channels() == old(self).channels(),
            final(self).next_channel_id() == old(self).next_channel_id(),
            final(self).pending() == old(self).pending(),
            final(self).next_request_id() == old(self).next_request_id(),
    {
        proof {
            use_type_invariant(&*self);
        }
        if raw.len() < 5 {
            return Assembled::Ignored;
        }
        let channel_id = read_be32(raw[0], raw[1], raw[2], raw[3]);
        assert(raw@.take(4) =~= seq![raw@[0], raw@[1], raw@[2], raw@[3]]);
        let cmd_byte = raw[4];
        if cmd_byte & 0x80 != 0 {
            if raw.len() < 7 {
                return Assembled::Ignored;
            }
            let command = cmd_byte & 0x7F;
            let payload_len: usize = (raw[5] as usize) * 256 + raw[6] as usize;
            let end = if raw.len() < 7 + INIT_DATA_SIZE {
                raw.len()
            } else {
                7 + INIT_DATA_SIZE
            };
            let data = slice_range(raw, 7, end);
            let assembler = MessageAssembler::new(channel_id, command, payload_len, data);
            if assembler.is_complete() {
                Assembled::Complete(assembler.into_message())
            } else {
                self.assembler = Some(assembler);
                Assembled::Pending
            }
        } else {
            let seq = cmd_byte;
            let end = if raw.len() < 5 + CONT_DATA_SIZE {
                raw.len()
            } else {
                5 + CONT_DATA_SIZE
            };
            let data = slice_range(raw, 5, end);
            let mut slot: Option<MessageAssembler> = None;
            std::mem::swap(&mut slot, &mut self.assembler);
            match slot {
                None => Assembled::Rejected { channel_id, error: ERR_INVALID_SEQ },
                Some(mut cur) => {
                    if cur.channel_id() != channel_id {
                        self.assembler = Some(cur);
                        return Assembled::Rejected { channel_id, error: ERR_INVALID_CHANNEL };
                    }
                    match cur.add_continuation(seq, data) {
                        Err(_) => Assembled::Rejected { channel_id, error: ERR_INVALID_SEQ },
                        Ok(()) => {
                            if cur.is_complete() {
                                Assembled::Complete(cur.into_message())
                            } else {
                                self.assembler = Some(cur);
                                Assembled::Pending
                            }
                        },
                    }
                },
            }
        }
    }
}

/// INIT reply law: the reply data to CTAPHID_INIT is 17 bytes that begin
/// with the request's nonce (its first 8 bytes; a shorter nonce is padded
/// with zeros) followed by the new channel id, most significant byte first.
pub proof fn law_init_reply_echoes_nonce(nonce: Seq<u8>, new_cid: u32)
    ensures
        init_reply_data(nonce, new_cid).len() == 17,
        forall|i: int| 0 <= i < 8 && i < nonce.len() ==> #[trigger] init_reply_data(nonce, new_cid)[i] == nonce[i],
        forall|i: int| nonce.len() <= i < 8 ==> #[trigger] init_reply_data(nonce, new_cid)[i] == 0,
        be32_value(init_reply_data(nonce, new_cid).subrange(8, 12)) == new_cid,
{
    let d = init_reply_data(nonce, new_cid);
    let k = min_nat(nonce.len(), 8);
    assert(d.subrange(8, 12) =~= be32(new_cid));
    crate::bytes::lemma_be32_bytes(new_cid);
    assert forall|i: int| 0 <= i < 8 && i < nonce.len() implies #[trigger] d[i] == nonce[i] by {
        assert(i < k);
    }
}

/// INIT answer law: when the relay completes a CTAPHID_INIT message with an
/// 8-byte (or longer) nonce, its answer is one packet on the requesting
/// channel whose bytes 7..15 are the nonce and whose bytes 15..19 are the
/// channel it allocates (the relay's next channel id), so the host can match
/// the answer to its request.
pub proof fn law_init_answer_echoes_nonce(
    pre: &RelayState,
    post: &RelayState,
    cid: u32,
    data: Seq<u8>,
    acts: Seq<RelayAction>,
)
    requires
        message_effect(pre, post, cid, CTAPHID_INIT, data, acts),
        data.len() >= 8,
    ensures
        acts.len() == 1,
        acts[0] matches RelayAction::ToDevice(p) && {
            &&& p@.len() == HID_PACKET_SIZE
            &&& be32_value(p@.subrange(0, 4)) == cid
            &&& forall|i: int| 0 <= i < 8 ==> #[trigger] p@[7 + i] == data[i]
            &&& be32_value(p@.subrange(15, 19)) == pre.next_channel_id()
        },
        post.channels() == pre.channels().insert(pre.next_channel_id()),
{
    let reply = init_reply_data(data, pre.next_channel_id());
    law_init_reply_echoes_nonce(data, pre.next_channel_id());
    let pkts = hid_packets(cid, CTAPHID_INIT, reply);
    assert(cont_count(reply.len()) == 0);
    assert(pkts.len() == 1);
    let p0 = init_packet(cid, CTAPHID_INIT, reply);
    assert(pkts[0] == p0);
    assert(acts[0] matches RelayAction::ToDevice(p) && p@ == p0);
    assert(carried(reply.len(), 0) == 17);
    assert(p0.len() == 64);
    assert(p0.subrange(0, 4) =~= be32(cid));
    crate::bytes::lemma_be32_bytes(cid);
    assert forall|i: int| 0 <= i < 8 implies #[trigger] p0[7 + i] == data[i] by {
        assert(p0[7 + i] == reply[i]);
    }
    assert(p0.subrange(15, 19) =~= reply.subrange(8, 12));
}

/// Every table of the relay is as it was (the assembler aside).
pub open spec fn same_tables(pre: &RelayState, post: &RelayState) -> bool {
    &&& post.channels() == pre.channels()
    &&& post.next_channel_id() == pre.next_channel_id()
    &&& post.pending() == pre.pending()
    &&& post.next_request_id() == pre.next_request_id()
}

/// The pending requests that survive a CTAPHID_CANCEL on channel `cid`.
pub open spec fn pending_after_cancel(p: Map<u32, PendingRequest>, cid: u32) -> Map<u32, PendingRequest> {
    Map::new(|k: u32| p.contains_key(k) && p[k].channel_id != cid, |k: u32| p[k])
}

/// What a CTAPHID_CBOR message does: an empty payload is answered with an
/// invalid-length error; otherwise its first byte (the CTAP2 command) and the
/// rest are forwarded to the network under a fresh request id, remembered as
/// pending for the channel.
pub open spec fn cbor_effect(
    pre: &RelayState,
    post: &RelayState,
    cid: u32,
    data: Seq<u8>,
    acts: Seq<RelayAction>,
) -> bool {
    if data.len() == 0 {
        same_tables(pre, post) && sends_packets(acts, error_packets(cid, ERR_INVALID_LEN))
    } else {
        &&& post.channels() == pre.channels()
        &&& post.next_channel_id() == pre.next_channel_id()
        &&& post.pending() == pre.pending().insert(
            pre.next_request_id(),
            PendingRequest { channel_id: cid, command: data[0] },
        )
        &&& post.next_request_id() == pre.next_request_id().wrapping_add(1)
        &&& acts.len() == 1
        &&& acts[0] matches RelayAction::ToNetwork(r) && r.request_id == pre.next_request_id()
            && r.command == data[0] && r.payload@ == data.subrange(1, data.len() as int)
    }
}

/// What a complete CTAPHID message does to the relay's tables and what it
/// sends: INIT allocates a channel and answers with it; PING echoes; CBOR is
/// forwarded (see `cbor_effect`); CANCEL drops the channel's pending requests
/// silently; any other command is answered with an invalid-command error.
pub open spec fn message_effect(
    pre: &RelayState,
    post: &RelayState,
    cid: u32,
    cmd: u8,
    data: Seq<u8>,
    acts: Seq<RelayAction>,
) -> bool {
    if cmd == CTAPHID_INIT {
        &&& post.channels() == pre.channels().insert(pre.next_channel_id())
        &&& post.next_channel_id() == next_channel_after(pre.next_channel_id())
        &&& post.pending() == pre.pending()
        &&& post.next_request_id() == pre.next_request_id()
        &&& sends_packets(
            acts,
            hid_packets(cid, CTAPHID_INIT, init_reply_data(data, pre.next_channel_id())),
        )
    } else if cmd == CTAPHID_PING {
        same_tables(pre, post) && sends_packets(acts, hid_packets(cid, CTAPHID_PING, data))
    } else if cmd == CTAPHID_CBOR {
        cbor_effect(pre, post, cid, data, acts)
    } else if cmd == CTAPHID_CANCEL {
        &&& post.channels() == pre.channels()
        &&& post.next_channel_id() == pre.next_channel_id()
        &&& post.pending() == pending_after_cancel(pre.pending(), cid)
        &&& post.next_request_id() == pre.next_request_id()
        &&& acts.len() == 0
    } else {
        same_tables(pre, post) && sends_packets(acts, error_packets(cid, ERR_INVALID_CMD))
    }
}

/// The device actions that send every packet of a message.
pub fn send_message(msg: &CtapHidMessage) -> (acts: Vec<RelayAction>)
    ensures
        sends_packets(acts@, hid_packets(msg.channel_id, msg.command, msg.data@)),
{
    let mut packets = serialize_response(msg);
    let ghost pkts = hid_packets(msg.channel_id, msg.command, msg.data@);
    let ghost total = packets@.len();
    let mut acts: Vec<RelayAction> = Vec::new();
    while packets.len() > 0
        invariant
            total == pkts.len(),
            acts@.len() + packets@.len() == total,
            forall|k: int| 0 <= k < packets@.len() ==> #[trigger] packets@[k]@ == pkts[acts@.len() + k],
            forall|k: int|
                0 <= k < acts@.len() ==> (#[trigger] acts@[k] matches RelayAction::ToDevice(p) && p@
                    == pkts[k]),
        decreases packets@.len(),
    {
        let ghost before = packets@;
        let p = packets.remove(0);
        assert(p@ == pkts[acts@.len() as int]);
        acts.push(RelayAction::ToDevice(p));
        assert forall|k: int| 0 <= k < packets@.len() implies #[trigger] packets@[k]@ == pkts[acts@.len() + k] by {
            assert(packets@[k] == before[k + 1]);
        }
    }
    acts
}

/// The device actions of a CTAPHID error reply.
pub fn send_error(channel_id: u32, error_code: u8) -> (acts: Vec<RelayAction>)
    ensures
        sends_packets(acts@, error_packets(channel_id, error_code)),
{
    let mut data: Vec<u8> = Vec::new();
    data.push(error_code);
    assert(data@ =~= seq![error_code]);
    let msg = CtapHidMessage { channel_id, command: CTAPHID_ERROR, data };
    send_message(&msg)
}

impl RelayState {
    /// Hands out the next channel id.
    pub fn allocate_channel(&mut self) -> (cid: u32)
        ensures
            cid == old(self).next_channel_id(),
            cid != 0 && cid != CID_BROADCAST,
            final(self).next_channel_id() == next_channel_after(cid),
            final(self).channels() == old(self).channels().insert(cid),
            final(self).assembler_view() == old(self).assembler_view(),
            final(self).pending() == old(self).pending(),
            final(self).next_request_id() == old(self).next_request_id(),
    {
        proof {
            use_type_invariant(&*self);
        }
        let cid = self.next_channel_id;
        let mut next = cid.wrapping_add(1);
        if next == 0 || next == CID_BROADCAST {
            next = 1;
        }
        self.next_channel_id = next;
        let mut channels: HashSet<u32> = HashSet::new();
        std::mem::swap(&mut channels, &mut self.channels);
        channels.insert(cid);
        self.channels = channels;
        cid
    }

    /// Answers CTAPHID_INIT: allocates a channel and builds the reply.
    pub fn handle_init(&mut self, channel_id: u32, nonce: &[u8]) -> (reply: CtapHidMessage)
        ensures
            final(self).next_channel_id() == next_channel_after(old(self).next_channel_id()),
            final(self).channels() == old(self).channels().insert(old(self).next_channel_id()),
            final(self).assembler_view() == old(self).assembler_view(),
            final(self).pending() == old(self).pending(),
            final(self).next_request_id() == old(self).next_request_id(),
            reply.channel_id == channel_id,
            reply.command == CTAPHID_INIT,
            reply.data@ == init_reply_data(nonce@, old(self).next_channel_id()),
            forall|i: int| 0 <= i < 8 && i < nonce@.len() ==> #[trigger] reply.data@[i] == nonce@[i],
    {
        proof {
            law_init_reply_echoes_nonce(nonce@, self.next_channel_id);
        }
        let new_cid = self.allocate_channel();
        let mut resp: Vec<u8> = Vec::with_capacity(17);
        let nonce_len = if nonce.len() < 8 {
            nonce.len()
        } else {
            8
        };
        push_range(&mut resp, nonce, 0, nonce_len);
        push_zeros(&mut resp, 8 - nonce_len);
        push_be32(&mut resp, new_cid);
        resp.push(2);
        resp.push(0);
        resp.push(1);
        resp.push(0);
        resp.push(0x04);
        assert(resp@ =~= init_reply_data(nonce@, new_cid));
        CtapHidMessage { channel_id, command: CTAPHID_INIT, data: resp }
    }

    /// Forwards a CTAPHID_CBOR payload to the network.
    pub fn handle_cbor(&mut self, channel_id: u32, payload: &[u8]) -> (acts: Vec<RelayAction>)
        ensures
            final(self).assembler_view() == old(self).assembler_view(),
            cbor_effect(old(self), final(self), channel_id, payload@, acts@),
    {
        proof {
            use_type_invariant(&*self);
        }
        if payload.len() == 0 {
            return send_error(channel_id, ERR_INVALID_LEN);
        }
        let ctap2_cmd = payload[0];
        let ctap2_payload = copy_range(payload, 1, payload.len());
        let request_id = self.next_request_id;
        self.next_request_id = self.next_request_id.wrapping_add(1);
        let mut pending: HashMap<u32, PendingRequest> = HashMap::new();
        std::mem::swap(&mut pending, &mut self.pending);
        pending.insert(request_id, PendingRequest { channel_id, command: ctap2_cmd });
        self.pending = pending;
        let req = NetworkFido2Request { request_id, command: ctap2_cmd, payload: ctap2_payload };
        let mut acts: Vec<RelayAction> = Vec::new();
        acts.push(RelayAction::ToNetwork(req));
        acts
    }

    /// Drops every pending request of channel `channel_id`.
    pub fn cancel_channel(&mut self, channel_id: u32)
        ensures
            final(self).assembler_view() == old(self).assembler_view(),
            final(self).channels() == old(self).channels(),
            final(self).next_channel_id() == old(self).next_channel_id(),
            final(self).pending() == pending_after_cancel(old(self).pending(), channel_id),
            final(self).next_request_id() == old(self).next_request_id(),
    {
        proof {
            use_type_invariant(&*self);
        }
        let ghost p0 = self.pending@;
        let mut doomed: Vec<u32> = Vec::new();
        proof {
            let keys = vstd::std_specs::hash::spec_keys_iter(&self.pending).remaining();
            assert forall|k: u32| p0.contains_key(k) implies exists|j: int| 0 <= j < keys.len() && *keys[j] == k by {
                assert(keys.unref().to_set().contains(k));
                assert(keys.unref().contains(k));
                let j = choose|j: int| 0 <= j < keys.unref().len() && keys.unref()[j] == k;
                assert(*keys[j] == k);
            }
        }
        for k in it: self.pending.keys()
            invariant
                self.pending@ == p0,
                forall|j: int|
                    0 <= j < doomed@.len() ==> p0.contains_key(#[trigger] doomed@[j])
                        && p0[doomed@[j]].channel_id == channel_id,
                forall|k: u32|
                    #[trigger] p0.contains_key(k) && p0[k].channel_id == channel_id ==> (
                    doomed@.contains(k) || exists|j: int|
                        it.index() <= j < it.seq().len() && *it.seq()[j] == k),
                asm_view(self.assembler) == asm_view(old(self).assembler),
                self.channels@ == old(self).channels@,
                self.next_channel_id == old(self).next_channel_id,
                self.next_request_id == old(self).next_request_id,
        {
            let ghost before = doomed@;
            match self.pending.get(k) {
                Some(p) => {
                    if p.channel_id == channel_id {
                        doomed.push(*k);
                    }
                },
                None => {},
            }
            proof {
                assert(k == it.seq()[it.index()]);
                assert forall|k0: u32|
                    #[trigger] p0.contains_key(k0) && p0[k0].channel_id == channel_id && !doomed@.contains(k0)
                    implies exists|j: int| it.index() + 1 <= j < it.seq().len() && *it.seq()[j] == k0 by {
                    assert(!before.contains(k0)) by {
                        if before.contains(k0) {
                            let j = choose|j: int| 0 <= j < before.len() && before[j] == k0;
                            assert(doomed@[j] == k0);
                        }
                    }
                    let j = choose|j: int| it.index() <= j < it.seq().len() && *it.seq()[j] == k0;
                    if j == it.index() {
                        assert(doomed@[doomed@.len() - 1] == k0);
                    }
                }
            }
        }
        let mut pending: HashMap<u32, PendingRequest> = HashMap::new();
        std::mem::swap(&mut pending, &mut self.pending);
        let mut i: usize = 0;
        while i < doomed.len()
            invariant
                i <= doomed@.len(),
                forall|j: int|
                    0 <= j < doomed@.len() ==> p0.contains_key(#[trigger] doomed@[j])
                        && p0[doomed@[j]].channel_id == channel_id,
                forall|k: u32|
                    #[trigger] pending@.contains_key(k) <==> (p0.contains_key(k) && !(
                    exists|j: int| 0 <= j < i && doomed@[j] == k)),
                forall|k: u32| #[trigger] pending@.contains_key(k) ==> pending@[k] == p0[k],
            decreases doomed@.len() - i,
        {
            pending.remove(&doomed[i]);
            i = i + 1;
        }
        assert(pending@ =~= pending_after_cancel(p0, channel_id));
        self.pending = pending;
    }

    /// Dispatches a complete CTAPHID message.
    pub fn handle_message(&mut self, msg: CtapHidMessage) -> (acts: Vec<RelayAction>)
        ensures
            final(self).assembler_view() == old(self).assembler_view(),
            message_effect(old(self), final(self), msg.channel_id, msg.command, msg.data@, acts@),
    {
        if msg.command == CTAPHID_INIT {
            let resp = self.handle_init(msg.channel_id, msg.data.as_slice());
            send_message(&resp)
        } else if msg.command == CTAPHID_PING {
            let resp = CtapHidMessage { channel_id: msg.channel_id, command: CTAPHID_PING, data: msg.data };
            send_message(&resp)
        } else if msg.command == CTAPHID_CBOR {
            self.handle_cbor(msg.channel_id, msg.data.as_slice())
        } else if msg.command == CTAPHID_CANCEL {
            self.cancel_channel(msg.channel_id);
            Vec::new()
        } else {
            send_error(msg.channel_id, ERR_INVALID_CMD)
        }
    }

    /// Handles one raw packet from the virtual device.
    pub fn handle_device_packet(&mut self, raw: &[u8]) -> (acts: Vec<RelayAction>)
        ensures
            ({
                let (a, outcome) = assemble_step(old(self).assembler_view(), raw@);
                &&& final(self).assembler_view() == a
                &&& match outcome {
                    AssembledModel::Complete { channel_id, command, data } => message_effect(
                        old(self),
                        final(self),
                        channel_id,
                        command,
                        data,
                        acts@,
                    ),
                    AssembledModel::Rejected { channel_id, error } => same_tables(old(self), final(self))
                        && sends_packets(acts@, error_packets(channel_id, error)),
                    _ => same_tables(old(self), final(self)) && acts@.len() == 0,
                }
            }),
    {
        match self.assemble(raw) {
            Assembled::Complete(msg) => self.handle_message(msg),
            Assembled::Rejected { channel_id, error } => send_error(channel_id, error),
            _ => Vec::new(),
        }
    }

    /// Handles a response from the network: delivers it, as a CTAPHID_CBOR
    /// message made of the status byte and the payload, to the channel that
    /// made the request; a response to no pending request is dropped.
    pub fn handle_network_response(&mut self, response: NetworkFido2Response) -> (acts: Vec<RelayAction>)
        ensures
            final(self).assembler_view() == old(self).assembler_view(),
            final(self).channels() == old(self).channels(),
            final(self).next_channel_id() == old(self).next_channel_id(),
            final(self).next_request_id() == old(self).next_request_id(),
            final(self).pending() == old(self).pending().remove(response.request_id),
            old(self).pending().contains_key(response.request_id) ==> sends_packets(
                acts@,
                hid_packets(
                    old(self).pending()[response.request_id].channel_id,
                    CTAPHID_CBOR,
                    seq![response.status] + response.payload@,
                ),
            ),
            !old(self).pending().contains_key(response.request_id) ==> acts@.len() == 0,
    {
        proof {
            use_type_invariant(&*self);
        }
        let mut pending: HashMap<u32, PendingRequest> = HashMap::new();
        std::mem::swap(&mut pending, &mut self.pending);
        let removed = pending.remove(&response.request_id);
        self.pending = pending;
        match removed {
            None => {
                assert(self.pending@ =~= old(self).pending().remove(response.request_id));
                Vec::new()
            },
            Some(pending) => {
                let mut data: Vec<u8> = Vec::new();
                data.push(response.status);
                push_range(&mut data, response.payload.as_slice(), 0, response.payload.len());
                assert(data@ =~= seq![response.status] + response.payload@);
                let msg = CtapHidMessage { channel_id: pending.channel_id, command: CTAPHID_CBOR, data };
                send_message(&msg)
            },
        }
    }

    /// The channel that is waiting for the answer to a forwarded request.
    pub fn pending_channel(&self, request_id: u32) -> (r: Option<u32>)
        ensures
            self.pending().contains_key(request_id) ==> r == Some(self.pending()[request_id].channel_id),
            !self.pending().contains_key(request_id) ==> r is None,
    {
        match self.pending.get(&request_id) {
            Some(p) => Some(p.channel_id),
            None => None,
        }
    }

    /// The network layer could not take a forwarded request: forget it and
    /// answer the channel with a generic error.
    pub fn network_send_failed(&mut self, request_id: u32, channel_id: u32) -> (acts: Vec<RelayAction>)
        ensures
            final(self).assembler_view() == old(self).assembler_view(),
            final(self).channels() == old(self).channels(),
            final(self).next_channel_id() == old(self).next_channel_id(),
            final(self).next_request_id() == old(self).next_request_id(),
            final(self).pending() == old(self).pending().remove(request_id),
            sends_packets(acts@, error_packets(channel_id, ERR_OTHER)),
    {
        proof {
            use_type_invariant(&*self);
        }
        let mut pending: HashMap<u32, PendingRequest> = HashMap::new();
        std::mem::swap(&mut pending, &mut self.pending);
        pending.remove(&request_id);
        self.pending = pending;
        send_error(channel_id, ERR_OTHER)
    }
}

/// `raw[start..end]` as a slice.
fn slice_range(raw: &[u8], start: usize, end: usize) -> (r: &[u8])
    requires
        start <= end <= raw@.len(),
    ensures
        r@ == raw@.subrange(start as int, end as int),
{
    vstd::slice::slice_subrange(raw, start, end)
}

} // verus!

verus! {

// =========================================================================
// Relay laws
// =========================================================================

/// The assembler state and outcome after the first `k + 1` packets of
/// `pkts` are fed, one by one, starting from assembler state `a`.
pub open spec fn feed(a: Option<AsmModel>, pkts: Seq<Seq<u8>>, k: nat) -> (Option<AsmModel>, AssembledModel)
    decreases k,
{
    if k == 0 {
        assemble_step(a, pkts[0])
    } else {
        assemble_step(feed(a, pkts, (k - 1) as nat).0, pkts[k as int])
    }
}

/// Relay framing law: the packets of a message, fed to the relay's
/// assembler one by one, leave it waiting until the last packet and then
/// yield exactly that message (same channel, command and data). This holds
/// whatever the assembler held before, for every command without the type bit
/// and every length whose continuation sequence numbers stay below 0x80 (at
/// most 57 + 128 * 59 = 7609 bytes, the CTAPHID maximum).
pub proof fn law_relay_reassembles(a: Option<AsmModel>, cid: u32, cmd: u8, data: Seq<u8>)
    requires
        cmd < 0x80,
        data.len() <= INIT_DATA_SIZE + 128 * CONT_DATA_SIZE,
    ensures
        ({
            let pkts = hid_packets(cid, cmd, data);
            let c = cont_count(data.len());
            &&& forall|k: nat| k < c ==> (#[trigger] feed(a, pkts, k)).1 == AssembledModel::Pending
            &&& feed(a, pkts, c).1 == (AssembledModel::Complete { channel_id: cid, command: cmd, data })
        }),
{
    let pkts = hid_packets(cid, cmd, data);
    let n = data.len();
    let c = cont_count(n);
    lemma_framing_roundtrip(cid, cmd, data);
    lemma_cont_count(n);
    assert(c <= 128) by {
        if c > 128 {
            lemma_carried_monotone(n, 128, (c - 1) as nat);
        }
    }
    assert forall|k: nat| k <= c implies (#[trigger] feed(a, pkts, k)) == law_feed_state(a, cid, cmd, data, k) by {
        lemma_feed_state(a, cid, cmd, data, k);
    }
    assert forall|k: nat| k < c implies (#[trigger] feed(a, pkts, k)).1 == AssembledModel::Pending by {
        lemma_feed_state(a, cid, cmd, data, k);
    }
    lemma_feed_state(a, cid, cmd, data, c);
}

/// The state `law_relay_reassembles` walks through after `k + 1` packets.
spec fn law_feed_state(a: Option<AsmModel>, cid: u32, cmd: u8, data: Seq<u8>, k: nat) -> (Option<AsmModel>, AssembledModel) {
    let pkts = hid_packets(cid, cmd, data);
    let c = cont_count(data.len());
    if k < c {
        (
            Some(AsmModel {
                channel_id: cid,
                command: cmd,
                expected_len: data.len(),
                data: reassembled(pkts, k),
                next_seq: (k % 0x100) as u8,
            }),
            AssembledModel::Pending,
        )
    } else {
        (if c == 0 { a } else { None }, AssembledModel::Complete { channel_id: cid, command: cmd, data })
    }
}

#[verifier::spinoff_prover]
#[verifier::rlimit(60)]
proof fn lemma_feed_state(a: Option<AsmModel>, cid: u32, cmd: u8, data: Seq<u8>, k: nat)
    requires
        cmd < 0x80,
        data.len() <= INIT_DATA_SIZE + 128 * CONT_DATA_SIZE,
        k <= cont_count(data.len()),
    ensures
        feed(a, hid_packets(cid, cmd, data), k) == law_feed_state(a, cid, cmd, data, k),
    decreases k,
{
    let pkts = hid_packets(cid, cmd, data);
    let n = data.len();
    let c = cont_count(n);
    lemma_framing_roundtrip(cid, cmd, data);
    lemma_cont_count(n);
    assert(c <= 128) by {
        if c > 128 {
            lemma_carried_monotone(n, 128, (c - 1) as nat);
        }
    }
    if k == 0 {
        let raw = pkts[0];
        assert(raw.take(4) == be32(cid));
        crate::bytes::lemma_be32_bytes(cid);
        assert(packet_cid(raw) == cid);
        assert((0x80u8 | cmd) & 0x80 != 0 && (0x80u8 | cmd) & 0x7F == cmd) by (bit_vector)
            requires
                cmd < 0x80,
        ;
        assert(reassembled(pkts, 0) == asm_start(init_payload(raw), announced_len(raw)));
        if c == 0 {
            assert(reassembled(pkts, 0) == data);
        } else {
            assert(reassembled(pkts, 0).len() < n);
        }
    } else {
        lemma_feed_state(a, cid, cmd, data, (k - 1) as nat);
        let raw = pkts[k as int];
        assert(raw.take(4) == be32(cid));
        crate::bytes::lemma_be32_bytes(cid);
        assert(packet_cid(raw) == cid);
        let s = ((k - 1) % 0x100) as u8;
        assert(raw[4] == s);
        assert(s < 0x80);
        assert(s & 0x80 == 0) by (bit_vector)
            requires
                s < 0x80,
        ;
        assert(((k - 1) % 0x100) as u8 == ((k - 1) as u8)) by {
            assert(k - 1 < 0x100);
        }
        assert(((k - 1) as u8).wrapping_add(1) == (k % 0x100) as u8) by {
            assert(k < 0x100 ==> (k % 0x100) == k);
        }
        assert(reassembled(pkts, k) == asm_extend(reassembled(pkts, (k - 1) as nat), n, cont_payload(raw)));
    }
}

/// Request routing law: a CTAPHID_CBOR message with a payload is forwarded
/// under a request id that the relay then holds as pending for the
/// requesting channel, so the network's response to that id goes back to that
/// channel (see `handle_network_response`).
pub proof fn law_response_reaches_requester(
    pre: &RelayState,
    post: &RelayState,
    cid: u32,
    data: Seq<u8>,
    acts: Seq<RelayAction>,
)
    requires
        cbor_effect(pre, post, cid, data, acts),
        data.len() > 0,
    ensures
        acts.len() == 1,
        acts[0] matches RelayAction::ToNetwork(r) && post.pending().contains_key(r.request_id)
            && post.pending()[r.request_id].channel_id == cid,
{
}

/// Cancel law: after a CTAPHID_CANCEL on a channel no request of that
/// channel is pending, and every request of another channel is still pending,
/// unchanged.
pub proof fn law_cancel_drops_only_channel(p: Map<u32, PendingRequest>, cid: u32)
    ensures
        forall|k: u32|
            #[trigger] pending_after_cancel(p, cid).contains_key(k) ==> pending_after_cancel(p, cid)[k].channel_id != cid,
        forall|k: u32|
            #[trigger] p.contains_key(k) && p[k].channel_id != cid ==> pending_after_cancel(p, cid).contains_key(k)
                && pending_after_cancel(p, cid)[k] == p[k],
{
}

/// Channel law: every channel id the relay hands out is usable: never the
/// reserved id 0 and never the broadcast channel.
pub proof fn law_channel_ids_usable(c: u32)
    requires
        c != 0 && c != CID_BROADCAST,
    ensures
        next_channel_after(c) != 0,
        next_channel_after(c) != CID_BROADCAST,
{
}

/// The identity of the virtual FIDO2 HID device created through uhid.
pub struct VirtualDeviceParams {
    pub name: String,
    pub phys: String,
    pub uniq: String,
    /// Bus type: USB.
    pub bus_usb: bool,
    pub vendor: u32,
    pub product: u32,
    pub version: u32,
    pub country: u32,
    pub report_descriptor: Vec<u8>,
}

/// The parameters of the virtual authenticator: "S-KVM Virtual FIDO2
/// Authenticator" on USB, vendor 0x1209 (pid.codes), product 0xF1D0, with
/// the FIDO report descriptor.
pub fn virtual_device_params() -> (p: VirtualDeviceParams)
    ensures
        p.name@ == "S-KVM Virtual FIDO2 Authenticator"@,
        p.phys@.len() == 0,
        p.uniq@ == "s-kvm-fido2-0"@,
        p.bus_usb,
        p.vendor == 0x1209,
        p.product == 0xF1D0,
        p.version == 0,
        p.country == 0,
        p.report_descriptor@ == FIDO_HID_REPORT_DESCRIPTOR@,
{
    let mut rd: Vec<u8> = Vec::new();
    let mut i: usize = 0;
    while i < 34
        invariant
            0 <= i <= 34,
            rd@ == FIDO_HID_REPORT_DESCRIPTOR@.subrange(0, i as int),
        decreases 34 - i,
    {
        rd.push(FIDO_HID_REPORT_DESCRIPTOR[i]);
        i = i + 1;
        assert(rd@ =~= FIDO_HID_REPORT_DESCRIPTOR@.subrange(0, i as int));
    }
    assert(rd@ =~= FIDO_HID_REPORT_DESCRIPTOR@);
    VirtualDeviceParams {
        name: String::from_str("S-KVM Virtual FIDO2 Authenticator"),
        phys: String::new(),
        uniq: String::from_str("s-kvm-fido2-0"),
        bus_usb: true,
        vendor: 0x1209,
        product: 0xF1D0,
        version: 0,
        country: 0,
        report_descriptor: rd,
    }
}

/// What the kernel reported on the uhid device.
pub enum UhidEvent {
    /// An output report written by the host (a CTAPHID packet).
    Output(Vec<u8>),
    /// The kernel stopped the device.
    Stop,
    /// Start, open or close: informational.
    Other,
    /// Reading failed.
    ReadError,
}

/// What the device loop does next.
pub enum DeviceLoopStep {
    /// Hand the packet to the relay and continue.
    Forward(Vec<u8>),
    /// Continue.
    Continue,
    /// Stop the loop and destroy the device.
    Stop,
}

/// The device loop's answer to a uhid event: output reports go to the
/// relay, a stop or a read error ends the loop, anything else is ignored.
pub fn uhid_event_step(event: UhidEvent) -> (s: DeviceLoopStep)
    ensures
        match event {
            UhidEvent::Output(d) => s matches DeviceLoopStep::Forward(p) && p@ == d@,
            UhidEvent::Stop | UhidEvent::ReadError => s is Stop,
            UhidEvent::Other => s is Continue,
        },
{
    match event {
        UhidEvent::Output(d) => DeviceLoopStep::Forward(d),
        UhidEvent::Stop => DeviceLoopStep::Stop,
        UhidEvent::ReadError => DeviceLoopStep::Stop,
        UhidEvent::Other => DeviceLoopStep::Continue,
    }
}

} // verus!
