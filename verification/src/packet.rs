//! NTP packets: their wire format, and the reply that a server gives to one.

use crate::address::RemoteAddr;
use crate::bytes::{
    be_bytes, be_range, be_value, lemma_be_bytes_len, lemma_be_range_values, lemma_be_value_bound,
    law_bytes_weigh_less_and_less, lemma_read_of_write, lemma_write_of_read, octet_at, quad_at,
    read_u32, write_u32,
};
use crate::timestamp::{NtpFracValue, NtpTimestamp};
use vstd::prelude::*;

verus! {

/// Length of a packet without extensions.
pub const PACKET_LEN: usize = 48;

/// The port NTP servers listen on.
pub const NTP_PORT: u16 = 123;

/// An NTP packet, with the peer it came from or goes to and the time it arrived.
#[derive(Debug, Copy, Clone, PartialEq, Eq, Structural)]
pub struct NtpPacket {
    pub remote_addr: RemoteAddr,
    pub local_ts: NtpTimestamp,
    pub leap: u8,
    pub version: u8,
    pub mode: u8,
    pub stratum: u8,
    pub poll: i8,
    pub precision: i8,
    pub delay: NtpFracValue,
    pub dispersion: NtpFracValue,
    pub ref_id: u32,
    pub ref_ts: NtpTimestamp,
    pub orig_ts: NtpTimestamp,
    pub rx_ts: NtpTimestamp,
    pub tx_ts: NtpTimestamp,
}

/// What a server says of its own clock.
#[derive(Debug, Copy, Clone, PartialEq, Eq, Structural)]
pub struct NtpServerState {
    pub leap: u8,
    pub stratum: u8,
    pub precision: i8,
    pub ref_id: u32,
    pub ref_ts: NtpTimestamp,
    pub dispersion: NtpFracValue,
    pub delay: NtpFracValue,
}

/// What came of waiting for a datagram.
#[derive(Debug)]
pub enum RecvOutcome {
    /// A datagram, its sender, and the time it was taken off the socket.
    Datagram { bytes: Vec<u8>, remote_addr: RemoteAddr, local_ts: NtpTimestamp },
    /// Nothing had arrived.
    WouldBlock,
    /// The socket failed; the text says how.
    Failed(String),
}

/// Why no packet was received.
#[derive(Debug)]
pub enum ReceiveError {
    WouldBlock,
    TooShort,
    UnsupportedVersion,
    Socket(String),
}

/// Bytes for a peer.
#[derive(Debug, Copy, Clone)]
pub struct Datagram {
    pub bytes: [u8; 48],
    pub to: RemoteAddr,
}

/// The signed number that a byte stands for in two's complement.
pub open spec fn signed(b: u8) -> int {
    if b < 128 {
        b as int
    } else {
        b - 256
    }
}

/// The byte that stands for a signed number in two's complement.
pub open spec fn unsigned(v: i8) -> int {
    if v >= 0 {
        v as int
    } else {
        v + 256
    }
}

/// The version number that the first byte of a packet carries.
pub open spec fn wire_version(b: u8) -> int {
    b as int / 8 % 8
}

/// The packet that the first 48 of `bytes` spell.
pub open spec fn parsed(
    bytes: Seq<u8>,
    remote_addr: RemoteAddr,
    local_ts: NtpTimestamp,
) -> NtpPacket {
    NtpPacket {
        remote_addr,
        local_ts,
        leap: bytes[0] / 64,
        version: wire_version(bytes[0]) as u8,
        mode: bytes[0] % 8,
        stratum: bytes[1],
        poll: signed(bytes[2]) as i8,
        precision: signed(bytes[3]) as i8,
        delay: NtpFracValue { val: be_value(bytes.subrange(4, 8)) as u32 },
        dispersion: NtpFracValue { val: be_value(bytes.subrange(8, 12)) as u32 },
        ref_id: be_value(bytes.subrange(12, 16)) as u32,
        ref_ts: NtpTimestamp { ts: be_value(bytes.subrange(16, 24)) as u64 },
        orig_ts: NtpTimestamp { ts: be_value(bytes.subrange(24, 32)) as u64 },
        rx_ts: NtpTimestamp { ts: be_value(bytes.subrange(32, 40)) as u64 },
        tx_ts: NtpTimestamp { ts: be_value(bytes.subrange(40, 48)) as u64 },
    }
}

/// What receiving makes of an outcome.
pub open spec fn received(outcome: RecvOutcome) -> Result<NtpPacket, ReceiveError> {
    match outcome {
        RecvOutcome::Datagram { bytes, remote_addr, local_ts } => if bytes@.len() < PACKET_LEN {
            Err(ReceiveError::TooShort)
        } else if !(1 <= wire_version(bytes@[0]) <= 4) {
            Err(ReceiveError::UnsupportedVersion)
        } else {
            Ok(parsed(bytes@, remote_addr, local_ts))
        },
        RecvOutcome::WouldBlock => Err(ReceiveError::WouldBlock),
        RecvOutcome::Failed(e) => Err(ReceiveError::Socket(e)),
    }
}

impl NtpPacket {
    /// Whether leap, version and mode fit the bits that the format has for them.
    pub open spec fn fits(self) -> bool {
        self.leap < 4 && self.version < 8 && self.mode < 8
    }

    /// The packet as it goes over the wire.
    pub open spec fn wire(self) -> Seq<u8> {
        seq![
            (self.leap << 6) | (self.version << 3) | self.mode,
            self.stratum,
            unsigned(self.poll) as u8,
            unsigned(self.precision) as u8,
        ] + be_bytes(self.delay.val as nat, 4) + be_bytes(self.dispersion.val as nat, 4)
            + be_bytes(self.ref_id as nat, 4) + be_bytes(self.ref_ts.ts as nat, 8) + be_bytes(
            self.orig_ts.ts as nat,
            8,
        ) + be_bytes(self.rx_ts.ts as nat, 8) + be_bytes(self.tx_ts.ts as nat, 8)
    }

    /// Turns what the socket gave into a packet.
    pub fn receive(outcome: RecvOutcome) -> (result: Result<NtpPacket, ReceiveError>)
        ensures
            result == received(outcome),
            result matches Ok(p) ==> {
                let bytes = outcome->bytes@;
                &&& outcome is Datagram
                &&& bytes.len() >= 48
                &&& 64 * p.leap + 8 * p.version + p.mode == bytes[0]
                &&& p.stratum == bytes[1]
                &&& p.poll as int % 256 == bytes[2]
                &&& p.precision as int % 256 == bytes[3]
                &&& p.remote_addr == outcome->remote_addr
                &&& p.local_ts == outcome->local_ts
            },
    {
        match outcome {
            RecvOutcome::Datagram { bytes, remote_addr, local_ts } => {
                if bytes.len() < PACKET_LEN {
                    return Err(ReceiveError::TooShort);
                }
                let buf: &[u8] = bytes.as_slice();
                let first: u8 = buf[0];
                let leap: u8 = first >> 6;
                let version: u8 = (first >> 3) & 0x7;
                let mode: u8 = first & 0x7;
                assert(first >> 6 == first / 64 && (first >> 3) & 0x7 == first / 8 % 8 && first
                    & 0x7 == first % 8) by (bit_vector);
                if version < 1 || version > 4 {
                    return Err(ReceiveError::UnsupportedVersion);
                }
                proof {
                    law_parse_layout(bytes@, remote_addr, local_ts);
                    lemma_as_i8(buf[2]);
                    lemma_as_i8(buf[3]);
                    assert forall|i: int, j: int| 0 <= i <= j <= buf@.len() implies #[trigger] buf@.subrange(
                        i,
                        j,
                    ).subrange(0, j - i) == buf@.subrange(i, j) by {
                        assert(buf@.subrange(i, j).subrange(0, j - i) =~= buf@.subrange(i, j));
                    }
                }
                Ok(
                    NtpPacket {
                        remote_addr,
                        local_ts,
                        leap,
                        version,
                        mode,
                        stratum: buf[1],
                        poll: buf[2] as i8,
                        precision: buf[3] as i8,
                        delay: NtpFracValue::read(&buf[4..8]),
                        dispersion: NtpFracValue::read(&buf[8..12]),
                        ref_id: read_u32(&buf[12..16]),
                        ref_ts: NtpTimestamp::read(&buf[16..24]),
                        orig_ts: NtpTimestamp::read(&buf[24..32]),
                        rx_ts: NtpTimestamp::read(&buf[32..40]),
                        tx_ts: NtpTimestamp::read(&buf[40..48]),
                    },
                )
            },
            RecvOutcome::WouldBlock => Err(ReceiveError::WouldBlock),
            RecvOutcome::Failed(e) => Err(ReceiveError::Socket(e)),
        }
    }

    /// The datagram that carries the packet to its peer.
    pub fn send(&self) -> (datagram: Datagram)
        ensures
            datagram.bytes@ == self.wire(),
            datagram.to == self.remote_addr,
            self.fits() ==> datagram.bytes@[0] == 64 * self.leap + 8 * self.version + self.mode,
            datagram.bytes@[1] == self.stratum,
            datagram.bytes@[2] == self.poll as int % 256,
            datagram.bytes@[3] == self.precision as int % 256,
    {
        let mut bytes: [u8; 48] = [0; 48];
        bytes[0] = self.leap << 6 | self.version << 3 | self.mode;
        bytes[1] = self.stratum;
        bytes[2] = self.poll as u8;
        bytes[3] = self.precision as u8;
        proof {
            lemma_as_u8(self.poll);
            lemma_as_u8(self.precision);
        }
        let buf: &mut [u8] = &mut bytes;
        let (_head, rest) = buf.split_at_mut(4);
        let (delay, rest) = rest.split_at_mut(4);
        let (dispersion, rest) = rest.split_at_mut(4);
        let (ref_id, rest) = rest.split_at_mut(4);
        let (ref_ts, rest) = rest.split_at_mut(8);
        let (orig_ts, rest) = rest.split_at_mut(8);
        let (rx_ts, tx_ts) = rest.split_at_mut(8);
        self.delay.write(delay);
        self.dispersion.write(dispersion);
        write_u32(ref_id, self.ref_id);
        self.ref_ts.write(ref_ts);
        self.orig_ts.write(orig_ts);
        self.rx_ts.write(rx_ts);
        self.tx_ts.write(tx_ts);
        assert(bytes@ =~= self.wire());
        proof {
            lemma_wire_head(*self);
        }
        Datagram { bytes, to: self.remote_addr }
    }

    pub open spec fn spec_is_request(self) -> bool {
        ||| self.mode == 1
        ||| self.mode == 3
        ||| self.mode == 0 && self.version == 1 && self.remote_addr.port() != NTP_PORT
    }

    /// Whether the packet asks for a reply: symmetric active and client packets do, and so do
    /// the packets of version 1, which has no modes, unless a server's port sent them.
    #[verifier::when_used_as_spec(spec_is_request)]
    pub fn is_request(self) -> (request: bool)
        ensures
            request == self.spec_is_request(),
    {
        self.mode == 1 || self.mode == 3 || (self.mode == 0 && self.version == 1
            && self.remote_addr.port() != NTP_PORT)
    }

    /// The reply to the packet, sent at `now`: what the server says of its clock, the times
    /// the request was sent, arrived and was answered, and nothing else but the request's own
    /// version and poll interval.
    pub open spec fn response(self, state: NtpServerState, now: NtpTimestamp) -> NtpPacket {
        NtpPacket {
            remote_addr: self.remote_addr,
            local_ts: NtpTimestamp { ts: 0 },
            leap: state.leap,
            version: self.version,
            mode: if self.mode == 1 {
                2
            } else {
                4
            },
            stratum: state.stratum,
            poll: self.poll,
            precision: state.precision,
            delay: state.delay,
            dispersion: state.dispersion,
            ref_id: state.ref_id,
            ref_ts: state.ref_ts,
            orig_ts: self.tx_ts,
            rx_ts: self.local_ts,
            tx_ts: now,
        }
    }

    /// The reply to the packet, if it asks for one; `now` is the time of the reply.
    pub fn make_response(&self, state: &NtpServerState, now: NtpTimestamp) -> (reply: Option<
        NtpPacket,
    >)
        ensures
            reply == (if self.is_request() {
                Some(self.response(*state, now))
            } else {
                None
            }),
            reply is Some <==> (self.mode == 1 || self.mode == 3 || (self.mode == 0
                && self.version == 1 && self.remote_addr.port() != 123)),
            reply matches Some(reply) ==> {
                &&& reply.remote_addr == self.remote_addr
                &&& reply.version == self.version
                &&& reply.mode == (if self.mode == 1 { 2u8 } else { 4u8 })
                &&& reply.poll == self.poll
                &&& reply.orig_ts == self.tx_ts
                &&& reply.rx_ts == self.local_ts
                &&& reply.tx_ts == now
                &&& reply.leap == state.leap
                &&& reply.stratum == state.stratum
                &&& reply.precision == state.precision
                &&& reply.delay == state.delay
                &&& reply.dispersion == state.dispersion
                &&& reply.ref_id == state.ref_id
                &&& reply.ref_ts == state.ref_ts
            },
    {
        if !self.is_request() {
            return None;
        }
        Some(
            NtpPacket {
                remote_addr: self.remote_addr,
                local_ts: NtpTimestamp::zero(),
                leap: state.leap,
                version: self.version,
                mode: if self.mode == 1 {
                    2
                } else {
                    4
                },
                stratum: state.stratum,
                poll: self.poll,
                precision: state.precision,
                delay: state.delay,
                dispersion: state.dispersion,
                ref_id: state.ref_id,
                ref_ts: state.ref_ts,
                orig_ts: self.tx_ts,
                rx_ts: self.local_ts,
                tx_ts: now,
            },
        )
    }
}

impl NtpServerState {
    pub open spec fn spec_initial() -> NtpServerState {
        NtpServerState {
            leap: 0,
            stratum: 1,
            precision: 0,
            ref_id: 0,
            ref_ts: NtpTimestamp { ts: 0 },
            dispersion: NtpFracValue { val: 0 },
            delay: NtpFracValue { val: 0 },
        }
    }

    /// A primary server with nothing else to say.
    #[verifier::when_used_as_spec(spec_initial)]
    pub fn initial() -> (state: NtpServerState)
        ensures
            state == NtpServerState::spec_initial(),
    {
        NtpServerState {
            leap: 0,
            stratum: 1,
            precision: 0,
            ref_id: 0,
            ref_ts: NtpTimestamp::zero(),
            dispersion: NtpFracValue::zero(),
            delay: NtpFracValue::zero(),
        }
    }
}

impl ReceiveError {
    pub open spec fn text(self) -> Seq<char> {
        match self {
            ReceiveError::WouldBlock => "Would Block"@,
            ReceiveError::TooShort => "Packet too short"@,
            ReceiveError::UnsupportedVersion => "Unsupported version"@,
            ReceiveError::Socket(e) => e@,
        }
    }

    /// The error in words.
    pub fn message(&self) -> (text: String)
        ensures
            text@ == self.text(),
    {
        match self {
            ReceiveError::WouldBlock => "Would Block".to_string(),
            ReceiveError::TooShort => "Packet too short".to_string(),
            ReceiveError::UnsupportedVersion => "Unsupported version".to_string(),
            ReceiveError::Socket(e) => e.clone(),
        }
    }
}

/// A byte read as `i8` is its two's complement value.
proof fn lemma_as_i8(b: u8)
    ensures
        b as i8 == signed(b),
{
    assert(b as i8 == (if b < 128 {
        b as int
    } else {
        b - 256
    })) by (bit_vector);
}

/// A signed number written as a byte is its two's complement.
proof fn lemma_as_u8(v: i8)
    ensures
        v as u8 == unsigned(v),
{
    assert(v as u8 == (if v >= 0 {
        v as int
    } else {
        v + 256
    })) by (bit_vector);
}

/// Leap, version and mode share the first byte without touching.
pub proof fn law_first_byte(leap: u8, version: u8, mode: u8)
    requires
        leap < 4,
        version < 8,
        mode < 8,
    ensures
        (leap << 6) | (version << 3) | mode == 64 * leap + 8 * version + mode,
{
    assert((leap << 6) | (version << 3) | mode == 64 * leap + 8 * version + mode) by (bit_vector)
        requires
            leap < 4,
            version < 8,
            mode < 8,
    ;
}

/// The numbers of a packet take up fixed places in its wire form.
proof fn lemma_wire_layout(p: NtpPacket)
    ensures
        p.wire().len() == PACKET_LEN,
        p.wire().subrange(4, 8) == be_bytes(p.delay.val as nat, 4),
        p.wire().subrange(8, 12) == be_bytes(p.dispersion.val as nat, 4),
        p.wire().subrange(12, 16) == be_bytes(p.ref_id as nat, 4),
        p.wire().subrange(16, 24) == be_bytes(p.ref_ts.ts as nat, 8),
        p.wire().subrange(24, 32) == be_bytes(p.orig_ts.ts as nat, 8),
        p.wire().subrange(32, 40) == be_bytes(p.rx_ts.ts as nat, 8),
        p.wire().subrange(40, 48) == be_bytes(p.tx_ts.ts as nat, 8),
{
    lemma_be_bytes_len(p.delay.val as nat, 4);
    lemma_be_bytes_len(p.dispersion.val as nat, 4);
    lemma_be_bytes_len(p.ref_id as nat, 4);
    lemma_be_bytes_len(p.ref_ts.ts as nat, 8);
    lemma_be_bytes_len(p.orig_ts.ts as nat, 8);
    lemma_be_bytes_len(p.rx_ts.ts as nat, 8);
    lemma_be_bytes_len(p.tx_ts.ts as nat, 8);
    assert(p.wire().subrange(4, 8) =~= be_bytes(p.delay.val as nat, 4));
    assert(p.wire().subrange(8, 12) =~= be_bytes(p.dispersion.val as nat, 4));
    assert(p.wire().subrange(12, 16) =~= be_bytes(p.ref_id as nat, 4));
    assert(p.wire().subrange(16, 24) =~= be_bytes(p.ref_ts.ts as nat, 8));
    assert(p.wire().subrange(24, 32) =~= be_bytes(p.orig_ts.ts as nat, 8));
    assert(p.wire().subrange(32, 40) =~= be_bytes(p.rx_ts.ts as nat, 8));
    assert(p.wire().subrange(40, 48) =~= be_bytes(p.tx_ts.ts as nat, 8));
}

/// The first four bytes of a packet's wire form.
proof fn lemma_wire_head(p: NtpPacket)
    ensures
        p.fits() ==> p.wire()[0] == 64 * p.leap + 8 * p.version + p.mode,
        p.wire()[1] == p.stratum,
        p.wire()[2] == p.poll as int % 256,
        p.wire()[3] == p.precision as int % 256,
{
    if p.fits() {
        law_first_byte(p.leap, p.version, p.mode);
    }
}

/// A packet that is sent and parsed is the same packet.
pub proof fn law_parse_of_wire(p: NtpPacket)
    requires
        p.fits(),
    ensures
        p.wire().len() == PACKET_LEN,
        parsed(p.wire(), p.remote_addr, p.local_ts) == p,
{
    lemma_wire_layout(p);
    law_first_byte(p.leap, p.version, p.mode);
    lemma_be_range_values();
    lemma_read_of_write(p.delay.val as nat, 4);
    lemma_read_of_write(p.dispersion.val as nat, 4);
    lemma_read_of_write(p.ref_id as nat, 4);
    lemma_read_of_write(p.ref_ts.ts as nat, 8);
    lemma_read_of_write(p.orig_ts.ts as nat, 8);
    lemma_read_of_write(p.rx_ts.ts as nat, 8);
    lemma_read_of_write(p.tx_ts.ts as nat, 8);
    let w = p.wire();
    assert(signed(w[2]) == p.poll);
    assert(signed(w[3]) == p.precision);
}

/// Bytes that are parsed and sent again are the same 48 bytes.
pub proof fn law_wire_of_parse(bytes: Seq<u8>, remote_addr: RemoteAddr, local_ts: NtpTimestamp)
    requires
        bytes.len() >= PACKET_LEN,
    ensures
        parsed(bytes, remote_addr, local_ts).fits(),
        parsed(bytes, remote_addr, local_ts).wire() == bytes.subrange(0, PACKET_LEN as int),
{
    let p = parsed(bytes, remote_addr, local_ts);
    let b = bytes[0];
    law_first_byte(p.leap, p.version, p.mode);
    lemma_be_range_values();
    lemma_field(bytes, 4, 4);
    lemma_field(bytes, 8, 4);
    lemma_field(bytes, 12, 4);
    lemma_field(bytes, 16, 8);
    lemma_field(bytes, 24, 8);
    lemma_field(bytes, 32, 8);
    lemma_field(bytes, 40, 8);
    lemma_wire_layout(p);
    let w = p.wire();
    assert(w[0] == b);
    assert forall|i: int| 0 <= i < 48 implies w[i] == bytes[i] by {
        if 4 <= i < 8 {
            assert(w[i] == w.subrange(4, 8)[i - 4]);
        } else if 8 <= i < 12 {
            assert(w[i] == w.subrange(8, 12)[i - 8]);
        } else if 12 <= i < 16 {
            assert(w[i] == w.subrange(12, 16)[i - 12]);
        } else if 16 <= i < 24 {
            assert(w[i] == w.subrange(16, 24)[i - 16]);
        } else if 24 <= i < 32 {
            assert(w[i] == w.subrange(24, 32)[i - 24]);
        } else if 32 <= i < 40 {
            assert(w[i] == w.subrange(32, 40)[i - 32]);
        } else if 40 <= i < 48 {
            assert(w[i] == w.subrange(40, 48)[i - 40]);
        }
    }
    assert(w =~= bytes.subrange(0, 48));
}

/// A number in a byte string is small enough for its width, and spells its bytes again.
proof fn lemma_field(bytes: Seq<u8>, start: int, width: int)
    requires
        0 <= start,
        0 <= width,
        start + width <= bytes.len(),
    ensures
        be_value(bytes.subrange(start, start + width)) < be_range(width as nat),
        be_bytes(be_value(bytes.subrange(start, start + width)), width as nat) == bytes.subrange(
            start,
            start + width,
        ),
{
    lemma_be_value_bound(bytes.subrange(start, start + width));
    lemma_write_of_read(bytes.subrange(start, start + width));
}

/// A packet of a supported version arrives as it was sent.
pub proof fn law_receive_of_send(p: NtpPacket, bytes: Vec<u8>)
    requires
        p.fits(),
        1 <= p.version <= 4,
        bytes@ == p.wire(),
    ensures
        received(
            (RecvOutcome::Datagram { bytes, remote_addr: p.remote_addr, local_ts: p.local_ts }),
        ) == Ok::<NtpPacket, ReceiveError>(p),
{
    law_parse_of_wire(p);
}

/// Every received packet has a supported version and fields that fit, and comes from
/// the datagram's sender.
pub proof fn law_received_packets_fit(outcome: RecvOutcome)
    ensures
        received(outcome) matches Ok(p) ==> {
            &&& p.fits()
            &&& 1 <= p.version <= 4
            &&& outcome matches RecvOutcome::Datagram { bytes, remote_addr, local_ts }
            &&& p.remote_addr == remote_addr
            &&& p.local_ts == local_ts
        },
{
}

/// A reply is no request: two servers that answer each other fall silent at once.
pub proof fn law_replies_are_not_answered(
    request: NtpPacket,
    state: NtpServerState,
    now: NtpTimestamp,
)
    ensures
        !request.response(state, now).is_request(),
{
}

/// The client reads in the reply all that the server says of its clock, sees its own transmit
/// time come back as the originate time, and finds its own version and poll interval.
pub proof fn law_client_reads_reply(
    outcome: RecvOutcome,
    state: NtpServerState,
    now: NtpTimestamp,
    server: RemoteAddr,
    arrival: NtpTimestamp,
)
    requires
        received(outcome) is Ok,
        state.leap < 4,
    ensures
        ({
            let request = received(outcome)->Ok_0;
            let reply = request.response(state, now);
            let seen = parsed(reply.wire(), server, arrival);
            &&& seen == NtpPacket { remote_addr: server, local_ts: arrival, ..reply }
            &&& seen.orig_ts == request.tx_ts
            &&& seen.rx_ts == request.local_ts
            &&& seen.tx_ts == now
            &&& seen.version == request.version
            &&& seen.mode == (if request.mode == 1 { 2u8 } else { 4u8 })
            &&& seen.stratum == state.stratum
            &&& seen.leap == state.leap
            &&& seen.poll == request.poll
            &&& seen.precision == state.precision
            &&& seen.delay == state.delay
            &&& seen.dispersion == state.dispersion
            &&& seen.ref_id == state.ref_id
            &&& seen.ref_ts == state.ref_ts
            &&& reply.remote_addr == request.remote_addr
        }),
{
    let request = received(outcome)->Ok_0;
    let reply = request.response(state, now);
    law_received_packets_fit(outcome);
    law_parse_of_wire(NtpPacket { remote_addr: server, local_ts: arrival, ..reply });
}

/// Every field of a packet has its place on the wire: leap, version and mode share the first
/// byte; the stratum is the second byte as it stands; the poll interval and the precision follow
/// in two's complement; and the numbers follow with their most significant bytes first.
pub proof fn law_wire_layout(p: NtpPacket)
    ensures
        ({
            let w = p.wire();
            &&& w.len() == 48
            &&& p.fits() ==> w[0] == 64 * p.leap + 8 * p.version + p.mode
            &&& w[1] == p.stratum
            &&& w[2] == p.poll as int % 256
            &&& w[3] == p.precision as int % 256
            &&& quad_at(w, 4) == p.delay.val
            &&& quad_at(w, 8) == p.dispersion.val
            &&& quad_at(w, 12) == p.ref_id
            &&& octet_at(w, 16) == p.ref_ts.ts
            &&& octet_at(w, 24) == p.orig_ts.ts
            &&& octet_at(w, 32) == p.rx_ts.ts
            &&& octet_at(w, 40) == p.tx_ts.ts
        }),
{
    let w = p.wire();
    lemma_wire_head(p);
    lemma_wire_layout(p);
    lemma_be_range_values();
    lemma_read_of_write(p.delay.val as nat, 4);
    lemma_read_of_write(p.dispersion.val as nat, 4);
    lemma_read_of_write(p.ref_id as nat, 4);
    lemma_read_of_write(p.ref_ts.ts as nat, 8);
    lemma_read_of_write(p.orig_ts.ts as nat, 8);
    lemma_read_of_write(p.rx_ts.ts as nat, 8);
    lemma_read_of_write(p.tx_ts.ts as nat, 8);
    law_bytes_weigh_less_and_less(w, 4);
    law_bytes_weigh_less_and_less(w, 8);
    law_bytes_weigh_less_and_less(w, 12);
    law_bytes_weigh_less_and_less(w, 16);
    law_bytes_weigh_less_and_less(w, 24);
    law_bytes_weigh_less_and_less(w, 32);
    law_bytes_weigh_less_and_less(w, 40);
}

/// Every field of a packet is read from its own place on the wire, and the sender and the time
/// of arrival are those of the datagram.
pub proof fn law_parse_layout(bytes: Seq<u8>, remote_addr: RemoteAddr, local_ts: NtpTimestamp)
    requires
        bytes.len() >= 48,
    ensures
        ({
            let p = parsed(bytes, remote_addr, local_ts);
            &&& p.remote_addr == remote_addr
            &&& p.local_ts == local_ts
            &&& p.leap < 4 && p.version < 8 && p.mode < 8
            &&& bytes[0] == 64 * p.leap + 8 * p.version + p.mode
            &&& p.stratum == bytes[1]
            &&& p.poll as int % 256 == bytes[2]
            &&& p.precision as int % 256 == bytes[3]
            &&& p.delay.val == quad_at(bytes, 4)
            &&& p.dispersion.val == quad_at(bytes, 8)
            &&& p.ref_id == quad_at(bytes, 12)
            &&& p.ref_ts.ts == octet_at(bytes, 16)
            &&& p.orig_ts.ts == octet_at(bytes, 24)
            &&& p.rx_ts.ts == octet_at(bytes, 32)
            &&& p.tx_ts.ts == octet_at(bytes, 40)
        }),
{
    lemma_be_range_values();
    lemma_field(bytes, 4, 4);
    lemma_field(bytes, 8, 4);
    lemma_field(bytes, 12, 4);
    lemma_field(bytes, 16, 8);
    lemma_field(bytes, 24, 8);
    lemma_field(bytes, 32, 8);
    lemma_field(bytes, 40, 8);
    law_bytes_weigh_less_and_less(bytes, 4);
    law_bytes_weigh_less_and_less(bytes, 8);
    law_bytes_weigh_less_and_less(bytes, 12);
    law_bytes_weigh_less_and_less(bytes, 16);
    law_bytes_weigh_less_and_less(bytes, 24);
    law_bytes_weigh_less_and_less(bytes, 32);
    law_bytes_weigh_less_and_less(bytes, 40);
}

/// A datagram is taken for a packet exactly when it has 48 bytes or more and bits 3 to 5 of the
/// first say version 1, 2, 3 or 4; a short one is refused as such, whatever it says; and what
/// the socket reports is handed on.
pub proof fn law_what_is_received(outcome: RecvOutcome)
    ensures
        match outcome {
            RecvOutcome::Datagram { bytes, remote_addr, local_ts } => {
                let version = bytes@[0] as int / 8 % 8;
                &&& bytes@.len() < 48 <==> received(outcome) == Err::<NtpPacket, ReceiveError>(
                    ReceiveError::TooShort,
                )
                &&& bytes@.len() >= 48 && !(1 <= version <= 4) <==> received(outcome) == Err::<
                    NtpPacket,
                    ReceiveError,
                >(ReceiveError::UnsupportedVersion)
                &&& bytes@.len() >= 48 && 1 <= version <= 4 <==> received(outcome) == Ok::<
                    NtpPacket,
                    ReceiveError,
                >(parsed(bytes@, remote_addr, local_ts))
            },
            RecvOutcome::WouldBlock => received(outcome) == Err::<NtpPacket, ReceiveError>(
                ReceiveError::WouldBlock,
            ),
            RecvOutcome::Failed(error) => received(outcome) == Err::<NtpPacket, ReceiveError>(
                ReceiveError::Socket(error),
            ),
        },
{
}

/// Only the first 48 bytes of a datagram count.
pub proof fn law_the_tail_is_ignored(
    a: Seq<u8>,
    b: Seq<u8>,
    remote_addr: RemoteAddr,
    local_ts: NtpTimestamp,
)
    requires
        a.len() >= 48,
        b.len() >= 48,
        a.take(48) == b.take(48),
    ensures
        parsed(a, remote_addr, local_ts) == parsed(b, remote_addr, local_ts),
{
    assert forall|i: int, j: int| 0 <= i <= j <= 48 implies #[trigger] a.subrange(i, j)
        == b.subrange(i, j) by {
        assert(a.subrange(i, j) =~= a.take(48).subrange(i, j));
        assert(b.subrange(i, j) =~= b.take(48).subrange(i, j));
    }
    assert forall|i: int| 0 <= i < 48 implies a[i] == b[i] by {
        assert(a[i] == a.take(48)[i]);
        assert(b[i] == b.take(48)[i]);
    }
}

/// Clients and symmetric peers ask for a reply, whatever their version and port; servers,
/// passive peers, broadcasters and control messages never do; and a packet without a mode does
/// only in version 1 and from a port other than 123.
pub proof fn law_who_asks(p: NtpPacket)
    ensures
        p.mode == 1 || p.mode == 3 ==> p.is_request(),
        p.mode == 2 || p.mode >= 4 ==> !p.is_request(),
        p.mode == 0 && p.version != 1 ==> !p.is_request(),
        p.mode == 0 && p.version == 1 ==> (p.is_request() <==> match p.remote_addr {
            RemoteAddr::V4 { port, .. } => port != 123,
            RemoteAddr::V6 { port, .. } => port != 123,
        }),
{
}

/// A reply goes back to where the request came from, in the request's version and with its poll
/// interval; it tells when the request was sent and arrived and when the reply leaves; all the
/// rest is what the server says of its clock.
pub proof fn law_reply_fields(request: NtpPacket, state: NtpServerState, now: NtpTimestamp)
    ensures
        ({
            let reply = request.response(state, now);
            &&& reply.remote_addr == request.remote_addr
            &&& reply.local_ts.ts == 0
            &&& reply.version == request.version
            &&& reply.poll == request.poll
            &&& reply.mode == (if request.mode == 1 { 2u8 } else { 4u8 })
            &&& reply.orig_ts == request.tx_ts
            &&& reply.rx_ts == request.local_ts
            &&& reply.tx_ts == now
            &&& reply.leap == state.leap
            &&& reply.stratum == state.stratum
            &&& reply.precision == state.precision
            &&& reply.delay == state.delay
            &&& reply.dispersion == state.dispersion
            &&& reply.ref_id == state.ref_id
            &&& reply.ref_ts == state.ref_ts
        }),
{
}

/// A server starts out as a primary one with its clock in order, and with zero for all else.
pub proof fn law_initial_state()
    ensures
        NtpServerState::initial().leap == 0,
        NtpServerState::initial().stratum == 1,
        NtpServerState::initial().precision == 0,
        NtpServerState::initial().ref_id == 0,
        NtpServerState::initial().ref_ts.ts == 0,
        NtpServerState::initial().dispersion.val == 0,
        NtpServerState::initial().delay.val == 0,
{
}

/// Each kind of failure has its own words; a failure of the socket is told in the socket's.
pub proof fn law_failures_have_words(e: ReceiveError)
    ensures
        e is WouldBlock ==> e.text() == "Would Block"@,
        e is TooShort ==> e.text() == "Packet too short"@,
        e is UnsupportedVersion ==> e.text() == "Unsupported version"@,
        e matches ReceiveError::Socket(reason) ==> e.text() == reason@,
{
}

} // verus!
