//! The 48-byte SNTP message (RFC 4330, section 4) and its wire codec. Every
//! multi-byte field travels in network byte order, most significant byte first.

use vstd::prelude::*;

use crate::timestamp::{UtcTime, NTP_EPOCH_UNIX_SECONDS};

verus! {

/// Size in bytes of an SNTP message on the wire.
pub const MESSAGE_LEN: usize = 48;

/// Leap indicator 0, version 4, mode 3 (client), packed into one byte.
pub const CLIENT_HEADER: u8 = 0b00_100_011;

/// One SNTP message, from a client or from a server.
#[derive(Debug, Clone, Copy, PartialEq, Eq, Structural)]
pub struct NTPMessage {
    /// Leap indicator (2 bits), version number (3 bits) and mode (3 bits).
    pub header: u8,
    pub stratum: u8,
    pub poll_interval: u8,
    pub precision: i8,
    pub root_delay: i32,
    pub root_dispersion: u32,
    pub reference_identifier: u32,
    pub reference_timestamp: u64,
    pub originate_timestamp: u64,
    pub receive_timestamp: u64,
    pub transmit_timestamp: u64,
}

/// Why a byte sequence is not an SNTP message.
#[derive(Debug, Clone, Copy, PartialEq, Eq, Structural)]
pub enum SntpError {
    /// The input is not exactly `MESSAGE_LEN` bytes long.
    MalformedMessage,
}

/// The four bytes of `x`, most significant first.
pub open spec fn be32(x: u32) -> Seq<u8> {
    seq![(x >> 24) as u8, (x >> 16) as u8, (x >> 8) as u8, x as u8]
}

/// The eight bytes of `x`, most significant first.
pub open spec fn be64(x: u64) -> Seq<u8> {
    be32((x >> 32) as u32) + be32(x as u32)
}

/// The value of four bytes read most significant first.
pub open spec fn be32_value(b: Seq<u8>) -> u32
    recommends
        b.len() == 4,
{
    ((b[0] as u32) << 24) | ((b[1] as u32) << 16) | ((b[2] as u32) << 8) | (b[3] as u32)
}

/// The value of eight bytes read most significant first.
pub open spec fn be64_value(b: Seq<u8>) -> u64
    recommends
        b.len() == 8,
{
    ((be32_value(b.subrange(0, 4)) as u64) << 32) | (be32_value(b.subrange(4, 8)) as u64)
}

/// The wire form of `m`: its fields in declaration order, without padding.
pub open spec fn wire(m: NTPMessage) -> Seq<u8> {
    seq![m.header, m.stratum, m.poll_interval, m.precision as u8]
        + be32(m.root_delay as u32)
        + be32(m.root_dispersion)
        + be32(m.reference_identifier)
        + be64(m.reference_timestamp)
        + be64(m.originate_timestamp)
        + be64(m.receive_timestamp)
        + be64(m.transmit_timestamp)
}

/// The message that 48 bytes `b` spell out, each field read from its own run of bytes.
pub open spec fn parse(b: Seq<u8>) -> NTPMessage
    recommends
        b.len() == 48,
{
    NTPMessage {
        header: b[0],
        stratum: b[1],
        poll_interval: b[2],
        precision: b[3] as i8,
        root_delay: be32_value(b.subrange(4, 8)) as i32,
        root_dispersion: be32_value(b.subrange(8, 12)),
        reference_identifier: be32_value(b.subrange(12, 16)),
        reference_timestamp: be64_value(b.subrange(16, 24)),
        originate_timestamp: be64_value(b.subrange(24, 32)),
        receive_timestamp: be64_value(b.subrange(32, 40)),
        transmit_timestamp: be64_value(b.subrange(40, 48)),
    }
}

/// A client request: the client header and every other field zero.
pub open spec fn client_request() -> NTPMessage {
    NTPMessage {
        header: CLIENT_HEADER,
        stratum: 0,
        poll_interval: 0,
        precision: 0,
        root_delay: 0,
        root_dispersion: 0,
        reference_identifier: 0,
        reference_timestamp: 0,
        originate_timestamp: 0,
        receive_timestamp: 0,
        transmit_timestamp: 0,
    }
}

proof fn lemma_be32_round_trip(x: u32)
    ensures
        be32(x).len() == 4,
        be32_value(be32(x)) == x,
{
    let b = be32(x);
    assert(b[0] == (x >> 24) as u8 && b[1] == (x >> 16) as u8 && b[2] == (x >> 8) as u8 && b[3]
        == x as u8);
    assert(((((x >> 24) as u8) as u32) << 24) | ((((x >> 16) as u8) as u32) << 16) | ((((x
        >> 8) as u8) as u32) << 8) | ((x as u8) as u32) == x) by (bit_vector);
}

proof fn lemma_be64_round_trip(x: u64)
    ensures
        be64(x).len() == 8,
        be64_value(be64(x)) == x,
{
    let hi = (x >> 32) as u32;
    let lo = x as u32;
    lemma_be32_round_trip(hi);
    lemma_be32_round_trip(lo);
    assert(be64(x).subrange(0, 4) =~= be32(hi));
    assert(be64(x).subrange(4, 8) =~= be32(lo));
    assert((((x >> 32) as u32) as u64) << 32 | ((x as u32) as u64) == x) by (bit_vector);
}

/// Every message is 48 bytes on the wire, and decoding its encoding gives
/// it back unchanged, field for field.
pub proof fn lemma_parse_wire(m: NTPMessage)
    ensures
        wire(m).len() == MESSAGE_LEN,
        parse(wire(m)) == m,
{
    let w = wire(m);
    lemma_be32_round_trip(m.root_delay as u32);
    lemma_be32_round_trip(m.root_dispersion);
    lemma_be32_round_trip(m.reference_identifier);
    lemma_be64_round_trip(m.reference_timestamp);
    lemma_be64_round_trip(m.originate_timestamp);
    lemma_be64_round_trip(m.receive_timestamp);
    lemma_be64_round_trip(m.transmit_timestamp);
    assert(w.subrange(4, 8) =~= be32(m.root_delay as u32));
    assert(w.subrange(8, 12) =~= be32(m.root_dispersion));
    assert(w.subrange(12, 16) =~= be32(m.reference_identifier));
    assert(w.subrange(16, 24) =~= be64(m.reference_timestamp));
    assert(w.subrange(24, 32) =~= be64(m.originate_timestamp));
    assert(w.subrange(32, 40) =~= be64(m.receive_timestamp));
    assert(w.subrange(40, 48) =~= be64(m.transmit_timestamp));
    let p = m.precision;
    let d = m.root_delay;
    assert((p as u8) as i8 == p) by (bit_vector);
    assert((d as u32) as i32 == d) by (bit_vector);
}

/// Appends the four bytes of `x`, most significant first.
fn push_be32(out: &mut Vec<u8>, x: u32)
    ensures
        final(out)@ == old(out)@ + be32(x),
{
    out.push((x >> 24) as u8);
    out.push((x >> 16) as u8);
    out.push((x >> 8) as u8);
    out.push(x as u8);
    assert(final(out)@ =~= old(out)@ + be32(x));
}

/// Appends the eight bytes of `x`, most significant first.
fn push_be64(out: &mut Vec<u8>, x: u64)
    ensures
        final(out)@ == old(out)@ + be64(x),
{
    push_be32(out, (x >> 32) as u32);
    push_be32(out, x as u32);
    assert(final(out)@ =~= old(out)@ + be64(x));
}

/// Reads four bytes of a message starting at `at`, most significant first.
fn read_be32(b: &[u8], at: usize) -> (r: u32)
    requires
        b@.len() == MESSAGE_LEN,
        at + 4 <= MESSAGE_LEN,
    ensures
        r == be32_value(b@.subrange(at as int, at + 4)),
{
    let r = ((b[at] as u32) << 24) | ((b[at + 1] as u32) << 16) | ((b[at + 2] as u32) << 8) | (
    b[at + 3] as u32);
    let ghost s = b@.subrange(at as int, at + 4);
    assert(s[0] == b@[at as int] && s[1] == b@[at + 1] && s[2] == b@[at + 2] && s[3] == b@[at
        + 3]);
    r
}

/// Reads eight bytes of a message starting at `at`, most significant first.
fn read_be64(b: &[u8], at: usize) -> (r: u64)
    requires
        b@.len() == MESSAGE_LEN,
        at + 8 <= MESSAGE_LEN,
    ensures
        r == be64_value(b@.subrange(at as int, at + 8)),
{
    let hi = read_be32(b, at);
    let lo = read_be32(b, at + 4);
    let ghost s = b@.subrange(at as int, at + 8);
    assert(s.subrange(0, 4) =~= b@.subrange(at as int, at + 4));
    assert(s.subrange(4, 8) =~= b@.subrange(at + 4, at + 8));
    ((hi as u64) << 32) | (lo as u64)
}

impl NTPMessage {
    /// A fresh client request: leap indicator 0, version 4, mode 3, every
    /// other field zero.
    pub fn default_client_message() -> (r: Self)
        ensures
            r == client_request(),
    {
        NTPMessage {
            header: CLIENT_HEADER,
            stratum: 0,
            poll_interval: 0,
            precision: 0,
            root_delay: 0,
            root_dispersion: 0,
            reference_identifier: 0,
            reference_timestamp: 0,
            originate_timestamp: 0,
            receive_timestamp: 0,
            transmit_timestamp: 0,
        }
    }

    /// The 48-byte wire form of this message, fields in order, each in
    /// network byte order.
    pub fn encode(&self) -> (r: Vec<u8>)
        ensures
            r@ == wire(*self),
            r@.len() == MESSAGE_LEN,
    {
        let mut out: Vec<u8> = Vec::with_capacity(MESSAGE_LEN);
        out.push(self.header);
        out.push(self.stratum);
        out.push(self.poll_interval);
        out.push(self.precision as u8);
        push_be32(&mut out, self.root_delay as u32);
        push_be32(&mut out, self.root_dispersion);
        push_be32(&mut out, self.reference_identifier);
        push_be64(&mut out, self.reference_timestamp);
        push_be64(&mut out, self.originate_timestamp);
        push_be64(&mut out, self.receive_timestamp);
        push_be64(&mut out, self.transmit_timestamp);
        assert(out@ =~= wire(*self));
        proof {
            lemma_parse_wire(*self);
        }
        out
    }

    /// Reads a message from its wire form. Fails with `MalformedMessage`
    /// exactly when `bytes` is not 48 bytes long; field values are not checked.
    pub fn decode(bytes: &[u8]) -> (r: Result<NTPMessage, SntpError>)
        ensures
            bytes@.len() == MESSAGE_LEN ==> r == Ok::<NTPMessage, SntpError>(parse(bytes@)),
            bytes@.len() != MESSAGE_LEN ==> r == Err::<NTPMessage, SntpError>(
                SntpError::MalformedMessage,
            ),
    {
        if bytes.len() != MESSAGE_LEN {
            return Err(SntpError::MalformedMessage);
        }
        Ok(
            NTPMessage {
                header: bytes[0],
                stratum: bytes[1],
                poll_interval: bytes[2],
                precision: bytes[3] as i8,
                root_delay: read_be32(bytes, 4) as i32,
                root_dispersion: read_be32(bytes, 8),
                reference_identifier: read_be32(bytes, 12),
                reference_timestamp: read_be64(bytes, 16),
                originate_timestamp: read_be64(bytes, 24),
                receive_timestamp: read_be64(bytes, 32),
                transmit_timestamp: read_be64(bytes, 40),
            },
        )
    }

    /// The server's receive time: the seconds half (the upper 32 bits) of
    /// the receive timestamp, counted from 1900-01-01T00:00:00Z.
    pub fn receive_time(&self) -> (r: UtcTime)
        ensures
            r@ == NTP_EPOCH_UNIX_SECONDS + self.receive_timestamp / 0x1_0000_0000,
    {
        let ts = self.receive_timestamp;
        let seconds = (ts >> 32) as u32;
        assert(((ts >> 32) as u32) as u64 == ts / 0x1_0000_0000) by (bit_vector);
        UtcTime::from_ntp_seconds(seconds)
    }
}

} // verus!
