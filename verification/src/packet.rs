//! The 48-byte NTPv4 packet header: its fields, and the big-endian
//! wire codec. Bytes beyond the first 48 of a datagram would be
//! extension fields, which this crate does not interpret.
use vstd::prelude::*;

use crate::time::{NtpDuration, NtpLeapIndicator, NtpTimestamp};

verus! {

/// The association mode bits of the packet header.
#[derive(Clone, Copy, Debug, PartialEq, Eq, Structural)]
pub enum NtpAssociationMode {
    Reserved,
    SymmetricActive,
    SymmetricPassive,
    Client,
    Server,
    Broadcast,
    Control,
    Private,
}

impl NtpAssociationMode {
    pub fn from_bits(bits: u8) -> (r: Self)
        ensures
            r == spec_mode_from_bits(bits as int),
    {
        match bits {
            0 => NtpAssociationMode::Reserved,
            1 => NtpAssociationMode::SymmetricActive,
            2 => NtpAssociationMode::SymmetricPassive,
            3 => NtpAssociationMode::Client,
            4 => NtpAssociationMode::Server,
            5 => NtpAssociationMode::Broadcast,
            6 => NtpAssociationMode::Control,
            _ => NtpAssociationMode::Private,
        }
    }

    pub fn to_bits(self) -> (r: u8)
        ensures
            r == spec_mode_to_bits(self),
            r <= 7,
    {
        match self {
            NtpAssociationMode::Reserved => 0,
            NtpAssociationMode::SymmetricActive => 1,
            NtpAssociationMode::SymmetricPassive => 2,
            NtpAssociationMode::Client => 3,
            NtpAssociationMode::Server => 4,
            NtpAssociationMode::Broadcast => 5,
            NtpAssociationMode::Control => 6,
            NtpAssociationMode::Private => 7,
        }
    }
}

pub open spec fn spec_mode_from_bits(bits: int) -> NtpAssociationMode {
    if bits == 0 {
        NtpAssociationMode::Reserved
    } else if bits == 1 {
        NtpAssociationMode::SymmetricActive
    } else if bits == 2 {
        NtpAssociationMode::SymmetricPassive
    } else if bits == 3 {
        NtpAssociationMode::Client
    } else if bits == 4 {
        NtpAssociationMode::Server
    } else if bits == 5 {
        NtpAssociationMode::Broadcast
    } else if bits == 6 {
        NtpAssociationMode::Control
    } else {
        NtpAssociationMode::Private
    }
}

pub open spec fn spec_mode_to_bits(mode: NtpAssociationMode) -> int {
    match mode {
        NtpAssociationMode::Reserved => 0,
        NtpAssociationMode::SymmetricActive => 1,
        NtpAssociationMode::SymmetricPassive => 2,
        NtpAssociationMode::Client => 3,
        NtpAssociationMode::Server => 4,
        NtpAssociationMode::Broadcast => 5,
        NtpAssociationMode::Control => 6,
        NtpAssociationMode::Private => 7,
    }
}

pub open spec fn spec_leap_from_bits(bits: int) -> NtpLeapIndicator {
    if bits == 0 {
        NtpLeapIndicator::NoWarning
    } else if bits == 1 {
        NtpLeapIndicator::Leap61
    } else if bits == 2 {
        NtpLeapIndicator::Leap59
    } else {
        NtpLeapIndicator::Unknown
    }
}

pub open spec fn spec_leap_to_bits(leap: NtpLeapIndicator) -> int {
    match leap {
        NtpLeapIndicator::NoWarning => 0,
        NtpLeapIndicator::Leap61 => 1,
        NtpLeapIndicator::Leap59 => 2,
        NtpLeapIndicator::Unknown => 3,
    }
}

/// "DENY" as a big-endian reference identifier.
pub const KISS_DENY: u32 = 0x44454e59;

/// "RSTR" as a big-endian reference identifier.
pub const KISS_RSTR: u32 = 0x52535452;

/// "RATE" as a big-endian reference identifier.
pub const KISS_RATE: u32 = 0x52415445;

/// A 32-bit reference identifier: the server's clock source, or the
/// ASCII code of a kiss-o'-death packet.
#[derive(Clone, Copy, Debug, PartialEq, Eq, Structural)]
pub struct ReferenceId {
    pub id: u32,
}

impl ReferenceId {
    pub fn new(id: u32) -> (r: Self)
        ensures
            r.id == id,
    {
        ReferenceId { id }
    }

    /// The kiss code ordering this client to stop entirely.
    pub fn is_deny(self) -> (r: bool)
        ensures
            r == (self.id == KISS_DENY),
    {
        self.id == KISS_DENY
    }

    /// The kiss code denying service from a restricted server.
    pub fn is_rstr(self) -> (r: bool)
        ensures
            r == (self.id == KISS_RSTR),
    {
        self.id == KISS_RSTR
    }

    /// The kiss code asking the client to lower its poll rate.
    pub fn is_rate(self) -> (r: bool)
        ensures
            r == (self.id == KISS_RATE),
    {
        self.id == KISS_RATE
    }
}

/// A byte read as a signed two's-complement value.
pub open spec fn u8_as_i8(b: int) -> int {
    if b < 128 {
        b
    } else {
        b - 256
    }
}

/// A signed byte written as its unsigned two's-complement pattern.
pub open spec fn i8_as_u8(b: int) -> int {
    if b >= 0 {
        b
    } else {
        b + 256
    }
}

/// A duration's bit pattern read as an unsigned 64-bit word.
pub open spec fn i64_as_u64(b: int) -> int {
    if b >= 0 {
        b
    } else {
        b + 0x10000000000000000
    }
}

/// The middle 32 bits of a duration: the lossy 16.16 short format
/// the header carries root delay and root dispersion in.
pub open spec fn duration_to_short(bits: int) -> int {
    (i64_as_u64(bits) / 0x10000) % 0x100000000
}

/// A 16.16 short-format word widened to a 32.32 duration.
pub open spec fn short_to_duration(w: int) -> int {
    w * 0x10000
}

/// Four bytes read as a big-endian word.
pub open spec fn be32_at(s: Seq<u8>, off: int) -> int {
    s[off] * 0x1000000 + s[off + 1] * 0x10000 + s[off + 2] * 0x100 + s[off + 3]
}

/// Eight bytes read as a big-endian word.
pub open spec fn be64_at(s: Seq<u8>, off: int) -> int {
    s[off] * 0x100000000000000 + s[off + 1] * 0x1000000000000 + s[off + 2] * 0x10000000000 + s[off
        + 3] * 0x100000000 + s[off + 4] * 0x1000000 + s[off + 5] * 0x10000 + s[off + 6] * 0x100
        + s[off + 7]
}

/// A 32-bit word as four big-endian bytes.
pub open spec fn u32_be_bytes(x: int) -> Seq<u8> {
    seq![
        (x / 0x1000000) as u8,
        ((x / 0x10000) % 0x100) as u8,
        ((x / 0x100) % 0x100) as u8,
        (x % 0x100) as u8,
    ]
}

/// A 64-bit word as eight big-endian bytes.
pub open spec fn u64_be_bytes(x: int) -> Seq<u8> {
    seq![
        (x / 0x100000000000000) as u8,
        ((x / 0x1000000000000) % 0x100) as u8,
        ((x / 0x10000000000) % 0x100) as u8,
        ((x / 0x100000000) % 0x100) as u8,
        ((x / 0x1000000) % 0x100) as u8,
        ((x / 0x10000) % 0x100) as u8,
        ((x / 0x100) % 0x100) as u8,
        (x % 0x100) as u8,
    ]
}

fn read_be32(data: &[u8; 48], off: usize) -> (r: u32)
    requires
        off + 4 <= 48,
    ensures
        r == be32_at(data@, off as int),
{
    (data[off] as u32) * 0x1000000 + (data[off + 1] as u32) * 0x10000 + (data[off + 2] as u32)
        * 0x100 + (data[off + 3] as u32)
}

fn read_be64(data: &[u8; 48], off: usize) -> (r: u64)
    requires
        off + 8 <= 48,
    ensures
        r == be64_at(data@, off as int),
{
    (data[off] as u64) * 0x100000000000000 + (data[off + 1] as u64) * 0x1000000000000 + (data[off
        + 2] as u64) * 0x10000000000 + (data[off + 3] as u64) * 0x100000000 + (data[off + 4] as u64)
        * 0x1000000 + (data[off + 5] as u64) * 0x10000 + (data[off + 6] as u64) * 0x100 + (data[off
        + 7] as u64)
}

fn push_be32(out: &mut Vec<u8>, x: u32)
    ensures
        final(out)@ == old(out)@ + u32_be_bytes(x as int),
{
    out.push((x / 0x1000000) as u8);
    out.push(((x / 0x10000) % 0x100) as u8);
    out.push(((x / 0x100) % 0x100) as u8);
    out.push((x % 0x100) as u8);
    proof {
        assert(final(out)@ =~= old(out)@ + u32_be_bytes(x as int));
    }
}

fn push_be64(out: &mut Vec<u8>, x: u64)
    ensures
        final(out)@ == old(out)@ + u64_be_bytes(x as int),
{
    out.push((x / 0x100000000000000) as u8);
    out.push(((x / 0x1000000000000) % 0x100) as u8);
    out.push(((x / 0x10000000000) % 0x100) as u8);
    out.push(((x / 0x100000000) % 0x100) as u8);
    out.push(((x / 0x1000000) % 0x100) as u8);
    out.push(((x / 0x10000) % 0x100) as u8);
    out.push(((x / 0x100) % 0x100) as u8);
    out.push((x % 0x100) as u8);
    proof {
        assert(final(out)@ =~= old(out)@ + u64_be_bytes(x as int));
    }
}

/// The 48-byte client/server header of RFC 5905.
#[derive(Clone, Copy, Debug, PartialEq, Eq, Structural)]
pub struct NtpHeader {
    pub leap: NtpLeapIndicator,
    pub version: u8,
    pub mode: NtpAssociationMode,
    pub stratum: u8,
    pub poll: i8,
    pub precision: i8,
    pub root_delay: NtpDuration,
    pub root_dispersion: NtpDuration,
    pub reference_id: ReferenceId,
    pub reference_timestamp: NtpTimestamp,
    pub origin_timestamp: NtpTimestamp,
    pub receive_timestamp: NtpTimestamp,
    pub transmit_timestamp: NtpTimestamp,
}

/// The header a sequence of 48 wire bytes means.
pub open spec fn spec_deserialize(s: Seq<u8>) -> NtpHeader {
    NtpHeader {
        leap: spec_leap_from_bits((s[0] as int) / 64),
        version: (((s[0] as int) / 8) % 8) as u8,
        mode: spec_mode_from_bits((s[0] as int) % 8),
        stratum: s[1],
        poll: u8_as_i8(s[2] as int) as i8,
        precision: u8_as_i8(s[3] as int) as i8,
        root_delay: NtpDuration { bits: short_to_duration(be32_at(s, 4)) as i64 },
        root_dispersion: NtpDuration { bits: short_to_duration(be32_at(s, 8)) as i64 },
        reference_id: ReferenceId { id: be32_at(s, 12) as u32 },
        reference_timestamp: NtpTimestamp { bits: be64_at(s, 16) as u64 },
        origin_timestamp: NtpTimestamp { bits: be64_at(s, 24) as u64 },
        receive_timestamp: NtpTimestamp { bits: be64_at(s, 32) as u64 },
        transmit_timestamp: NtpTimestamp { bits: be64_at(s, 40) as u64 },
    }
}

/// The 48 wire bytes a header serializes to.
pub open spec fn spec_serialize(h: NtpHeader) -> Seq<u8> {
    seq![
        (spec_leap_to_bits(h.leap) * 64 + (h.version % 8) * 8 + spec_mode_to_bits(h.mode)) as u8,
        h.stratum,
        i8_as_u8(h.poll as int) as u8,
        i8_as_u8(h.precision as int) as u8,
    ] + u32_be_bytes(duration_to_short(h.root_delay.bits as int)) + u32_be_bytes(
        duration_to_short(h.root_dispersion.bits as int),
    ) + u32_be_bytes(h.reference_id.id as int) + u64_be_bytes(h.reference_timestamp.bits as int)
        + u64_be_bytes(h.origin_timestamp.bits as int) + u64_be_bytes(h.receive_timestamp.bits as int)
        + u64_be_bytes(h.transmit_timestamp.bits as int)
}

impl NtpHeader {
    /// A client header before any field is filled in: version 4,
    /// mode client, everything else zero.
    pub fn new() -> (r: Self)
        ensures
            r.leap == NtpLeapIndicator::NoWarning,
            r.version == 4,
            r.mode == NtpAssociationMode::Client,
            r.stratum == 0,
            r.poll == 0,
            r.precision == 0,
            r.root_delay.bits == 0,
            r.root_dispersion.bits == 0,
            r.reference_id.id == 0,
            r.reference_timestamp.bits == 0,
            r.origin_timestamp.bits == 0,
            r.receive_timestamp.bits == 0,
            r.transmit_timestamp.bits == 0,
    {
        NtpHeader {
            leap: NtpLeapIndicator::NoWarning,
            version: 4,
            mode: NtpAssociationMode::Client,
            stratum: 0,
            poll: 0,
            precision: 0,
            root_delay: NtpDuration::zero(),
            root_dispersion: NtpDuration::zero(),
            reference_id: ReferenceId::new(0),
            reference_timestamp: NtpTimestamp::zero(),
            origin_timestamp: NtpTimestamp::zero(),
            receive_timestamp: NtpTimestamp::zero(),
            transmit_timestamp: NtpTimestamp::zero(),
        }
    }

    /// Read the first 48 bytes of a datagram as a header.
    pub fn deserialize(data: &[u8; 48]) -> (r: Self)
        ensures
            r == spec_deserialize(data@),
    {
        let first = data[0];
        NtpHeader {
            leap: NtpLeapIndicator::from_bits(first / 64),
            version: (first / 8) % 8,
            mode: NtpAssociationMode::from_bits(first % 8),
            stratum: data[1],
            poll: Self::byte_to_i8(data[2]),
            precision: Self::byte_to_i8(data[3]),
            root_delay: Self::short_format_to_duration(read_be32(data, 4)),
            root_dispersion: Self::short_format_to_duration(read_be32(data, 8)),
            reference_id: ReferenceId::new(read_be32(data, 12)),
            reference_timestamp: NtpTimestamp::from_bits(read_be64(data, 16)),
            origin_timestamp: NtpTimestamp::from_bits(read_be64(data, 24)),
            receive_timestamp: NtpTimestamp::from_bits(read_be64(data, 32)),
            transmit_timestamp: NtpTimestamp::from_bits(read_be64(data, 40)),
        }
    }

    /// Write the header as its 48 wire bytes.
    pub fn serialize(&self) -> (r: Vec<u8>)
        ensures
            r@ == spec_serialize(*self),
            r@.len() == 48,
    {
        let mut out: Vec<u8> = Vec::new();
        out.push(self.leap.to_bits() * 64 + (self.version % 8) * 8 + self.mode.to_bits());
        out.push(self.stratum);
        out.push(Self::i8_to_byte(self.poll));
        out.push(Self::i8_to_byte(self.precision));
        push_be32(&mut out, Self::duration_to_short_format(self.root_delay));
        push_be32(&mut out, Self::duration_to_short_format(self.root_dispersion));
        push_be32(&mut out, self.reference_id.id);
        push_be64(&mut out, self.reference_timestamp.to_bits());
        push_be64(&mut out, self.origin_timestamp.to_bits());
        push_be64(&mut out, self.receive_timestamp.to_bits());
        push_be64(&mut out, self.transmit_timestamp.to_bits());
        proof {
            assert(out@ =~= spec_serialize(*self));
        }
        out
    }

    fn byte_to_i8(b: u8) -> (r: i8)
        ensures
            r as int == u8_as_i8(b as int),
    {
        if b < 128 {
            b as i8
        } else {
            -((255 - b) as i8) - 1
        }
    }

    fn i8_to_byte(v: i8) -> (r: u8)
        ensures
            r as int == i8_as_u8(v as int),
    {
        if v >= 0 {
            v as u8
        } else {
            255 - ((-(v as i16)) as u8) + 1
        }
    }

    fn short_format_to_duration(w: u32) -> (r: NtpDuration)
        ensures
            r.bits == short_to_duration(w as int),
    {
        NtpDuration::from_bits((w as i64) * 0x10000)
    }

    fn duration_to_short_format(d: NtpDuration) -> (r: u32)
        ensures
            r as int == duration_to_short(d.bits as int),
    {
        let wide: u64 = if d.bits >= 0 {
            d.bits as u64
        } else {
            0xffffffffffffffff - ((-(d.bits as i128)) as u64) + 1
        };
        proof {
            assert(wide == i64_as_u64(d.bits as int));
        }
        ((wide / 0x10000) % 0x100000000) as u32
    }
}

} // verus!
