//! Fixed-point protocol time: durations and timestamps in the 32.32
//! format of RFC 5905, and the leap indicator. A duration is a signed
//! number of 2^-32 second units held in an `i64`; a timestamp is an
//! unsigned count of the same units since the NTP era held in a `u64`.
use vstd::prelude::*;

verus! {

/// 16 seconds in 32.32 fixed point: the protocol's MAXDISP constant.
pub const MAX_DISPERSION_BITS: i64 = 68719476736;

/// Saturating addition on the `i64` range, as mathematical integers.
pub open spec fn i64_sat_add(a: int, b: int) -> int {
    if a + b > i64::MAX {
        i64::MAX as int
    } else if a + b < i64::MIN {
        i64::MIN as int
    } else {
        a + b
    }
}

/// Saturating subtraction on the `i64` range, as mathematical
/// integers.
pub open spec fn i64_sat_sub(a: int, b: int) -> int {
    if a - b > i64::MAX {
        i64::MAX as int
    } else if a - b < i64::MIN {
        i64::MIN as int
    } else {
        a - b
    }
}

/// Division truncating toward zero (Rust's `/` on signed integers),
/// for a positive divisor.
pub open spec fn div_trunc(a: int, b: int) -> int
    recommends
        b > 0,
{
    if a >= 0 {
        a / b
    } else {
        -((-a) / b)
    }
}

/// The difference of two 64-bit timestamps, wrapped into the signed
/// 64-bit range: the value the wire format means when the unsigned
/// counters are subtracted modulo 2^64 and read as two's complement.
pub open spec fn ts_diff(a: u64, b: u64) -> int {
    if a - b >= 0x8000000000000000 {
        a - b - 0x10000000000000000
    } else if a - b < -0x8000000000000000 {
        a - b + 0x10000000000000000
    } else {
        a - b
    }
}

/// A signed duration in 32.32 fixed-point seconds.
#[derive(Clone, Copy, Debug, PartialEq, Eq, Structural)]
pub struct NtpDuration {
    pub bits: i64,
}

impl NtpDuration {
    pub fn zero() -> (r: Self)
        ensures
            r.bits == 0,
    {
        NtpDuration { bits: 0 }
    }

    pub fn max_dispersion() -> (r: Self)
        ensures
            r.bits == MAX_DISPERSION_BITS,
    {
        NtpDuration { bits: MAX_DISPERSION_BITS }
    }

    pub fn from_bits(bits: i64) -> (r: Self)
        ensures
            r.bits == bits,
    {
        NtpDuration { bits }
    }

    pub fn to_bits(self) -> (r: i64)
        ensures
            r == self.bits,
    {
        self.bits
    }

    /// Sum of two durations, clamped to the representable range.
    pub fn saturating_add(self, other: Self) -> (r: Self)
        ensures
            r.bits == i64_sat_add(self.bits as int, other.bits as int),
    {
        let wide: i128 = self.bits as i128 + other.bits as i128;
        if wide > i64::MAX as i128 {
            NtpDuration { bits: i64::MAX }
        } else if wide < i64::MIN as i128 {
            NtpDuration { bits: i64::MIN }
        } else {
            NtpDuration { bits: wide as i64 }
        }
    }

    /// Difference of two durations, clamped to the representable
    /// range.
    pub fn saturating_sub(self, other: Self) -> (r: Self)
        ensures
            r.bits == i64_sat_sub(self.bits as int, other.bits as int),
    {
        let wide: i128 = self.bits as i128 - other.bits as i128;
        if wide > i64::MAX as i128 {
            NtpDuration { bits: i64::MAX }
        } else if wide < i64::MIN as i128 {
            NtpDuration { bits: i64::MIN }
        } else {
            NtpDuration { bits: wide as i64 }
        }
    }

    /// Halve a duration, truncating toward zero as Rust's `/ 2` does.
    pub fn half(self) -> (r: Self)
        ensures
            r.bits == div_trunc(self.bits as int, 2),
    {
        if self.bits >= 0 {
            let q: u64 = (self.bits as u64) / 2;
            NtpDuration { bits: q as i64 }
        } else {
            let mag: u64 = ((-(self.bits as i128)) as u64) / 2;
            NtpDuration { bits: -(mag as i64) }
        }
    }
}

/// An unsigned 32.32 fixed-point timestamp since the NTP era.
#[derive(Clone, Copy, Debug, PartialEq, Eq, Structural)]
pub struct NtpTimestamp {
    pub bits: u64,
}

impl NtpTimestamp {
    pub fn zero() -> (r: Self)
        ensures
            r.bits == 0,
    {
        NtpTimestamp { bits: 0 }
    }

    pub fn from_bits(bits: u64) -> (r: Self)
        ensures
            r.bits == bits,
    {
        NtpTimestamp { bits }
    }

    pub fn to_bits(self) -> (r: u64)
        ensures
            r == self.bits,
    {
        self.bits
    }

    /// The elapsed duration from `earlier` to `self`, computed modulo
    /// 2^64 as the wire format prescribes, read as a signed duration.
    pub fn difference(self, earlier: Self) -> (r: NtpDuration)
        ensures
            r.bits == ts_diff(self.bits, earlier.bits),
    {
        let w: u64 = self.bits.wrapping_sub(earlier.bits);
        if w < 0x8000000000000000 {
            NtpDuration { bits: w as i64 }
        } else {
            NtpDuration { bits: -((0xffffffffffffffffu64 - w) as i64) - 1 }
        }
    }
}

/// The two leap-indicator bits of the packet header.
#[derive(Clone, Copy, Debug, PartialEq, Eq, Structural)]
pub enum NtpLeapIndicator {
    NoWarning,
    Leap61,
    Leap59,
    Unknown,
}

impl NtpLeapIndicator {
    /// A server that has not yet synchronized announces `Unknown`;
    /// every other value means its clock is synchronized.
    pub fn is_synchronized(self) -> (r: bool)
        ensures
            r == (self != NtpLeapIndicator::Unknown),
    {
        !matches!(self, NtpLeapIndicator::Unknown)
    }

    pub fn from_bits(bits: u8) -> (r: Self)
        ensures
            bits == 0 ==> r == NtpLeapIndicator::NoWarning,
            bits == 1 ==> r == NtpLeapIndicator::Leap61,
            bits == 2 ==> r == NtpLeapIndicator::Leap59,
            bits != 0 && bits != 1 && bits != 2 ==> r == NtpLeapIndicator::Unknown,
    {
        match bits {
            0 => NtpLeapIndicator::NoWarning,
            1 => NtpLeapIndicator::Leap61,
            2 => NtpLeapIndicator::Leap59,
            _ => NtpLeapIndicator::Unknown,
        }
    }

    pub fn to_bits(self) -> (r: u8)
        ensures
            self == NtpLeapIndicator::NoWarning ==> r == 0,
            self == NtpLeapIndicator::Leap61 ==> r == 1,
            self == NtpLeapIndicator::Leap59 ==> r == 2,
            self == NtpLeapIndicator::Unknown ==> r == 3,
            r <= 3,
    {
        match self {
            NtpLeapIndicator::NoWarning => 0,
            NtpLeapIndicator::Leap61 => 1,
            NtpLeapIndicator::Leap59 => 2,
            NtpLeapIndicator::Unknown => 3,
        }
    }
}

} // verus!
