//! Per-association state: reach and poll bookkeeping, validation of
//! inbound headers, and the hand-off of accepted samples to the
//! clock filter.
use vstd::prelude::*;

use vstd::arithmetic::power2::{
    lemma2_to64, lemma2_to64_rest, lemma_pow2_strictly_increases, lemma_pow2_unfold, pow2,
};

use crate::filter::{
    clock_filter, filter_register_after, filter_rejects, multiply_by_ppm, ppm_corr, sort_by_delay,
    ClockFilterContents, FilterTuple, PeerStatistics,
};
use crate::packet::{
    NtpAssociationMode, NtpHeader, ReferenceId, KISS_DENY, KISS_RATE, KISS_RSTR,
};
use crate::time::{
    div_trunc, i64_sat_add, i64_sat_sub, ts_diff, NtpDuration, NtpLeapIndicator, NtpTimestamp,
};

verus! {

/// Read-mostly state the supervisor publishes to every peer: the
/// poll-interval bounds currently in force.
#[derive(Clone, Copy, Debug, PartialEq, Eq, Structural)]
pub struct SystemSnapshot {
    pub poll_interval_min: u8,
    pub poll_interval_max: u8,
}

impl SystemSnapshot {
    pub open spec fn wf(&self) -> bool {
        self.poll_interval_min <= self.poll_interval_max <= 17
    }
}

impl Default for SystemSnapshot {
    fn default() -> (r: Self)
        ensures
            r.poll_interval_min == 4,
            r.poll_interval_max == 10,
            r.wf(),
    {
        SystemSnapshot { poll_interval_min: 4, poll_interval_max: 10 }
    }
}

/// Static configuration the supervisor publishes: the frequency
/// tolerance PHI, in parts per million.
#[derive(Clone, Copy, Debug, PartialEq, Eq, Structural)]
pub struct SystemConfig {
    pub frequency_tolerance_ppm: u32,
}

impl SystemConfig {
    pub open spec fn wf(&self) -> bool {
        self.frequency_tolerance_ppm < 1000000
    }
}

impl Default for SystemConfig {
    fn default() -> (r: Self)
        ensures
            r.frequency_tolerance_ppm == 15,
            r.wf(),
    {
        SystemConfig { frequency_tolerance_ppm: 15 }
    }
}

/// A poll interval as the base-two exponent of its length in
/// seconds.
#[derive(Clone, Copy, Debug, PartialEq, Eq, Structural)]
pub struct PollInterval {
    pub exponent: u8,
}

fn pow2_i64(e: u32) -> (r: i64)
    requires
        e <= 62,
    ensures
        r == pow2(e as nat),
        r >= 1,
{
    let mut b: i64 = 1;
    let mut i: u32 = 0;
    proof {
        lemma2_to64();
    }
    while i < e
        invariant
            i <= e <= 62,
            b == pow2(i as nat),
            b >= 1,
        decreases e - i,
    {
        proof {
            lemma2_to64();
            lemma2_to64_rest();
            lemma_pow2_unfold((i + 1) as nat);
            lemma_pow2_strictly_increases(i as nat, 62);
        }
        b = b * 2;
        i = i + 1;
    }
    b
}

impl PollInterval {
    /// The interval as a fixed-point duration: 2^exponent seconds.
    pub fn as_duration(self) -> (r: NtpDuration)
        requires
            self.exponent <= 17,
        ensures
            r.bits == pow2((self.exponent + 32) as nat),
    {
        NtpDuration::from_bits(pow2_i64(self.exponent as u32 + 32))
    }
}

/// Why an inbound packet produced no measurement.
#[derive(Clone, Copy, Debug, PartialEq, Eq, Structural)]
pub enum IgnoreReason {
    /// The server sent a kiss code that orders this association to
    /// stop permanently.
    KissDemobilize,
    /// The server asked for a lower poll rate; the interval was
    /// raised and the packet dropped.
    KissRateLimit,
    /// The packet does not come from a server association.
    InvalidMode,
    /// The stratum field is beyond the protocol's maximum.
    InvalidStratum,
    /// The echoed origin timestamp does not match the nonce of the
    /// poll in flight.
    OriginMismatch,
    /// No poll is in flight: a duplicate or replayed answer.
    DuplicateOrReplay,
    /// The clock filter found the sample not newer than the last.
    FilterRejectedAsOld,
}

/// The fixed-point duration 2^p seconds for a precision exponent p:
/// what a precision field of the wire format contributes to
/// dispersion. Below the 2^-32 resolution it truncates to zero;
/// above 2^30 seconds it is clamped.
pub open spec fn precision_bits(p: int) -> int {
    if p < -32 {
        0
    } else if p > 30 {
        pow2(62) as int
    } else {
        pow2((p + 32) as nat) as int
    }
}

fn precision_to_duration(p: i8) -> (r: NtpDuration)
    ensures
        r.bits == precision_bits(p as int),
{
    if p < -32 {
        NtpDuration::zero()
    } else if p > 30 {
        NtpDuration::from_bits(pow2_i64(62))
    } else {
        NtpDuration::from_bits(pow2_i64((p as i32 + 32) as u32))
    }
}

/// The reach register with the low bit set: a response arrived in
/// the current window.
pub open spec fn reach_with_bit(r: int) -> int {
    if r % 2 == 0 {
        r + 1
    } else {
        r
    }
}

/// The reach register shifted one window to the left, the high bit
/// falling off.
pub open spec fn reach_shifted(r: int) -> int {
    (r * 2) % 256
}

/// A poll-interval exponent raised one step, capped at 2^17 seconds.
pub open spec fn bumped_interval(e: int) -> int {
    if e < 17 {
        e + 1
    } else {
        17
    }
}

/// The condensed projection of a peer that is sent to the
/// supervisor.
#[derive(Clone, Copy, Debug, PartialEq, Eq, Structural)]
pub struct PeerSnapshot {
    pub our_id: ReferenceId,
    pub peer_id: ReferenceId,
    pub stratum: u8,
    pub reference_id: ReferenceId,
    pub leap: NtpLeapIndicator,
    pub reach: u8,
    pub poll_interval: u8,
    pub offset: NtpDuration,
    pub delay: NtpDuration,
    pub dispersion: NtpDuration,
    pub time: NtpTimestamp,
}

/// The snapshot a peer state projects to.
pub open spec fn spec_snapshot(p: Peer) -> PeerSnapshot {
    PeerSnapshot {
        our_id: p.our_id,
        peer_id: p.peer_id,
        stratum: p.stratum,
        reference_id: p.reference_id,
        leap: p.leap,
        reach: p.reach,
        poll_interval: p.poll_interval,
        offset: p.offset,
        delay: p.delay,
        dispersion: p.dispersion,
        time: p.time,
    }
}

impl PeerSnapshot {
    pub fn from_peer(peer: &Peer) -> (r: Self)
        ensures
            r == spec_snapshot(*peer),
    {
        PeerSnapshot {
            our_id: peer.our_id,
            peer_id: peer.peer_id,
            stratum: peer.stratum,
            reference_id: peer.reference_id,
            leap: peer.leap,
            reach: peer.reach,
            poll_interval: peer.poll_interval,
            offset: peer.offset,
            delay: peer.delay,
            dispersion: peer.dispersion,
            time: peer.time,
        }
    }
}

/// One client association's state.
#[derive(Clone, Debug)]
pub struct Peer {
    /// Reference identifier derived from our local address.
    pub our_id: ReferenceId,
    /// Reference identifier derived from the server's address.
    pub peer_id: ReferenceId,
    /// The nonce the poll in flight carries as transmit timestamp;
    /// a response must echo it as its origin timestamp. None while
    /// no poll is in flight.
    pub next_expected_origin_timestamp: Option<NtpTimestamp>,
    /// The server's stratum as of the last accepted packet.
    pub stratum: u8,
    /// The server's reference identifier as of the last accepted
    /// packet.
    pub reference_id: ReferenceId,
    /// The server's leap indicator as of the last accepted packet.
    pub leap: NtpLeapIndicator,
    /// The local clock's precision exponent.
    pub precision: i8,
    /// Eight poll windows of reachability, one bit each.
    pub reach: u8,
    /// Our own poll-interval exponent.
    pub poll_interval: u8,
    /// The lowest poll-interval exponent the server tolerates, as
    /// raised by rate-limiting kiss codes.
    pub remote_min_poll_interval: u8,
    /// Polls that went unanswered since the last accepted response;
    /// consecutive unreach backs the poll interval off.
    pub unanswered_polls: u8,
    /// The estimator's offset as of the last accepted sample.
    pub offset: NtpDuration,
    /// The estimator's delay as of the last accepted sample.
    pub delay: NtpDuration,
    /// The estimator's dispersion as of the last accepted sample.
    pub dispersion: NtpDuration,
    /// The time of the sample the statistics rest on.
    pub time: NtpTimestamp,
    /// The clock filter's shift register.
    pub filter: ClockFilterContents,
}

/// The exponent the peer polls at: its own interval backed off one
/// step per unanswered poll, raised to the server's minimum, and
/// clamped into the system's bounds.
pub open spec fn spec_poll_exponent(p: Peer, system: SystemSnapshot) -> int {
    let backed_off = p.poll_interval + p.unanswered_polls;
    let base = if backed_off >= p.remote_min_poll_interval {
        backed_off
    } else {
        p.remote_min_poll_interval as int
    };
    let lo = if base >= system.poll_interval_min {
        base
    } else {
        system.poll_interval_min as int
    };
    if lo <= system.poll_interval_max {
        lo
    } else {
        system.poll_interval_max as int
    }
}

/// The sample a valid exchange yields: offset, delay and dispersion
/// from the four timestamps, taken at the receive time. Sums and
/// differences saturate at the representable range; divisions
/// truncate toward zero.
pub open spec fn spec_measurement_tuple(
    p: Peer,
    packet: NtpHeader,
    send_timestamp: NtpTimestamp,
    recv_timestamp: NtpTimestamp,
    ppm: int,
) -> FilterTuple {
    let t1 = send_timestamp.bits;
    let t2 = packet.receive_timestamp.bits;
    let t3 = packet.transmit_timestamp.bits;
    let t4 = recv_timestamp.bits;
    let offset = div_trunc(i64_sat_add(ts_diff(t2, t1), ts_diff(t3, t4)), 2);
    let delay = i64_sat_sub(ts_diff(t4, t1), ts_diff(t3, t2));
    let dispersion = i64_sat_add(
        i64_sat_add(precision_bits(packet.precision as int), precision_bits(p.precision as int)),
        ppm_corr(ts_diff(t4, t1), ppm),
    );
    FilterTuple {
        offset: NtpDuration { bits: offset as i64 },
        delay: NtpDuration { bits: delay as i64 },
        dispersion: NtpDuration { bits: dispersion as i64 },
        time: recv_timestamp,
    }
}

/// What an inbound packet comes to, before any state is changed:
/// either the measurement tuple an acceptable exchange yields, or
/// the reason the packet is ignored. The checks run in order:
/// origin-timestamp match, association mode, stratum sanity,
/// kiss-o'-death codes, and last the clock filter's newness rule.
pub open spec fn spec_packet_verdict(
    p: Peer,
    packet: NtpHeader,
    send_timestamp: NtpTimestamp,
    recv_timestamp: NtpTimestamp,
    ppm: int,
) -> Result<FilterTuple, IgnoreReason> {
    if p.next_expected_origin_timestamp is None {
        Err(IgnoreReason::DuplicateOrReplay)
    } else if p.next_expected_origin_timestamp != Some(packet.origin_timestamp) {
        Err(IgnoreReason::OriginMismatch)
    } else if packet.mode != NtpAssociationMode::Server {
        Err(IgnoreReason::InvalidMode)
    } else if packet.stratum > 16 {
        Err(IgnoreReason::InvalidStratum)
    } else if packet.stratum == 0 {
        if packet.reference_id.id == KISS_DENY || packet.reference_id.id == KISS_RSTR {
            Err(IgnoreReason::KissDemobilize)
        } else if packet.reference_id.id == KISS_RATE {
            Err(IgnoreReason::KissRateLimit)
        } else {
            Err(IgnoreReason::InvalidStratum)
        }
    } else {
        let tuple = spec_measurement_tuple(p, packet, send_timestamp, recv_timestamp, ppm);
        if filter_rejects(p.filter@, p.time, packet.leap, tuple) {
            Err(IgnoreReason::FilterRejectedAsOld)
        } else {
            Ok(tuple)
        }
    }
}

impl Peer {
    pub open spec fn wf(&self) -> bool {
        &&& self.filter.wf()
        &&& self.poll_interval <= 17
        &&& self.remote_min_poll_interval <= 17
        &&& self.unanswered_polls <= 17
    }

    /// A fresh association: nothing in flight, nothing reached, the
    /// register all sentinels, the server unknown.
    pub fn new(our_id: ReferenceId, peer_id: ReferenceId) -> (r: Self)
        ensures
            r.wf(),
            r.our_id == our_id,
            r.peer_id == peer_id,
            r.next_expected_origin_timestamp is None,
            r.stratum == 16,
            r.reference_id.id == 0,
            r.leap == NtpLeapIndicator::Unknown,
            r.precision == -18,
            r.reach == 0,
            r.poll_interval == 4,
            r.remote_min_poll_interval == 4,
            r.unanswered_polls == 0,
            r.offset.bits == 0,
            r.delay.bits == 0,
            r.dispersion.bits == 0,
            r.time.bits == 0,
            r.filter@ == crate::filter::all_dummy_register(),
    {
        Peer {
            our_id,
            peer_id,
            next_expected_origin_timestamp: None,
            stratum: 16,
            reference_id: ReferenceId::new(0),
            leap: NtpLeapIndicator::Unknown,
            precision: -18,
            reach: 0,
            poll_interval: 4,
            remote_min_poll_interval: 4,
            unanswered_polls: 0,
            offset: NtpDuration::zero(),
            delay: NtpDuration::zero(),
            dispersion: NtpDuration::zero(),
            time: NtpTimestamp::zero(),
            filter: ClockFilterContents::new(),
        }
    }

    /// The interval to the next poll under the current system
    /// bounds.
    pub fn current_poll_interval(&self, system: SystemSnapshot) -> (r: PollInterval)
        requires
            self.wf(),
            system.wf(),
        ensures
            r.exponent == spec_poll_exponent(*self, system),
            r.exponent <= 17,
    {
        let backed_off = self.poll_interval + self.unanswered_polls;
        let base = if backed_off >= self.remote_min_poll_interval {
            backed_off
        } else {
            self.remote_min_poll_interval
        };
        let lo = if base >= system.poll_interval_min {
            base
        } else {
            system.poll_interval_min
        };
        let e = if lo <= system.poll_interval_max {
            lo
        } else {
            system.poll_interval_max
        };
        PollInterval { exponent: e }
    }

    /// The outbound poll header. Its transmit timestamp is the
    /// caller's nonce, remembered as the origin timestamp the answer
    /// must echo; the origin field itself carries only zeros, never
    /// a local clock reading. The reach register shifts one window,
    /// and a poll still in flight counts as unanswered, backing the
    /// interval off.
    pub fn generate_poll_message(&mut self, system: SystemSnapshot, nonce: NtpTimestamp) -> (r:
        NtpHeader)
        requires
            old(self).wf(),
            system.wf(),
        ensures
            final(self).wf(),
            *final(self) == (Peer {
                next_expected_origin_timestamp: Some(nonce),
                reach: reach_shifted(old(self).reach as int) as u8,
                unanswered_polls: (if old(self).next_expected_origin_timestamp is Some {
                    bumped_interval(old(self).unanswered_polls as int)
                } else {
                    old(self).unanswered_polls as int
                }) as u8,
                ..*old(self)
            }),
            r == (NtpHeader {
                leap: NtpLeapIndicator::NoWarning,
                version: 4,
                mode: NtpAssociationMode::Client,
                stratum: 0,
                poll: spec_poll_exponent(*old(self), system) as i8,
                precision: old(self).precision,
                root_delay: NtpDuration { bits: 0 },
                root_dispersion: NtpDuration { bits: 0 },
                reference_id: ReferenceId { id: 0 },
                reference_timestamp: NtpTimestamp { bits: 0 },
                origin_timestamp: NtpTimestamp { bits: 0 },
                receive_timestamp: NtpTimestamp { bits: 0 },
                transmit_timestamp: nonce,
            }),
            r.origin_timestamp.bits == 0,
            r.transmit_timestamp == nonce,
    {
        let poll = self.current_poll_interval(system);
        if self.next_expected_origin_timestamp.is_some() && self.unanswered_polls < 17 {
            self.unanswered_polls = self.unanswered_polls + 1;
        }
        self.next_expected_origin_timestamp = Some(nonce);
        self.reach = ((self.reach as u16 * 2) % 256) as u8;
        let mut header = NtpHeader::new();
        header.poll = poll.exponent as i8;
        header.precision = self.precision;
        header.transmit_timestamp = nonce;
        header
    }

    /// Forget the poll in flight: any response still on the wire
    /// will fail the origin-timestamp match. The filter register is
    /// deliberately kept; historical samples age by dispersion.
    pub fn reset_measurements(&mut self)
        ensures
            *final(self) == (Peer {
                next_expected_origin_timestamp: None,
                ..*old(self)
            }),
    {
        self.next_expected_origin_timestamp = None;
    }

    /// Validate an inbound header against the poll in flight and, if
    /// it passes, run the clock filter on the exchange's sample.
    /// The verdict function in the contract names the reason for
    /// every rejection; state changes only on a rate-limiting kiss
    /// (the interval floor rises) and on acceptance (statistics,
    /// register, server variables, and the spent nonce).
    pub fn handle_incoming(
        &mut self,
        packet: NtpHeader,
        frequency_tolerance: SystemConfig,
        send_timestamp: NtpTimestamp,
        recv_timestamp: NtpTimestamp,
    ) -> (r: Result<PeerSnapshot, IgnoreReason>)
        requires
            old(self).wf(),
            frequency_tolerance.wf(),
        ensures
            final(self).wf(),
            ({
                let verdict = spec_packet_verdict(
                    *old(self),
                    packet,
                    send_timestamp,
                    recv_timestamp,
                    frequency_tolerance.frequency_tolerance_ppm as int,
                );
                match verdict {
                    Err(reason) => {
                        &&& r == Err::<PeerSnapshot, IgnoreReason>(reason)
                        &&& (reason == IgnoreReason::KissRateLimit ==> *final(self) == (Peer {
                            remote_min_poll_interval: bumped_interval(
                                old(self).remote_min_poll_interval as int,
                            ) as u8,
                            ..*old(self)
                        }))
                        &&& (reason != IgnoreReason::KissRateLimit ==> *final(self) == *old(self))
                    },
                    Ok(tuple) => {
                        let after = filter_register_after(old(self).filter@, old(self).time, tuple);
                        let sorted = sort_by_delay(after);
                        &&& r == Ok::<PeerSnapshot, IgnoreReason>(spec_snapshot(*final(self)))
                        &&& final(self).filter@ == after
                        &&& final(self).time == sorted[0].time
                        &&& final(self).offset == sorted[0].offset
                        &&& final(self).delay == sorted[0].delay
                        &&& final(self).dispersion.bits == crate::filter::dispersion_sum(sorted)
                        &&& final(self).next_expected_origin_timestamp is None
                        &&& final(self).stratum == packet.stratum
                        &&& final(self).reference_id == packet.reference_id
                        &&& final(self).leap == packet.leap
                        &&& final(self).reach == reach_with_bit(old(self).reach as int)
                        &&& final(self).our_id == old(self).our_id
                        &&& final(self).peer_id == old(self).peer_id
                        &&& final(self).precision == old(self).precision
                        &&& final(self).poll_interval == old(self).poll_interval
                        &&& final(self).unanswered_polls == 0
                        &&& final(self).remote_min_poll_interval == old(
                            self,
                        ).remote_min_poll_interval
                    },
                }
            }),
    {
        let expected = match self.next_expected_origin_timestamp {
            None => {
                return Err(IgnoreReason::DuplicateOrReplay);
            },
            Some(e) => e,
        };
        if packet.origin_timestamp != expected {
            return Err(IgnoreReason::OriginMismatch);
        }
        if !matches!(packet.mode, NtpAssociationMode::Server) {
            return Err(IgnoreReason::InvalidMode);
        }
        if packet.stratum > 16 {
            return Err(IgnoreReason::InvalidStratum);
        }
        if packet.stratum == 0 {
            if packet.reference_id.is_deny() || packet.reference_id.is_rstr() {
                return Err(IgnoreReason::KissDemobilize);
            } else if packet.reference_id.is_rate() {
                if self.remote_min_poll_interval < 17 {
                    self.remote_min_poll_interval = self.remote_min_poll_interval + 1;
                }
                return Err(IgnoreReason::KissRateLimit);
            } else {
                return Err(IgnoreReason::InvalidStratum);
            }
        }

        let offset_sum = packet.receive_timestamp.difference(send_timestamp).saturating_add(
            packet.transmit_timestamp.difference(recv_timestamp),
        );
        let offset = offset_sum.half();
        let round_trip = recv_timestamp.difference(send_timestamp);
        let delay = round_trip.saturating_sub(
            packet.transmit_timestamp.difference(packet.receive_timestamp),
        );
        let dispersion = precision_to_duration(packet.precision).saturating_add(
            precision_to_duration(self.precision),
        ).saturating_add(
            multiply_by_ppm(round_trip, frequency_tolerance.frequency_tolerance_ppm),
        );
        let tuple = FilterTuple::new(offset, delay, dispersion, recv_timestamp);

        let register = self.filter.duplicate();
        match clock_filter(self.time, packet.leap, register, tuple) {
            None => Err(IgnoreReason::FilterRejectedAsOld),
            Some(stats) => {
                let PeerStatistics { offset, delay, dispersion, filter, filter_time } = stats;
                self.filter = filter;
                self.offset = offset;
                self.delay = delay;
                self.dispersion = dispersion;
                self.time = filter_time;
                self.next_expected_origin_timestamp = None;
                self.unanswered_polls = 0;
                self.stratum = packet.stratum;
                self.reference_id = packet.reference_id;
                self.leap = packet.leap;
                if self.reach % 2 == 0 {
                    self.reach = self.reach + 1;
                }
                Ok(PeerSnapshot::from_peer(self))
            },
        }
    }
}

/// A response whose origin timestamp does not echo the nonce in
/// flight is ignored and moves no state: no measurement can come of
/// it.
pub proof fn lemma_origin_mismatch_ignored(
    p: Peer,
    packet: NtpHeader,
    send_timestamp: NtpTimestamp,
    recv_timestamp: NtpTimestamp,
    ppm: int,
)
    requires
        p.next_expected_origin_timestamp is Some,
        p.next_expected_origin_timestamp != Some(packet.origin_timestamp),
    ensures
        spec_packet_verdict(p, packet, send_timestamp, recv_timestamp, ppm) == Err::<
            FilterTuple,
            IgnoreReason,
        >(IgnoreReason::OriginMismatch),
{
}

/// One poll yields at most one measurement: a valid response spends
/// the nonce, and while no nonce is in flight every response is
/// ignored as a duplicate or replay.
pub proof fn lemma_one_measurement_per_poll(
    p: Peer,
    packet: NtpHeader,
    send_timestamp: NtpTimestamp,
    recv_timestamp: NtpTimestamp,
    ppm: int,
)
    requires
        p.next_expected_origin_timestamp is None,
    ensures
        spec_packet_verdict(p, packet, send_timestamp, recv_timestamp, ppm) == Err::<
            FilterTuple,
            IgnoreReason,
        >(IgnoreReason::DuplicateOrReplay),
{
}

/// The positive half of the round trip: a response that echoes the
/// nonce, comes from a server of ordinary stratum, and brings a
/// sample the filter finds new, is accepted.
pub proof fn lemma_valid_response_accepted(
    p: Peer,
    packet: NtpHeader,
    send_timestamp: NtpTimestamp,
    recv_timestamp: NtpTimestamp,
    ppm: int,
)
    requires
        p.next_expected_origin_timestamp == Some(packet.origin_timestamp),
        packet.mode == NtpAssociationMode::Server,
        1 <= packet.stratum <= 16,
        !filter_rejects(
            p.filter@,
            p.time,
            packet.leap,
            spec_measurement_tuple(p, packet, send_timestamp, recv_timestamp, ppm),
        ),
    ensures
        spec_packet_verdict(p, packet, send_timestamp, recv_timestamp, ppm) == Ok::<
            FilterTuple,
            IgnoreReason,
        >(spec_measurement_tuple(p, packet, send_timestamp, recv_timestamp, ppm)),
{
}

} // verus!
