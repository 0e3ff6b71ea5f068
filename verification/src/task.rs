//! The decisions of the per-peer task: what each of its three event
//! sources (poll timer, inbound datagram, reset notice) does to the
//! task's state and what message, if any, goes to the supervisor.
//! The loop that waits on timers, sockets and channels lives outside
//! this crate and feeds plain values in.
use vstd::prelude::*;

use crate::packet::NtpHeader;
use crate::peer::{
    spec_packet_verdict, spec_poll_exponent, spec_snapshot, IgnoreReason, Peer, PeerSnapshot,
    SystemConfig, SystemSnapshot,
};
use crate::time::{NtpDuration, NtpTimestamp};

verus! {

/// The supervisor's reset counter. A message is a valid measurement
/// only while its epoch equals the supervisor's current one; the
/// counter wraps, and only equality ever matters.
#[derive(Clone, Copy, Debug, PartialEq, Eq, Structural)]
pub struct ResetEpoch(pub u64);

impl ResetEpoch {
    /// The next epoch, wrapping at the end of the counter's range.
    #[must_use]
    pub fn inc(self) -> (r: Self)
        ensures
            r.0 == (if self.0 == u64::MAX {
                0int
            } else {
                self.0 + 1
            }),
    {
        ResetEpoch(self.0.wrapping_add(1))
    }
}

impl Default for ResetEpoch {
    fn default() -> (r: Self)
        ensures
            r.0 == 0,
    {
        ResetEpoch(0)
    }
}

/// The dense identifier the supervisor knows a peer by; it rides on
/// every outbound message for demultiplexing.
#[derive(Clone, Copy, Debug, PartialEq, Eq, Structural)]
pub struct PeerIndex {
    pub index: usize,
}

/// What a peer tells the supervisor.
#[derive(Clone, Copy, Debug)]
pub enum MsgForSystem {
    /// Received a kiss-o'-death; this association stops for good.
    MustDemobilize(PeerIndex),
    /// An accepted packet made a new snapshot; the supervisor should
    /// consider a clock select.
    NewMeasurement(PeerIndex, ResetEpoch, PeerSnapshot),
    /// The snapshot may have changed, with no new measurement behind
    /// it.
    UpdatedSnapshot(PeerIndex, ResetEpoch, PeerSnapshot),
}

/// What a received buffer comes to: the parsed header and the
/// kernel receive timestamp, or nothing. A read error, a missing
/// kernel timestamp, and a datagram under 48 bytes are all dropped;
/// bytes past the first 48 would be extension fields and are
/// ignored.
pub open spec fn spec_accept_packet(
    result: Option<(usize, Option<NtpTimestamp>)>,
    buf: Seq<u8>,
) -> Option<(NtpHeader, NtpTimestamp)> {
    match result {
        Some((size, Some(recv_timestamp))) => {
            if size >= 48 {
                Some((crate::packet::spec_deserialize(buf), recv_timestamp))
            } else {
                None
            }
        },
        _ => None,
    }
}

/// Validate one received datagram. `result` carries what the socket
/// reported: the byte count and the kernel receive timestamp, or
/// `None` for a read error.
pub fn accept_packet(result: Option<(usize, Option<NtpTimestamp>)>, buf: &[u8; 48]) -> (r: Option<
    (NtpHeader, NtpTimestamp),
>)
    ensures
        r == spec_accept_packet(result, buf@),
{
    match result {
        Some((size, Some(recv_timestamp))) => {
            if size >= 48 {
                Some((NtpHeader::deserialize(buf), recv_timestamp))
            } else {
                None
            }
        },
        _ => None,
    }
}

/// The state the peer task's decisions run on: the association, the
/// locally kept transmit timestamp of the poll in flight, and the
/// reset epoch its messages are tagged with.
pub struct PeerTask {
    pub index: PeerIndex,
    pub peer: Peer,
    /// The true transmit time of the last poll. It never enters the
    /// packet; the wire carries a nonce instead.
    pub last_send_timestamp: Option<NtpTimestamp>,
    pub reset_epoch: ResetEpoch,
}

impl PeerTask {
    pub open spec fn wf(&self) -> bool {
        self.peer.wf()
    }

    pub fn new(index: PeerIndex, peer: Peer, reset_epoch: ResetEpoch) -> (r: Self)
        requires
            peer.wf(),
        ensures
            r.wf(),
            r.index == index,
            r.peer == peer,
            r.last_send_timestamp is None,
            r.reset_epoch == reset_epoch,
    {
        PeerTask { index, peer, last_send_timestamp: None, reset_epoch }
    }

    /// The poll timer fired: build the outbound header around the
    /// caller's nonce, remember the true transmit time, and report
    /// the fresh snapshot. The message carries the epoch the task
    /// holds at this moment, and the packet's origin-timestamp
    /// field stays zero: the local clock reading never reaches the
    /// wire.
    pub fn handle_poll(
        &mut self,
        system: SystemSnapshot,
        nonce: NtpTimestamp,
        transmit_timestamp: NtpTimestamp,
    ) -> (r: (NtpHeader, MsgForSystem))
        requires
            old(self).wf(),
            system.wf(),
        ensures
            final(self).wf(),
            final(self).index == old(self).index,
            final(self).reset_epoch == old(self).reset_epoch,
            final(self).last_send_timestamp == Some(transmit_timestamp),
            final(self).peer == (Peer {
                next_expected_origin_timestamp: Some(nonce),
                reach: crate::peer::reach_shifted(old(self).peer.reach as int) as u8,
                unanswered_polls: (if old(self).peer.next_expected_origin_timestamp is Some {
                    crate::peer::bumped_interval(old(self).peer.unanswered_polls as int)
                } else {
                    old(self).peer.unanswered_polls as int
                }) as u8,
                ..old(self).peer
            }),
            r.1 == MsgForSystem::UpdatedSnapshot(
                old(self).index,
                old(self).reset_epoch,
                spec_snapshot(final(self).peer),
            ),
            r.0.transmit_timestamp == nonce,
            r.0.origin_timestamp.bits == 0,
            r.0.mode == crate::packet::NtpAssociationMode::Client,
            r.0.poll == spec_poll_exponent(old(self).peer, system) as i8,
    {
        let packet = self.peer.generate_poll_message(system, nonce);
        let snapshot = PeerSnapshot::from_peer(&self.peer);
        let msg = MsgForSystem::UpdatedSnapshot(self.index, self.reset_epoch, snapshot);
        self.last_send_timestamp = Some(transmit_timestamp);
        (packet, msg)
    }

    /// The reset channel changed: forget the poll in flight, so a
    /// response to a pre-reset poll fails the origin match, and tag
    /// everything that follows with the new epoch.
    pub fn handle_reset(&mut self, new_epoch: ResetEpoch)
        requires
            old(self).wf(),
        ensures
            final(self).wf(),
            final(self).index == old(self).index,
            final(self).last_send_timestamp == old(self).last_send_timestamp,
            final(self).reset_epoch == new_epoch,
            final(self).peer == (Peer {
                next_expected_origin_timestamp: None,
                ..old(self).peer
            }),
    {
        self.peer.reset_measurements();
        self.reset_epoch = new_epoch;
    }

    /// An accepted header reached the association: pass it through
    /// the peer's validation and filter. An accepted measurement is
    /// reported under the current epoch; a demobilizing kiss code
    /// turns into the terminal message and stops the task; every
    /// other verdict is dropped silently.
    pub fn handle_packet(
        &mut self,
        packet: NtpHeader,
        config: SystemConfig,
        send_timestamp: NtpTimestamp,
        recv_timestamp: NtpTimestamp,
    ) -> (r: (Option<MsgForSystem>, bool))
        requires
            old(self).wf(),
            config.wf(),
        ensures
            final(self).wf(),
            final(self).index == old(self).index,
            final(self).reset_epoch == old(self).reset_epoch,
            final(self).last_send_timestamp == old(self).last_send_timestamp,
            ({
                let verdict = spec_packet_verdict(
                    old(self).peer,
                    packet,
                    send_timestamp,
                    recv_timestamp,
                    config.frequency_tolerance_ppm as int,
                );
                match verdict {
                    Ok(tuple) => {
                        &&& r.0 == Some(
                            MsgForSystem::NewMeasurement(
                                old(self).index,
                                old(self).reset_epoch,
                                spec_snapshot(final(self).peer),
                            ),
                        )
                        &&& r.1 == false
                        &&& final(self).peer.next_expected_origin_timestamp is None
                    },
                    Err(reason) => {
                        &&& (reason == IgnoreReason::KissDemobilize ==> r.0 == Some(
                            MsgForSystem::MustDemobilize(old(self).index),
                        ) && r.1 == true)
                        &&& (reason != IgnoreReason::KissDemobilize ==> r.0 is None && r.1
                            == false)
                        &&& (reason != IgnoreReason::KissRateLimit ==> final(self).peer == old(
                            self,
                        ).peer)
                    },
                }
            }),
    {
        let result = self.peer.handle_incoming(packet, config, send_timestamp, recv_timestamp);
        match result {
            Ok(update) => (
                Some(MsgForSystem::NewMeasurement(self.index, self.reset_epoch, update)),
                false,
            ),
            Err(IgnoreReason::KissDemobilize) => (
                Some(MsgForSystem::MustDemobilize(self.index)),
                true,
            ),
            Err(_) => (None, false),
        }
    }

    /// The socket reported a datagram (or an error): the receive arm
    /// of the task's loop. Without a poll in flight there is no
    /// transmit timestamp to measure against, so anything received
    /// is discarded; otherwise the validated header goes through the
    /// association.
    pub fn handle_recv(
        &mut self,
        result: Option<(usize, Option<NtpTimestamp>)>,
        buf: &[u8; 48],
        config: SystemConfig,
    ) -> (r: (Option<MsgForSystem>, bool))
        requires
            old(self).wf(),
            config.wf(),
        ensures
            final(self).wf(),
            final(self).index == old(self).index,
            final(self).reset_epoch == old(self).reset_epoch,
            final(self).last_send_timestamp == old(self).last_send_timestamp,
            ({
                let accepted = spec_accept_packet(result, buf@);
                match (old(self).last_send_timestamp, accepted) {
                    (Some(send_timestamp), Some(pr)) => {
                        let verdict = spec_packet_verdict(
                            old(self).peer,
                            pr.0,
                            send_timestamp,
                            pr.1,
                            config.frequency_tolerance_ppm as int,
                        );
                        match verdict {
                            Ok(tuple) => {
                                &&& r.0 == Some(
                                    MsgForSystem::NewMeasurement(
                                        old(self).index,
                                        old(self).reset_epoch,
                                        spec_snapshot(final(self).peer),
                                    ),
                                )
                                &&& r.1 == false
                            },
                            Err(reason) => {
                                &&& (reason == IgnoreReason::KissDemobilize ==> r.0 == Some(
                                    MsgForSystem::MustDemobilize(old(self).index),
                                ) && r.1 == true)
                                &&& (reason != IgnoreReason::KissDemobilize ==> r.0 is None && r.1
                                    == false)
                            },
                        }
                    },
                    _ => {
                        &&& r.0 is None
                        &&& r.1 == false
                        &&& final(self).peer == old(self).peer
                    },
                }
            }),
    {
        let send_timestamp = match self.last_send_timestamp {
            Some(ts) => ts,
            None => {
                return (None, false);
            },
        };
        match accept_packet(result, buf) {
            Some((packet, recv_timestamp)) => self.handle_packet(
                packet,
                config,
                send_timestamp,
                recv_timestamp,
            ),
            None => (None, false),
        }
    }
}

} // verus!
