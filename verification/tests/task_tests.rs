use ntp_core::packet::{NtpAssociationMode, NtpHeader, ReferenceId, KISS_DENY, KISS_RATE};
use ntp_core::peer::{
    IgnoreReason, Peer, PollInterval, SystemConfig, SystemSnapshot,
};
use ntp_core::task::{accept_packet, MsgForSystem, PeerIndex, PeerTask, ResetEpoch};
use ntp_core::time::{NtpDuration, NtpTimestamp};

fn ts(seconds: u64) -> NtpTimestamp {
    NtpTimestamp::from_bits(seconds << 32)
}

fn make_task(epoch: ResetEpoch) -> PeerTask {
    let peer = Peer::new(ReferenceId::new(1), ReferenceId::new(2));
    PeerTask::new(PeerIndex { index: 0 }, peer, epoch)
}

/// A well-formed server answer to the poll the task last sent.
fn server_answer(poll_packet: &NtpHeader) -> NtpHeader {
    let mut answer = NtpHeader::new();
    answer.stratum = 1;
    answer.mode = NtpAssociationMode::Server;
    answer.origin_timestamp = poll_packet.transmit_timestamp;
    answer.receive_timestamp = ts(1010);
    answer.transmit_timestamp = ts(1011);
    answer
}

#[test]
fn test_spawn_reset_epoch() {
    // The first emission after starting with a bumped epoch carries
    // exactly that epoch.
    let epoch = ResetEpoch::default().inc();
    let mut task = make_task(epoch);

    let (_packet, msg) = task.handle_poll(SystemSnapshot::default(), ts(77), ts(1000));
    let peer_epoch = match msg {
        MsgForSystem::UpdatedSnapshot(_, peer_epoch, _) => peer_epoch,
        _ => panic!("Unexpected message"),
    };

    assert_eq!(epoch, peer_epoch);
}

#[test]
fn test_poll_sends_state_update_and_packet() {
    let mut task = make_task(ResetEpoch::default());

    let (packet, msg) = task.handle_poll(SystemSnapshot::default(), ts(77), ts(1000));
    assert!(matches!(msg, MsgForSystem::UpdatedSnapshot(_, _, _)));

    let wire = packet.serialize();
    assert_eq!(wire.len(), 48);
}

#[test]
fn test_reset_updates_epoch() {
    let mut task = make_task(ResetEpoch::default());

    let epoch_a = ResetEpoch::default();
    let epoch_b = epoch_a.inc();

    let (_, msg) = task.handle_poll(SystemSnapshot::default(), ts(77), ts(1000));
    let peer_epoch = match msg {
        MsgForSystem::UpdatedSnapshot(_, peer_epoch, _) => peer_epoch,
        _ => panic!("Unexpected message"),
    };
    assert_eq!(peer_epoch, epoch_a);

    task.handle_reset(epoch_b);

    let (_, msg) = task.handle_poll(SystemSnapshot::default(), ts(78), ts(1002));
    let peer_epoch = match msg {
        MsgForSystem::UpdatedSnapshot(_, peer_epoch, _) => peer_epoch,
        _ => panic!("Unexpected message"),
    };
    assert_eq!(peer_epoch, epoch_b);
}

#[test]
fn test_timeroundtrip() {
    // Poll, answer with the echoed nonce, and a measurement comes out.
    let mut task = make_task(ResetEpoch::default());

    let (packet, msg) = task.handle_poll(SystemSnapshot::default(), ts(77), ts(1000));
    assert!(matches!(msg, MsgForSystem::UpdatedSnapshot(_, _, _)));

    let answer = server_answer(&packet);
    let buf: [u8; 48] = answer.serialize().try_into().unwrap();

    let (msg, stop) = task.handle_recv(
        Some((48, Some(ts(1002)))),
        &buf,
        SystemConfig::default(),
    );
    assert!(matches!(msg, Some(MsgForSystem::NewMeasurement(_, _, _))));
    assert!(!stop);
}

#[test]
fn poll_packet_hides_local_time() {
    // The origin field carries zeros and the transmit field carries
    // the nonce; the true transmit time stays local.
    let mut task = make_task(ResetEpoch::default());
    let nonce = NtpTimestamp::from_bits(0xfeedc0ffee123456);
    let (packet, _) = task.handle_poll(SystemSnapshot::default(), nonce, ts(1000));
    assert_eq!(packet.origin_timestamp.to_bits(), 0);
    assert_eq!(packet.transmit_timestamp, nonce);
    assert_eq!(task.last_send_timestamp, Some(ts(1000)));
}

#[test]
fn origin_mismatch_yields_no_measurement() {
    let mut task = make_task(ResetEpoch::default());
    let (packet, _) = task.handle_poll(SystemSnapshot::default(), ts(77), ts(1000));

    let mut answer = server_answer(&packet);
    answer.origin_timestamp = NtpTimestamp::from_bits(0xbad);
    let buf: [u8; 48] = answer.serialize().try_into().unwrap();

    let (msg, stop) = task.handle_recv(
        Some((48, Some(ts(1002)))),
        &buf,
        SystemConfig::default(),
    );
    assert!(msg.is_none());
    assert!(!stop);
}

#[test]
fn second_answer_to_one_poll_is_ignored() {
    let mut task = make_task(ResetEpoch::default());
    let (packet, _) = task.handle_poll(SystemSnapshot::default(), ts(77), ts(1000));

    let answer = server_answer(&packet);
    let buf: [u8; 48] = answer.serialize().try_into().unwrap();
    let config = SystemConfig::default();

    let (msg, _) = task.handle_recv(Some((48, Some(ts(1002)))), &buf, config);
    assert!(matches!(msg, Some(MsgForSystem::NewMeasurement(_, _, _))));

    // the nonce is spent: replaying the same answer does nothing
    let (msg, stop) = task.handle_recv(Some((48, Some(ts(1003)))), &buf, config);
    assert!(msg.is_none());
    assert!(!stop);
}

#[test]
fn recv_without_poll_discards() {
    let mut task = make_task(ResetEpoch::default());
    let answer = server_answer(&NtpHeader::new());
    let buf: [u8; 48] = answer.serialize().try_into().unwrap();

    let (msg, stop) = task.handle_recv(
        Some((48, Some(ts(1002)))),
        &buf,
        SystemConfig::default(),
    );
    assert!(msg.is_none());
    assert!(!stop);
}

#[test]
fn malformed_datagrams_are_dropped() {
    let buf = [0u8; 48];
    // read error
    assert!(accept_packet(None, &buf).is_none());
    // no kernel timestamp
    assert!(accept_packet(Some((48, None)), &buf).is_none());
    // too short
    assert!(accept_packet(Some((47, Some(ts(1)))), &buf).is_none());
    // large datagrams are fine: the tail would be extension fields
    assert!(accept_packet(Some((52, Some(ts(1)))), &buf).is_some());
}

#[test]
fn kiss_deny_demobilizes() {
    let mut task = make_task(ResetEpoch::default());
    let (packet, _) = task.handle_poll(SystemSnapshot::default(), ts(77), ts(1000));

    let mut answer = server_answer(&packet);
    answer.stratum = 0;
    answer.reference_id = ReferenceId::new(KISS_DENY);
    let buf: [u8; 48] = answer.serialize().try_into().unwrap();

    let (msg, stop) = task.handle_recv(
        Some((48, Some(ts(1002)))),
        &buf,
        SystemConfig::default(),
    );
    assert!(matches!(msg, Some(MsgForSystem::MustDemobilize(_))));
    assert!(stop);
}

#[test]
fn kiss_rate_raises_poll_floor() {
    let mut task = make_task(ResetEpoch::default());
    let (packet, _) = task.handle_poll(SystemSnapshot::default(), ts(77), ts(1000));
    let floor_before = task.peer.remote_min_poll_interval;

    let mut answer = server_answer(&packet);
    answer.stratum = 0;
    answer.reference_id = ReferenceId::new(KISS_RATE);
    let buf: [u8; 48] = answer.serialize().try_into().unwrap();

    let (msg, stop) = task.handle_recv(
        Some((48, Some(ts(1002)))),
        &buf,
        SystemConfig::default(),
    );
    assert!(msg.is_none());
    assert!(!stop);
    assert_eq!(task.peer.remote_min_poll_interval, floor_before + 1);
}

#[test]
fn ignore_reasons_are_reported() {
    let config = SystemConfig::default();
    let mut peer = Peer::new(ReferenceId::new(1), ReferenceId::new(2));

    // nothing in flight
    let answer = server_answer(&NtpHeader::new());
    let r = peer.handle_incoming(answer, config, ts(1000), ts(1002));
    assert!(matches!(r, Err(IgnoreReason::DuplicateOrReplay)));

    let system = SystemSnapshot::default();
    let poll = peer.generate_poll_message(system, ts(77));

    // wrong mode
    let mut bad_mode = server_answer(&poll);
    bad_mode.mode = NtpAssociationMode::Client;
    let r = peer.handle_incoming(bad_mode, config, ts(1000), ts(1002));
    assert!(matches!(r, Err(IgnoreReason::InvalidMode)));

    // impossible stratum
    let mut bad_stratum = server_answer(&poll);
    bad_stratum.stratum = 17;
    let r = peer.handle_incoming(bad_stratum, config, ts(1000), ts(1002));
    assert!(matches!(r, Err(IgnoreReason::InvalidStratum)));

    // wrong origin
    let mut bad_origin = server_answer(&poll);
    bad_origin.origin_timestamp = NtpTimestamp::from_bits(0xbad);
    let r = peer.handle_incoming(bad_origin, config, ts(1000), ts(1002));
    assert!(matches!(r, Err(IgnoreReason::OriginMismatch)));

    // a sample not newer than the last one, from a synchronized server
    let mut stale = server_answer(&poll);
    stale.receive_timestamp = NtpTimestamp::zero();
    stale.transmit_timestamp = NtpTimestamp::zero();
    let r = peer.handle_incoming(stale, config, NtpTimestamp::zero(), NtpTimestamp::zero());
    assert!(matches!(r, Err(IgnoreReason::FilterRejectedAsOld)));

    // kiss codes on a stratum-zero packet
    let mut deny = server_answer(&poll);
    deny.stratum = 0;
    deny.reference_id = ReferenceId::new(KISS_DENY);
    let r = peer.handle_incoming(deny, config, ts(1000), ts(1002));
    assert!(matches!(r, Err(IgnoreReason::KissDemobilize)));

    let mut rate = server_answer(&poll);
    rate.stratum = 0;
    rate.reference_id = ReferenceId::new(KISS_RATE);
    let r = peer.handle_incoming(rate, config, ts(1000), ts(1002));
    assert!(matches!(r, Err(IgnoreReason::KissRateLimit)));
}

#[test]
fn accepted_measurement_updates_peer() {
    let config = SystemConfig::default();
    let mut peer = Peer::new(ReferenceId::new(1), ReferenceId::new(2));
    let poll = peer.generate_poll_message(SystemSnapshot::default(), ts(77));

    // T1=1000, T2=1010, T3=1011, T4=1002:
    // offset ((T2-T1)+(T3-T4))/2 = (10+9)/2 = 9.5 s
    // delay (T4-T1)-(T3-T2) = 2-1 = 1 s
    let answer = server_answer(&poll);
    let snapshot = peer
        .handle_incoming(answer, config, ts(1000), ts(1002))
        .unwrap();

    assert_eq!(snapshot.offset.to_bits(), (19i64 << 32) / 2);
    assert_eq!(snapshot.delay.to_bits(), 1i64 << 32);
    assert_eq!(snapshot.time, ts(1002));
    assert_eq!(snapshot.stratum, 1);
    assert_eq!(snapshot.reach, 1);
    assert!(peer.next_expected_origin_timestamp.is_none());
}

#[test]
fn poll_interval_respects_bounds() {
    let mut peer = Peer::new(ReferenceId::new(1), ReferenceId::new(2));
    let system = SystemSnapshot {
        poll_interval_min: 5,
        poll_interval_max: 9,
    };
    assert_eq!(peer.current_poll_interval(system).exponent, 5);

    peer.remote_min_poll_interval = 17;
    assert_eq!(peer.current_poll_interval(system).exponent, 9);
}

#[test]
fn unanswered_polls_back_the_interval_off() {
    let mut peer = Peer::new(ReferenceId::new(1), ReferenceId::new(2));
    let system = SystemSnapshot {
        poll_interval_min: 4,
        poll_interval_max: 10,
    };
    assert_eq!(peer.current_poll_interval(system).exponent, 4);

    // the first poll goes out; the second finds it unanswered
    peer.generate_poll_message(system, ts(1));
    assert_eq!(peer.current_poll_interval(system).exponent, 4);
    peer.generate_poll_message(system, ts(2));
    assert_eq!(peer.current_poll_interval(system).exponent, 5);
    peer.generate_poll_message(system, ts(3));
    assert_eq!(peer.current_poll_interval(system).exponent, 6);

    // an accepted response resets the backoff
    let mut answer = server_answer(&NtpHeader::new());
    answer.origin_timestamp = ts(3);
    peer.handle_incoming(answer, SystemConfig::default(), ts(1000), ts(1002))
        .unwrap();
    assert_eq!(peer.current_poll_interval(system).exponent, 4);
}

#[test]
fn poll_interval_as_duration() {
    let interval = PollInterval { exponent: 4 };
    assert_eq!(interval.as_duration().to_bits(), 16i64 << 32);
}

#[test]
fn reset_epoch_wraps() {
    assert_eq!(ResetEpoch::default().inc(), ResetEpoch(1));
    assert_eq!(ResetEpoch(u64::MAX).inc(), ResetEpoch(0));
}
