use ntp_core::filter::{
    clock_filter, multiply_by_phi, ClockFilterContents, FilterTuple, TemporaryList,
};
use ntp_core::time::{NtpDuration, NtpLeapIndicator, NtpTimestamp};

fn seconds(s: f64) -> NtpDuration {
    NtpDuration::from_bits((s * 4294967296.0) as i64)
}

fn to_seconds(d: NtpDuration) -> f64 {
    d.to_bits() as f64 / 4294967296.0
}

#[test]
fn dispersion_of_dummys() {
    // The observer should note (a) if all stages contain the dummy tuple
    // with dispersion MAXDISP, the computed dispersion is a little less than 16 s

    let register = TemporaryList::new();
    let value = to_seconds(register.dispersion());

    assert!((16.0 - value) < 0.1)
}

#[test]
fn dummys_are_not_valid() {
    assert!(TemporaryList::new().valid_tuples().is_empty())
}

#[test]
fn clock_filter_defaults() {
    let clock_filter_contents = ClockFilterContents::new();
    let leap_indicator = NtpLeapIndicator::NoWarning;
    let peer_time = NtpTimestamp::zero();

    let new_tuple = FilterTuple::new(
        NtpDuration::zero(),
        NtpDuration::zero(),
        NtpDuration::zero(),
        NtpTimestamp::zero(),
    );

    let statistics = clock_filter(peer_time, leap_indicator, clock_filter_contents, new_tuple);

    // because "time" is zero, the same as all the dummy tuples,
    // the "new" tuple is not newer and hence rejected
    assert!(statistics.is_none());
}

#[test]
fn clock_filter_new() {
    let clock_filter_contents = ClockFilterContents::new();
    let leap_indicator = NtpLeapIndicator::NoWarning;
    let peer_time = NtpTimestamp::zero();

    let new_tuple = FilterTuple::new(
        seconds(12.0),
        seconds(14.0),
        NtpDuration::zero(),
        NtpTimestamp::from_bits(1u64 << 32),
    );

    let statistics = clock_filter(peer_time, leap_indicator, clock_filter_contents, new_tuple);

    let statistics = statistics.unwrap();

    assert_eq!(statistics.offset, new_tuple.offset);
    assert_eq!(statistics.delay, new_tuple.delay);
    assert_eq!(statistics.filter_time, new_tuple.time);

    let temporary = TemporaryList::from_clock_filter_contents(&statistics.filter);

    assert_eq!(temporary.smallest_delay(), new_tuple);
    assert_eq!(temporary.valid_tuples(), vec![new_tuple]);
}

#[test]
fn stale_sample_is_rejected() {
    // A synchronized server may never hand us a sample that is not
    // newer than the last accepted one.
    let mut register = ClockFilterContents::new();
    let old_sample = FilterTuple::new(
        seconds(1.0),
        seconds(2.0),
        NtpDuration::zero(),
        NtpTimestamp::from_bits(100u64 << 32),
    );
    register.shift_and_insert(old_sample, NtpDuration::zero());

    let peer_time = NtpTimestamp::from_bits(200u64 << 32);
    let stale = FilterTuple::new(
        seconds(3.0),
        seconds(9.0),
        NtpDuration::zero(),
        NtpTimestamp::from_bits(150u64 << 32),
    );

    let statistics = clock_filter(peer_time, NtpLeapIndicator::NoWarning, register, stale);
    assert!(statistics.is_none());
}

#[test]
fn unsynchronized_server_bootstraps() {
    // Before first synchronization anything goes: the same stale
    // sample is accepted when the server's leap indicator is unknown.
    let register = ClockFilterContents::new();
    let peer_time = NtpTimestamp::from_bits(200u64 << 32);
    let stale = FilterTuple::new(
        seconds(3.0),
        seconds(9.0),
        NtpDuration::zero(),
        NtpTimestamp::from_bits(150u64 << 32),
    );

    let statistics = clock_filter(peer_time, NtpLeapIndicator::Unknown, register, stale);
    assert!(statistics.is_some());
}

#[test]
fn shift_and_insert_keeps_length_and_front() {
    let mut register = ClockFilterContents::new();
    let first = FilterTuple::new(
        seconds(1.0),
        seconds(2.0),
        NtpDuration::zero(),
        NtpTimestamp::from_bits(1u64 << 32),
    );
    register.shift_and_insert(first, NtpDuration::zero());
    assert_eq!(register.get(0), first);

    let second = FilterTuple::new(
        seconds(3.0),
        seconds(4.0),
        NtpDuration::zero(),
        NtpTimestamp::from_bits(2u64 << 32),
    );
    register.shift_and_insert(second, NtpDuration::zero());
    assert_eq!(register.get(0), second);
    assert_eq!(register.get(1), first);
    for i in 2..8 {
        assert!(register.get(i).is_dummy());
    }
}

#[test]
fn shift_and_insert_ages_real_samples_only() {
    let mut register = ClockFilterContents::new();
    let sample = FilterTuple::new(
        seconds(1.0),
        seconds(2.0),
        NtpDuration::from_bits(500),
        NtpTimestamp::from_bits(1u64 << 32),
    );
    register.shift_and_insert(sample, NtpDuration::zero());

    let next = FilterTuple::new(
        seconds(3.0),
        seconds(4.0),
        NtpDuration::zero(),
        NtpTimestamp::from_bits(2u64 << 32),
    );
    register.shift_and_insert(next, NtpDuration::from_bits(100));

    // the real sample aged by the correction, the sentinels did not
    assert_eq!(register.get(1).dispersion.to_bits(), 600);
    assert!(register.get(2).is_dummy());
}

#[test]
fn temporary_list_is_sorted_permutation() {
    let mut register = ClockFilterContents::new();
    for i in 0..8u64 {
        let tuple = FilterTuple::new(
            NtpDuration::from_bits(i as i64),
            NtpDuration::from_bits(((8 - i) as i64) << 32),
            NtpDuration::zero(),
            NtpTimestamp::from_bits((i + 1) << 32),
        );
        register.set_tuple(i as usize, tuple);
    }

    let temporary = TemporaryList::from_clock_filter_contents(&register);
    let tuples = temporary.valid_tuples();
    assert_eq!(tuples.len(), 8);

    let mut delays: Vec<i64> = Vec::new();
    for t in &tuples {
        delays.push(t.delay.to_bits());
    }
    for w in delays.windows(2) {
        assert!(w[0] <= w[1]);
    }

    // the same eight delays, each exactly once
    let mut sorted_delays = delays.clone();
    sorted_delays.sort();
    let expected: Vec<i64> = (1..=8).map(|s: i64| s << 32).collect();
    assert_eq!(sorted_delays, expected);
}

#[test]
fn sorting_is_idempotent() {
    let mut register = ClockFilterContents::new();
    for i in 0..8u64 {
        let tuple = FilterTuple::new(
            NtpDuration::zero(),
            NtpDuration::from_bits(((8 - i) as i64) << 32),
            NtpDuration::zero(),
            NtpTimestamp::from_bits((i + 1) << 32),
        );
        register.set_tuple(i as usize, tuple);
    }

    let once = TemporaryList::from_clock_filter_contents(&register);
    let first = once.valid_tuples();

    let mut sorted_register = ClockFilterContents::new();
    for (i, t) in first.iter().enumerate() {
        sorted_register.set_tuple(i, *t);
    }
    let twice = TemporaryList::from_clock_filter_contents(&sorted_register);
    assert_eq!(twice.valid_tuples(), first);
}

#[test]
fn multiply_by_phi_truncates_toward_zero() {
    assert_eq!(multiply_by_phi(NtpDuration::from_bits(1_000_000)).to_bits(), 15);
    assert_eq!(multiply_by_phi(NtpDuration::from_bits(-1_000_000)).to_bits(), -15);
    // 100000 * 15 / 1000000 is 1.5: truncation toward zero on both signs
    assert_eq!(multiply_by_phi(NtpDuration::from_bits(100_000)).to_bits(), 1);
    assert_eq!(multiply_by_phi(NtpDuration::from_bits(-100_000)).to_bits(), -1);
}
