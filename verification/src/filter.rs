//! The RFC 5905 clock filter: an eight-stage shift register of
//! (offset, delay, dispersion, time) samples and the estimator that
//! derives the peer's offset, delay and dispersion from it.
//!
//! The estimator here is pure fixed-point arithmetic. The jitter
//! statistic of the RFC is a root-mean-square over floating-point
//! seconds and is computed by the caller from the register this
//! module maintains.
use vstd::prelude::*;

use crate::time::{
    div_trunc, i64_sat_add, ts_diff, NtpDuration, NtpLeapIndicator, NtpTimestamp,
    MAX_DISPERSION_BITS,
};

verus! {

/// One sample: offset and round-trip delay of an exchange, the
/// dispersion assigned to it, and the time it was taken.
#[derive(Clone, Copy, Debug, PartialEq, Eq, Structural)]
pub struct FilterTuple {
    pub offset: NtpDuration,
    pub delay: NtpDuration,
    pub dispersion: NtpDuration,
    pub time: NtpTimestamp,
}

/// The sentinel occupying register stages that hold no sample yet:
/// zero offset, maximal delay and dispersion, time zero.
pub open spec fn dummy_tuple() -> FilterTuple {
    FilterTuple {
        offset: NtpDuration { bits: 0 },
        delay: NtpDuration { bits: MAX_DISPERSION_BITS },
        dispersion: NtpDuration { bits: MAX_DISPERSION_BITS },
        time: NtpTimestamp { bits: 0 },
    }
}

impl FilterTuple {
    pub fn dummy() -> (r: Self)
        ensures
            r == dummy_tuple(),
    {
        FilterTuple {
            offset: NtpDuration::zero(),
            delay: NtpDuration::max_dispersion(),
            dispersion: NtpDuration::max_dispersion(),
            time: NtpTimestamp::zero(),
        }
    }

    pub fn new(
        offset: NtpDuration,
        delay: NtpDuration,
        dispersion: NtpDuration,
        time: NtpTimestamp,
    ) -> (r: Self)
        ensures
            r == (FilterTuple { offset, delay, dispersion, time }),
    {
        FilterTuple { offset, delay, dispersion, time }
    }

    pub fn is_dummy(self) -> (r: bool)
        ensures
            r == (self == dummy_tuple()),
    {
        self == FilterTuple::dummy()
    }
}

/// The dispersion growth attributed to an elapsed duration by the
/// frequency tolerance PHI of 15 ppm, truncating toward zero.
pub open spec fn phi_corr(bits: int) -> int {
    div_trunc(bits * 15, 1000000)
}

/// Multiply a duration by the frequency tolerance PHI (15 ppm).
pub fn multiply_by_phi(duration: NtpDuration) -> (r: NtpDuration)
    ensures
        r.bits == phi_corr(duration.bits as int),
{
    let neg: bool = duration.bits < 0;
    let mag: u128 = if duration.bits >= 0 {
        duration.bits as u128
    } else {
        (-(duration.bits as i128)) as u128
    };
    let q: u128 = (mag * 15) / 1000000;
    proof {
        assert(mag <= 0x8000000000000000);
        assert(q < 0x8000000000000000) by (nonlinear_arith)
            requires
                mag <= 0x8000000000000000,
                q == (mag * 15) / 1000000,
        ;
        if duration.bits >= 0 {
            assert(q == div_trunc(duration.bits * 15, 1000000));
        } else {
            assert(mag * 15 == -(duration.bits * 15));
            assert(-(q as int) == div_trunc(duration.bits * 15, 1000000));
        }
    }
    if neg {
        NtpDuration::from_bits(-(q as i64))
    } else {
        NtpDuration::from_bits(q as i64)
    }
}

/// A parts-per-million scaling of a duration, truncating toward
/// zero: the general form of the PHI correction, for a configured
/// frequency tolerance.
pub open spec fn ppm_corr(bits: int, ppm: int) -> int {
    div_trunc(bits * ppm, 1000000)
}

/// Multiply a duration by a frequency tolerance in parts per
/// million.
pub fn multiply_by_ppm(duration: NtpDuration, ppm: u32) -> (r: NtpDuration)
    requires
        ppm < 1000000,
    ensures
        r.bits == ppm_corr(duration.bits as int, ppm as int),
{
    let neg: bool = duration.bits < 0;
    let mag: u128 = if duration.bits >= 0 {
        duration.bits as u128
    } else {
        (-(duration.bits as i128)) as u128
    };
    proof {
        assert(mag <= 0x8000000000000000);
        assert(mag * ppm <= 0x8000000000000000 * 1000000) by (nonlinear_arith)
            requires
                mag <= 0x8000000000000000,
                ppm < 1000000,
        ;
    }
    let q: u128 = (mag * (ppm as u128)) / 1000000;
    proof {
        assert(q < 0x8000000000000000) by (nonlinear_arith)
            requires
                mag <= 0x8000000000000000,
                ppm < 1000000,
                q == (mag * (ppm as u128)) / 1000000,
        ;
        if duration.bits >= 0 {
            assert(q == div_trunc(duration.bits * ppm, 1000000));
        } else {
            assert(mag == -(duration.bits as int));
            assert(mag * ppm == -(duration.bits * ppm)) by (nonlinear_arith)
                requires
                    mag == -(duration.bits as int),
            ;
            assert(-(q as int) == div_trunc(duration.bits * ppm, 1000000));
        }
    }
    if neg {
        NtpDuration::from_bits(-(q as i64))
    } else {
        NtpDuration::from_bits(q as i64)
    }
}

/// A tuple after one aging step: the sentinel is left untouched, a
/// real sample has the correction added to its dispersion (clamped
/// to the representable range).
pub open spec fn aged(t: FilterTuple, corr: int) -> FilterTuple {
    if t == dummy_tuple() {
        t
    } else {
        FilterTuple {
            dispersion: NtpDuration { bits: i64_sat_add(t.dispersion.bits as int, corr) as i64 },
            ..t
        }
    }
}

/// The register after a shift: the new sample in front, the first
/// seven old stages aged and moved one to the right, the oldest
/// stage discarded.
pub open spec fn shift_insert_spec(s: Seq<FilterTuple>, t: FilterTuple, corr: int) -> Seq<
    FilterTuple,
>
    recommends
        s.len() == 8,
{
    Seq::new(8, |i: int| if i == 0 {
        t
    } else {
        aged(s[i - 1], corr)
    })
}

/// The eight-stage shift register, newest sample at index 0.
#[derive(Clone, Debug)]
pub struct ClockFilterContents {
    register: Vec<FilterTuple>,
}

impl View for ClockFilterContents {
    type V = Seq<FilterTuple>;

    closed spec fn view(&self) -> Seq<FilterTuple> {
        self.register@
    }
}

/// A register of eight sentinels, the state of a fresh association.
pub open spec fn all_dummy_register() -> Seq<FilterTuple> {
    Seq::new(8, |i: int| dummy_tuple())
}

impl ClockFilterContents {
    pub open spec fn wf(&self) -> bool {
        self@.len() == 8
    }

    pub fn new() -> (r: Self)
        ensures
            r.wf(),
            r@ =~= all_dummy_register(),
    {
        let mut register: Vec<FilterTuple> = Vec::new();
        let mut i: usize = 0;
        while i < 8
            invariant
                i <= 8,
                register@.len() == i,
                forall|j: int| 0 <= j < i ==> register@[j] == dummy_tuple(),
            decreases 8 - i,
        {
            register.push(FilterTuple::dummy());
            i = i + 1;
        }
        ClockFilterContents { register }
    }

    pub fn get(&self, i: usize) -> (r: FilterTuple)
        requires
            self.wf(),
            i < 8,
        ensures
            r == self@[i as int],
    {
        self.register[i]
    }

    /// Replace one stage; meant for building registers in tests.
    pub fn set_tuple(&mut self, i: usize, t: FilterTuple)
        requires
            old(self).wf(),
            i < 8,
        ensures
            final(self).wf(),
            final(self)@ =~= old(self)@.update(i as int, t),
    {
        self.register.set(i, t);
    }

    /// A copy of the register with the same stages.
    pub fn duplicate(&self) -> (r: Self)
        requires
            self.wf(),
        ensures
            r.wf(),
            r@ == self@,
    {
        let mut register: Vec<FilterTuple> = Vec::new();
        let mut i: usize = 0;
        while i < 8
            invariant
                self.wf(),
                i <= 8,
                register@ =~= self@.take(i as int),
            decreases 8 - i,
        {
            register.push(self.register[i]);
            proof {
                assert(register@ =~= self@.take(i as int + 1));
            }
            i = i + 1;
        }
        proof {
            assert(self@.take(8) =~= self@);
        }
        ClockFilterContents { register }
    }

    /// Insert the new tuple at index 0 and move the others one to the
    /// right, aging each real sample by the dispersion correction; the
    /// oldest tuple is discarded. The register keeps its length of 8
    /// and the new tuple stands at index 0.
    pub fn shift_and_insert(&mut self, current: FilterTuple, dispersion_correction: NtpDuration)
        requires
            old(self).wf(),
        ensures
            final(self).wf(),
            final(self)@ =~= shift_insert_spec(
                old(self)@,
                current,
                dispersion_correction.bits as int,
            ),
            final(self)@[0] == current,
    {
        let mut out: Vec<FilterTuple> = Vec::new();
        out.push(current);
        let mut i: usize = 0;
        while i < 7
            invariant
                old(self).wf(),
                *self == *old(self),
                i <= 7,
                out@.len() == i + 1,
                out@[0] == current,
                forall|j: int|
                    1 <= j <= i ==> out@[j] == aged(
                        old(self)@[j - 1],
                        dispersion_correction.bits as int,
                    ),
            decreases 7 - i,
        {
            let t = self.register[i];
            let shifted = if t.is_dummy() {
                t
            } else {
                FilterTuple {
                    offset: t.offset,
                    delay: t.delay,
                    dispersion: t.dispersion.saturating_add(dispersion_correction),
                    time: t.time,
                }
            };
            out.push(shifted);
            i = i + 1;
        }
        self.register = out;
    }
}

/// Non-decreasing round-trip delay, the order of the temporary list.
pub open spec fn sorted_by_delay(s: Seq<FilterTuple>) -> bool {
    forall|i: int, j: int|
        0 <= i <= j < s.len() ==> #[trigger] s[i].delay.bits <= #[trigger] s[j].delay.bits
}

/// Insertion of a tuple into a delay-sorted sequence, after every
/// tuple of equal or smaller delay.
pub open spec fn insert_sorted(t: FilterTuple, s: Seq<FilterTuple>) -> Seq<FilterTuple>
    decreases s.len(),
{
    if s.len() == 0 {
        seq![t]
    } else if s[0].delay.bits <= t.delay.bits {
        seq![s[0]] + insert_sorted(t, s.drop_first())
    } else {
        seq![t] + s
    }
}

/// Insertion sort by delay: the stable order the temporary list has.
pub open spec fn sort_by_delay(s: Seq<FilterTuple>) -> Seq<FilterTuple>
    decreases s.len(),
{
    if s.len() == 0 {
        Seq::empty()
    } else {
        insert_sorted(s.last(), sort_by_delay(s.drop_last()))
    }
}

proof fn lemma_insert_sorted_props(t: FilterTuple, s: Seq<FilterTuple>)
    ensures
        insert_sorted(t, s).len() == s.len() + 1,
        insert_sorted(t, s).to_multiset() =~= s.to_multiset().insert(t),
        sorted_by_delay(s) ==> sorted_by_delay(insert_sorted(t, s)),
        forall|i: int|
            0 <= i < insert_sorted(t, s).len() ==> #[trigger] insert_sorted(t, s)[i] == t
                || s.contains(insert_sorted(t, s)[i]),
    decreases s.len(),
{
    broadcast use vstd::seq_lib::group_to_multiset_ensures;

    let ins = insert_sorted(t, s);
    if s.len() == 0 {
        assert(seq![t] =~= Seq::empty().push(t));
    } else if s[0].delay.bits <= t.delay.bits {
        let rest = s.drop_first();
        lemma_insert_sorted_props(t, rest);
        let ins_rest = insert_sorted(t, rest);
        assert(ins =~= seq![s[0]] + ins_rest);
        vstd::seq_lib::lemma_multiset_commutative(seq![s[0]], ins_rest);
        vstd::seq_lib::lemma_multiset_commutative(seq![s[0]], rest);
        assert(s =~= seq![s[0]] + rest);
        assert(seq![s[0]] =~= Seq::empty().push(s[0]));
        assert(ins.to_multiset() =~= s.to_multiset().insert(t)) by {
            assert(ins.to_multiset() == seq![s[0]].to_multiset().add(ins_rest.to_multiset()));
            assert(ins_rest.to_multiset() =~= rest.to_multiset().insert(t));
            assert(s.to_multiset() == seq![s[0]].to_multiset().add(rest.to_multiset()));
        }
        if sorted_by_delay(s) {
            assert(sorted_by_delay(rest)) by {
                assert(forall|i: int| 0 <= i < rest.len() ==> rest[i] == s[i + 1]);
            }
            assert(sorted_by_delay(ins)) by {
                assert(forall|i: int| 1 <= i < ins.len() ==> ins[i] == ins_rest[i - 1]);
                assert forall|i: int| 1 <= i < ins.len() implies s[0].delay.bits
                    <= #[trigger] ins[i].delay.bits by {
                    if ins_rest[i - 1] == t {
                    } else {
                        assert(rest.contains(ins_rest[i - 1]));
                        let k = choose|k: int| 0 <= k < rest.len() && rest[k] == ins_rest[i - 1];
                        assert(s[k + 1] == rest[k]);
                    }
                }
            }
        }
        assert forall|i: int| 0 <= i < ins.len() implies #[trigger] ins[i] == t || s.contains(
            ins[i],
        ) by {
            if i == 0 {
                assert(s[0] == ins[0]);
            } else {
                assert(ins[i] == ins_rest[i - 1]);
                if ins_rest[i - 1] != t {
                    assert(rest.contains(ins_rest[i - 1]));
                    let k = choose|k: int| 0 <= k < rest.len() && rest[k] == ins_rest[i - 1];
                    assert(s[k + 1] == rest[k]);
                }
            }
        }
    } else {
        assert(ins =~= seq![t] + s);
        vstd::seq_lib::lemma_multiset_commutative(seq![t], s);
        assert(seq![t] =~= Seq::empty().push(t));
        assert(ins.to_multiset() =~= s.to_multiset().insert(t));
        if sorted_by_delay(s) {
            assert forall|i: int, j: int| 0 <= i <= j < ins.len() implies #[trigger] ins[i].delay.bits
                <= #[trigger] ins[j].delay.bits by {
                if i == 0 && j > 0 {
                    assert(ins[j] == s[j - 1]);
                    assert(t.delay.bits <= s[0].delay.bits);
                }
            }
        }
    }
}

/// Inserting a tuple whose delay is at least every delay in the
/// sequence appends it at the end.
proof fn lemma_insert_sorted_at_end(t: FilterTuple, s: Seq<FilterTuple>)
    requires
        forall|i: int| 0 <= i < s.len() ==> #[trigger] s[i].delay.bits <= t.delay.bits,
    ensures
        insert_sorted(t, s) =~= s.push(t),
    decreases s.len(),
{
    if s.len() == 0 {
    } else {
        let rest = s.drop_first();
        assert(forall|i: int| 0 <= i < rest.len() ==> rest[i] == s[i + 1]);
        lemma_insert_sorted_at_end(t, rest);
        assert(insert_sorted(t, s) =~= seq![s[0]] + rest.push(t));
    }
}

proof fn lemma_insert_sorted_position(t: FilterTuple, s: Seq<FilterTuple>, p: int)
    requires
        0 <= p <= s.len(),
        forall|j: int| 0 <= j < p ==> #[trigger] s[j].delay.bits <= t.delay.bits,
        p < s.len() ==> s[p].delay.bits > t.delay.bits,
    ensures
        insert_sorted(t, s) =~= s.insert(p, t),
    decreases s.len(),
{
    if s.len() == 0 {
    } else if p == 0 {
        assert(insert_sorted(t, s) =~= seq![t] + s);
    } else {
        let rest = s.drop_first();
        assert(forall|i: int| 0 <= i < rest.len() ==> rest[i] == s[i + 1]);
        lemma_insert_sorted_position(t, rest, p - 1);
        assert(insert_sorted(t, s) =~= seq![s[0]] + rest.insert(p - 1, t));
    }
}

/// Put a tuple into a vector kept in non-decreasing delay order,
/// after every tuple of equal or smaller delay.
fn insert_by_delay(v: &mut Vec<FilterTuple>, t: FilterTuple)
    ensures
        final(v)@ =~= insert_sorted(t, old(v)@),
{
    let mut p: usize = 0;
    while p < v.len() && v[p].delay.bits <= t.delay.bits
        invariant
            p <= v.len(),
            *v == *old(v),
            forall|j: int| 0 <= j < p ==> #[trigger] v@[j].delay.bits <= t.delay.bits,
        decreases v.len() - p,
    {
        p = p + 1;
    }
    proof {
        lemma_insert_sorted_position(t, v@, p as int);
    }
    v.insert(p, t);
}

/// The temporary list is a permutation of the register it was built
/// from: sorting keeps the length and the multiset of tuples, orders
/// them by delay, and introduces no tuple of its own.
pub proof fn lemma_sort_by_delay_props(s: Seq<FilterTuple>)
    ensures
        sort_by_delay(s).len() == s.len(),
        sort_by_delay(s).to_multiset() =~= s.to_multiset(),
        sorted_by_delay(sort_by_delay(s)),
        forall|i: int|
            0 <= i < s.len() ==> s.contains(#[trigger] sort_by_delay(s)[i]),
    decreases s.len(),
{
    if s.len() == 0 {
        assert(s =~= Seq::<FilterTuple>::empty());
    } else {
        broadcast use vstd::seq_lib::group_to_multiset_ensures;

        let front = s.drop_last();
        lemma_sort_by_delay_props(front);
        lemma_insert_sorted_props(s.last(), sort_by_delay(front));
        assert(s =~= front.push(s.last()));
        assert(sort_by_delay(s).to_multiset() =~= s.to_multiset()) by {
            assert(sort_by_delay(front).to_multiset() =~= front.to_multiset());
            assert(s.to_multiset() =~= front.to_multiset().insert(s.last()));
        }
        assert forall|i: int| 0 <= i < s.len() implies s.contains(
            #[trigger] sort_by_delay(s)[i],
        ) by {
            let x = sort_by_delay(s)[i];
            if x == s.last() {
                assert(s[s.len() - 1] == x);
            } else {
                assert(sort_by_delay(front).contains(x));
                let k = choose|k: int|
                    0 <= k < sort_by_delay(front).len() && sort_by_delay(front)[k] == x;
                assert(front.contains(sort_by_delay(front)[k]));
                let m = choose|m: int| 0 <= m < front.len() && front[m] == x;
                assert(s[m] == x);
            }
        }
    }
}

/// Sorting is idempotent: a sequence already ordered by delay is its
/// own sorted image.
pub proof fn lemma_sort_by_delay_idempotent(s: Seq<FilterTuple>)
    requires
        sorted_by_delay(s),
    ensures
        sort_by_delay(s) =~= s,
    decreases s.len(),
{
    if s.len() == 0 {
    } else {
        let front = s.drop_last();
        assert(sorted_by_delay(front)) by {
            assert(forall|i: int| 0 <= i < front.len() ==> front[i] == s[i]);
        }
        lemma_sort_by_delay_idempotent(front);
        assert(forall|i: int| 0 <= i < front.len() ==> #[trigger] front[i].delay.bits
            <= s.last().delay.bits);
        lemma_insert_sorted_at_end(s.last(), front);
        assert(sort_by_delay(s) =~= front.push(s.last()));
        assert(s =~= front.push(s.last()));
    }
}

/// How many stages at the tail of the list hold the sentinel.
pub open spec fn trailing_dummies(s: Seq<FilterTuple>) -> int
    decreases s.len(),
{
    if s.len() == 0 {
        0
    } else if s.last() == dummy_tuple() {
        1 + trailing_dummies(s.drop_last())
    } else {
        0
    }
}

/// The prefix of real samples: everything before the trailing
/// sentinels.
pub open spec fn valid_prefix(s: Seq<FilterTuple>) -> Seq<FilterTuple> {
    s.take(s.len() - trailing_dummies(s))
}

proof fn lemma_trailing_dummies_char(s: Seq<FilterTuple>, n: int)
    requires
        0 <= n <= s.len(),
        forall|j: int| n <= j < s.len() ==> #[trigger] s[j] == dummy_tuple(),
        n > 0 ==> s[n - 1] != dummy_tuple(),
    ensures
        trailing_dummies(s) == s.len() - n,
    decreases s.len(),
{
    if s.len() == 0 {
    } else if s.last() == dummy_tuple() {
        assert(n < s.len());
        let front = s.drop_last();
        assert(forall|i: int| 0 <= i < front.len() ==> front[i] == s[i]);
        lemma_trailing_dummies_char(front, n);
    } else {
        assert(n == s.len());
    }
}

proof fn lemma_div_trunc_bound(d: int, p: int)
    requires
        1 <= p,
        -0x8000000000000000int <= d <= 0x7fffffffffffffffint,
    ensures
        -(0x8000000000000000int / p) <= div_trunc(d, p) <= 0x7fffffffffffffffint / p,
{
    broadcast use vstd::arithmetic::div_mod::lemma_div_is_ordered;

    assert(0int / p == 0) by {
        vstd::arithmetic::div_mod::lemma_div_of0(p);
    }
    if d >= 0 {
        assert(0int <= d);
        assert(d <= 0x7fffffffffffffff);
    } else {
        assert(0int <= -d <= 0x8000000000000000int);
    }
}

/// Truncating division of a duration's bits by a small power of two.
fn div_trunc_small(d: i64, p: u64) -> (r: i64)
    requires
        2 <= p <= 256,
    ensures
        r as int == div_trunc(d as int, p as int),
{
    proof {
        broadcast use vstd::arithmetic::div_mod::lemma_div_is_ordered;
        broadcast use vstd::arithmetic::div_mod::lemma_div_is_ordered_by_denominator;

    }
    if d >= 0 {
        let q: u64 = (d as u64) / p;
        assert(q <= 0x7fffffffffffffff) by {
            assert(d as u64 <= 0x7fffffffffffffff);
        }
        q as i64
    } else {
        let mag: u64 = (-(d as i128)) as u64;
        let q: u64 = mag / p;
        assert(q <= 0x4000000000000000) by {
            assert(mag <= 0x8000000000000000);
            vstd::arithmetic::div_mod::lemma_div_is_ordered_by_denominator(mag as int, 2, p as int);
            vstd::arithmetic::div_mod::lemma_div_is_ordered(mag as int, 0x8000000000000000int, 2);
        }
        -(q as i64)
    }
}

/// The weighted dispersion of a delay-sorted register: each stage
/// contributes its dispersion divided by 2^(index+1), truncating
/// toward zero. With all eight weights the total stays inside the
/// representable range whatever the stages hold.
pub open spec fn dispersion_sum(s: Seq<FilterTuple>) -> int
    recommends
        s.len() == 8,
{
    div_trunc(s[0].dispersion.bits as int, 2) + div_trunc(s[1].dispersion.bits as int, 4)
        + div_trunc(s[2].dispersion.bits as int, 8) + div_trunc(s[3].dispersion.bits as int, 16)
        + div_trunc(s[4].dispersion.bits as int, 32) + div_trunc(s[5].dispersion.bits as int, 64)
        + div_trunc(s[6].dispersion.bits as int, 128) + div_trunc(
        s[7].dispersion.bits as int,
        256,
    )
}

/// The register re-sorted by increasing delay, used for one
/// estimator computation and never persisted.
#[derive(Clone, Debug)]
pub struct TemporaryList {
    register: Vec<FilterTuple>,
}

impl View for TemporaryList {
    type V = Seq<FilterTuple>;

    closed spec fn view(&self) -> Seq<FilterTuple> {
        self.register@
    }
}

impl TemporaryList {
    pub open spec fn wf(&self) -> bool {
        self@.len() == 8
    }

    pub fn new() -> (r: Self)
        ensures
            r.wf(),
            r@ =~= all_dummy_register(),
    {
        let mut register: Vec<FilterTuple> = Vec::new();
        let mut i: usize = 0;
        while i < 8
            invariant
                i <= 8,
                register@.len() == i,
                forall|j: int| 0 <= j < i ==> register@[j] == dummy_tuple(),
            decreases 8 - i,
        {
            register.push(FilterTuple::dummy());
            i = i + 1;
        }
        TemporaryList { register }
    }

    /// Copy the register and sort it by increasing delay.
    pub fn from_clock_filter_contents(source: &ClockFilterContents) -> (r: Self)
        requires
            source.wf(),
        ensures
            r.wf(),
            r@ == sort_by_delay(source@),
    {
        let mut register: Vec<FilterTuple> = Vec::new();
        let mut i: usize = 0;
        while i < 8
            invariant
                source.wf(),
                i <= 8,
                register@ == sort_by_delay(source@.take(i as int)),
            decreases 8 - i,
        {
            proof {
                lemma_sort_by_delay_props(source@.take(i as int));
                assert(source@.take(i as int + 1).drop_last() =~= source@.take(i as int));
                assert(source@.take(i as int + 1).last() == source@[i as int]);
            }
            insert_by_delay(&mut register, source.get(i));
            i = i + 1;
        }
        proof {
            assert(source@.take(8) =~= source@);
            lemma_sort_by_delay_props(source@);
        }
        TemporaryList { register }
    }

    /// The tuple with the smallest delay: the head of the list.
    pub fn smallest_delay(&self) -> (r: FilterTuple)
        requires
            self.wf(),
        ensures
            r == self@[0],
    {
        self.register[0]
    }

    /// The prefix of the list holding only real samples; the
    /// sentinels, which sort to the tail, are cut off.
    pub fn valid_tuples(&self) -> (r: Vec<FilterTuple>)
        requires
            self.wf(),
        ensures
            r@ == valid_prefix(self@),
    {
        let mut n: usize = 8;
        while n > 0 && self.register[n - 1].is_dummy()
            invariant
                self.wf(),
                n <= 8,
                forall|j: int| n <= j < 8 ==> #[trigger] self@[j] == dummy_tuple(),
            decreases n,
        {
            n = n - 1;
        }
        proof {
            lemma_trailing_dummies_char(self@, n as int);
        }
        let mut out: Vec<FilterTuple> = Vec::new();
        let mut i: usize = 0;
        while i < n
            invariant
                self.wf(),
                i <= n <= 8,
                out@ =~= self@.take(i as int),
            decreases n - i,
        {
            out.push(self.register[i]);
            proof {
                assert(out@ =~= self@.take(i as int + 1));
            }
            i = i + 1;
        }
        out
    }

    /// The estimator's dispersion: the stages' dispersions summed
    /// with weight 2^-(index+1). Never overflows: with eight stages
    /// the weighted total is strictly below the 16-second bound's
    /// scale times two.
    pub fn dispersion(&self) -> (r: NtpDuration)
        requires
            self.wf(),
        ensures
            r.bits == dispersion_sum(self@),
    {
        let t0 = div_trunc_small(self.register[0].dispersion.bits, 2);
        let t1 = div_trunc_small(self.register[1].dispersion.bits, 4);
        let t2 = div_trunc_small(self.register[2].dispersion.bits, 8);
        let t3 = div_trunc_small(self.register[3].dispersion.bits, 16);
        let t4 = div_trunc_small(self.register[4].dispersion.bits, 32);
        let t5 = div_trunc_small(self.register[5].dispersion.bits, 64);
        let t6 = div_trunc_small(self.register[6].dispersion.bits, 128);
        let t7 = div_trunc_small(self.register[7].dispersion.bits, 256);
        proof {
            lemma_div_trunc_bound(self@[0].dispersion.bits as int, 2);
            lemma_div_trunc_bound(self@[1].dispersion.bits as int, 4);
            lemma_div_trunc_bound(self@[2].dispersion.bits as int, 8);
            lemma_div_trunc_bound(self@[3].dispersion.bits as int, 16);
            lemma_div_trunc_bound(self@[4].dispersion.bits as int, 32);
            lemma_div_trunc_bound(self@[5].dispersion.bits as int, 64);
            lemma_div_trunc_bound(self@[6].dispersion.bits as int, 128);
            lemma_div_trunc_bound(self@[7].dispersion.bits as int, 256);
        }
        NtpDuration::from_bits(t0 + t1 + t2 + t3 + t4 + t5 + t6 + t7)
    }
}

/// The statistics derived from one accepted sample: the estimator's
/// offset, delay and dispersion, the updated register, and the time
/// of the sample they rest on. The jitter of the RFC is a
/// floating-point statistic and is computed outside this crate from
/// the register returned here.
#[derive(Clone, Debug)]
pub struct PeerStatistics {
    pub offset: NtpDuration,
    pub delay: NtpDuration,
    pub dispersion: NtpDuration,
    pub filter: ClockFilterContents,
    pub filter_time: NtpTimestamp,
}

/// The register after a new sample went in: old stages aged by PHI
/// times the span from the peer's last sample to the new one, then
/// shifted, the new sample in front.
pub open spec fn filter_register_after(
    reg: Seq<FilterTuple>,
    peer_time: NtpTimestamp,
    new_tuple: FilterTuple,
) -> Seq<FilterTuple> {
    shift_insert_spec(reg, new_tuple, phi_corr(ts_diff(new_tuple.time.bits, peer_time.bits)))
}

/// The estimator's rejection rule: after the shift, the smallest-
/// delay sample is not newer than the peer's last one, and the
/// server claims to be synchronized.
pub open spec fn filter_rejects(
    reg: Seq<FilterTuple>,
    peer_time: NtpTimestamp,
    leap_indicator: NtpLeapIndicator,
    new_tuple: FilterTuple,
) -> bool {
    let sorted = sort_by_delay(filter_register_after(reg, peer_time, new_tuple));
    ts_diff(sorted[0].time.bits, peer_time.bits) <= 0 && leap_indicator
        != NtpLeapIndicator::Unknown
}

/// The clock filter of RFC 5905: age and shift the register, sort a
/// working copy by delay, and unless the best sample fails the
/// newness rule, derive the peer statistics from it.
pub fn clock_filter(
    peer_time: NtpTimestamp,
    leap_indicator: NtpLeapIndicator,
    mut register: ClockFilterContents,
    new_tuple: FilterTuple,
) -> (r: Option<PeerStatistics>)
    requires
        register.wf(),
    ensures
        (r is None) <==> filter_rejects(register@, peer_time, leap_indicator, new_tuple),
        (r matches Some(stats) ==> {
            let after = filter_register_after(register@, peer_time, new_tuple);
            let sorted = sort_by_delay(after);
            &&& stats.offset == sorted[0].offset
            &&& stats.delay == sorted[0].delay
            &&& stats.dispersion.bits == dispersion_sum(sorted)
            &&& stats.filter.wf()
            &&& stats.filter@ == after
            &&& stats.filter_time == sorted[0].time
        }),
{
    let dispersion_correction = multiply_by_phi(new_tuple.time.difference(peer_time));
    register.shift_and_insert(new_tuple, dispersion_correction);

    let temporary_list = TemporaryList::from_clock_filter_contents(&register);
    let smallest_delay = temporary_list.smallest_delay();
    proof {
        lemma_sort_by_delay_props(register@);
    }

    // Prime directive: never use a sample that is not newer than the
    // latest one; anything goes before first synchronization.
    let newness = smallest_delay.time.difference(peer_time);
    if newness.bits <= 0 && leap_indicator.is_synchronized() {
        return None;
    }

    let offset = smallest_delay.offset;
    let delay = smallest_delay.delay;
    let dispersion = temporary_list.dispersion();

    Some(
        PeerStatistics {
            offset,
            delay,
            dispersion,
            filter: register,
            filter_time: smallest_delay.time,
        },
    )
}

/// The stale-sample rule, quantified: when every register stage and
/// the new sample are no newer than the peer's last sample time, and
/// the server is synchronized, the clock filter rejects the update.
pub proof fn lemma_clock_filter_rejects_stale(
    reg: Seq<FilterTuple>,
    peer_time: NtpTimestamp,
    leap_indicator: NtpLeapIndicator,
    new_tuple: FilterTuple,
)
    requires
        reg.len() == 8,
        forall|i: int| 0 <= i < 8 ==> ts_diff(#[trigger] reg[i].time.bits, peer_time.bits) <= 0,
        ts_diff(new_tuple.time.bits, peer_time.bits) <= 0,
        leap_indicator != NtpLeapIndicator::Unknown,
    ensures
        filter_rejects(reg, peer_time, leap_indicator, new_tuple),
{
    let after = filter_register_after(reg, peer_time, new_tuple);
    let sorted = sort_by_delay(after);
    lemma_sort_by_delay_props(after);
    assert(after.contains(sorted[0]));
    let k = choose|k: int| 0 <= k < after.len() && after[k] == sorted[0];
    if k > 0 {
        assert(after[k].time == reg[k - 1].time);
    }
}

/// A first real sample into an all-sentinel register sorts to the
/// front: the shifted register is already ordered by delay, so the
/// statistics a caller of the filter gets back rest on exactly that
/// sample. Holds for any sample whose delay does not exceed the
/// sentinel's 16-second delay; a larger delay would sort after the
/// sentinels.
pub proof fn lemma_clock_filter_first_sample(
    reg: Seq<FilterTuple>,
    peer_time: NtpTimestamp,
    new_tuple: FilterTuple,
)
    requires
        reg.len() == 8,
        forall|i: int| 0 <= i < 8 ==> #[trigger] reg[i] == dummy_tuple(),
        new_tuple.delay.bits <= MAX_DISPERSION_BITS,
    ensures
        ({
            let after = filter_register_after(reg, peer_time, new_tuple);
            &&& sort_by_delay(after) == after
            &&& after[0] == new_tuple
        }),
{
    let after = filter_register_after(reg, peer_time, new_tuple);
    assert(forall|i: int| 1 <= i < 8 ==> #[trigger] after[i] == dummy_tuple());
    assert(sorted_by_delay(after));
    lemma_sort_by_delay_idempotent(after);
}

/// The dispersion of a register of eight sentinels: the weighted sum
/// leaves exactly one 256th of the 16-second maximum behind, a
/// little under 16 seconds.
pub proof fn lemma_dispersion_all_dummy()
    ensures
        dispersion_sum(all_dummy_register()) == MAX_DISPERSION_BITS - MAX_DISPERSION_BITS / 256,
{
    let s = all_dummy_register();
    assert(s[0] == dummy_tuple() && s[1] == dummy_tuple() && s[2] == dummy_tuple() && s[3]
        == dummy_tuple() && s[4] == dummy_tuple() && s[5] == dummy_tuple() && s[6] == dummy_tuple()
        && s[7] == dummy_tuple());
    assert(div_trunc(68719476736, 2) == 34359738368);
    assert(div_trunc(68719476736, 4) == 17179869184);
    assert(div_trunc(68719476736, 8) == 8589934592);
    assert(div_trunc(68719476736, 16) == 4294967296);
    assert(div_trunc(68719476736, 32) == 2147483648);
    assert(div_trunc(68719476736, 64) == 1073741824);
    assert(div_trunc(68719476736, 128) == 536870912);
    assert(div_trunc(68719476736, 256) == 268435456);
}

} // verus!
