//! The exact sequences of line operations that make up the lifecycle
//! and acquisition protocols.
//!
//! A sequence is a list of [`Action`] values. The code that owns the
//! pin handles performs the actions in order; everything about pulse
//! counts, pulse widths and the order of level changes is fixed here.

use vstd::prelude::*;

use crate::sample::SAMPLE_BITS;

verus! {

/// An output line of the converter.
#[derive(Clone, Copy, PartialEq, Eq, Structural, Debug)]
pub enum Line {
    /// The serial clock line.
    Clock,
    /// The power-down line.
    PowerDown,
    /// Channel-select line 0.
    Select0,
    /// Channel-select line 1.
    Select1,
}

/// One step of a bit-banged sequence.
#[derive(Clone, Copy, PartialEq, Eq, Structural, Debug)]
pub enum Action {
    /// Drive the named output line to a level (`true` is high).
    SetLine(Line, bool),
    /// Pause for the given number of nanoseconds.
    DelayNs(u32),
    /// Pause for the given number of microseconds.
    DelayUs(u32),
    /// Wait, blocking or suspending, until the data line is observed
    /// low, which signals that a conversion is ready.
    WaitReadyLow,
    /// Sample the data line and shift its level into the accumulator.
    SampleBit,
}

/// The power-on reset sequence: power-down is driven low, the analog
/// supply is given time to stabilize, and power-down is then pulsed
/// high, low and high again.
pub open spec fn reset_seq() -> Seq<Action> {
    seq![
        Action::SetLine(Line::PowerDown, false),
        Action::DelayUs(50),
        Action::SetLine(Line::PowerDown, true),
        Action::DelayUs(26),
        Action::SetLine(Line::PowerDown, false),
        Action::DelayUs(26),
        Action::SetLine(Line::PowerDown, true),
    ]
}

/// The standby-entry sequence: clock low, wait for ready, clock high.
pub open spec fn standby_seq() -> Seq<Action> {
    seq![
        Action::SetLine(Line::Clock, false),
        Action::WaitReadyLow,
        Action::SetLine(Line::Clock, true),
    ]
}

/// One clock cycle of the acquisition loop: clock high, a short hold,
/// one data bit sampled, a short hold, clock low, a longer hold.
pub open spec fn bit_cycle_seq() -> Seq<Action> {
    seq![
        Action::SetLine(Line::Clock, true),
        Action::DelayNs(50),
        Action::SampleBit,
        Action::DelayNs(50),
        Action::SetLine(Line::Clock, false),
        Action::DelayNs(100),
    ]
}

/// `n` repetitions of the acquisition clock cycle.
pub open spec fn bit_cycles_seq(n: nat) -> Seq<Action>
    decreases n,
{
    if n == 0 {
        Seq::empty()
    } else {
        bit_cycles_seq((n - 1) as nat) + bit_cycle_seq()
    }
}

/// The extra clock pulse issued after the data bits, whose sole
/// purpose is to force the ready signal high again and close the
/// acquisition window.
pub open spec fn close_pulse_seq() -> Seq<Action> {
    seq![
        Action::SetLine(Line::Clock, true),
        Action::DelayNs(100),
        Action::SetLine(Line::Clock, false),
        Action::DelayNs(100),
    ]
}

/// The full acquisition sequence: clock low, wait for ready, 24 bit
/// cycles most significant bit first, and the closing pulse.
pub open spec fn acquisition_seq() -> Seq<Action> {
    seq![Action::SetLine(Line::Clock, false), Action::WaitReadyLow]
        + bit_cycles_seq(SAMPLE_BITS as nat) + close_pulse_seq()
}

/// The offset-calibration sequence: one full acquisition whose value
/// is discarded, one further clock pulse that starts the converter's
/// internal offset calibration, and a wait until the ready signal
/// returns low, which signals completion.
pub open spec fn calibration_seq() -> Seq<Action> {
    acquisition_seq() + seq![
        Action::SetLine(Line::Clock, true),
        Action::DelayNs(100),
        Action::SetLine(Line::Clock, false),
        Action::WaitReadyLow,
    ]
}

/// Number of data bits that a sequence samples from the data line.
pub open spec fn sample_count(s: Seq<Action>) -> nat
    decreases s.len(),
{
    if s.len() == 0 {
        0
    } else {
        sample_count(s.drop_last()) + (if s.last() == Action::SampleBit {
            1nat
        } else {
            0nat
        })
    }
}

proof fn lemma_sample_count_add(a: Seq<Action>, b: Seq<Action>)
    ensures
        sample_count(a + b) == sample_count(a) + sample_count(b),
    decreases b.len(),
{
    if b.len() == 0 {
        assert(a + b =~= a);
    } else {
        lemma_sample_count_add(a, b.drop_last());
        assert((a + b).drop_last() =~= a + b.drop_last());
    }
}

proof fn lemma_bit_cycles_sample_count(n: nat)
    ensures
        sample_count(bit_cycles_seq(n)) == n,
    decreases n,
{
    if n == 0 {
    } else {
        lemma_bit_cycles_sample_count((n - 1) as nat);
        lemma_sample_count_add(bit_cycles_seq((n - 1) as nat), bit_cycle_seq());
        reveal_with_fuel(sample_count, 7);
        assert(sample_count(bit_cycle_seq()) == 1);
    }
}

/// Each acquisition samples exactly 24 data bits: the bit cycles
/// contain one sample each and nothing outside them samples at all.
pub proof fn lemma_acquisition_sample_count()
    ensures
        sample_count(acquisition_seq()) == SAMPLE_BITS,
{
    lemma_bit_cycles_sample_count(SAMPLE_BITS as nat);
    lemma_sample_count_add(
        seq![Action::SetLine(Line::Clock, false), Action::WaitReadyLow],
        bit_cycles_seq(SAMPLE_BITS as nat),
    );
    lemma_sample_count_add(
        seq![Action::SetLine(Line::Clock, false), Action::WaitReadyLow]
            + bit_cycles_seq(SAMPLE_BITS as nat),
        close_pulse_seq(),
    );
    reveal_with_fuel(sample_count, 5);
    assert(sample_count(seq![Action::SetLine(Line::Clock, false), Action::WaitReadyLow]) == 0);
    assert(sample_count(close_pulse_seq()) == 0);
}

/// Builds the power-on reset sequence.
///
/// Power-down is driven low, then high, then low, then high, with the
/// 50 microsecond stabilization delay after the first level change and
/// the two 26 microsecond pulse delays after the next two.
pub fn reset_script() -> (r: Vec<Action>)
    ensures
        r@ == reset_seq(),
{
    let mut v: Vec<Action> = Vec::new();
    v.push(Action::SetLine(Line::PowerDown, false));
    v.push(Action::DelayUs(50));
    v.push(Action::SetLine(Line::PowerDown, true));
    v.push(Action::DelayUs(26));
    v.push(Action::SetLine(Line::PowerDown, false));
    v.push(Action::DelayUs(26));
    v.push(Action::SetLine(Line::PowerDown, true));
    proof {
        assert(v@ =~= reset_seq());
    }
    v
}

/// Builds the standby-entry sequence: clock low, wait until ready is
/// observed low, clock high. No data bit is ever read.
pub fn standby_script() -> (r: Vec<Action>)
    ensures
        r@ == standby_seq(),
        forall|i: int| 0 <= i < r@.len() ==> r@[i] != Action::SampleBit,
{
    let mut v: Vec<Action> = Vec::new();
    v.push(Action::SetLine(Line::Clock, false));
    v.push(Action::WaitReadyLow);
    v.push(Action::SetLine(Line::Clock, true));
    proof {
        assert(v@ =~= standby_seq());
    }
    v
}

/// Builds the full acquisition sequence: clock low, wait until ready
/// is observed low, 24 sampled clock cycles, and the closing pulse.
pub fn acquisition_script() -> (r: Vec<Action>)
    ensures
        r@ == acquisition_seq(),
{
    let mut v: Vec<Action> = Vec::new();
    v.push(Action::SetLine(Line::Clock, false));
    v.push(Action::WaitReadyLow);
    proof {
        assert(v@ =~= seq![Action::SetLine(Line::Clock, false), Action::WaitReadyLow]
            + bit_cycles_seq(0));
    }
    let mut i: usize = 0;
    while i < SAMPLE_BITS
        invariant
            i <= SAMPLE_BITS,
            v@ == seq![Action::SetLine(Line::Clock, false), Action::WaitReadyLow]
                + bit_cycles_seq(i as nat),
        decreases SAMPLE_BITS - i,
    {
        v.push(Action::SetLine(Line::Clock, true));
        v.push(Action::DelayNs(50));
        v.push(Action::SampleBit);
        v.push(Action::DelayNs(50));
        v.push(Action::SetLine(Line::Clock, false));
        v.push(Action::DelayNs(100));
        proof {
            assert(bit_cycles_seq((i + 1) as nat) == bit_cycles_seq(i as nat) + bit_cycle_seq());
            assert(v@ =~= seq![Action::SetLine(Line::Clock, false), Action::WaitReadyLow]
                + bit_cycles_seq((i + 1) as nat));
        }
        i = i + 1;
    }
    v.push(Action::SetLine(Line::Clock, true));
    v.push(Action::DelayNs(100));
    v.push(Action::SetLine(Line::Clock, false));
    v.push(Action::DelayNs(100));
    proof {
        assert(v@ =~= acquisition_seq());
    }
    v
}

/// Builds the offset-calibration sequence: a full acquisition, one
/// further clock pulse to start calibration, and a wait until ready
/// returns low.
pub fn calibration_script() -> (r: Vec<Action>)
    ensures
        r@ == calibration_seq(),
{
    let mut v = acquisition_script();
    v.push(Action::SetLine(Line::Clock, true));
    v.push(Action::DelayNs(100));
    v.push(Action::SetLine(Line::Clock, false));
    v.push(Action::WaitReadyLow);
    proof {
        assert(v@ =~= calibration_seq());
    }
    v
}

} // verus!
