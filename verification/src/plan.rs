//! The channel state machine: deciding, from the levels currently
//! driven on the two select lines and the requested channel, which
//! line operations must precede the next acquisition.
//!
//! The previously active channel is derived from the select-line
//! levels alone, never from stored software state. When the requested
//! channel differs, the new levels are driven and the settling delay
//! is inserted; on the 3-channel variant a transition into or out of
//! the temperature channel additionally requires four acquisitions to
//! be performed and discarded before a sample is settled.

use vstd::prelude::*;

use crate::channel::ADS1232Channel;
use crate::channel::ADS1234Channel;
use crate::script::Action;
use crate::script::Line;

verus! {

/// Settling delay, in microseconds, required after a channel change.
pub const SETTLE_DELAY_US: u32 = 50;

/// Number of acquisitions discarded after a transition into or out of
/// the temperature channel on the 3-channel variant.
pub const TEMP_DISCARD_READS: usize = 4;

/// What must happen before the next acquisition once a channel has
/// been requested.
pub struct ReadPlan<C> {
    /// The channel that the select lines were driving when the request
    /// was made, derived from their levels.
    pub old_channel: C,
    /// The line operations to perform first: empty when the requested
    /// channel was already selected, otherwise the two select-line
    /// writes followed by the settling delay.
    pub setup: Vec<Action>,
    /// How many acquisitions to perform and discard before the one
    /// whose sample is returned.
    pub discard_reads: usize,
}

/// The line operations that a channel change from `old` to `new` on
/// the 3-channel variant requires before acquiring: nothing when the
/// channel is unchanged, otherwise the two select-line writes followed
/// by the settling delay.
pub open spec fn spec_setup_1232(old: ADS1232Channel, new: ADS1232Channel) -> Seq<Action> {
    if old == new {
        Seq::empty()
    } else {
        seq![
            Action::SetLine(Line::Select0, new.spec_select_levels().0),
            Action::SetLine(Line::Select1, new.spec_select_levels().1),
            Action::DelayUs(SETTLE_DELAY_US),
        ]
    }
}

/// How many acquisitions the 3-channel variant discards on a change
/// from `old` to `new`: four when exactly one of the two is the
/// temperature channel, otherwise none.
pub open spec fn spec_discards_1232(old: ADS1232Channel, new: ADS1232Channel) -> nat {
    if (old is Temp) != (new is Temp) {
        TEMP_DISCARD_READS as nat
    } else {
        0
    }
}

/// The line operations that a channel change from `old` to `new` on
/// the 4-channel variant requires before acquiring.
pub open spec fn spec_setup_1234(old: ADS1234Channel, new: ADS1234Channel) -> Seq<Action> {
    if old == new {
        Seq::empty()
    } else {
        seq![
            Action::SetLine(Line::Select0, new.spec_select_levels().0),
            Action::SetLine(Line::Select1, new.spec_select_levels().1),
            Action::DelayUs(SETTLE_DELAY_US),
        ]
    }
}

/// Plans a read of `channel` on the 3-channel variant, given the
/// levels `(a0, a1)` last driven on the two select lines.
///
/// The previously active channel is derived from the levels; when it
/// equals the requested channel no line is re-driven and nothing is
/// discarded, otherwise the new levels are driven, the settling delay
/// follows, and a transition into or out of the temperature channel
/// discards four acquisitions.
pub fn read_plan_1232(a0: bool, a1: bool, channel: ADS1232Channel) -> (p: ReadPlan<
    ADS1232Channel,
>)
    ensures
        p.old_channel == ADS1232Channel::spec_from_levels(a0, a1),
        p.setup@ == spec_setup_1232(p.old_channel, channel),
        p.discard_reads == spec_discards_1232(p.old_channel, channel),
{
    let old_channel = ADS1232Channel::from_levels(a0, a1);
    let mut setup: Vec<Action> = Vec::new();
    if channel != old_channel {
        let (s0, s1) = channel.select_levels();
        setup.push(Action::SetLine(Line::Select0, s0));
        setup.push(Action::SetLine(Line::Select1, s1));
        setup.push(Action::DelayUs(SETTLE_DELAY_US));
        proof {
            assert(setup@ =~= spec_setup_1232(old_channel, channel));
        }
    }
    let discard_reads: usize = if channel.is_temp() != old_channel.is_temp() {
        TEMP_DISCARD_READS
    } else {
        0
    };
    ReadPlan { old_channel, setup, discard_reads }
}

/// Plans a read of `channel` on the 4-channel variant, given the
/// levels `(a0, a1)` last driven on the two select lines.
///
/// The previously active channel is derived from the levels; when it
/// equals the requested channel no line is re-driven, otherwise the
/// new levels are driven and the settling delay follows. No
/// transition of this variant ever discards an acquisition.
pub fn read_plan_1234(a0: bool, a1: bool, channel: ADS1234Channel) -> (p: ReadPlan<
    ADS1234Channel,
>)
    ensures
        p.old_channel == ADS1234Channel::spec_from_levels(a0, a1),
        p.setup@ == spec_setup_1234(p.old_channel, channel),
        p.discard_reads == 0,
{
    let old_channel = ADS1234Channel::from_levels(a0, a1);
    let mut setup: Vec<Action> = Vec::new();
    if channel != old_channel {
        let (s0, s1) = channel.select_levels();
        setup.push(Action::SetLine(Line::Select0, s0));
        setup.push(Action::SetLine(Line::Select1, s1));
        setup.push(Action::DelayUs(SETTLE_DELAY_US));
        proof {
            assert(setup@ =~= spec_setup_1234(old_channel, channel));
        }
    }
    ReadPlan { old_channel, setup, discard_reads: 0 }
}

/// The select-line levels once the writes planned for a request of
/// `new` on the 3-channel variant, starting from levels `(a0, a1)`,
/// have been performed: unchanged when no write was planned, the
/// levels of `new` otherwise.
pub open spec fn spec_levels_after_1232(a0: bool, a1: bool, new: ADS1232Channel) -> (
    bool,
    bool,
) {
    if ADS1232Channel::spec_from_levels(a0, a1) == new {
        (a0, a1)
    } else {
        new.spec_select_levels()
    }
}

/// Requesting the same channel twice in a row on the 3-channel
/// variant is idempotent: whatever levels the select lines held
/// before the first request, the second request re-drives no line and
/// discards no acquisition.
pub proof fn lemma_repeat_request_noop_1232(a0: bool, a1: bool, c: ADS1232Channel)
    ensures
        spec_setup_1232(
            ADS1232Channel::spec_from_levels(
                spec_levels_after_1232(a0, a1, c).0,
                spec_levels_after_1232(a0, a1, c).1,
            ),
            c,
        ) == Seq::<Action>::empty(),
        spec_discards_1232(
            ADS1232Channel::spec_from_levels(
                spec_levels_after_1232(a0, a1, c).0,
                spec_levels_after_1232(a0, a1, c).1,
            ),
            c,
        ) == 0,
{
}

} // verus!
