//! The input channels of each chip variant and their mapping to the
//! two channel-select lines.
//!
//! The active channel is never stored in software: it is always
//! derived from the last-driven levels of the two select lines, so the
//! mapping here is the single source of truth. A level of `true`
//! means the line is driven high.

use vstd::prelude::*;

verus! {

/// An input channel of the 3-channel variant, which offers two analog
/// inputs and the internal temperature sensor.
#[derive(Clone, Copy, PartialEq, Eq, Structural, Debug)]
pub enum ADS1232Channel {
    AIN1,
    AIN2,
    /// The internal temperature sensor.
    ///
    /// Switching between this channel and any analog input requires
    /// four full conversion cycles to be discarded before the data is
    /// settled.
    Temp,
}

/// An input channel of the 4-channel variant, which offers four analog
/// inputs and no temperature sensor.
#[derive(Clone, Copy, PartialEq, Eq, Structural, Debug)]
pub enum ADS1234Channel {
    AIN1,
    AIN2,
    AIN3,
    AIN4,
}

impl ADS1232Channel {
    /// The levels `(select0, select1)` that select this channel.
    /// The temperature channel drives select-line 1 high and forces
    /// select-line 0 low.
    pub open spec fn spec_select_levels(self) -> (bool, bool) {
        match self {
            ADS1232Channel::AIN1 => (false, false),
            ADS1232Channel::AIN2 => (true, false),
            ADS1232Channel::Temp => (false, true),
        }
    }

    /// The channel selected by the levels `(a0, a1)` currently driven
    /// on the two select lines.
    pub open spec fn spec_from_levels(a0: bool, a1: bool) -> ADS1232Channel {
        if a1 {
            ADS1232Channel::Temp
        } else if a0 {
            ADS1232Channel::AIN2
        } else {
            ADS1232Channel::AIN1
        }
    }

    /// Whether the levels `(a0, a1)` can result from selecting some
    /// channel of this variant: the pair (high, high) is never driven.
    pub open spec fn spec_reachable_levels(a0: bool, a1: bool) -> bool {
        !(a0 && a1)
    }

    /// The select-line levels that select this channel.
    pub fn select_levels(self) -> (r: (bool, bool))
        ensures
            r == self.spec_select_levels(),
    {
        match self {
            ADS1232Channel::AIN1 => (false, false),
            ADS1232Channel::AIN2 => (true, false),
            ADS1232Channel::Temp => (false, true),
        }
    }

    /// The channel selected by the given select-line levels.
    pub fn from_levels(a0: bool, a1: bool) -> (r: ADS1232Channel)
        ensures
            r == ADS1232Channel::spec_from_levels(a0, a1),
    {
        if a1 {
            ADS1232Channel::Temp
        } else if a0 {
            ADS1232Channel::AIN2
        } else {
            ADS1232Channel::AIN1
        }
    }

    /// Whether this channel is the internal temperature sensor.
    pub fn is_temp(self) -> (r: bool)
        ensures
            r == (self is Temp),
    {
        match self {
            ADS1232Channel::Temp => true,
            _ => false,
        }
    }
}

impl ADS1234Channel {
    /// The levels `(select0, select1)` that select this channel.
    pub open spec fn spec_select_levels(self) -> (bool, bool) {
        match self {
            ADS1234Channel::AIN1 => (false, false),
            ADS1234Channel::AIN2 => (true, false),
            ADS1234Channel::AIN3 => (false, true),
            ADS1234Channel::AIN4 => (true, true),
        }
    }

    /// The channel selected by the levels `(a0, a1)` currently driven
    /// on the two select lines.
    pub open spec fn spec_from_levels(a0: bool, a1: bool) -> ADS1234Channel {
        if a1 {
            if a0 {
                ADS1234Channel::AIN4
            } else {
                ADS1234Channel::AIN3
            }
        } else {
            if a0 {
                ADS1234Channel::AIN2
            } else {
                ADS1234Channel::AIN1
            }
        }
    }

    /// The select-line levels that select this channel.
    pub fn select_levels(self) -> (r: (bool, bool))
        ensures
            r == self.spec_select_levels(),
    {
        match self {
            ADS1234Channel::AIN1 => (false, false),
            ADS1234Channel::AIN2 => (true, false),
            ADS1234Channel::AIN3 => (false, true),
            ADS1234Channel::AIN4 => (true, true),
        }
    }

    /// The channel selected by the given select-line levels.
    pub fn from_levels(a0: bool, a1: bool) -> (r: ADS1234Channel)
        ensures
            r == ADS1234Channel::spec_from_levels(a0, a1),
    {
        if a1 {
            if a0 {
                ADS1234Channel::AIN4
            } else {
                ADS1234Channel::AIN3
            }
        } else {
            if a0 {
                ADS1234Channel::AIN2
            } else {
                ADS1234Channel::AIN1
            }
        }
    }
}

/// The select-line mapping of the 3-channel variant is a bijection
/// between its channels and the reachable level pairs: each channel
/// drives a distinct pair, deriving a channel back from the driven
/// pair returns the same channel, and every reachable pair derives a
/// channel that drives exactly that pair.
pub proof fn lemma_select_mapping_bijective_1232()
    ensures
        forall|c: ADS1232Channel|
            ADS1232Channel::spec_from_levels(
                (#[trigger] c.spec_select_levels()).0,
                c.spec_select_levels().1,
            ) == c,
        forall|c1: ADS1232Channel, c2: ADS1232Channel|
            c1.spec_select_levels() == c2.spec_select_levels() ==> c1 == c2,
        forall|c: ADS1232Channel|
            ADS1232Channel::spec_reachable_levels(
                (#[trigger] c.spec_select_levels()).0,
                c.spec_select_levels().1,
            ),
        forall|a0: bool, a1: bool|
            #[trigger] ADS1232Channel::spec_reachable_levels(a0, a1)
                ==> ADS1232Channel::spec_from_levels(a0, a1).spec_select_levels() == (a0, a1),
{
}

/// The select-line mapping of the 4-channel variant is a bijection
/// between its channels and all four level pairs.
pub proof fn lemma_select_mapping_bijective_1234()
    ensures
        forall|c: ADS1234Channel|
            ADS1234Channel::spec_from_levels(
                (#[trigger] c.spec_select_levels()).0,
                c.spec_select_levels().1,
            ) == c,
        forall|c1: ADS1234Channel, c2: ADS1234Channel|
            c1.spec_select_levels() == c2.spec_select_levels() ==> c1 == c2,
        forall|a0: bool, a1: bool|
            (#[trigger] ADS1234Channel::spec_from_levels(a0, a1)).spec_select_levels() == (
                a0,
                a1,
            ),
{
}

} // verus!
