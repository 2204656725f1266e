//! The survival-needs counters: hunger, sleepiness and bladder.
//!
//! Each is a saturating counter in [0, 100]; a decay tick lowers each by a
//! fixed step, floored at 0, and the matching activity refills it to exactly
//! 100. A need at or under 50 counts as low, which is what the interaction
//! gates read.

use vstd::prelude::*;
use crate::vulnerability::{spec_flag, BoolVulnerabilityType, VulnerabilityResource};

verus! {

/// How much one decay tick takes off each need.
pub const DECAY_STEP: u32 = 5;

/// The level a need must have fallen to before the satisfying activity is
/// allowed.
pub const LOW_NEED: u32 = 50;

/// A need counter after one decay tick.
pub open spec fn spec_decay(v: int) -> int {
    if v >= DECAY_STEP {
        v - DECAY_STEP
    } else {
        0
    }
}

/// Law: decay keeps a need inside [0, 100].
pub proof fn lemma_decay_stays_in_range(v: int)
    requires
        0 <= v <= 100,
    ensures
        0 <= spec_decay(v) <= 100,
{
}

pub struct Hunger(pub u32);

/// The player's overall condition; set once at start-up and read by the HUD.
pub struct Health(pub u32);

pub struct Sleepiness(pub u32);

pub struct PeePeePooPoo(pub u32);

/// A need value is well-formed inside [0, 100].
pub open spec fn need_wf(v: u32) -> bool {
    v <= 100
}

impl Hunger {
    /// Low enough to be allowed to eat.
    pub fn is_low(&self) -> (r: bool)
        ensures
            r == (self.0 <= LOW_NEED),
    {
        self.0 <= LOW_NEED
    }
}

impl Sleepiness {
    /// Low enough to be allowed to sleep.
    pub fn is_low(&self) -> (r: bool)
        ensures
            r == (self.0 <= LOW_NEED),
    {
        self.0 <= LOW_NEED
    }
}

impl PeePeePooPoo {
    /// Low enough to be allowed to use the toilet.
    pub fn is_low(&self) -> (r: bool)
        ensures
            r == (self.0 <= LOW_NEED),
    {
        self.0 <= LOW_NEED
    }
}

/// One decay tick: every need drops by the fixed step, floored at 0. The
/// cadence (one tick per real-world second in an active-decay state) is the
/// caller's timer; this is the pure bookkeeping, which cannot fail, only
/// saturate.
pub fn decrease_stats(
    hunger: &mut Hunger,
    sleepiness: &mut Sleepiness,
    peepeepoopoo: &mut PeePeePooPoo,
)
    ensures
        final(hunger).0 == spec_decay(old(hunger).0 as int),
        final(sleepiness).0 == spec_decay(old(sleepiness).0 as int),
        final(peepeepoopoo).0 == spec_decay(old(peepeepoopoo).0 as int),
        need_wf(old(hunger).0) ==> need_wf(final(hunger).0),
        need_wf(old(sleepiness).0) ==> need_wf(final(sleepiness).0),
        need_wf(old(peepeepoopoo).0) ==> need_wf(final(peepeepoopoo).0),
{
    if hunger.0 >= DECAY_STEP {
        hunger.0 = hunger.0 - DECAY_STEP;
    } else {
        hunger.0 = 0;
    }
    if sleepiness.0 >= DECAY_STEP {
        sleepiness.0 = sleepiness.0 - DECAY_STEP;
    } else {
        sleepiness.0 = 0;
    }
    if peepeepoopoo.0 >= DECAY_STEP {
        peepeepoopoo.0 = peepeepoopoo.0 - DECAY_STEP;
    } else {
        peepeepoopoo.0 = 0;
    }
}

/// Feeds the decay into the game-over eligibility: once every need has run
/// dry, the depletion flag is raised for the resolver; with anything left,
/// nothing changes.
pub fn track_needs_depletion(
    hunger: &Hunger,
    sleepiness: &Sleepiness,
    peepeepoopoo: &PeePeePooPoo,
    vuln_res: &mut VulnerabilityResource,
)
    ensures
        hunger.0 == 0 && sleepiness.0 == 0 && peepeepoopoo.0 == 0 ==> {
            &&& spec_flag(*final(vuln_res), BoolVulnerabilityType::NeedsDepleted)
            &&& forall|k: BoolVulnerabilityType|
                k != BoolVulnerabilityType::NeedsDepleted ==> spec_flag(*final(vuln_res), k)
                    == spec_flag(*old(vuln_res), k)
            &&& final(vuln_res).at_door == old(vuln_res).at_door
            &&& final(vuln_res).is_hiding == old(vuln_res).is_hiding
            &&& final(vuln_res).enemies == old(vuln_res).enemies
        },
        !(hunger.0 == 0 && sleepiness.0 == 0 && peepeepoopoo.0 == 0) ==> *final(vuln_res) == *old(vuln_res),
{
    if hunger.0 == 0 && sleepiness.0 == 0 && peepeepoopoo.0 == 0 {
        vuln_res.raise(BoolVulnerabilityType::NeedsDepleted);
    }
}

} // verus!
