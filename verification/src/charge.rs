//! Charge controller: tracks whether the player is charging a throw and for
//! how long, and converts the elapsed charge time into a normalized throw
//! strength.

use vstd::prelude::*;

verus! {

/// Longest charge the controller accumulates, in milliseconds. Holding the
/// charge input any longer has no further effect.
pub const MAX_CHARGE_DURATION_MS: u32 = 1000;

/// Scale of a normalized strength value: a strength is an integer in
/// `0 ..= PERMILLE`, standing for a fraction of `PERMILLE`.
pub const PERMILLE: u32 = 1000;

/// Charging state of the throw control.
pub struct Charge {
    /// Whether the charge input is currently held.
    pub charging: bool,
    /// Accumulated charge time in milliseconds, clamped to
    /// `MAX_CHARGE_DURATION_MS`.
    pub charge_ms: u32,
}

impl Charge {
    /// Well-formedness: the accumulated time never exceeds the cap, and a
    /// controller that is not charging holds no accumulated time.
    pub open spec fn wf(self) -> bool {
        &&& self.charge_ms <= MAX_CHARGE_DURATION_MS
        &&& !self.charging ==> self.charge_ms == 0
    }

    /// Normalized strength of the accumulated charge, in thousandths.
    pub open spec fn spec_percentage(self) -> int {
        self.charge_ms * PERMILLE / (MAX_CHARGE_DURATION_MS as int)
    }

    /// State after one simulation step of `delta_ms` milliseconds: while
    /// charging, the elapsed time grows by the step, clamped to the cap;
    /// otherwise nothing changes.
    pub open spec fn ticked(self, delta_ms: u32) -> Charge {
        if self.charging {
            Charge {
                charge_ms: if self.charge_ms + delta_ms <= MAX_CHARGE_DURATION_MS {
                    (self.charge_ms + delta_ms) as u32
                } else {
                    MAX_CHARGE_DURATION_MS
                },
                ..self
            }
        } else {
            self
        }
    }

    /// A controller at rest: not charging, nothing accumulated.
    pub fn initialize() -> (c: Charge)
        ensures
            c == (Charge { charging: false, charge_ms: 0u32 }),
            c.wf(),
    {
        Charge { charging: false, charge_ms: 0 }
    }

    /// Normalized strength of the charge accumulated so far, in thousandths:
    /// `0` for an empty charge, `PERMILLE` for a full one.
    pub fn percentage_charged(&self) -> (p: u32)
        requires
            self.wf(),
        ensures
            p == self.spec_percentage(),
            p <= PERMILLE,
    {
        self.charge_ms * PERMILLE / MAX_CHARGE_DURATION_MS
    }

    /// Whether a charge is currently being accumulated.
    pub fn charging(&self) -> (b: bool)
        ensures
            b == self.charging,
    {
        self.charging
    }

    /// Advances the charge by one simulation step of `delta_ms` milliseconds.
    /// While charging, the elapsed time grows by the step, clamped to
    /// `MAX_CHARGE_DURATION_MS`; otherwise the controller is unchanged.
    pub fn tick(&mut self, delta_ms: u32)
        requires
            old(self).wf(),
        ensures
            *final(self) == old(self).ticked(delta_ms),
            final(self).wf(),
    {
        if self.charging {
            let room = MAX_CHARGE_DURATION_MS - self.charge_ms;
            if delta_ms < room {
                self.charge_ms = self.charge_ms + delta_ms;
            } else {
                self.charge_ms = MAX_CHARGE_DURATION_MS;
            }
        }
    }

    /// Abandons any accumulated charge and stops charging.
    pub fn reset(&mut self)
        ensures
            *final(self) == (Charge { charging: false, charge_ms: 0u32 }),
            final(self).wf(),
    {
        self.charging = false;
        self.charge_ms = 0;
    }

    /// Begins a fresh charge: the elapsed time restarts at zero.
    pub fn start_charging(&mut self)
        ensures
            *final(self) == (Charge { charging: true, charge_ms: 0u32 }),
            final(self).wf(),
    {
        self.reset();
        self.charging = true;
    }

    /// Ends the charge: returns the normalized strength of what was
    /// accumulated, in thousandths, and puts the controller back at rest.
    /// A release with nothing accumulated yields strength `0`, not an error.
    pub fn release(&mut self) -> (strength: u32)
        requires
            old(self).wf(),
        ensures
            strength == old(self).spec_percentage(),
            strength <= PERMILLE,
            *final(self) == (Charge { charging: false, charge_ms: 0u32 }),
            final(self).wf(),
    {
        let strength = self.percentage_charged();
        self.reset();
        strength
    }
}

/// Full width of the on-screen charge bar, in thousandths of a pixel.
pub const CHARGE_BAR_MAX_WIDTH_MILLI: u32 = 400_000;

/// New width of the on-screen charge bar, in thousandths of a pixel: the
/// full width scaled by the accumulated charge. The renderer applies it to
/// the bar sprite.
pub fn update_charge_bar(charge: &Charge) -> (width_milli: u32)
    requires
        charge.wf(),
    ensures
        width_milli == charge.spec_percentage() * CHARGE_BAR_MAX_WIDTH_MILLI / (PERMILLE as int),
        width_milli <= CHARGE_BAR_MAX_WIDTH_MILLI,
{
    let p = charge.percentage_charged();
    p * CHARGE_BAR_MAX_WIDTH_MILLI / PERMILLE
}

/// However long the charge input is held, the normalized strength never
/// exceeds `PERMILLE`: ticking past the cap is absorbed by the clamp.
pub proof fn lemma_tick_never_overcharges(c: Charge, delta_ms: u32)
    requires
        c.wf(),
    ensures
        c.ticked(delta_ms).wf(),
        c.ticked(delta_ms).spec_percentage() <= PERMILLE,
{
}

} // verus!
