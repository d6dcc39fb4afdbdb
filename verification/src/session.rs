//! Game session state: the score counter, the basket bookkeeping that
//! notifies the host shell, and the per-step input handling that ties the
//! charge controller to the throw request.

use vstd::prelude::*;

use crate::ball::ThrowBasketball;
use crate::charge::Charge;

verus! {

/// Session-wide state: the points scored so far. The counter only ever
/// grows, and only `on_basket` grows it.
pub struct GlobalState {
    pub points: u32,
}

impl Default for GlobalState {
    /// A fresh session starts with no points.
    fn default() -> (s: GlobalState)
        ensures
            s.points == 0,
    {
        GlobalState { points: 0 }
    }
}

/// Books a confirmed basket: with one, the score grows by exactly one point
/// and the new total is handed back for the host shell to announce; the
/// host hook takes no part in the count, so an unavailable hook loses
/// nothing. Without a basket, nothing changes.
pub fn on_basket(state: &mut GlobalState, basket: bool) -> (notify: Option<u32>)
    requires
        old(state).points < u32::MAX,
    ensures
        basket ==> final(state).points == old(state).points + 1 && notify == Some(
            final(state).points,
        ),
        !basket ==> final(state).points == old(state).points && notify is None,
{
    if basket {
        state.points = state.points + 1;
        Some(state.points)
    } else {
        None
    }
}

/// Applies one step of charge input to the controller, exactly one branch
/// per step: a press edge begins a fresh charge; a held key ticks a running
/// charge by the step's duration; a release edge turns the accumulated
/// charge into a throw request of the released strength and resets the
/// controller. Otherwise the controller is left alone.
pub fn handle_input(
    charge: &mut Charge,
    just_pressed: bool,
    pressed: bool,
    just_released: bool,
    delta_ms: u32,
) -> (throw: Option<ThrowBasketball>)
    requires
        old(charge).wf(),
    ensures
        final(charge).wf(),
        just_pressed ==> *final(charge) == (Charge { charging: true, charge_ms: 0u32 })
            && throw is None,
        !just_pressed && pressed && old(charge).charging ==> *final(charge) == old(
            charge,
        ).ticked(delta_ms) && throw is None,
        !just_pressed && !(pressed && old(charge).charging) && just_released ==> throw == Some(
            (ThrowBasketball { percentage_charged: old(charge).spec_percentage() as u32 }),
        ) && *final(charge) == (Charge { charging: false, charge_ms: 0u32 }),
        !just_pressed && !(pressed && old(charge).charging) && !just_released ==> *final(charge)
            == *old(charge) && throw is None,
{
    if just_pressed {
        charge.start_charging();
        None
    } else if pressed && charge.charging() {
        charge.tick(delta_ms);
        None
    } else if just_released {
        let strength = charge.release();
        Some(ThrowBasketball { percentage_charged: strength })
    } else {
        None
    }
}

} // verus!
