use vstd::prelude::*;

verus! {

/// What a flight does on its next step.
#[derive(Clone, Copy, Debug, PartialEq, Eq, Structural)]
pub enum FlightAction {
    /// The projectile is still above the ground: apply one more tick.
    Advance,
    /// The projectile has reached the ground: the flight is over.
    Land,
}

/// Bookkeeping of a tick-based flight: the number of ticks applied so far
/// and whether the projectile has landed.
#[derive(Clone, Copy, Debug, PartialEq, Eq, Structural)]
pub struct Flight {
    pub ticks: u64,
    pub landed: bool,
}

impl Flight {
    /// A flight that has not moved yet.
    pub fn new() -> (r: Flight)
        ensures
            r.ticks == 0,
            !r.landed,
    {
        Flight { ticks: 0, landed: false }
    }

    /// Decides the next step from whether the projectile is above the ground
    /// (its height greater than zero). A flight above the ground advances and
    /// counts one more tick; one at or below it lands and keeps its count.
    /// A landed flight stays landed.
    pub fn step(&mut self, above_ground: bool) -> (r: FlightAction)
        requires
            !old(self).landed && above_ground ==> old(self).ticks < u64::MAX,
        ensures
            old(self).landed || !above_ground ==> r == FlightAction::Land && final(self).landed
                && final(self).ticks == old(self).ticks,
            !old(self).landed && above_ground ==> r == FlightAction::Advance && !final(self).landed
                && final(self).ticks == old(self).ticks + 1,
    {
        if self.landed || !above_ground {
            self.landed = true;
            FlightAction::Land
        } else {
            self.ticks = self.ticks + 1;
            FlightAction::Advance
        }
    }
}

} // verus!
