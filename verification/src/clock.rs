//! Clock enablement, as requests for the clock authority.

use vstd::prelude::*;

verus! {

/// A hardware unit whose clock the driver needs.
#[derive(Debug, Clone, Copy, PartialEq, Eq)]
pub enum Peripheral {
    /// The hash unit that the keyed-hash engine computes with.
    Sha,
    /// The keyed-hash engine.
    Hmac,
    /// The signature engine.
    Ds,
}

/// The units that the signature engine needs powered, in the order in which
/// they are to be enabled: each one depends on those before it.
pub open spec fn power_up_order() -> Seq<Peripheral> {
    seq![Peripheral::Sha, Peripheral::Hmac, Peripheral::Ds]
}

/// Enable requests for the clock authority, oldest first. The driver only
/// records them here; whoever owns the clock authority carries them out, in
/// this order.
pub struct PeripheralClockControl {
    requested: Vec<Peripheral>,
}

impl View for PeripheralClockControl {
    type V = Seq<Peripheral>;

    closed spec fn view(&self) -> Seq<Peripheral> {
        self.requested@
    }
}

impl PeripheralClockControl {
    /// A record with no request in it.
    pub fn new() -> (clocks: PeripheralClockControl)
        ensures
            clocks@ == Seq::<Peripheral>::empty(),
    {
        PeripheralClockControl { requested: Vec::new() }
    }

    /// Asks for `peripheral` to be enabled, after everything asked for
    /// before.
    pub fn enable(&mut self, peripheral: Peripheral)
        ensures
            final(self)@ == old(self)@.push(peripheral),
    {
        self.requested.push(peripheral);
    }

    /// The requests made so far, oldest first.
    pub fn requested(&self) -> (requests: &Vec<Peripheral>)
        ensures
            requests@ == self@,
    {
        &self.requested
    }
}

} // verus!
