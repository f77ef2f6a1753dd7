use vstd::prelude::*;

verus! {

/// One operation of bringing up a fleet of sensors on one bus.
#[derive(Clone, Copy, Debug, PartialEq, Eq, Structural)]
pub enum FleetStep {
    /// Bring up the sensor of the given slot.
    Init(usize),
    /// Start continuous measurement on the sensor of the given slot.
    Start(usize),
}

/// The startup order of a fleet of `n` sensors: every sensor is brought up,
/// in slot order, before any of them starts measuring, in slot order.
pub open spec fn fleet_order(n: nat) -> Seq<FleetStep> {
    Seq::new(2 * n, |i: int| if i < n { FleetStep::Init(i as usize) } else { FleetStep::Start((i - n) as usize) })
}

/// The startup order of a fleet of `n` sensors.
pub fn fleet_plan(n: usize) -> (r: Vec<FleetStep>)
    requires
        2 * n <= usize::MAX,
    ensures
        r@ == fleet_order(n as nat),
{
    let mut r: Vec<FleetStep> = Vec::new();
    let mut i: usize = 0;
    while i < n
        invariant
            i <= n,
            r@.len() == i,
            forall|j: int| 0 <= j < i ==> r@[j] == FleetStep::Init(j as usize),
        decreases n - i,
    {
        r.push(FleetStep::Init(i));
        i = i + 1;
    }
    let mut k: usize = 0;
    while k < n
        invariant
            k <= n,
            2 * n <= usize::MAX,
            r@.len() == n + k,
            forall|j: int| 0 <= j < n ==> r@[j] == FleetStep::Init(j as usize),
            forall|j: int| n <= j < n + k ==> r@[j] == FleetStep::Start((j - n) as usize),
        decreases n - k,
    {
        r.push(FleetStep::Start(k));
        k = k + 1;
    }
    assert(r@ =~= fleet_order(n as nat));
    r
}

} // verus!
