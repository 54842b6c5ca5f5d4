use vstd::prelude::*;

verus! {

/// How the climb ray probes for a ledge this frame.
#[derive(Clone, Copy, Debug, PartialEq, Eq, Structural)]
pub enum LedgeProbe {
    /// No probe: the controller is not looking for a ledge, or is already mantling.
    Skip,
    /// Probe with the shortened ray used while crouching.
    Short,
    /// Probe with the full ray length.
    Full,
}

/// What the mantle does this frame, once the probe (if any) has answered.
#[derive(Clone, Copy, Debug, PartialEq, Eq, Structural)]
pub enum MantleStep {
    /// Not mantling: movement goes on as planned.
    Free,
    /// A ledge was just found: collision goes off, the start and end of the climb
    /// are recorded with progress at zero, and the climb advances.
    Begin,
    /// Mantling already: the climb advances.
    Continue,
}

/// The ledge is probed only while searching for one and not already mantling;
/// the crouching character probes with the shorter ray.
pub open spec fn probe_for(looking: bool, mantling: bool, crouching: bool) -> LedgeProbe {
    if !looking || mantling {
        LedgeProbe::Skip
    } else if crouching {
        LedgeProbe::Short
    } else {
        LedgeProbe::Full
    }
}

pub fn ledge_probe(looking: bool, mantling: bool, crouching: bool) -> (p: LedgeProbe)
    ensures
        p == probe_for(looking, mantling, crouching),
        (p is Skip) <==> (!looking || mantling),
        (p is Short) <==> (looking && !mantling && crouching),
        (p is Full) <==> (looking && !mantling && !crouching),
{
    if looking && !mantling {
        if crouching {
            LedgeProbe::Short
        } else {
            LedgeProbe::Full
        }
    } else {
        LedgeProbe::Skip
    }
}

/// The mantle step for a controller that was mantling or not, given whether a
/// probe ran and hit a walkable ledge.
pub open spec fn mantle_step_for(mantling: bool, probe: LedgeProbe, walkable_hit: bool) -> MantleStep {
    if !(probe is Skip) && walkable_hit {
        MantleStep::Begin
    } else if mantling {
        MantleStep::Continue
    } else {
        MantleStep::Free
    }
}

pub fn mantle_step(mantling: bool, probe: LedgeProbe, walkable_hit: bool) -> (s: MantleStep)
    ensures
        s == mantle_step_for(mantling, probe, walkable_hit),
        (s is Begin) <==> (!(probe is Skip) && walkable_hit),
        (s is Continue) <==> (mantling && ((probe is Skip) || !walkable_hit)),
        (s is Free) <==> (!mantling && ((probe is Skip) || !walkable_hit)),
{
    let probed = match probe {
        LedgeProbe::Skip => false,
        _ => true,
    };
    if probed && walkable_hit {
        MantleStep::Begin
    } else if mantling {
        MantleStep::Continue
    } else {
        MantleStep::Free
    }
}

} // verus!
