//! Per-actor configuration and its defaults.
use vstd::prelude::*;

verus! {

/// An inclusive range of pitch angles, in millidegrees.
#[derive(Clone, Copy, Debug, PartialEq, Eq, Structural)]
pub struct PitchRange {
    pub min: i32,
    pub max: i32,
}

/// An inclusive range of speeds: millimetres per second for linear speed,
/// milliradians per second for angular speed.
#[derive(Clone, Copy, Debug, PartialEq, Eq, Structural)]
pub struct SpeedRange {
    pub min: u32,
    pub max: u32,
}

impl PitchRange {
    pub open spec fn wf(self) -> bool {
        self.min <= self.max
    }
}

impl SpeedRange {
    pub open spec fn wf(self) -> bool {
        self.min <= self.max
    }
}

/// How an actor holds a prop.
#[derive(Clone, Copy, Debug, PartialEq, Eq, Structural)]
pub struct AvianPickupActorHoldConfig {
    /// The range that the actor's pitch is clamped to before the prop is
    /// placed in front of it, so that looking straight down cannot push the
    /// prop into the actor.
    pub pitch_range: PitchRange,
    /// How far in front of the actor a held prop is kept, in millimetres.
    /// A pulled prop is taken into the hand once it is this close.
    pub preferred_distance: u32,
    /// The mass that a prop has while held, in grams.
    pub temporary_prop_mass: u32,
}

/// How an actor throws a prop.
#[derive(Clone, Copy, Debug, PartialEq, Eq, Structural)]
pub struct AvianPickupActorThrowConfig {
    pub linear_speed_range: SpeedRange,
    pub angular_speed_range: SpeedRange,
}

/// The capability of picking up props, with its configuration.
#[derive(Clone, Copy, Debug, PartialEq, Eq, Structural)]
pub struct AvianPickupActor {
    /// How far the probe looks for a prop, in millimetres.
    pub interaction_distance: u32,
    /// How far a pull reaches, in millimetres.
    pub trace_length: u32,
    /// The pull cone threshold, in units of `1 / CONE_SCALE`.
    pub cone: i16,
    pub hold: AvianPickupActorHoldConfig,
    pub throw: AvianPickupActorThrowConfig,
    /// How many simulation steps must pass after an action before the next
    /// one may begin.
    pub cooldown_steps: u32,
}

impl AvianPickupActor {
    /// The ranges are not empty.
    pub open spec fn wf(self) -> bool {
        &&& self.hold.pitch_range.wf()
        &&& self.throw.linear_speed_range.wf()
        &&& self.throw.angular_speed_range.wf()
    }
}

/// The configuration that `AvianPickupActor::default` gives.
pub open spec fn default_actor() -> AvianPickupActor {
    AvianPickupActor {
        interaction_distance: 1500,
        trace_length: 6000,
        cone: 9700,
        hold: AvianPickupActorHoldConfig {
            pitch_range: PitchRange { min: -75000i32, max: 75000 },
            preferred_distance: 1500,
            temporary_prop_mass: 1000,
        },
        throw: AvianPickupActorThrowConfig {
            linear_speed_range: SpeedRange { min: 0, max: 5000 },
            angular_speed_range: SpeedRange { min: 0, max: 1000 },
        },
        cooldown_steps: 32,
    }
}

impl Default for AvianPickupActor {
    fn default() -> (r: Self)
        ensures
            r == default_actor(),
            r.wf(),
    {
        AvianPickupActor {
            interaction_distance: 1500,
            trace_length: 6000,
            cone: 9700,
            hold: AvianPickupActorHoldConfig {
                pitch_range: PitchRange { min: -75000, max: 75000 },
                preferred_distance: 1500,
                temporary_prop_mass: 1000,
            },
            throw: AvianPickupActorThrowConfig {
                linear_speed_range: SpeedRange { min: 0, max: 5000 },
                angular_speed_range: SpeedRange { min: 0, max: 1000 },
            },
            cooldown_steps: 32,
        }
    }
}

} // verus!
