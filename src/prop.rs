//! What a prop may carry: overrides of its holder's configuration, the
//! marker of being held, and the mass that it had before it was picked up.
use crate::config::{default_actor, AvianPickupActor, PitchRange};
use vstd::prelude::*;

verus! {

/// A rotation quaternion with components in units of `1 / ROTATION_SCALE`.
#[derive(Clone, Copy, Debug, PartialEq, Eq, Structural)]
pub struct Rotation {
    pub x: i32,
    pub y: i32,
    pub z: i32,
    pub w: i32,
}

/// The denominator of a `Rotation`'s components.
pub const ROTATION_SCALE: i32 = 0x4000_0000;

/// The rotation of a prop while held, in the actor's local space: the prop
/// turns with the actor to keep it. A prop without one keeps the rotation
/// that it had when it was picked up.
#[derive(Clone, Copy, Debug, PartialEq, Eq, Structural)]
pub struct PreferredPickupRotation(pub Rotation);

/// Overrides the holder's pitch range for this prop.
#[derive(Clone, Copy, Debug, PartialEq, Eq, Structural)]
pub struct HelpPropPitchRangeOverride(pub PitchRange);

/// Overrides the holder's preferred hold distance for this prop.
#[derive(Clone, Copy, Debug, PartialEq, Eq, Structural)]
pub struct PreferredPickupDistanceOverride(pub u32);

/// Overrides the holder's temporary prop mass for this prop.
#[derive(Clone, Copy, Debug, PartialEq, Eq, Structural)]
pub struct PickupMassOverride(pub u32);

/// The linear speed at which this prop is thrown, in place of one drawn from
/// the holder's range.
#[derive(Clone, Copy, Debug, PartialEq, Eq, Structural)]
pub struct ThrownLinearSpeedOverride(pub u32);

/// The angular speed at which this prop is thrown, in place of one drawn
/// from the holder's range.
#[derive(Clone, Copy, Debug, PartialEq, Eq, Structural)]
pub struct ThrownAngularSpeedOverride(pub u32);

/// The mass that a prop had before it was picked up, given back when it is
/// released.
#[derive(Clone, Copy, Debug, PartialEq, Eq, Structural)]
pub struct NonPickupMass(pub u32);

/// Marks a prop that an actor holds.
#[derive(Clone, Copy, Debug, PartialEq, Eq, Structural)]
pub struct HeldProp;

impl Default for PreferredPickupRotation {
    fn default() -> (r: Self)
        ensures
            r.0 == (Rotation { x: 0, y: 0, z: 0, w: ROTATION_SCALE }),
    {
        PreferredPickupRotation(Rotation { x: 0, y: 0, z: 0, w: ROTATION_SCALE })
    }
}

impl Default for HelpPropPitchRangeOverride {
    fn default() -> (r: Self)
        ensures
            r.0 == default_actor().hold.pitch_range,
    {
        HelpPropPitchRangeOverride(AvianPickupActor::default().hold.pitch_range)
    }
}

impl Default for PreferredPickupDistanceOverride {
    fn default() -> (r: Self)
        ensures
            r.0 == default_actor().hold.preferred_distance,
    {
        PreferredPickupDistanceOverride(AvianPickupActor::default().hold.preferred_distance)
    }
}

impl Default for PickupMassOverride {
    fn default() -> (r: Self)
        ensures
            r.0 == default_actor().hold.temporary_prop_mass,
    {
        PickupMassOverride(AvianPickupActor::default().hold.temporary_prop_mass)
    }
}

impl Default for ThrownLinearSpeedOverride {
    fn default() -> (r: Self)
        ensures
            r.0 == default_actor().throw.linear_speed_range.max,
    {
        ThrownLinearSpeedOverride(AvianPickupActor::default().throw.linear_speed_range.max)
    }
}

impl Default for ThrownAngularSpeedOverride {
    fn default() -> (r: Self)
        ensures
            r.0 == default_actor().throw.angular_speed_range.max,
    {
        ThrownAngularSpeedOverride(AvianPickupActor::default().throw.angular_speed_range.max)
    }
}

/// The overrides that a prop carries; each one absent falls back to the
/// holder's configuration.
#[derive(Clone, Copy, Debug, PartialEq, Eq, Structural)]
pub struct PropOverrides {
    pub rotation: Option<PreferredPickupRotation>,
    pub pitch_range: Option<HelpPropPitchRangeOverride>,
    pub distance: Option<PreferredPickupDistanceOverride>,
    pub mass: Option<PickupMassOverride>,
    pub linear_speed: Option<ThrownLinearSpeedOverride>,
    pub angular_speed: Option<ThrownAngularSpeedOverride>,
}

impl PropOverrides {
    /// A prop without overrides.
    pub fn none() -> (r: Self)
        ensures
            r.rotation is None,
            r.pitch_range is None,
            r.distance is None,
            r.mass is None,
            r.linear_speed is None,
            r.angular_speed is None,
    {
        PropOverrides {
            rotation: None,
            pitch_range: None,
            distance: None,
            mass: None,
            linear_speed: None,
            angular_speed: None,
        }
    }

    /// A pitch range override is not empty.
    pub open spec fn wf(self) -> bool {
        self.pitch_range matches Some(r) ==> r.0.wf()
    }
}

/// The hold distance: the prop's override, else the actor's default.
pub open spec fn hold_distance(config: AvianPickupActor, o: PropOverrides) -> u32 {
    match o.distance {
        Some(d) => d.0,
        None => config.hold.preferred_distance,
    }
}

/// The pitch range: the prop's override, else the actor's default.
pub open spec fn hold_pitch_range(config: AvianPickupActor, o: PropOverrides) -> PitchRange {
    match o.pitch_range {
        Some(r) => r.0,
        None => config.hold.pitch_range,
    }
}

/// The holding mass: the prop's override, else the actor's default.
pub open spec fn pickup_mass(config: AvianPickupActor, o: PropOverrides) -> u32 {
    match o.mass {
        Some(m) => m.0,
        None => config.hold.temporary_prop_mass,
    }
}

/// A speed drawn from a range by a roll: `min + roll mod (max - min + 1)`.
pub open spec fn speed_in_range(min: u32, max: u32, roll: u32) -> int {
    min + (roll as int) % (max - min + 1)
}

/// The thrown linear speed: the prop's override, else drawn from the
/// actor's range.
pub open spec fn thrown_linear_speed(config: AvianPickupActor, o: PropOverrides, roll: u32) -> int {
    match o.linear_speed {
        Some(s) => s.0 as int,
        None => speed_in_range(
            config.throw.linear_speed_range.min,
            config.throw.linear_speed_range.max,
            roll,
        ),
    }
}

/// The thrown angular speed: the prop's override, else drawn from the
/// actor's range.
pub open spec fn thrown_angular_speed(config: AvianPickupActor, o: PropOverrides, roll: u32) -> int {
    match o.angular_speed {
        Some(s) => s.0 as int,
        None => speed_in_range(
            config.throw.angular_speed_range.min,
            config.throw.angular_speed_range.max,
            roll,
        ),
    }
}

/// The distance at which `config`'s actor holds a prop with overrides `o`.
pub fn preferred_hold_distance(config: &AvianPickupActor, o: &PropOverrides) -> (r: u32)
    ensures
        r == hold_distance(*config, *o),
{
    match o.distance {
        Some(d) => d.0,
        None => config.hold.preferred_distance,
    }
}

/// The pitch range within which `config`'s actor holds a prop with
/// overrides `o`.
pub fn preferred_pitch_range(config: &AvianPickupActor, o: &PropOverrides) -> (r: PitchRange)
    ensures
        r == hold_pitch_range(*config, *o),
{
    match o.pitch_range {
        Some(r) => r.0,
        None => config.hold.pitch_range,
    }
}

/// The mass that a prop with overrides `o` has while `config`'s actor holds
/// it.
pub fn temporary_mass(config: &AvianPickupActor, o: &PropOverrides) -> (r: u32)
    ensures
        r == pickup_mass(*config, *o),
{
    match o.mass {
        Some(m) => m.0,
        None => config.hold.temporary_prop_mass,
    }
}

/// Draws a speed in `min..=max` from `roll`.
pub fn draw_speed(min: u32, max: u32, roll: u32) -> (r: u32)
    requires
        min <= max,
    ensures
        r == speed_in_range(min, max, roll),
        min <= r <= max,
{
    let span: u64 = max as u64 - min as u64 + 1;
    let offset: u64 = roll as u64 % span;
    (min as u64 + offset) as u32
}

/// The linear speed at which `config`'s actor throws a prop with overrides
/// `o`, drawn by `roll` unless the prop overrides it.
pub fn throw_linear_speed(config: &AvianPickupActor, o: &PropOverrides, roll: u32) -> (r: u32)
    requires
        config.wf(),
    ensures
        r == thrown_linear_speed(*config, *o, roll),
        o.linear_speed is None ==> config.throw.linear_speed_range.min <= r
            <= config.throw.linear_speed_range.max,
{
    match o.linear_speed {
        Some(s) => s.0,
        None => draw_speed(
            config.throw.linear_speed_range.min,
            config.throw.linear_speed_range.max,
            roll,
        ),
    }
}

/// The angular speed at which `config`'s actor throws a prop with overrides
/// `o`, drawn by `roll` unless the prop overrides it.
pub fn throw_angular_speed(config: &AvianPickupActor, o: &PropOverrides, roll: u32) -> (r: u32)
    requires
        config.wf(),
    ensures
        r == thrown_angular_speed(*config, *o, roll),
        o.angular_speed is None ==> config.throw.angular_speed_range.min <= r
            <= config.throw.angular_speed_range.max,
{
    match o.angular_speed {
        Some(s) => s.0,
        None => draw_speed(
            config.throw.angular_speed_range.min,
            config.throw.angular_speed_range.max,
            roll,
        ),
    }
}

/// The actor's pitch, clamped into `range`.
pub fn clamp_pitch(pitch: i32, range: PitchRange) -> (r: i32)
    requires
        range.wf(),
    ensures
        r == if pitch < range.min {
            range.min
        } else if pitch > range.max {
            range.max
        } else {
            pitch
        },
{
    if pitch < range.min {
        range.min
    } else if pitch > range.max {
        range.max
    } else {
        pitch
    }
}

} // verus!
