//! The actors and props of one simulation, and the transitions between the
//! actors' states. Each actor's claim on a prop is kept in both directions:
//! the actor's state names the prop, and the prop names the actor.
use crate::config::AvianPickupActor;
use crate::event::{usher_event, verb_of, AvianPickupActorState, AvianPickupEvent, Verb};
use crate::geometry::Direction;
use crate::config::PitchRange;
use crate::prop::{
    clamp_pitch, hold_distance, hold_pitch_range, pickup_mass, preferred_hold_distance,
    preferred_pitch_range, temporary_mass, throw_angular_speed, throw_linear_speed,
    thrown_angular_speed, thrown_linear_speed, HeldProp, NonPickupMass, PreferredPickupRotation,
    PropOverrides,
};
use crate::pull_object::RigidBody;
use vstd::prelude::*;

verus! {

/// Counts down the steps until an actor may begin its next action.
#[derive(Clone, Copy, Debug, PartialEq, Eq, Structural)]
pub struct Cooldown {
    pub remaining: u32,
}

impl Cooldown {
    pub open spec fn is_ready(self) -> bool {
        self.remaining == 0
    }

    /// Whether the next action may begin.
    pub fn ready(&self) -> (r: bool)
        ensures
            r == self.is_ready(),
    {
        self.remaining == 0
    }
}

/// A speed along a direction: millimetres per second along a heading for a
/// linear velocity, milliradians per second about an axis for an angular one.
#[derive(Clone, Copy, Debug, PartialEq, Eq, Structural)]
pub struct Velocity {
    pub direction: Direction,
    pub speed: u32,
}

/// No motion.
pub open spec fn at_rest() -> Velocity {
    Velocity { direction: Direction { x: 0, y: 0, z: 0 }, speed: 0 }
}

/// An actor: its configuration, its state and its cooldown.
#[derive(Clone, Copy, Debug, PartialEq, Eq, Structural)]
pub struct ActorSlot {
    pub config: AvianPickupActor,
    pub state: AvianPickupActorState,
    pub cooldown: Cooldown,
}

/// A rigid body that actors may pick up.
#[derive(Clone, Copy, Debug, PartialEq, Eq, Structural)]
pub struct PropBody {
    pub rigid_body: RigidBody,
    /// In grams.
    pub mass: u32,
    pub linear_velocity: Velocity,
    pub angular_velocity: Velocity,
    pub overrides: PropOverrides,
    /// The actor that pulls or holds this prop.
    pub claimed_by: Option<usize>,
    /// Present while an actor holds this prop.
    pub held: Option<HeldProp>,
    /// The mass to give back on release; present only while held.
    pub non_pickup_mass: Option<NonPickupMass>,
}

/// Why a request about an actor was refused.
#[derive(Clone, Copy, Debug, PartialEq, Eq, Structural)]
pub enum PickupError {
    /// The id names no actor.
    NotAnActor,
    /// The id names no prop.
    NotAProp,
    /// The actor holds nothing to release.
    NotHolding,
    /// The actor is not pulling anything.
    NotPulling,
    /// The released prop had no cached mass to give back; the actor is idle
    /// all the same, and the prop's mass and velocities are left alone.
    MissingNonPickupMass,
}

/// Where a held prop should be this step, for the host to steer it toward
/// by velocity.
#[derive(Clone, Copy, Debug, PartialEq, Eq, Structural)]
pub struct HoldTarget {
    pub prop: usize,
    /// How far in front of the actor, in millimetres.
    pub distance: u32,
    /// The actor's pitch, clamped to the range for this prop, in millidegrees.
    pub pitch: i32,
    /// The rotation in the actor's space, if the prop prefers one; else the
    /// prop keeps the rotation it had when picked up.
    pub rotation: Option<PreferredPickupRotation>,
}

/// `pitch` clamped into `range`.
pub open spec fn clamped(pitch: i32, range: PitchRange) -> i32 {
    if pitch < range.min {
        range.min
    } else if pitch > range.max {
        range.max
    } else {
        pitch
    }
}

/// The prop that an actor in `state` pulls or holds.
pub open spec fn target_of(state: AvianPickupActorState) -> Option<usize> {
    match state {
        AvianPickupActorState::Idle => None,
        AvianPickupActorState::Pulling(p) => Some(p),
        AvianPickupActorState::Holding(p) => Some(p),
    }
}

/// Whether actor `a` has claimed prop `b`.
pub open spec fn claimant_is(b: PropBody, a: int) -> bool {
    b.claimed_by is Some && b.claimed_by.unwrap() == a
}

/// The actors and props as mathematical sequences, indexed by id.
pub struct PickupModel {
    pub actors: Seq<ActorSlot>,
    pub props: Seq<PropBody>,
}

impl PickupModel {
    pub open spec fn actor_wf(self, a: int) -> bool {
        let s = self.actors[a];
        &&& s.config.wf()
        &&& match s.state {
            AvianPickupActorState::Idle => true,
            AvianPickupActorState::Pulling(p) => p < self.props.len() && claimant_is(
                self.props[p as int],
                a,
            ) && self.props[p as int].held is None,
            AvianPickupActorState::Holding(p) => p < self.props.len() && claimant_is(
                self.props[p as int],
                a,
            ) && self.props[p as int].held is Some,
        }
    }

    pub open spec fn prop_wf(self, p: int) -> bool {
        let b = self.props[p];
        &&& b.overrides.wf()
        &&& b.claimed_by matches Some(a) ==> a < self.actors.len() && target_of(
            self.actors[a as int].state,
        ) is Some && target_of(self.actors[a as int].state).unwrap() == p
        &&& b.held is Some ==> b.claimed_by is Some
        &&& b.non_pickup_mass is Some ==> b.held is Some
    }

    /// Every claim is recorded on both sides, a prop is marked held exactly
    /// while its claimant holds it, and a cached mass exists only on a held
    /// prop.
    pub open spec fn wf(self) -> bool {
        &&& forall|a: int| 0 <= a < self.actors.len() ==> #[trigger] self.actor_wf(a)
        &&& forall|p: int| 0 <= p < self.props.len() ==> #[trigger] self.prop_wf(p)
    }
}

impl PickupModel {
    /// An actor `a` may start pulling `target`: it is idle and ready, and the
    /// target is a dynamic prop that nobody pulls or holds.
    pub open spec fn can_start_pull(self, a: int, target: Option<usize>) -> bool {
        &&& self.actors[a].state == AvianPickupActorState::Idle
        &&& self.actors[a].cooldown.is_ready()
        &&& target matches Some(p) && p < self.props.len() && self.props[p as int].rigid_body
            == RigidBody::Dynamic && self.props[p as int].claimed_by is None
    }

    /// The world after actor `a` tries to start pulling `target`.
    pub open spec fn start_pull(self, a: int, target: Option<usize>) -> PickupModel {
        if self.can_start_pull(a, target) {
            let p = target.unwrap();
            let s = self.actors[a];
            PickupModel {
                actors: self.actors.update(
                    a,
                    ActorSlot {
                        state: AvianPickupActorState::Pulling(p),
                        cooldown: Cooldown { remaining: s.config.cooldown_steps },
                        ..s
                    },
                ),
                props: self.props.update(
                    p as int,
                    PropBody { claimed_by: Some(a as usize), ..self.props[p as int] },
                ),
            }
        } else {
            self
        }
    }
}

impl PickupModel {
    /// The world after the pulling actor `a` draws its target in, when the
    /// target is `distance` millimetres away. A target that is no longer
    /// dynamic is let go; one within the hold distance is taken into the
    /// hand: marked held, its mass cached and replaced by the holding mass.
    pub open spec fn draw_in(self, a: int, distance: u32) -> PickupModel {
        let s = self.actors[a];
        let p = target_of(s.state).unwrap();
        let b = self.props[p as int];
        if b.rigid_body != RigidBody::Dynamic {
            PickupModel {
                actors: self.actors.update(
                    a,
                    ActorSlot {
                        state: AvianPickupActorState::Idle,
                        cooldown: Cooldown { remaining: s.config.cooldown_steps },
                        ..s
                    },
                ),
                props: self.props.update(p as int, PropBody { claimed_by: None, ..b }),
            }
        } else if distance <= hold_distance(s.config, b.overrides) {
            PickupModel {
                actors: self.actors.update(
                    a,
                    ActorSlot {
                        state: AvianPickupActorState::Holding(p),
                        cooldown: Cooldown { remaining: s.config.cooldown_steps },
                        ..s
                    },
                ),
                props: self.props.update(
                    p as int,
                    PropBody {
                        mass: pickup_mass(s.config, b.overrides),
                        held: Some(HeldProp),
                        non_pickup_mass: Some(NonPickupMass(b.mass)),
                        ..b
                    },
                ),
            }
        } else {
            self
        }
    }

    /// The world after the holding actor `a` lets its prop go: the actor is
    /// idle and its cooldown restarts, the prop is unmarked and unclaimed.
    /// When the prop has a cached mass, that mass comes back, the cache is
    /// gone, and the prop takes the velocities `motion` if they are given;
    /// without a cache the prop's mass and velocities stay.
    pub open spec fn release(self, a: int, motion: Option<(Velocity, Velocity)>) -> PickupModel {
        let s = self.actors[a];
        let p = target_of(s.state).unwrap();
        let b = self.props[p as int];
        let freed = PropBody { claimed_by: None, held: None, ..b };
        PickupModel {
            actors: self.actors.update(
                a,
                ActorSlot {
                    state: AvianPickupActorState::Idle,
                    cooldown: Cooldown { remaining: s.config.cooldown_steps },
                    ..s
                },
            ),
            props: self.props.update(
                p as int,
                match b.non_pickup_mass {
                    None => freed,
                    Some(m) => match motion {
                        None => PropBody { mass: m.0, non_pickup_mass: None, ..freed },
                        Some(v) => PropBody {
                            mass: m.0,
                            non_pickup_mass: None,
                            linear_velocity: v.0,
                            angular_velocity: v.1,
                            ..freed
                        },
                    },
                },
            ),
        }
    }
}

impl PickupModel {
    /// The prop that actor `a` pulls or holds.
    pub open spec fn target(self, a: int) -> int {
        target_of(self.actors[a].state).unwrap() as int
    }

    /// The velocities of a prop that actor `a` throws along `forward`,
    /// spinning about `axis`, with speeds drawn by the two rolls.
    pub open spec fn throw_motion(
        self,
        a: int,
        forward: Direction,
        axis: Direction,
        linear_roll: u32,
        angular_roll: u32,
    ) -> (Velocity, Velocity) {
        let c = self.actors[a].config;
        let o = self.props[self.target(a)].overrides;
        (
            Velocity { direction: forward, speed: thrown_linear_speed(c, o, linear_roll) as u32 },
            Velocity { direction: axis, speed: thrown_angular_speed(c, o, angular_roll) as u32 },
        )
    }

    /// Where actor `a`, looking at `pitch`, holds its prop.
    pub open spec fn hold_target(self, a: int, pitch: i32) -> HoldTarget {
        let c = self.actors[a].config;
        let p = self.target(a);
        let o = self.props[p].overrides;
        HoldTarget {
            prop: p as usize,
            distance: hold_distance(c, o),
            pitch: clamped(pitch, hold_pitch_range(c, o)),
            rotation: o.rotation,
        }
    }

    /// The world after one step of cooldown: every count above zero drops
    /// by one.
    pub open spec fn ticked(self) -> PickupModel {
        PickupModel {
            actors: self.actors.map_values(
                |s: ActorSlot|
                    ActorSlot {
                        cooldown: Cooldown {
                            remaining: if s.cooldown.remaining > 0 {
                                (s.cooldown.remaining - 1) as u32
                            } else {
                                0
                            },
                        },
                        ..s
                    },
            ),
            props: self.props,
        }
    }
}

/// The actors and props of one simulation. Ids are indices.
pub struct PickupWorld {
    pub actors: Vec<ActorSlot>,
    pub props: Vec<PropBody>,
}

impl View for PickupWorld {
    type V = PickupModel;

    open spec fn view(&self) -> PickupModel {
        PickupModel { actors: self.actors@, props: self.props@ }
    }
}

impl PickupWorld {
    /// A world without actors or props.
    pub fn new() -> (r: Self)
        ensures
            r@.actors.len() == 0,
            r@.props.len() == 0,
            r@.wf(),
    {
        PickupWorld { actors: Vec::new(), props: Vec::new() }
    }

    /// Adds an idle actor whose cooldown has run out, and returns its id.
    pub fn add_actor(&mut self, config: AvianPickupActor) -> (r: usize)
        requires
            old(self)@.wf(),
            config.wf(),
        ensures
            r == old(self)@.actors.len(),
            final(self)@.actors == old(self)@.actors.push(
                ActorSlot {
                    config,
                    state: AvianPickupActorState::Idle,
                    cooldown: Cooldown { remaining: 0 },
                },
            ),
            final(self)@.props == old(self)@.props,
            final(self)@.wf(),
    {
        let r = self.actors.len();
        self.actors.push(
            ActorSlot {
                config,
                state: AvianPickupActorState::Idle,
                cooldown: Cooldown { remaining: 0 },
            },
        );
        proof {
            let m0 = old(self)@;
            let m = self@;
            assert forall|a: int| 0 <= a < m.actors.len() implies #[trigger] m.actor_wf(a) by {
                if a < m0.actors.len() {
                    assert(m0.actor_wf(a));
                }
            }
            assert forall|p: int| 0 <= p < m.props.len() implies #[trigger] m.prop_wf(p) by {
                assert(m0.prop_wf(p));
            }
        }
        r
    }

    /// Adds an unclaimed prop at rest, and returns its id.
    pub fn add_prop(&mut self, rigid_body: RigidBody, mass: u32, overrides: PropOverrides) -> (r:
        usize)
        requires
            old(self)@.wf(),
            overrides.wf(),
        ensures
            r == old(self)@.props.len(),
            final(self)@.props == old(self)@.props.push(
                PropBody {
                    rigid_body,
                    mass,
                    linear_velocity: at_rest(),
                    angular_velocity: at_rest(),
                    overrides,
                    claimed_by: None,
                    held: None,
                    non_pickup_mass: None,
                },
            ),
            final(self)@.actors == old(self)@.actors,
            final(self)@.wf(),
    {
        let r = self.props.len();
        let rest = Velocity { direction: Direction { x: 0, y: 0, z: 0 }, speed: 0 };
        self.props.push(
            PropBody {
                rigid_body,
                mass,
                linear_velocity: rest,
                angular_velocity: rest,
                overrides,
                claimed_by: None,
                held: None,
                non_pickup_mass: None,
            },
        );
        proof {
            let m0 = old(self)@;
            let m = self@;
            assert forall|a: int| 0 <= a < m.actors.len() implies #[trigger] m.actor_wf(a) by {
                assert(m0.actor_wf(a));
            }
            assert forall|p: int| 0 <= p < m.props.len() implies #[trigger] m.prop_wf(p) by {
                if p < m0.props.len() {
                    assert(m0.prop_wf(p));
                }
            }
        }
        r
    }

    /// The pulling actor `actor` draws its target in, the target being
    /// `distance` millimetres away; the result is the actor's new state.
    pub fn draw_in(&mut self, actor: usize, distance: u32) -> (r: Result<
        AvianPickupActorState,
        PickupError,
    >)
        requires
            old(self)@.wf(),
        ensures
            final(self)@.wf(),
            actor >= old(self)@.actors.len() ==> r == Err::<AvianPickupActorState, PickupError>(
                PickupError::NotAnActor,
            ) && final(self)@ == old(self)@,
            actor < old(self)@.actors.len() && !(old(self)@.actors[actor as int].state is Pulling)
                ==> r == Err::<AvianPickupActorState, PickupError>(PickupError::NotPulling)
                && final(self)@ == old(self)@,
            actor < old(self)@.actors.len() && old(self)@.actors[actor as int].state is Pulling ==> r
                == Ok::<AvianPickupActorState, PickupError>(
                final(self)@.actors[actor as int].state,
            ) && final(self)@ == old(self)@.draw_in(actor as int, distance),
    {
        if actor >= self.actors.len() {
            return Err(PickupError::NotAnActor);
        }
        let s = self.actors[actor];
        let p = match s.state {
            AvianPickupActorState::Pulling(p) => p,
            _ => return Err(PickupError::NotPulling),
        };
        let ghost m0 = self@;
        proof {
            assert(m0.actor_wf(actor as int));
            assert(m0.prop_wf(p as int));
        }
        let b = self.props[p];
        if !(b.rigid_body == RigidBody::Dynamic) {
            self.actors.set(
                actor,
                ActorSlot {
                    state: AvianPickupActorState::Idle,
                    cooldown: Cooldown { remaining: s.config.cooldown_steps },
                    ..s
                },
            );
            self.props.set(p, PropBody { claimed_by: None, ..b });
        } else if distance <= preferred_hold_distance(&s.config, &b.overrides) {
            let mass = temporary_mass(&s.config, &b.overrides);
            self.actors.set(
                actor,
                ActorSlot {
                    state: AvianPickupActorState::Holding(p),
                    cooldown: Cooldown { remaining: s.config.cooldown_steps },
                    ..s
                },
            );
            self.props.set(
                p,
                PropBody {
                    mass,
                    held: Some(HeldProp),
                    non_pickup_mass: Some(NonPickupMass(b.mass)),
                    ..b
                },
            );
        }
        proof {
            let m = self@;
            assert(m.actors =~= m0.draw_in(actor as int, distance).actors);
            assert(m.props =~= m0.draw_in(actor as int, distance).props);
            assert forall|a: int| 0 <= a < m.actors.len() implies #[trigger] m.actor_wf(a) by {
                assert(m0.actor_wf(a));
            }
            assert forall|q: int| 0 <= q < m.props.len() implies #[trigger] m.prop_wf(q) by {
                assert(m0.prop_wf(q));
            }
        }
        Ok(self.actors[actor].state)
    }

    /// Lets go of the prop that the holding actor `actor` holds, giving it
    /// the velocities `motion` when given (see `PickupModel::release`).
    fn release(&mut self, actor: usize, motion: Option<(Velocity, Velocity)>) -> (r: Result<
        (),
        PickupError,
    >)
        requires
            old(self)@.wf(),
            actor < old(self)@.actors.len(),
            old(self)@.actors[actor as int].state is Holding,
        ensures
            final(self)@.wf(),
            final(self)@ == old(self)@.release(actor as int, motion),
            r is Ok <==> old(self)@.props[target_of(
                old(self)@.actors[actor as int].state,
            ).unwrap() as int].non_pickup_mass is Some,
            r is Err ==> r == Err::<(), PickupError>(PickupError::MissingNonPickupMass),
    {
        let s = self.actors[actor];
        let p = match s.state {
            AvianPickupActorState::Holding(p) => p,
            _ => 0,
        };
        let ghost m0 = self@;
        proof {
            assert(m0.actor_wf(actor as int));
            assert(m0.prop_wf(p as int));
        }
        let b = self.props[p];
        let freed = PropBody { claimed_by: None, held: None, ..b };
        self.actors.set(
            actor,
            ActorSlot {
                state: AvianPickupActorState::Idle,
                cooldown: Cooldown { remaining: s.config.cooldown_steps },
                ..s
            },
        );
        let r = match b.non_pickup_mass {
            None => {
                self.props.set(p, freed);
                Err(PickupError::MissingNonPickupMass)
            },
            Some(m) => {
                match motion {
                    None => self.props.set(p, PropBody { mass: m.0, non_pickup_mass: None, ..freed }),
                    Some(v) => self.props.set(
                        p,
                        PropBody {
                            mass: m.0,
                            non_pickup_mass: None,
                            linear_velocity: v.0,
                            angular_velocity: v.1,
                            ..freed
                        },
                    ),
                }
                Ok(())
            },
        };
        proof {
            let m = self@;
            assert(m.actors =~= m0.release(actor as int, motion).actors);
            assert(m.props =~= m0.release(actor as int, motion).props);
            assert forall|a: int| 0 <= a < m.actors.len() implies #[trigger] m.actor_wf(a) by {
                assert(m0.actor_wf(a));
            }
            assert forall|q: int| 0 <= q < m.props.len() implies #[trigger] m.prop_wf(q) by {
                assert(m0.prop_wf(q));
            }
        }
        r
    }

    /// Drops the prop that `actor` holds: the actor goes idle and its
    /// cooldown restarts, the prop is unmarked, gets its cached mass back and
    /// comes to rest. Without a cached mass the actor still goes idle, the
    /// prop is still unmarked, and the error says so.
    pub fn drop(&mut self, actor: usize) -> (r: Result<(), PickupError>)
        requires
            old(self)@.wf(),
        ensures
            final(self)@.wf(),
            actor >= old(self)@.actors.len() ==> r == Err::<(), PickupError>(PickupError::NotAnActor)
                && final(self)@ == old(self)@,
            actor < old(self)@.actors.len() && !(old(self)@.actors[actor as int].state is Holding)
                ==> r == Err::<(), PickupError>(PickupError::NotHolding) && final(self)@ == old(self)@,
            actor < old(self)@.actors.len() && old(self)@.actors[actor as int].state is Holding ==> {
                &&& final(self)@ == old(self)@.release(actor as int, Some((at_rest(), at_rest())))
                &&& r is Ok <==> old(self)@.props[old(self)@.target(
                    actor as int,
                )].non_pickup_mass is Some
                &&& r is Err ==> r == Err::<(), PickupError>(PickupError::MissingNonPickupMass)
            },
    {
        if actor >= self.actors.len() {
            return Err(PickupError::NotAnActor);
        }
        match self.actors[actor].state {
            AvianPickupActorState::Holding(_) => {},
            _ => return Err(PickupError::NotHolding),
        }
        let rest = Velocity { direction: Direction { x: 0, y: 0, z: 0 }, speed: 0 };
        self.release(actor, Some((rest, rest)))
    }

    /// Throws the prop that `actor` holds along `forward`, spinning about
    /// `axis`. The linear and angular speeds are the prop's overrides where
    /// it has them, else drawn from the actor's ranges by the two rolls. The
    /// rest is as for `drop`.
    pub fn throw(
        &mut self,
        actor: usize,
        forward: Direction,
        axis: Direction,
        linear_roll: u32,
        angular_roll: u32,
    ) -> (r: Result<(), PickupError>)
        requires
            old(self)@.wf(),
        ensures
            final(self)@.wf(),
            actor >= old(self)@.actors.len() ==> r == Err::<(), PickupError>(PickupError::NotAnActor)
                && final(self)@ == old(self)@,
            actor < old(self)@.actors.len() && !(old(self)@.actors[actor as int].state is Holding)
                ==> r == Err::<(), PickupError>(PickupError::NotHolding) && final(self)@ == old(self)@,
            actor < old(self)@.actors.len() && old(self)@.actors[actor as int].state is Holding ==> {
                &&& final(self)@ == old(self)@.release(
                    actor as int,
                    Some(
                        old(self)@.throw_motion(
                            actor as int,
                            forward,
                            axis,
                            linear_roll,
                            angular_roll,
                        ),
                    ),
                )
                &&& r is Ok <==> old(self)@.props[old(self)@.target(
                    actor as int,
                )].non_pickup_mass is Some
                &&& r is Err ==> r == Err::<(), PickupError>(PickupError::MissingNonPickupMass)
            },
    {
        if actor >= self.actors.len() {
            return Err(PickupError::NotAnActor);
        }
        let s = self.actors[actor];
        let p = match s.state {
            AvianPickupActorState::Holding(p) => p,
            _ => return Err(PickupError::NotHolding),
        };
        proof {
            assert(self@.actor_wf(actor as int));
        }
        let o = self.props[p].overrides;
        let linear = Velocity {
            direction: forward,
            speed: throw_linear_speed(&s.config, &o, linear_roll),
        };
        let angular = Velocity {
            direction: axis,
            speed: throw_angular_speed(&s.config, &o, angular_roll),
        };
        self.release(actor, Some((linear, angular)))
    }

    /// One step of holding for `actor`, whose aim is at `pitch`: where its
    /// prop should go. A prop that is no longer dynamic is let go, with its
    /// cached mass given back, and the result is `None`.
    pub fn hold(&mut self, actor: usize, pitch: i32) -> (r: Result<Option<HoldTarget>, PickupError>)
        requires
            old(self)@.wf(),
        ensures
            final(self)@.wf(),
            actor >= old(self)@.actors.len() ==> r == Err::<Option<HoldTarget>, PickupError>(
                PickupError::NotAnActor,
            ) && final(self)@ == old(self)@,
            actor < old(self)@.actors.len() && !(old(self)@.actors[actor as int].state is Holding)
                ==> r == Err::<Option<HoldTarget>, PickupError>(PickupError::NotHolding) && final(self)@ == old(self)@,
            actor < old(self)@.actors.len() && old(self)@.actors[actor as int].state is Holding ==> (
            if old(self)@.props[old(self)@.target(actor as int)].rigid_body == RigidBody::Dynamic {
                r == Ok::<Option<HoldTarget>, PickupError>(
                    Some(old(self)@.hold_target(actor as int, pitch)),
                ) && final(self)@ == old(self)@
            } else {
                r == Ok::<Option<HoldTarget>, PickupError>(None) && final(self)@ == old(self)@.release(actor as int, None)
            }),
    {
        if actor >= self.actors.len() {
            return Err(PickupError::NotAnActor);
        }
        let s = self.actors[actor];
        let p = match s.state {
            AvianPickupActorState::Holding(p) => p,
            _ => return Err(PickupError::NotHolding),
        };
        proof {
            assert(self@.actor_wf(actor as int));
            assert(self@.prop_wf(p as int));
        }
        let b = self.props[p];
        if !(b.rigid_body == RigidBody::Dynamic) {
            let _ = self.release(actor, None);
            return Ok(None);
        }
        let range = preferred_pitch_range(&s.config, &b.overrides);
        Ok(
            Some(
                HoldTarget {
                    prop: p,
                    distance: preferred_hold_distance(&s.config, &b.overrides),
                    pitch: clamp_pitch(pitch, range),
                    rotation: b.overrides.rotation,
                },
            ),
        )
    }

    /// Counts every actor's cooldown down by one step, stopping at zero.
    pub fn tick_cooldowns(&mut self)
        requires
            old(self)@.wf(),
        ensures
            final(self)@ == old(self)@.ticked(),
            final(self)@.wf(),
    {
        let ghost m0 = self@;
        let mut i: usize = 0;
        while i < self.actors.len()
            invariant
                0 <= i <= self.actors@.len(),
                self.actors@.len() == m0.actors.len(),
                self.props@ == m0.props,
                forall|j: int|
                    0 <= j < i ==> #[trigger] self.actors@[j] == m0.ticked().actors[j],
                forall|j: int| i <= j < self.actors@.len() ==> #[trigger] self.actors@[j] == m0.actors[j],
            decreases self.actors@.len() - i,
        {
            let s = self.actors[i];
            let remaining: u32 = if s.cooldown.remaining > 0 {
                s.cooldown.remaining - 1
            } else {
                0
            };
            self.actors.set(i, ActorSlot { cooldown: Cooldown { remaining }, ..s });
            i = i + 1;
        }
        proof {
            let m = self@;
            assert(m.actors =~= m0.ticked().actors);
            assert forall|a: int| 0 <= a < m.actors.len() implies #[trigger] m.actor_wf(a) by {
                assert(m0.actor_wf(a));
            }
            assert forall|q: int| 0 <= q < m.props.len() implies #[trigger] m.prop_wf(q) by {
                assert(m0.prop_wf(q));
                if let Some(a) = m0.props[q].claimed_by {
                    assert(m.actors[a as int].state == m0.actors[a as int].state);
                }
            }
        }
    }

    /// The host reports that prop `prop` now moves as `rigid_body`, for
    /// instance when it stops being dynamic or leaves the simulation.
    pub fn set_rigid_body(&mut self, prop: usize, rigid_body: RigidBody) -> (r: Result<
        (),
        PickupError,
    >)
        requires
            old(self)@.wf(),
        ensures
            final(self)@.wf(),
            final(self)@.actors == old(self)@.actors,
            prop >= old(self)@.props.len() ==> r == Err::<(), PickupError>(PickupError::NotAProp)
                && final(self)@.props == old(self)@.props,
            prop < old(self)@.props.len() ==> r is Ok && final(self)@.props == old(self)@.props.update(
                prop as int,
                PropBody { rigid_body, ..old(self)@.props[prop as int] },
            ),
    {
        if prop >= self.props.len() {
            return Err(PickupError::NotAProp);
        }
        let ghost m0 = self@;
        let b = self.props[prop];
        self.props.set(prop, PropBody { rigid_body, ..b });
        proof {
            let m = self@;
            assert forall|a: int| 0 <= a < m.actors.len() implies #[trigger] m.actor_wf(a) by {
                assert(m0.actor_wf(a));
            }
            assert forall|q: int| 0 <= q < m.props.len() implies #[trigger] m.prop_wf(q) by {
                assert(m0.prop_wf(q));
            }
        }
        Ok(())
    }

    /// The action that `event` asks of `actor`.
    pub fn verb_for(&self, actor: usize, event: AvianPickupEvent) -> (r: Result<Verb, PickupError>)
        ensures
            actor >= self@.actors.len() ==> r == Err::<Verb, PickupError>(PickupError::NotAnActor),
            actor < self@.actors.len() ==> r == Ok::<Verb, PickupError>(
                verb_of(
                    self@.actors[actor as int].state,
                    self@.actors[actor as int].cooldown.is_ready(),
                    event,
                ),
            ),
    {
        if actor >= self.actors.len() {
            return Err(PickupError::NotAnActor);
        }
        let s = self.actors[actor];
        Ok(usher_event(s.state, s.cooldown.ready(), event))
    }
}

} // verus!