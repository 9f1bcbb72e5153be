use avian_pickup::config::{AvianPickupActor, PitchRange, SpeedRange};
use avian_pickup::event::{usher_event, AvianPickupActorState, AvianPickupEvent, Verb};
use avian_pickup::geometry::{Direction, Vector};
use avian_pickup::prop::{
    clamp_pitch, draw_speed, HelpPropPitchRangeOverride, HeldProp, NonPickupMass, PickupMassOverride,
    PreferredPickupDistanceOverride, PreferredPickupRotation, PropOverrides, Rotation, ThrownAngularSpeedOverride,
    ThrownLinearSpeedOverride, ROTATION_SCALE,
};
use avian_pickup::pull_object::{
    choose_pull_target, pull_object, pull_object_piped, PullCandidate, PullOrigin, RigidBody,
};
use avian_pickup::world::{HoldTarget, PickupError, PickupWorld};
use AvianPickupActorState::{Holding, Idle, Pulling};
use AvianPickupEvent::{JustPressedL, JustPressedR, PressedR};

const FORWARD: Direction = Direction { x: 0, y: 0, z: -16384 };
const UP: Direction = Direction { x: 0, y: 16384, z: 0 };
const BOX_MASS: u32 = 25_000;

fn world_with_box() -> (PickupWorld, usize, usize) {
    let mut w = PickupWorld::new();
    let actor = w.add_actor(AvianPickupActor::default());
    let prop = w.add_prop(RigidBody::Dynamic, BOX_MASS, PropOverrides::none());
    (w, actor, prop)
}

fn holding_box() -> (PickupWorld, usize, usize) {
    let (mut w, actor, prop) = world_with_box();
    assert_eq!(pull_object(&mut w, actor, Some(prop)), Ok(true));
    assert_eq!(w.draw_in(actor, 1000), Ok(AvianPickupActorState::Holding(prop)));
    for _ in 0..AvianPickupActor::default().cooldown_steps {
        w.tick_cooldowns();
    }
    (w, actor, prop)
}

#[test]
fn idle_actor_pulls_then_holds_a_box() {
    let (mut w, actor, prop) = world_with_box();
    // The box is 2 m ahead, inside the cone and in plain view.
    let origin = PullOrigin { position: Vector { x: 0, y: 0, z: 0 }, forward: FORWARD, cone: 9700, trace_length: 6000 };
    let cands = vec![PullCandidate {
        body: prop,
        rigid_body: RigidBody::Dynamic,
        position: Vector { x: 0, y: 0, z: -2000 },
        first_hit: Some(prop),
    }];
    assert_eq!(w.verb_for(actor, AvianPickupEvent::JustPressedR), Ok(Verb::Pull));
    let found = pull_object_piped(&w, origin, &cands);
    assert_eq!(found, Some(prop));
    assert_eq!(pull_object(&mut w, actor, found), Ok(true));
    assert_eq!(w.actors[actor].state, AvianPickupActorState::Pulling(prop));
    assert_eq!(w.props[prop].claimed_by, Some(actor));
    assert_eq!(w.props[prop].held, None);
    assert_eq!(w.verb_for(actor, AvianPickupEvent::PressedR), Ok(Verb::DrawIn));
    // Still 2 m away: beyond the hold distance.
    assert_eq!(w.draw_in(actor, 2000), Ok(AvianPickupActorState::Pulling(prop)));
    assert_eq!(w.props[prop].mass, BOX_MASS);
    // Drawn in to 1.4 m: taken into the hand.
    assert_eq!(w.draw_in(actor, 1400), Ok(AvianPickupActorState::Holding(prop)));
    assert_eq!(w.props[prop].held, Some(HeldProp));
    assert_eq!(w.props[prop].mass, AvianPickupActor::default().hold.temporary_prop_mass);
    assert_eq!(w.props[prop].non_pickup_mass, Some(NonPickupMass(BOX_MASS)));
}

#[test]
fn primary_throws_the_held_box() {
    let (mut w, actor, prop) = holding_box();
    assert_eq!(w.verb_for(actor, AvianPickupEvent::JustPressedL), Ok(Verb::Throw));
    assert_eq!(w.throw(actor, FORWARD, UP, 1234, 77), Ok(()));
    let range = AvianPickupActor::default().throw.linear_speed_range;
    let b = w.props[prop];
    assert!(range.min <= b.linear_velocity.speed && b.linear_velocity.speed <= range.max);
    assert_eq!(b.linear_velocity.speed, 1234);
    assert_eq!(b.linear_velocity.direction, FORWARD);
    assert_eq!(b.angular_velocity.speed, 77);
    assert_eq!(b.angular_velocity.direction, UP);
    assert_eq!(b.mass, BOX_MASS);
    assert_eq!(b.held, None);
    assert_eq!(b.claimed_by, None);
    assert_eq!(b.non_pickup_mass, None);
    assert_eq!(w.actors[actor].state, AvianPickupActorState::Idle);
    assert_eq!(w.actors[actor].cooldown.remaining, AvianPickupActor::default().cooldown_steps);
}

#[test]
fn thrown_speed_wraps_into_range_and_overrides_win() {
    let (mut w, actor, prop) = holding_box();
    // Range 0..=5000 has 5001 values: 5001 + 12 lands on 12.
    assert_eq!(w.throw(actor, FORWARD, UP, 5013, 1001), Ok(()));
    assert_eq!(w.props[prop].linear_velocity.speed, 12);
    assert_eq!(w.props[prop].angular_velocity.speed, 0);

    let mut w = PickupWorld::new();
    let actor = w.add_actor(AvianPickupActor::default());
    let mut o = PropOverrides::none();
    o.linear_speed = Some(ThrownLinearSpeedOverride(9000));
    o.angular_speed = Some(ThrownAngularSpeedOverride(3));
    let prop = w.add_prop(RigidBody::Dynamic, 10, o);
    assert_eq!(pull_object(&mut w, actor, Some(prop)), Ok(true));
    assert_eq!(w.draw_in(actor, 0), Ok(AvianPickupActorState::Holding(prop)));
    assert_eq!(w.throw(actor, FORWARD, UP, 1, 1), Ok(()));
    assert_eq!(w.props[prop].linear_velocity.speed, 9000);
    assert_eq!(w.props[prop].angular_velocity.speed, 3);
}

#[test]
fn secondary_drops_the_held_box() {
    let (mut w, actor, prop) = holding_box();
    w.props[prop].linear_velocity.speed = 300;
    w.props[prop].angular_velocity.speed = 40;
    assert_eq!(w.verb_for(actor, AvianPickupEvent::JustPressedR), Ok(Verb::Drop));
    assert_eq!(w.drop(actor), Ok(()));
    let b = w.props[prop];
    assert_eq!(b.linear_velocity.speed, 0);
    assert_eq!(b.angular_velocity.speed, 0);
    assert_eq!(b.linear_velocity.direction, Direction { x: 0, y: 0, z: 0 });
    assert_eq!(b.mass, BOX_MASS);
    assert_eq!(b.held, None);
    assert_eq!(b.non_pickup_mass, None);
    assert_eq!(w.actors[actor].state, AvianPickupActorState::Idle);
}

#[test]
fn drop_without_cached_mass_still_goes_idle() {
    let (mut w, actor, prop) = holding_box();
    w.props[prop].non_pickup_mass = None;
    w.props[prop].linear_velocity.speed = 300;
    assert_eq!(w.drop(actor), Err(PickupError::MissingNonPickupMass));
    assert_eq!(w.actors[actor].state, AvianPickupActorState::Idle);
    assert_eq!(w.props[prop].held, None);
    assert_eq!(w.props[prop].claimed_by, None);
    assert_eq!(w.props[prop].mass, AvianPickupActor::default().hold.temporary_prop_mass);
    assert_eq!(w.props[prop].linear_velocity.speed, 300);
}

#[test]
fn two_actors_pulling_one_prop_have_one_winner() {
    let (mut w, first, prop) = world_with_box();
    let second = w.add_actor(AvianPickupActor::default());
    assert_eq!(pull_object(&mut w, first, Some(prop)), Ok(true));
    assert_eq!(pull_object(&mut w, second, Some(prop)), Ok(false));
    assert_eq!(w.actors[first].state, AvianPickupActorState::Pulling(prop));
    assert_eq!(w.actors[second].state, AvianPickupActorState::Idle);
    assert_eq!(w.props[prop].claimed_by, Some(first));
}

#[test]
fn selector_skips_a_prop_that_another_actor_claimed() {
    let (mut w, first, near) = world_with_box();
    let second = w.add_actor(AvianPickupActor::default());
    let far = w.add_prop(RigidBody::Dynamic, BOX_MASS, PropOverrides::none());
    let origin = PullOrigin { position: Vector { x: 0, y: 0, z: 0 }, forward: FORWARD, cone: 9700, trace_length: 6000 };
    let cand = |body: usize, z: i32| PullCandidate {
        body,
        rigid_body: RigidBody::Dynamic,
        position: Vector { x: 0, y: 0, z },
        first_hit: Some(body),
    };
    let cands = vec![cand(near, -2000), cand(far, -4000)];
    assert_eq!(pull_object_piped(&w, origin, &cands), Some(near));
    assert_eq!(pull_object(&mut w, first, Some(near)), Ok(true));
    // The nearer prop is claimed now: the second actor's pull takes the other.
    let found = pull_object_piped(&w, origin, &cands);
    assert_eq!(found, Some(far));
    assert_eq!(pull_object(&mut w, second, found), Ok(true));
    assert_eq!(w.actors[second].state, AvianPickupActorState::Pulling(far));
    assert_eq!(pull_object_piped(&w, origin, &vec![cand(near, -2000)]), None);
    // An id that names no prop is never chosen.
    assert_eq!(pull_object_piped(&w, origin, &vec![cand(42, -1000)]), None);
}

#[test]
fn aimed_prop_is_preferred_when_free() {
    let (mut w, actor, aimed) = world_with_box();
    let nearby = w.add_prop(RigidBody::Dynamic, 1, PropOverrides::none());
    let wall = w.add_prop(RigidBody::Static, 1, PropOverrides::none());
    assert_eq!(choose_pull_target(&w, Some(aimed), Some(nearby)), Some(aimed));
    assert_eq!(choose_pull_target(&w, None, Some(nearby)), Some(nearby));
    assert_eq!(choose_pull_target(&w, Some(wall), Some(nearby)), Some(nearby));
    assert_eq!(choose_pull_target(&w, Some(99), None), None);
    assert_eq!(pull_object(&mut w, actor, Some(aimed)), Ok(true));
    assert_eq!(choose_pull_target(&w, Some(aimed), Some(nearby)), Some(nearby));
}

#[test]
fn cooldown_blocks_primary_while_idle() {
    let (mut w, actor, prop) = holding_box();
    assert_eq!(w.drop(actor), Ok(()));
    assert!(w.actors[actor].cooldown.remaining > 0);
    assert_eq!(w.verb_for(actor, AvianPickupEvent::JustPressedL), Ok(Verb::Ignore));
    assert_eq!(w.verb_for(actor, AvianPickupEvent::PressedR), Ok(Verb::Ignore));
    let before = w.actors[actor];
    assert_eq!(pull_object(&mut w, actor, Some(prop)), Ok(false));
    assert_eq!(w.actors[actor], before);
    assert_eq!(w.throw(actor, FORWARD, UP, 0, 0), Err(PickupError::NotHolding));
    assert_eq!(w.actors[actor], before);
}

#[test]
fn cooldown_counts_down_to_zero() {
    let (mut w, actor, prop) = world_with_box();
    assert_eq!(pull_object(&mut w, actor, Some(prop)), Ok(true));
    assert_eq!(w.actors[actor].cooldown.remaining, 32);
    w.tick_cooldowns();
    assert_eq!(w.actors[actor].cooldown.remaining, 31);
    for _ in 0..40 {
        w.tick_cooldowns();
    }
    assert_eq!(w.actors[actor].cooldown.remaining, 0);
    assert!(w.actors[actor].cooldown.ready());
}

#[test]
fn event_routing_table() {
    assert_eq!(usher_event(Idle, true, JustPressedL), Verb::Ignore);
    assert_eq!(usher_event(Idle, true, JustPressedR), Verb::Pull);
    assert_eq!(usher_event(Idle, true, PressedR), Verb::Pull);
    assert_eq!(usher_event(Idle, false, PressedR), Verb::Ignore);
    assert_eq!(usher_event(Pulling(0), false, PressedR), Verb::DrawIn);
    assert_eq!(usher_event(Pulling(0), true, JustPressedL), Verb::Ignore);
    assert_eq!(usher_event(Holding(0), true, JustPressedL), Verb::Throw);
    assert_eq!(usher_event(Holding(0), true, JustPressedR), Verb::Drop);
    assert_eq!(usher_event(Holding(0), true, PressedR), Verb::Ignore);
    assert_eq!(usher_event(Holding(0), false, JustPressedL), Verb::Ignore);
}

#[test]
fn requests_for_unknown_ids_are_refused() {
    let (mut w, actor, prop) = world_with_box();
    assert_eq!(w.verb_for(5, AvianPickupEvent::PressedR), Err(PickupError::NotAnActor));
    assert_eq!(pull_object(&mut w, 5, Some(prop)), Err(PickupError::NotAnActor));
    assert_eq!(w.drop(5), Err(PickupError::NotAnActor));
    assert_eq!(w.throw(5, FORWARD, UP, 0, 0), Err(PickupError::NotAnActor));
    assert_eq!(w.draw_in(5, 0), Err(PickupError::NotAnActor));
    assert_eq!(w.hold(5, 0), Err(PickupError::NotAnActor));
    assert_eq!(w.set_rigid_body(9, RigidBody::Static), Err(PickupError::NotAProp));
    assert_eq!(w.drop(actor), Err(PickupError::NotHolding));
    assert_eq!(w.hold(actor, 0), Err(PickupError::NotHolding));
    assert_eq!(w.draw_in(actor, 0), Err(PickupError::NotPulling));
    assert_eq!(pull_object(&mut w, actor, Some(9)), Ok(false));
    assert_eq!(pull_object(&mut w, actor, None), Ok(false));
}

#[test]
fn static_bodies_cannot_be_pulled() {
    let mut w = PickupWorld::new();
    let actor = w.add_actor(AvianPickupActor::default());
    let wall = w.add_prop(RigidBody::Static, 1, PropOverrides::none());
    assert_eq!(pull_object(&mut w, actor, Some(wall)), Ok(false));
    assert_eq!(w.props[wall].claimed_by, None);
}

#[test]
fn pulled_target_that_stops_being_dynamic_is_let_go() {
    let (mut w, actor, prop) = world_with_box();
    assert_eq!(pull_object(&mut w, actor, Some(prop)), Ok(true));
    assert_eq!(w.set_rigid_body(prop, RigidBody::Static), Ok(()));
    assert_eq!(w.draw_in(actor, 0), Ok(AvianPickupActorState::Idle));
    assert_eq!(w.props[prop].claimed_by, None);
}

#[test]
fn held_prop_that_stops_being_dynamic_is_let_go() {
    let (mut w, actor, prop) = holding_box();
    assert_eq!(w.set_rigid_body(prop, RigidBody::Kinematic), Ok(()));
    assert_eq!(w.hold(actor, 0), Ok(None));
    assert_eq!(w.actors[actor].state, AvianPickupActorState::Idle);
    assert_eq!(w.props[prop].held, None);
    assert_eq!(w.props[prop].mass, BOX_MASS);
}

#[test]
fn hold_target_uses_overrides_then_defaults() {
    let (mut w, actor, prop) = holding_box();
    assert_eq!(
        w.hold(actor, -80_000),
        Ok(Some(HoldTarget { prop, distance: 1500, pitch: -75_000, rotation: None }))
    );
    assert_eq!(
        w.hold(actor, 10_000),
        Ok(Some(HoldTarget { prop, distance: 1500, pitch: 10_000, rotation: None }))
    );

    let mut w = PickupWorld::new();
    let actor = w.add_actor(AvianPickupActor::default());
    let mut o = PropOverrides::none();
    o.distance = Some(PreferredPickupDistanceOverride(900));
    o.pitch_range = Some(HelpPropPitchRangeOverride(PitchRange { min: -10_000, max: 20_000 }));
    o.mass = Some(PickupMassOverride(5));
    o.rotation = Some(PreferredPickupRotation::default());
    let prop = w.add_prop(RigidBody::Dynamic, 70_000, o);
    assert_eq!(pull_object(&mut w, actor, Some(prop)), Ok(true));
    assert_eq!(w.draw_in(actor, 1000), Ok(AvianPickupActorState::Pulling(prop)));
    assert_eq!(w.draw_in(actor, 900), Ok(AvianPickupActorState::Holding(prop)));
    assert_eq!(w.props[prop].mass, 5);
    assert_eq!(
        w.hold(actor, 50_000),
        Ok(Some(HoldTarget {
            prop,
            distance: 900,
            pitch: 20_000,
            rotation: Some(PreferredPickupRotation(Rotation { x: 0, y: 0, z: 0, w: ROTATION_SCALE })),
        }))
    );
}

#[test]
fn override_defaults_follow_actor_defaults() {
    let d = AvianPickupActor::default();
    assert_eq!(PreferredPickupDistanceOverride::default().0, d.hold.preferred_distance);
    assert_eq!(PickupMassOverride::default().0, d.hold.temporary_prop_mass);
    assert_eq!(HelpPropPitchRangeOverride::default().0, d.hold.pitch_range);
    assert_eq!(ThrownLinearSpeedOverride::default().0, d.throw.linear_speed_range.max);
    assert_eq!(ThrownAngularSpeedOverride::default().0, d.throw.angular_speed_range.max);
    assert_eq!(d.throw.linear_speed_range, SpeedRange { min: 0, max: 5000 });
}

#[test]
fn speeds_and_pitches_stay_in_range() {
    assert_eq!(draw_speed(10, 20, 0), 10);
    assert_eq!(draw_speed(10, 20, 11), 10);
    assert_eq!(draw_speed(10, 20, 25), 13);
    assert_eq!(draw_speed(0, u32::MAX, u32::MAX), u32::MAX);
    assert_eq!(draw_speed(7, 7, 12345), 7);
    let r = PitchRange { min: -5, max: 5 };
    assert_eq!(clamp_pitch(-9, r), -5);
    assert_eq!(clamp_pitch(9, r), 5);
    assert_eq!(clamp_pitch(3, r), 3);
}
