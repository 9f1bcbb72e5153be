//! Properties that hold across several transitions.
use crate::event::AvianPickupActorState;
use crate::geometry::Direction;
use crate::prop::{hold_distance, pickup_mass, HeldProp, NonPickupMass};
use crate::event::{verb_of, AvianPickupEvent, Verb};
use crate::prop::{thrown_angular_speed, thrown_linear_speed};
use crate::pull_object::{pullable, PullCandidate, PullOrigin, RigidBody};
use crate::world::{at_rest, target_of, PickupModel};
use vstd::prelude::*;

verus! {

/// Every actor of a world is in exactly one of the three states.
pub proof fn lemma_one_state_per_actor(m: PickupModel, a: int)
    requires
        0 <= a < m.actors.len(),
    ensures
        ({
            let s = m.actors[a].state;
            (if s is Idle {
                1int
            } else {
                0
            }) + (if s is Pulling {
                1int
            } else {
                0
            }) + (if s is Holding {
                1int
            } else {
                0
            }) == 1
        }),
{
}

/// In a well-formed world a prop carries the held marker exactly when some
/// actor is holding it.
pub proof fn lemma_held_iff_holding(m: PickupModel, p: usize)
    requires
        m.wf(),
        p < m.props.len(),
    ensures
        m.props[p as int].held is Some <==> exists|a: int|
            0 <= a < m.actors.len() && #[trigger] m.actors[a].state
                == AvianPickupActorState::Holding(p),
{
    assert(m.prop_wf(p as int));
    if m.props[p as int].held is Some {
        let a = m.props[p as int].claimed_by.unwrap() as int;
        assert(m.actor_wf(a));
        assert(m.actors[a].state == AvianPickupActorState::Holding(p));
    }
    if exists|a: int|
        0 <= a < m.actors.len() && #[trigger] m.actors[a].state == AvianPickupActorState::Holding(p) {
        let a = choose|a: int|
            0 <= a < m.actors.len() && #[trigger] m.actors[a].state
                == AvianPickupActorState::Holding(p);
        assert(m.actor_wf(a));
    }
}

/// Taking a pulled prop into the hand and then dropping it gives the prop
/// back exactly the mass that it had before, leaves it at rest, unmarked and
/// unclaimed, and the actor idle; while held, the prop had the holding mass
/// and its original mass was cached.
pub proof fn lemma_acquire_then_drop_restores_mass(m: PickupModel, a: int, distance: u32)
    requires
        m.wf(),
        0 <= a < m.actors.len(),
        m.actors[a].state is Pulling,
        m.props[m.target(a)].rigid_body == RigidBody::Dynamic,
        distance <= hold_distance(m.actors[a].config, m.props[m.target(a)].overrides),
    ensures
        ({
            let p = m.target(a);
            let held = m.draw_in(a, distance);
            let after = held.release(a, Some((at_rest(), at_rest())));
            &&& held.wf()
            &&& held.actors[a].state == AvianPickupActorState::Holding(p as usize)
            &&& held.props[p].mass == pickup_mass(m.actors[a].config, m.props[p].overrides)
            &&& held.props[p].non_pickup_mass == Some(NonPickupMass(m.props[p].mass))
            &&& held.props[p].held == Some(HeldProp)
            &&& after.props[p].mass == m.props[p].mass
            &&& after.props[p].linear_velocity == at_rest()
            &&& after.props[p].angular_velocity == at_rest()
            &&& after.props[p].held is None
            &&& after.props[p].claimed_by is None
            &&& after.props[p].non_pickup_mass is None
            &&& after.actors[a].state == AvianPickupActorState::Idle
        }),
{
    let p = m.target(a);
    assert(m.actor_wf(a));
    let held = m.draw_in(a, distance);
    assert(held.target(a) == p);
    assert forall|x: int| 0 <= x < held.actors.len() implies #[trigger] held.actor_wf(x) by {
        assert(m.actor_wf(x));
    }
    assert forall|q: int| 0 <= q < held.props.len() implies #[trigger] held.prop_wf(q) by {
        assert(m.prop_wf(q));
    }
}

/// Taking a pulled prop into the hand and then throwing it gives the prop
/// back exactly the mass that it had before; a prop without a speed override
/// leaves at a speed within the actor's range, along the actor's aim.
pub proof fn lemma_acquire_then_throw_restores_mass(
    m: PickupModel,
    a: int,
    distance: u32,
    forward: Direction,
    axis: Direction,
    linear_roll: u32,
    angular_roll: u32,
)
    requires
        m.wf(),
        0 <= a < m.actors.len(),
        m.actors[a].state is Pulling,
        m.props[m.target(a)].rigid_body == RigidBody::Dynamic,
        distance <= hold_distance(m.actors[a].config, m.props[m.target(a)].overrides),
    ensures
        ({
            let p = m.target(a);
            let c = m.actors[a].config;
            let held = m.draw_in(a, distance);
            let after = held.release(
                a,
                Some(held.throw_motion(a, forward, axis, linear_roll, angular_roll)),
            );
            &&& after.props[p].mass == m.props[p].mass
            &&& after.props[p].linear_velocity.direction == forward
            &&& m.props[p].overrides.linear_speed is None ==> c.throw.linear_speed_range.min
                <= after.props[p].linear_velocity.speed <= c.throw.linear_speed_range.max
            &&& m.props[p].overrides.angular_speed is None ==> c.throw.angular_speed_range.min
                <= after.props[p].angular_velocity.speed <= c.throw.angular_speed_range.max
            &&& after.props[p].held is None
            &&& after.actors[a].state == AvianPickupActorState::Idle
        }),
{
    let p = m.target(a);
    let c = m.actors[a].config;
    assert(m.actor_wf(a));
    let held = m.draw_in(a, distance);
    assert(held.target(a) == p);
    let lin = c.throw.linear_speed_range;
    let ang = c.throw.angular_speed_range;
    assert(0 <= (linear_roll as int) % (lin.max - lin.min + 1) < lin.max - lin.min + 1);
    assert(0 <= (angular_roll as int) % (ang.max - ang.min + 1) < ang.max - ang.min + 1);
}

/// When two actors try in turn to start pulling the same free prop, the
/// first one gets it and the second is refused: the prop ends up claimed by
/// exactly one of them.
pub proof fn lemma_contended_pull_has_one_winner(m: PickupModel, a: int, b: int, p: usize)
    requires
        m.wf(),
        0 <= a < m.actors.len(),
        0 <= b < m.actors.len(),
        a != b,
        m.can_start_pull(a, Some(p)),
    ensures
        ({
            let first = m.start_pull(a, Some(p));
            let second = first.start_pull(b, Some(p));
            &&& !first.can_start_pull(b, Some(p))
            &&& second == first
            &&& second.actors[a].state == AvianPickupActorState::Pulling(p)
            &&& target_of(second.actors[b].state) != Some(p)
            &&& second.props[p as int].claimed_by == Some(a as usize)
            &&& forall|origin: PullOrigin, c: PullCandidate|
                c.body == p ==> !#[trigger] pullable(first, origin, c)
        }),
{
    assert(m.actor_wf(b));
}

/// An idle, ready actor that presses the secondary button with a free
/// dynamic prop as its target starts pulling it and claims it; holding the
/// button draws it in, and once the host reports it within the hold
/// distance the actor holds it: the prop is marked held, has the holding
/// mass, and its original mass is cached.
pub proof fn lemma_pull_then_acquire(m: PickupModel, a: int, p: usize, distance: u32)
    requires
        m.wf(),
        m.actors.len() <= usize::MAX,
        0 <= a < m.actors.len(),
        m.actors[a].state == AvianPickupActorState::Idle,
        m.actors[a].cooldown.is_ready(),
        p < m.props.len(),
        m.props[p as int].rigid_body == RigidBody::Dynamic,
        m.props[p as int].claimed_by is None,
        distance <= hold_distance(m.actors[a].config, m.props[p as int].overrides),
    ensures
        ({
            let pulling = m.start_pull(a, Some(p));
            let held = pulling.draw_in(a, distance);
            let c = m.actors[a].config;
            &&& verb_of(m.actors[a].state, true, AvianPickupEvent::JustPressedR) == Verb::Pull
            &&& verb_of(m.actors[a].state, true, AvianPickupEvent::PressedR) == Verb::Pull
            &&& m.can_start_pull(a, Some(p))
            &&& pulling.wf()
            &&& pulling.actors[a].state == AvianPickupActorState::Pulling(p)
            &&& pulling.props[p as int].claimed_by == Some(a as usize)
            &&& verb_of(
                pulling.actors[a].state,
                pulling.actors[a].cooldown.is_ready(),
                AvianPickupEvent::PressedR,
            ) == Verb::DrawIn
            &&& held.wf()
            &&& held.actors[a].state == AvianPickupActorState::Holding(p)
            &&& held.props[p as int].held == Some(HeldProp)
            &&& held.props[p as int].mass == pickup_mass(c, m.props[p as int].overrides)
            &&& held.props[p as int].non_pickup_mass == Some(NonPickupMass(m.props[p as int].mass))
        }),
{
    let pulling = m.start_pull(a, Some(p));
    assert(m.prop_wf(p as int));
    assert forall|x: int| 0 <= x < pulling.actors.len() implies #[trigger] pulling.actor_wf(x) by {
        assert(m.actor_wf(x));
    }
    assert forall|q: int| 0 <= q < pulling.props.len() implies #[trigger] pulling.prop_wf(q) by {
        assert(m.prop_wf(q));
    }
    assert(pulling.target(a) == p);
    lemma_acquire_then_drop_restores_mass(pulling, a, distance);
}

/// A ready actor holding a prop that pressed the primary button throws it:
/// the actor goes idle, the prop is unmarked and gets its cached mass back,
/// and leaves along the actor's aim at the prop's own speeds where it
/// overrides them, else at speeds within the actor's ranges.
pub proof fn lemma_throw_from_holding(
    m: PickupModel,
    a: int,
    forward: Direction,
    axis: Direction,
    linear_roll: u32,
    angular_roll: u32,
)
    requires
        m.wf(),
        0 <= a < m.actors.len(),
        m.actors[a].state is Holding,
        m.actors[a].cooldown.is_ready(),
        m.props[m.target(a)].non_pickup_mass is Some,
    ensures
        ({
            let p = m.target(a);
            let c = m.actors[a].config;
            let o = m.props[p].overrides;
            let after = m.release(
                a,
                Some(m.throw_motion(a, forward, axis, linear_roll, angular_roll)),
            );
            let lin = after.props[p].linear_velocity;
            let ang = after.props[p].angular_velocity;
            &&& verb_of(m.actors[a].state, true, AvianPickupEvent::JustPressedL) == Verb::Throw
            &&& after.actors[a].state == AvianPickupActorState::Idle
            &&& after.props[p].held is None
            &&& after.props[p].claimed_by is None
            &&& after.props[p].mass == m.props[p].non_pickup_mass.unwrap().0
            &&& lin.direction == forward
            &&& ang.direction == axis
            &&& lin.speed == thrown_linear_speed(c, o, linear_roll)
            &&& ang.speed == thrown_angular_speed(c, o, angular_roll)
            &&& o.linear_speed matches Some(s) ==> lin.speed == s.0
            &&& o.linear_speed is None ==> c.throw.linear_speed_range.min <= lin.speed
                <= c.throw.linear_speed_range.max
            &&& o.angular_speed matches Some(s) ==> ang.speed == s.0
            &&& o.angular_speed is None ==> c.throw.angular_speed_range.min <= ang.speed
                <= c.throw.angular_speed_range.max
        }),
{
    let c = m.actors[a].config;
    assert(m.actor_wf(a));
    let lin = c.throw.linear_speed_range;
    let ang = c.throw.angular_speed_range;
    assert(0 <= (linear_roll as int) % (lin.max - lin.min + 1) < lin.max - lin.min + 1);
    assert(0 <= (angular_roll as int) % (ang.max - ang.min + 1) < ang.max - ang.min + 1);
}

} // verus!
