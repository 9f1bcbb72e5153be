//! Choosing what a pull gesture grabs: the nearest dynamic body inside the
//! actor's cone that a ray from the actor reaches unobstructed.
use crate::event::AvianPickupActorState;
use crate::geometry::{distance_squared, dist_sq, in_cone, is_in_cone, Direction, Vector};
use crate::world::{ActorSlot, Cooldown, PickupError, PickupModel, PickupWorld, PropBody};
use vstd::prelude::*;

verus! {

/// How the simulation moves a rigid body. Only dynamic bodies can be pulled.
#[derive(Clone, Copy, Debug, PartialEq, Eq, Structural)]
pub enum RigidBody {
    Dynamic,
    Static,
    Kinematic,
}

/// A body found in the actor's scan volume.
#[derive(Clone, Copy, Debug, PartialEq, Eq, Structural)]
pub struct PullCandidate {
    /// The rigid body that owns the overlapping collider.
    pub body: usize,
    pub rigid_body: RigidBody,
    /// The body's position, in millimetres.
    pub position: Vector,
    /// The body that a ray from the actor toward `position`, as long as the
    /// distance to it, hits first; `None` when it hits nothing.
    pub first_hit: Option<usize>,
}

/// Where the actor stands and how it scans.
#[derive(Clone, Copy, Debug, PartialEq, Eq, Structural)]
pub struct PullOrigin {
    pub position: Vector,
    pub forward: Direction,
    /// The cone threshold, in units of `1 / CONE_SCALE`.
    pub cone: i16,
    /// The reach of a pull, in millimetres.
    pub trace_length: u32,
}

/// One metre, in the library's unit of length.
pub const METRE: u32 = 1000;

/// Candidates at this distance or beyond are ignored: the trace length plus
/// one metre, squared.
pub open spec fn scan_limit_sq(origin: PullOrigin) -> int {
    (origin.trace_length + METRE) * (origin.trace_length + METRE)
}

/// A candidate that a pull may take: a prop of `m` that no actor pulls or
/// holds, dynamic, within the scan limit, inside the cone, and the first
/// thing that the line of sight to it hits.
pub open spec fn pullable(m: PickupModel, origin: PullOrigin, c: PullCandidate) -> bool {
    &&& c.body < m.props.len()
    &&& m.props[c.body as int].claimed_by is None
    &&& c.rigid_body == RigidBody::Dynamic
    &&& dist_sq(origin.position, c.position) < scan_limit_sq(origin)
    &&& in_cone(origin.position, c.position, origin.forward, origin.cone)
    &&& c.first_hit == Some(c.body)
}

/// The scan, candidate by candidate: the best body so far and the squared
/// distance that a later candidate must beat. Among equally near candidates
/// the earliest stays.
pub open spec fn scan(m: PickupModel, origin: PullOrigin, cands: Seq<PullCandidate>) -> (
    Option<usize>,
    int,
)
    decreases cands.len(),
{
    if cands.len() == 0 {
        (None, scan_limit_sq(origin))
    } else {
        let prev = scan(m, origin, cands.drop_last());
        let c = cands.last();
        let d = dist_sq(origin.position, c.position);
        if pullable(m, origin, c) && d < prev.1 {
            (Some(c.body), d)
        } else {
            prev
        }
    }
}

/// Picks the body that a pull from `origin` in `world` takes among
/// `candidates`: the nearest pullable one, so never a prop that another
/// actor already pulls or holds, the earliest of equally near ones, or `None` when
/// none is pullable.
pub fn pull_object_piped(
    world: &PickupWorld,
    origin: PullOrigin,
    candidates: &Vec<PullCandidate>,
) -> (r: Option<usize>)
    ensures
        r matches Some(b) ==> b < world@.props.len() && world@.props[b as int].claimed_by is None,
        r == scan(world@, origin, candidates@).0,
        r matches Some(b) ==> exists|k: int|
            0 <= k < candidates@.len() && #[trigger] candidates@[k].body == b && pullable(world@, origin,
                candidates@[k],
            ) && forall|j: int|
                0 <= j < candidates@.len() && pullable(world@, origin, #[trigger] candidates@[j]) ==> dist_sq(
                    origin.position,
                    candidates@[k].position,
                ) <= dist_sq(origin.position, candidates@[j].position),
        r is None ==> forall|j: int|
            0 <= j < candidates@.len() ==> !pullable(world@, origin, #[trigger] candidates@[j]),
{
    let reach: u128 = origin.trace_length as u128 + METRE as u128;
    assert(reach * reach <= 0x2_0000_0000 * 0x2_0000_0000) by (nonlinear_arith)
        requires 0 <= reach <= 0x2_0000_0000;
    let limit: u128 = reach * reach;
    let mut nearest_sq: u128 = limit;
    let mut nearest: Option<usize> = None;
    let ghost mut best_idx: int = -1;
    let mut i: usize = 0;
    while i < candidates.len()
        invariant
            0 <= i <= candidates@.len(),
            limit == scan_limit_sq(origin),
            (nearest, nearest_sq as int) == scan(world@, origin, candidates@.take(i as int)),
            nearest is None ==> nearest_sq == limit && best_idx == -1,
            nearest matches Some(b) ==> 0 <= best_idx < i && candidates@[best_idx].body == b
                && pullable(world@, origin, candidates@[best_idx]) && nearest_sq == dist_sq(
                origin.position,
                candidates@[best_idx].position,
            ),
            forall|j: int|
                0 <= j < i && pullable(world@, origin, #[trigger] candidates@[j]) ==> nearest is Some
                    && nearest_sq <= dist_sq(origin.position, candidates@[j].position),
        decreases candidates@.len() - i,
    {
        let c = candidates[i];
        assert(candidates@.take(i + 1).drop_last() =~= candidates@.take(i as int));
        assert(candidates@.take(i + 1).last() == c);
        if c.rigid_body == RigidBody::Dynamic && c.body < world.props.len()
            && world.props[c.body].claimed_by.is_none() {
            let d = distance_squared(origin.position, c.position);
            if d < nearest_sq && is_in_cone(origin.position, c.position, origin.forward, origin.cone)
                && c.first_hit == Some(c.body) {
                nearest_sq = d;
                nearest = Some(c.body);
                proof {
                    best_idx = i as int;
                }
            }
        }
        i = i + 1;
    }
    assert(candidates@.take(i as int) =~= candidates@);
    nearest
}

/// Whether `target` names a dynamic prop of `m` that no actor pulls or holds.
pub open spec fn free_prop(m: PickupModel, target: Option<usize>) -> bool {
    target matches Some(p) && p < m.props.len() && m.props[p as int].rigid_body == RigidBody::Dynamic
        && m.props[p as int].claimed_by is None
}

/// The prop that a pull goes for: the one that the probe finds along the
/// aim (`aimed`) when it is free to take, else the one that the pull
/// selector found around the actor (`nearby`).
pub fn choose_pull_target(world: &PickupWorld, aimed: Option<usize>, nearby: Option<usize>) -> (r:
    Option<usize>)
    ensures
        r == if free_prop(world@, aimed) {
            aimed
        } else {
            nearby
        },
{
    match aimed {
        Some(p) => {
            if p < world.props.len() && world.props[p].rigid_body == RigidBody::Dynamic
                && world.props[p].claimed_by.is_none() {
                aimed
            } else {
                nearby
            }
        },
        None => nearby,
    }
}

/// Starts a pull by `actor` on `target`, the body that the selector found.
/// Nothing changes, and the result is `Ok(false)`, unless the actor is idle
/// and ready and the target is a dynamic prop that nobody pulls or holds; a
/// prop is thus checked before it is claimed, and two actors can never claim
/// it together.
pub fn pull_object(world: &mut PickupWorld, actor: usize, target: Option<usize>) -> (r: Result<
    bool,
    PickupError,
>)
    requires
        old(world)@.wf(),
    ensures
        final(world)@.wf(),
        actor >= old(world)@.actors.len() ==> r == Err::<bool, PickupError>(PickupError::NotAnActor)
            && final(world)@ == old(world)@,
        actor < old(world)@.actors.len() ==> r == Ok::<bool, PickupError>(
            old(world)@.can_start_pull(actor as int, target),
        ) && final(world)@ == old(world)@.start_pull(actor as int, target),
{
    if actor >= world.actors.len() {
        return Err(PickupError::NotAnActor);
    }
    let s = world.actors[actor];
    let p = match target {
        Some(p) => p,
        None => return Ok(false),
    };
    if !(s.state == AvianPickupActorState::Idle) || !s.cooldown.ready() || p >= world.props.len() {
        return Ok(false);
    }
    let b = world.props[p];
    if !(b.rigid_body == RigidBody::Dynamic) || b.claimed_by.is_some() {
        return Ok(false);
    }
    let ghost m0 = world@;
    world.actors.set(
        actor,
        ActorSlot {
            state: AvianPickupActorState::Pulling(p),
            cooldown: Cooldown { remaining: s.config.cooldown_steps },
            ..s
        },
    );
    world.props.set(p, PropBody { claimed_by: Some(actor), ..b });
    proof {
        let m = world@;
        assert(m0.prop_wf(p as int));
        assert(m.actors =~= m0.start_pull(actor as int, target).actors);
        assert(m.props =~= m0.start_pull(actor as int, target).props);
        assert forall|a: int| 0 <= a < m.actors.len() implies #[trigger] m.actor_wf(a) by {
            assert(m0.actor_wf(a));
        }
        assert forall|q: int| 0 <= q < m.props.len() implies #[trigger] m.prop_wf(q) by {
            assert(m0.prop_wf(q));
        }
    }
    Ok(true)
}

} // verus!
