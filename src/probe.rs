//! Finding the prop that an actor aims at: a thin ray first, then a small
//! box cast, each checked for occlusion by an obstacle.
use vstd::prelude::*;

verus! {

/// The nearest hit of one ray or shape cast: the entity hit and its distance
/// along the aim, in millimetres.
#[derive(Clone, Copy, Debug, PartialEq, Eq, Structural)]
pub struct Hit {
    pub entity: usize,
    pub distance: u32,
}

/// What the probe reports: the prop aimed at and its distance along the aim.
#[derive(Clone, Copy, Debug, PartialEq, Eq, Structural)]
pub struct Prop {
    pub entity: usize,
    pub toi: u32,
}

/// A prop hit is hidden by an obstacle hit on another entity that is no
/// farther away (a tie counts as hidden).
pub open spec fn occludes(prop_hit: Hit, obstacle_hit: Hit) -> bool {
    obstacle_hit.entity != prop_hit.entity && obstacle_hit.distance <= prop_hit.distance
}

/// The prop hit that survives the obstacle cast of the same query.
pub open spec fn visible_hit(prop_hit: Option<Hit>, obstacle_hit: Option<Hit>) -> Option<Hit> {
    match prop_hit {
        None => None,
        Some(p) => match obstacle_hit {
            Some(o) if occludes(p, o) => None,
            _ => Some(p),
        },
    }
}

/// The two-phase probe: the ray's visible hit if there is one, else the box
/// cast's visible hit.
pub open spec fn trace_result(
    ray_prop: Option<Hit>,
    ray_obstacle: Option<Hit>,
    shape_prop: Option<Hit>,
    shape_obstacle: Option<Hit>,
) -> Option<Prop> {
    let first = visible_hit(ray_prop, ray_obstacle);
    let hit = if first is Some { first } else { visible_hit(shape_prop, shape_obstacle) };
    match hit {
        Some(h) => Some(Prop { entity: h.entity, toi: h.distance }),
        None => None,
    }
}

/// Whether `obstacle_hit` hides `prop_hit`.
pub fn is_occluded(prop_hit: Hit, obstacle_hit: Hit) -> (r: bool)
    ensures
        r == occludes(prop_hit, obstacle_hit),
        obstacle_hit.entity != prop_hit.entity ==> (!r <==> obstacle_hit.distance > prop_hit.distance),
{
    obstacle_hit.entity != prop_hit.entity && obstacle_hit.distance <= prop_hit.distance
}

/// Keeps a prop hit unless the obstacle hit of the same cast hides it.
pub fn resolve_occlusion(prop_hit: Option<Hit>, obstacle_hit: Option<Hit>) -> (r: Option<Hit>)
    ensures
        r == visible_hit(prop_hit, obstacle_hit),
        r is Some ==> r == prop_hit,
        prop_hit is Some && obstacle_hit is None ==> r == prop_hit,
        prop_hit is Some && obstacle_hit is Some
            && obstacle_hit.unwrap().entity != prop_hit.unwrap().entity ==> (r is Some
            <==> obstacle_hit.unwrap().distance > prop_hit.unwrap().distance),
{
    match prop_hit {
        None => None,
        Some(p) => match obstacle_hit {
            Some(o) => {
                if is_occluded(p, o) {
                    None
                } else {
                    Some(p)
                }
            },
            None => Some(p),
        },
    }
}

/// Finds the prop along an actor's aim from the four casts of a probe: the
/// ray against props and against obstacles, then the small box cast against
/// props and against obstacles. The box cast is consulted only when the ray
/// yields no visible prop, so a host may skip those casts in that case.
pub fn find_prop_in_trace(
    ray_prop: Option<Hit>,
    ray_obstacle: Option<Hit>,
    shape_prop: Option<Hit>,
    shape_obstacle: Option<Hit>,
) -> (r: Option<Prop>)
    ensures
        r == trace_result(ray_prop, ray_obstacle, shape_prop, shape_obstacle),
        visible_hit(ray_prop, ray_obstacle) matches Some(h)
            ==> r == Some(Prop { entity: h.entity, toi: h.distance }),
{
    let hit = match resolve_occlusion(ray_prop, ray_obstacle) {
        Some(h) => Some(h),
        None => resolve_occlusion(shape_prop, shape_obstacle),
    };
    match hit {
        Some(h) => Some(Prop { entity: h.entity, toi: h.distance }),
        None => None,
    }
}

} // verus!
