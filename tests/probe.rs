use avian_pickup::probe::{find_prop_in_trace, is_occluded, resolve_occlusion, Hit, Prop};

fn hit(entity: usize, distance: u32) -> Hit {
    Hit { entity, distance }
}

#[test]
fn obstacle_at_same_distance_occludes() {
    assert!(is_occluded(hit(1, 500), hit(2, 500)));
    assert_eq!(resolve_occlusion(Some(hit(1, 500)), Some(hit(2, 500))), None);
}

#[test]
fn nearer_obstacle_occludes() {
    assert!(is_occluded(hit(1, 500), hit(2, 499)));
    assert_eq!(resolve_occlusion(Some(hit(1, 500)), Some(hit(2, 10))), None);
}

#[test]
fn farther_obstacle_does_not_occlude() {
    assert!(!is_occluded(hit(1, 500), hit(2, 501)));
    assert_eq!(resolve_occlusion(Some(hit(1, 500)), Some(hit(2, 501))), Some(hit(1, 500)));
}

#[test]
fn obstacle_on_same_entity_does_not_occlude() {
    assert!(!is_occluded(hit(3, 500), hit(3, 100)));
    assert_eq!(resolve_occlusion(Some(hit(3, 500)), Some(hit(3, 100))), Some(hit(3, 500)));
}

#[test]
fn no_prop_hit_gives_nothing() {
    assert_eq!(resolve_occlusion(None, Some(hit(2, 100))), None);
    assert_eq!(resolve_occlusion(None, None), None);
    assert_eq!(resolve_occlusion(Some(hit(4, 7)), None), Some(hit(4, 7)));
}

#[test]
fn ray_hit_wins_over_shape_hit() {
    let r = find_prop_in_trace(Some(hit(1, 800)), None, Some(hit(2, 300)), None);
    assert_eq!(r, Some(Prop { entity: 1, toi: 800 }));
}

#[test]
fn shape_cast_used_when_ray_misses() {
    let r = find_prop_in_trace(None, Some(hit(9, 2000)), Some(hit(2, 300)), Some(hit(9, 2000)));
    assert_eq!(r, Some(Prop { entity: 2, toi: 300 }));
}

#[test]
fn shape_cast_used_when_ray_hit_is_occluded() {
    let r = find_prop_in_trace(Some(hit(1, 800)), Some(hit(9, 400)), Some(hit(2, 300)), Some(hit(9, 400)));
    assert_eq!(r, Some(Prop { entity: 2, toi: 300 }));
}

#[test]
fn both_phases_occluded_give_nothing() {
    let r = find_prop_in_trace(Some(hit(1, 800)), Some(hit(9, 400)), Some(hit(2, 500)), Some(hit(9, 500)));
    assert_eq!(r, None);
    assert_eq!(find_prop_in_trace(None, None, None, None), None);
}
