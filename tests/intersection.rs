use ray_tracer::sphere::Roots;
use ray_tracer::world::nearest_hit;

// Order keys stand for distances; small integers serve here.
const T_MIN: u64 = 1;
const T_MAX: u64 = u64::MAX;

#[test]
fn roots_are_put_in_order() {
    let r = Roots::new(9, 4);
    assert_eq!((r.near, r.far), (4, 9));
    let r = Roots::new(4, 9);
    assert_eq!((r.near, r.far), (4, 9));
}

#[test]
fn ray_from_outside_hits_front_face() {
    let r = Roots::new(40, 60);
    assert_eq!(r.hit_within(T_MIN, T_MAX), Some(40));
}

#[test]
fn ray_from_inside_hits_back_face() {
    // The nearer root lies behind the ray's origin.
    let r = Roots::new(0, 60);
    assert_eq!(r.hit_within(T_MIN, T_MAX), Some(60));
}

#[test]
fn back_face_when_front_face_is_too_near() {
    let r = Roots::new(40, 60);
    assert_eq!(r.hit_within(40, T_MAX), Some(60));
}

#[test]
fn window_bounds_are_exclusive() {
    let r = Roots::new(40, 60);
    assert_eq!(r.hit_within(40, 60), None);
    assert_eq!(r.hit_within(T_MIN, 40), None);
    assert_eq!(r.hit_within(T_MIN, 41), Some(40));
}

#[test]
fn tangent_ray_has_one_root() {
    let r = Roots::new(50, 50);
    assert_eq!(r.hit_within(T_MIN, T_MAX), Some(50));
    assert_eq!(r.hit_within(50, T_MAX), None);
}

#[test]
fn sphere_behind_ray_is_not_hit() {
    let r = Roots::new(0, 0);
    assert_eq!(r.hit_within(T_MIN, T_MAX), None);
}

#[test]
fn empty_scene_is_missed() {
    assert_eq!(nearest_hit(&Vec::new(), T_MIN, T_MAX), None);
}

#[test]
fn scene_of_missed_spheres_is_missed() {
    let objects = vec![None, None, Some(Roots::new(0, 0))];
    assert_eq!(nearest_hit(&objects, T_MIN, T_MAX), None);
}

#[test]
fn nearer_sphere_hides_farther_one() {
    // Sphere 0 stands behind sphere 1 along the ray.
    let objects = vec![Some(Roots::new(80, 90)), None, Some(Roots::new(30, 50)), Some(Roots::new(60, 70))];
    assert_eq!(nearest_hit(&objects, T_MIN, T_MAX), Some((2, 30)));
    let reordered = vec![Some(Roots::new(60, 70)), Some(Roots::new(30, 50)), None, Some(Roots::new(80, 90))];
    assert_eq!(nearest_hit(&reordered, T_MIN, T_MAX), Some((1, 30)));
}

#[test]
fn earliest_sphere_wins_a_tie() {
    let objects = vec![Some(Roots::new(70, 80)), Some(Roots::new(30, 50)), Some(Roots::new(30, 40))];
    assert_eq!(nearest_hit(&objects, T_MIN, T_MAX), Some((1, 30)));
}

#[test]
fn hit_from_inside_a_sphere_counts() {
    let objects = vec![Some(Roots::new(70, 80)), Some(Roots::new(0, 60))];
    assert_eq!(nearest_hit(&objects, T_MIN, T_MAX), Some((1, 60)));
}

#[test]
fn hits_beyond_window_are_ignored() {
    let objects = vec![Some(Roots::new(30, 50)), Some(Roots::new(10, 20))];
    assert_eq!(nearest_hit(&objects, T_MIN, 25), Some((1, 10)));
    assert_eq!(nearest_hit(&objects, T_MIN, 10), None);
}
