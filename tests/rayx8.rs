use crust_render::rayx8::{Rayx8, Vec3x8};
use wide::f32x8;

fn lanes(v: [f32; 8]) -> f32x8 {
    f32x8::from(v)
}

#[test]
fn new_keeps_origin_and_direction() {
    let o = Vec3x8::new(lanes([1.0; 8]), lanes([2.0; 8]), lanes([3.0; 8]));
    let d = Vec3x8::new(lanes([0.0; 8]), lanes([0.0; 8]), lanes([-1.0; 8]));
    let r = Rayx8::new(o, d);
    assert_eq!(r.origin.x.to_array(), [1.0; 8]);
    assert_eq!(r.origin.y.to_array(), [2.0; 8]);
    assert_eq!(r.direction.z.to_array(), [-1.0; 8]);
}

#[test]
fn at_moves_each_lane_along_its_own_ray() {
    let idx = [0.0f32, 1.0, 2.0, 3.0, 4.0, 5.0, 6.0, 7.0];
    let o = Vec3x8::new(lanes(idx), lanes([0.0; 8]), lanes([1.0; 8]));
    let d = Vec3x8::new(lanes([1.0; 8]), lanes([2.0; 8]), lanes(idx));
    let r = Rayx8::new(o, d);
    let p = r.at(lanes([0.5, 1.0, 2.0, 0.0, -1.0, 3.0, 0.25, 4.0]));
    assert_eq!(p.x.to_array(), [0.5, 2.0, 4.0, 3.0, 3.0, 8.0, 6.25, 11.0]);
    assert_eq!(p.y.to_array(), [1.0, 2.0, 4.0, 0.0, -2.0, 6.0, 0.5, 8.0]);
    assert_eq!(p.z.to_array(), [1.0, 2.0, 5.0, 1.0, -3.0, 16.0, 2.5, 29.0]);
    let q = r.at(lanes([0.0; 8]));
    assert_eq!(q.x.to_array(), idx);
}
