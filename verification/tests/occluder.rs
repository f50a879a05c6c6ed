use yanyaengine::allocators::ObjectAllocator;
use yanyaengine::fixed::{fmul, Mat4, Vec3, Vec4, FX_HALF, FX_ONE};
use yanyaengine::occluding_plane::{OccludingPlane, OcclusionPlaneEngine};

fn identity() -> Mat4 {
    Mat4 {
        r0: Vec4 { x: FX_ONE, y: 0, z: 0, w: 0 },
        r1: Vec4 { x: 0, y: FX_ONE, z: 0, w: 0 },
        r2: Vec4 { x: 0, y: 0, z: FX_ONE, w: 0 },
        r3: Vec4 { x: 0, y: 0, z: 0, w: FX_ONE },
    }
}

#[test]
fn fmul_exact_values() {
    assert_eq!(fmul(FX_ONE, FX_ONE), FX_ONE);
    // -1.5 * 2.0 == -3.0
    assert_eq!(fmul(-3 * FX_HALF, 2 * FX_ONE), -3 * FX_ONE);
    // truncation is toward zero on both signs
    assert_eq!(fmul(1, 1), 0);
    assert_eq!(fmul(-1, 1), 0);
}

#[test]
fn winding_determinism() {
    let engine = OcclusionPlaneEngine { reverse_winding: false };
    let m = identity();
    let origin = Vec3 { x: 1234, y: -FX_ONE, z: 77 };
    let pv = identity();
    let a = engine.compute(&m, &origin, &pv);
    let b = engine.compute(&m, &origin, &pv);
    assert_eq!(a.is_clockwise, b.is_clockwise);
    assert_eq!(a.points, b.points);
    assert_eq!(a.vertices.len(), 4);
    for i in 0..4 {
        assert_eq!(a.vertices[i], b.vertices[i]);
    }
}

#[test]
fn front_facing_quad_values() {
    // Unit wall on the x axis, light one unit below it.
    let engine = OcclusionPlaneEngine { reverse_winding: false };
    let m = identity();
    let origin = Vec3 { x: 0, y: -FX_ONE, z: 0 };
    let pv = identity();
    let r = engine.compute(&m, &origin, &pv);
    assert!(r.is_clockwise);
    // base points at (-0.5, 0) and (0.5, 0)
    assert_eq!(r.points.bottom_left.x, -FX_HALF);
    assert_eq!(r.points.bottom_left.y, 0);
    assert_eq!(r.points.bottom_right.x, FX_HALF);
    assert_eq!(r.points.bottom_right.y, 0);
    // far corners are the base points reflected away from the light
    assert_eq!(r.points.top_left.x, -FX_ONE);
    assert_eq!(r.points.top_left.y, FX_ONE);
    assert_eq!(r.points.top_right.x, FX_ONE);
    assert_eq!(r.points.top_right.y, FX_ONE);
    // projected vertices: the base points and their extruded far corners
    // base + (base - origin), all ordinary points
    assert_eq!(r.vertices[0], Vec4 { x: -FX_HALF, y: 0, z: 0, w: FX_ONE });
    assert_eq!(r.vertices[1], Vec4 { x: -FX_ONE, y: FX_ONE, z: 0, w: FX_ONE });
    assert_eq!(r.vertices[2], Vec4 { x: FX_HALF, y: 0, z: 0, w: FX_ONE });
    assert_eq!(r.vertices[3], Vec4 { x: FX_ONE, y: FX_ONE, z: 0, w: FX_ONE });
}

#[test]
fn back_face_symmetry() {
    let m = identity();
    let pv = identity();
    for (ox, oy) in [(0, -FX_ONE), (0, FX_ONE), (FX_ONE, FX_ONE), (-FX_ONE, -3 * FX_HALF)] {
        let origin = Vec3 { x: ox, y: oy, z: 0 };
        let normal = OcclusionPlaneEngine { reverse_winding: false };
        let reversed = OcclusionPlaneEngine { reverse_winding: true };
        let a = normal.compute(&m, &origin, &pv);
        let b = reversed.compute(&m, &origin, &pv);
        // the winding classification itself does not depend on the flag...
        assert_eq!(a.is_clockwise, b.is_clockwise);
        // ...so the back-face decision flips with it
        let is_back_normal = a.is_clockwise == false;
        let is_back_reversed = b.is_clockwise == true;
        assert_ne!(is_back_normal, is_back_reversed);
    }
}

#[test]
fn degenerate_occluder() {
    // The light origin coincides with the bottom-left base point.
    let engine = OcclusionPlaneEngine { reverse_winding: false };
    let m = identity();
    let origin = Vec3 { x: -FX_HALF, y: 0, z: 0 };
    let pv = identity();
    let r = engine.compute(&m, &origin, &pv);
    // zero extrusion at that corner, with well-defined values
    assert_eq!(r.points.top_left, r.points.bottom_left);
    // deterministic winding: counts as counter-clockwise
    assert!(!r.is_clockwise);
}

#[test]
fn update_buffers_and_draw() {
    let allocator = ObjectAllocator::new(2);
    let mut plane = OccludingPlane::new(identity(), false, &allocator);
    assert!(!plane.is_back());
    assert!(!plane.reverse_winding());
    assert!(plane.points().is_none());

    let below = Vec3 { x: 0, y: -FX_ONE, z: 0 };
    let pv = identity();
    plane.update_buffers(&below, &pv, 0);
    assert!(!plane.is_back(), "light below the wall: front-facing");
    assert!(plane.points().is_some());
    let drawn = plane.draw(0).expect("front-facing quad must be drawn");
    assert_eq!(drawn.0.len(), 4);
    assert_eq!(drawn.1.as_slice(), &[0u16, 1, 2, 1, 3, 2]);
    assert_eq!(drawn.0[0], Vec4 { x: -FX_HALF, y: 0, z: 0, w: FX_ONE });

    let above = Vec3 { x: 0, y: FX_ONE, z: 0 };
    plane.update_buffers(&above, &pv, 1);
    assert!(plane.is_back(), "light above the wall: back-facing");
    assert!(plane.points().is_none());
    assert!(plane.draw(1).is_none(), "a back-facing quad is not drawn");
    // the back-facing corners are still kept for diagnostics
    assert_eq!(plane.debug_points().bottom_left.x, -FX_HALF);
}

#[test]
fn reversed_plane_flips_draw_decision() {
    let allocator = ObjectAllocator::new(2);
    let below = Vec3 { x: 0, y: -FX_ONE, z: 0 };
    let pv = identity();

    let mut normal = OccludingPlane::new(identity(), false, &allocator);
    normal.update_buffers(&below, &pv, 0);
    let mut reversed = OccludingPlane::new(identity(), true, &allocator);
    reversed.update_buffers(&below, &pv, 0);

    assert!(!normal.is_back());
    assert!(reversed.is_back());
}
