//! The occlusion-plane engine: each frame, for every occluder, compute the
//! on-screen shadow quad and decide by winding whether it faces the light.
//!
//! An occluder is a wall segment whose local bottom edge runs from
//! (-0.5, 0, 0) to (0.5, 0, 0). Both ends are taken through the model
//! matrix, each is extruded to `base + (base - origin)` — the base point
//! pushed away from the light by its own offset, with the offset's depth
//! forced to zero first — and all four corners are projected through the
//! view-projection matrix; the signed area of the projected quad
//! classifies its winding, and a back-facing quad is neither uploaded nor
//! drawn.

use vstd::prelude::*;

use crate::allocators::{GeometrySlotSet, ObjectAllocator};
use crate::fixed::{
    lemma_mat_vec_spec_bound, lemma_mul_bound, mat_vec, mat_vec_spec, Mat4, Vec2, Vec3, Vec4,
    FX_HALF, FX_ONE, MAT_LIMIT, TERM_LIMIT, VEC_LIMIT,
};
use crate::guard::DirtyBufferGuard;

verus! {

/// The local bottom-left corner of an occluder, (-0.5, 0, 0, 1).
pub open spec fn local_left() -> (int, int, int, int) {
    (-(FX_HALF as int), 0, 0, FX_ONE as int)
}

/// The local bottom-right corner of an occluder, (0.5, 0, 0, 1).
pub open spec fn local_right() -> (int, int, int, int) {
    (FX_HALF as int, 0, 0, FX_ONE as int)
}

/// World-space bottom-left base point: the model matrix applied to the
/// local bottom-left corner.
pub open spec fn spec_base_left(m: Mat4) -> (int, int, int, int) {
    mat_vec_spec(m, local_left())
}

/// World-space bottom-right base point.
pub open spec fn spec_base_right(m: Mat4) -> (int, int, int, int) {
    mat_vec_spec(m, local_right())
}

/// A base point extruded away from the light origin:
/// `top = base + (base - origin)`, where the offset `base - origin` has
/// its depth forced to zero before the extrusion, so the far corner keeps
/// the base point's depth. The far corners are ordinary points (w = 1).
pub open spec fn spec_top(base: (int, int, int, int), o: Vec3) -> (int, int, int, int) {
    (2 * base.0 - o.x, 2 * base.1 - o.y, base.2, FX_ONE as int)
}

/// Whether the projected quad winds clockwise: the 2D cross product of the
/// projected near edge with the vector toward the projected far edge.
pub open spec fn spec_clockwise(m: Mat4, o: Vec3, pv: Mat4) -> bool {
    let bl = mat_vec_spec(pv, spec_base_left(m));
    let br = mat_vec_spec(pv, spec_base_right(m));
    let tl = mat_vec_spec(pv, spec_top(spec_base_left(m), o));
    (br.0 - bl.0) * (tl.1 - bl.1) > (br.1 - bl.1) * (tl.0 - bl.0)
}

/// Whether the occluder faces away from the light: a back-facing quad is
/// one whose winding, corrected by the `reverse_winding` configuration, is
/// counter-clockwise.
pub open spec fn spec_is_back(m: Mat4, o: Vec3, pv: Mat4, reverse: bool) -> bool {
    spec_clockwise(m, o, pv) == reverse
}

/// The four corners of the shadow quad on the occluder's plane: the two
/// world-space base points and their reflections away from the light.
#[derive(Debug, Clone, Copy, PartialEq, Eq, Structural)]
pub struct OccluderPoints {
    pub bottom_left: Vec2,
    pub bottom_right: Vec2,
    pub top_left: Vec2,
    pub top_right: Vec2,
}

/// `p` holds exactly the quad corners for model matrix `m` and light
/// origin `o`.
pub open spec fn points_match(p: OccluderPoints, m: Mat4, o: Vec3) -> bool {
    let bl = spec_base_left(m);
    let br = spec_base_right(m);
    &&& p.bottom_left.x == bl.0
    &&& p.bottom_left.y == bl.1
    &&& p.bottom_right.x == br.0
    &&& p.bottom_right.y == br.1
    &&& p.top_left.x == 2 * bl.0 - o.x
    &&& p.top_left.y == 2 * bl.1 - o.y
    &&& p.top_right.x == 2 * br.0 - o.x
    &&& p.top_right.y == 2 * br.1 - o.y
}

/// `v` is the projected point `p` with its depth replaced by `z`.
pub open spec fn vertex_match(v: Vec4, p: (int, int, int, int), z: int) -> bool {
    v.x == p.0 && v.y == p.1 && v.z == z && v.w == p.3
}

/// `vs` holds exactly the four projected quad vertices — the two base
/// points and their extrusions `base + (base - origin)` — in
/// triangle-strip order, every depth forced to the near edge's projected
/// depth, and the order flipped when `reverse` is set.
pub open spec fn vertices_match(vs: Seq<Vec4>, m: Mat4, o: Vec3, pv: Mat4, reverse: bool) -> bool {
    let bl = mat_vec_spec(pv, spec_base_left(m));
    let br = mat_vec_spec(pv, spec_base_right(m));
    let tl = mat_vec_spec(pv, spec_top(spec_base_left(m), o));
    let tr = mat_vec_spec(pv, spec_top(spec_base_right(m), o));
    &&& vs.len() == 4
    &&& if !reverse {
        &&& vertex_match(vs[0], bl, bl.2)
        &&& vertex_match(vs[1], tl, bl.2)
        &&& vertex_match(vs[2], br, bl.2)
        &&& vertex_match(vs[3], tr, bl.2)
    } else {
        &&& vertex_match(vs[0], tr, bl.2)
        &&& vertex_match(vs[1], tl, bl.2)
        &&& vertex_match(vs[2], br, bl.2)
        &&& vertex_match(vs[3], bl, bl.2)
    }
}

/// Everything one frame's occlusion computation produces for one occluder.
pub struct OcclusionResult {
    /// The four projected vertices to upload when the quad is front-facing.
    pub vertices: Vec<Vec4>,
    /// The world-space quad corners.
    pub points: OccluderPoints,
    /// The winding classification of the projected quad.
    pub is_clockwise: bool,
}

/// The per-frame occlusion computation. It is a pure function of the
/// configuration and its arguments: it reads no hidden state.
pub struct OcclusionPlaneEngine {
    /// Set for occluders authored with flipped geometry.
    pub reverse_winding: bool,
}

impl OcclusionPlaneEngine {
    /// Computes the projected shadow quad and its winding for one occluder.
    ///
    /// The bounds keep every intermediate of the two matrix applications
    /// inside `i64`; they admit coordinates up to 32768 whole units.
    pub fn compute(&self, transform: &Mat4, origin: &Vec3, projection_view: &Mat4) -> (r:
        OcclusionResult)
        requires
            transform.abs_le(MAT_LIMIT as int),
            projection_view.abs_le(MAT_LIMIT as int),
            origin.abs_le(MAT_LIMIT as int),
        ensures
            vertices_match(
                r.vertices@,
                *transform,
                *origin,
                *projection_view,
                self.reverse_winding,
            ),
            points_match(r.points, *transform, *origin),
            r.is_clockwise == spec_clockwise(*transform, *origin, *projection_view),
    {
        let corner_l = Vec4 { x: -FX_HALF, y: 0, z: 0, w: FX_ONE };
        let corner_r = Vec4 { x: FX_HALF, y: 0, z: 0, w: FX_ONE };
        let un_bl = mat_vec(transform, &corner_l);
        let un_br = mat_vec(transform, &corner_r);
        proof {
            assert(corner_l.to_ints() == local_left());
            assert(corner_r.to_ints() == local_right());
            lemma_mat_vec_spec_bound(
                *transform,
                local_left(),
                MAT_LIMIT as int,
                FX_ONE as int,
            );
            lemma_mat_vec_spec_bound(
                *transform,
                local_right(),
                MAT_LIMIT as int,
                FX_ONE as int,
            );
            assert(4 * (((MAT_LIMIT as int) * (FX_ONE as int)) / (FX_ONE as int))
                == 0x2_0000_0000int);
        }
        let top_l = Vec4 {
            x: un_bl.x + un_bl.x - origin.x,
            y: un_bl.y + un_bl.y - origin.y,
            z: un_bl.z,
            w: FX_ONE,
        };
        let top_r = Vec4 {
            x: un_br.x + un_br.x - origin.x,
            y: un_br.y + un_br.y - origin.y,
            z: un_br.z,
            w: FX_ONE,
        };
        let p_bl = mat_vec(projection_view, &un_bl);
        let p_br0 = mat_vec(projection_view, &un_br);
        let p_tl0 = mat_vec(projection_view, &top_l);
        let p_tr0 = mat_vec(projection_view, &top_r);
        let z = p_bl.z;
        let p_br = Vec4 { x: p_br0.x, y: p_br0.y, z, w: p_br0.w };
        let p_tl = Vec4 { x: p_tl0.x, y: p_tl0.y, z, w: p_tl0.w };
        let p_tr = Vec4 { x: p_tr0.x, y: p_tr0.y, z, w: p_tr0.w };
        proof {
            lemma_mat_vec_spec_bound(
                *projection_view,
                un_bl.to_ints(),
                MAT_LIMIT as int,
                VEC_LIMIT as int,
            );
            lemma_mat_vec_spec_bound(
                *projection_view,
                un_br.to_ints(),
                MAT_LIMIT as int,
                VEC_LIMIT as int,
            );
            lemma_mat_vec_spec_bound(
                *projection_view,
                top_l.to_ints(),
                MAT_LIMIT as int,
                VEC_LIMIT as int,
            );
            lemma_mat_vec_spec_bound(
                *projection_view,
                top_r.to_ints(),
                MAT_LIMIT as int,
                VEC_LIMIT as int,
            );
            assert(4 * (((MAT_LIMIT as int) * (VEC_LIMIT as int)) / (FX_ONE as int)) == 4 * (
            TERM_LIMIT as int));
        }
        let i0x = p_br.x - p_bl.x;
        let i0y = p_br.y - p_bl.y;
        let i1x = p_tl0.x - p_bl.x;
        let i1y = p_tl0.y - p_bl.y;
        proof {
            lemma_mul_bound(
                i0x as int,
                i1y as int,
                8 * (TERM_LIMIT as int),
                8 * (TERM_LIMIT as int),
            );
            lemma_mul_bound(
                i0y as int,
                i1x as int,
                8 * (TERM_LIMIT as int),
                8 * (TERM_LIMIT as int),
            );
        }
        let lhs: i128 = (i0x as i128) * (i1y as i128);
        let rhs: i128 = (i0y as i128) * (i1x as i128);
        let is_clockwise = lhs > rhs;
        let mut vertices: Vec<Vec4> = Vec::new();
        if !self.reverse_winding {
            vertices.push(p_bl);
            vertices.push(p_tl);
            vertices.push(p_br);
            vertices.push(p_tr);
        } else {
            vertices.push(p_tr);
            vertices.push(p_tl);
            vertices.push(p_br);
            vertices.push(p_bl);
        }
        let points = OccluderPoints {
            bottom_left: Vec2 { x: un_bl.x, y: un_bl.y },
            bottom_right: Vec2 { x: un_br.x, y: un_br.y },
            top_left: Vec2 { x: top_l.x, y: top_l.y },
            top_right: Vec2 { x: top_r.x, y: top_r.y },
        };
        OcclusionResult { vertices, points, is_clockwise }
    }
}

/// The occlusion computation is deterministic: any two vertex lists and any
/// two corner sets that its contract admits for the same transform, light
/// origin, view-projection and winding configuration are equal.
pub proof fn lemma_winding_deterministic(
    vs1: Seq<Vec4>,
    vs2: Seq<Vec4>,
    p1: OccluderPoints,
    p2: OccluderPoints,
    m: Mat4,
    o: Vec3,
    pv: Mat4,
    reverse: bool,
)
    requires
        vertices_match(vs1, m, o, pv, reverse),
        vertices_match(vs2, m, o, pv, reverse),
        points_match(p1, m, o),
        points_match(p2, m, o),
    ensures
        vs1 =~= vs2,
        p1 == p2,
{
    assert forall|i: int| 0 <= i < 4 implies vs1[i] == vs2[i] by {}
}

/// Flipping `reverse_winding` flips the back-face decision for every
/// transform, light origin and view-projection.
pub proof fn lemma_reverse_winding_flips(m: Mat4, o: Vec3, pv: Mat4)
    ensures
        spec_is_back(m, o, pv, true) == !spec_is_back(m, o, pv, false),
{
}

/// A degenerate occluder, whose bottom-left base point coincides with the
/// light origin, yields a quad with zero extrusion at that corner and a
/// deterministic back-face value: the winding test compares two zero
/// products, so the quad counts as counter-clockwise and `is_back` is
/// exactly the negation of `reverse_winding`.
pub proof fn lemma_degenerate_occluder(m: Mat4, o: Vec3, pv: Mat4, reverse: bool, p: OccluderPoints)
    requires
        spec_base_left(m) == (o.x as int, o.y as int, o.z as int, FX_ONE as int),
        points_match(p, m, o),
    ensures
        p.top_left == p.bottom_left,
        spec_is_back(m, o, pv, reverse) == !reverse,
{
    let bl = spec_base_left(m);
    assert(spec_top(bl, o) == bl);
    let pbl = mat_vec_spec(pv, bl);
    let pbr = mat_vec_spec(pv, spec_base_right(m));
    assert((pbr.0 - pbl.0) * (pbl.1 - pbl.1) == 0);
    assert((pbr.1 - pbl.1) * (pbl.0 - pbl.0) == 0);
}

/// A wall-segment occluder: its model transform, winding configuration,
/// the cached per-frame back-face decision and quad corners, the dirty
/// guard, and the per-frame vertex buffer regions.
pub struct OccludingPlane {
    transform: Mat4,
    reverse_winding: bool,
    is_back: bool,
    points: Option<OccluderPoints>,
    debug_points: OccluderPoints,
    guard: DirtyBufferGuard,
    subbuffer: GeometrySlotSet<Vec4>,
    indices: Vec<u16>,
}

impl OccludingPlane {
    /// The model transform.
    pub closed spec fn transform_spec(self) -> Mat4 {
        self.transform
    }

    /// The winding configuration.
    pub closed spec fn reverse_winding_spec(self) -> bool {
        self.reverse_winding
    }

    /// The cached back-face decision of the last buffer update.
    pub closed spec fn is_back_spec(self) -> bool {
        self.is_back
    }

    /// The quad corners of the last front-facing update, if any.
    pub closed spec fn points_spec(self) -> Option<OccluderPoints> {
        self.points
    }

    /// The quad corners of the last update, front- or back-facing.
    pub closed spec fn debug_points_spec(self) -> OccluderPoints {
        self.debug_points
    }

    /// The parity the dirty guard last saw a write for.
    pub closed spec fn guard_last(self) -> Option<usize> {
        self.guard.last()
    }

    /// The index list of the quad's two triangles.
    pub closed spec fn indices_spec(self) -> Seq<u16> {
        self.indices@
    }

    /// Number of per-frame buffer regions.
    pub closed spec fn num_regions_spec(self) -> nat {
        self.subbuffer.num_regions_spec()
    }

    /// Contents of the vertex region for one parity.
    pub closed spec fn region_spec(self, parity: int) -> Seq<Vec4> {
        self.subbuffer.region_spec(parity)
    }

    /// Structural invariant: regions sized for the four quad vertices, a
    /// bounded transform, and the fixed two-triangle index list.
    pub closed spec fn wf(self) -> bool {
        &&& self.subbuffer.wf()
        &&& self.subbuffer.element_count_spec() == 4
        &&& self.transform.abs_le(MAT_LIMIT as int)
        &&& self.indices@ =~= seq![0u16, 1u16, 2u16, 1u16, 3u16, 2u16]
    }

    /// Public face of the invariant.
    pub open spec fn inv(self) -> bool {
        self.wf()
    }

    /// Builds an occluder with per-frame vertex regions from `allocator`.
    /// Nothing is uploaded yet: the guard starts unmarked, so the occluder
    /// cannot be drawn before its first buffer update.
    pub fn new(transform: Mat4, reverse_winding: bool, allocator: &ObjectAllocator) -> (r: Self)
        requires
            transform.abs_le(MAT_LIMIT as int),
        ensures
            r.inv(),
            r.transform_spec() == transform,
            r.reverse_winding_spec() == reverse_winding,
            !r.is_back_spec(),
            r.points_spec() is None,
            r.guard_last() is None,
            r.num_regions_spec() == allocator.frames_spec(),
            r.indices_spec() =~= seq![0u16, 1u16, 2u16, 1u16, 3u16, 2u16],
    {
        let mut indices: Vec<u16> = Vec::new();
        indices.push(0);
        indices.push(1);
        indices.push(2);
        indices.push(1);
        indices.push(3);
        indices.push(2);
        let zero = Vec4 { x: 0, y: 0, z: 0, w: 0 };
        let zero2 = Vec2 { x: 0, y: 0 };
        OccludingPlane {
            transform,
            reverse_winding,
            is_back: false,
            points: None,
            debug_points: OccluderPoints {
                bottom_left: zero2,
                bottom_right: zero2,
                top_left: zero2,
                top_right: zero2,
            },
            guard: DirtyBufferGuard::new(),
            subbuffer: allocator.subbuffers(4, zero),
            indices,
        }
    }

    /// Replaces the model transform.
    pub fn set_transform(&mut self, transform: Mat4)
        requires
            old(self).inv(),
            transform.abs_le(MAT_LIMIT as int),
        ensures
            final(self).inv(),
            final(self).transform_spec() == transform,
            final(self).reverse_winding_spec() == old(self).reverse_winding_spec(),
            final(self).num_regions_spec() == old(self).num_regions_spec(),
            final(self).guard_last() == old(self).guard_last(),
            final(self).is_back_spec() == old(self).is_back_spec(),
            final(self).points_spec() == old(self).points_spec(),
            forall|i: int|
                0 <= i < old(self).num_regions_spec() ==> #[trigger] final(self).region_spec(i)
                    == old(self).region_spec(i),
    {
        self.transform = transform;
    }

    /// The cached back-face decision.
    pub fn is_back(&self) -> (r: bool)
        ensures
            r == self.is_back_spec(),
    {
        self.is_back
    }

    /// The winding configuration.
    pub fn reverse_winding(&self) -> (r: bool)
        ensures
            r == self.reverse_winding_spec(),
    {
        self.reverse_winding
    }

    /// The quad corners of the last update, kept even for a back-facing
    /// quad; meant for diagnostic overlays.
    pub fn debug_points(&self) -> (r: &OccluderPoints)
        ensures
            *r == self.debug_points_spec(),
    {
        &self.debug_points
    }

    /// The quad corners of the last front-facing update.
    pub fn points(&self) -> (r: &Option<OccluderPoints>)
        ensures
            *r == self.points_spec(),
    {
        &self.points
    }

    /// Recomputes the quad for this frame and, when it is front-facing,
    /// writes its four vertices into the region for `frame_parity`. Always
    /// marks the guard for `frame_parity`, and caches the back-face
    /// decision that `draw` will consult.
    pub fn update_buffers(&mut self, origin: &Vec3, projection_view: &Mat4, frame_parity: usize)
        requires
            old(self).inv(),
            frame_parity < old(self).num_regions_spec(),
            origin.abs_le(MAT_LIMIT as int),
            projection_view.abs_le(MAT_LIMIT as int),
        ensures
            final(self).inv(),
            final(self).transform_spec() == old(self).transform_spec(),
            final(self).reverse_winding_spec() == old(self).reverse_winding_spec(),
            final(self).num_regions_spec() == old(self).num_regions_spec(),
            final(self).guard_last() == Some(frame_parity),
            final(self).is_back_spec() == spec_is_back(
                old(self).transform_spec(),
                *origin,
                *projection_view,
                old(self).reverse_winding_spec(),
            ),
            points_match(final(self).debug_points_spec(), old(self).transform_spec(), *origin),
            final(self).is_back_spec() ==> final(self).points_spec() is None,
            !final(self).is_back_spec() ==> final(self).points_spec() is Some && points_match(
                final(self).points_spec()->0,
                old(self).transform_spec(),
                *origin,
            ),
            !final(self).is_back_spec() ==> vertices_match(
                final(self).region_spec(frame_parity as int),
                old(self).transform_spec(),
                *origin,
                *projection_view,
                old(self).reverse_winding_spec(),
            ),
            final(self).is_back_spec() ==> final(self).region_spec(frame_parity as int) == old(
                self,
            ).region_spec(frame_parity as int),
            forall|i: int|
                0 <= i < old(self).num_regions_spec() && i != frame_parity
                    ==> #[trigger] final(self).region_spec(i) == old(self).region_spec(i),
    {
        self.guard.mark_updated(frame_parity);
        let engine = OcclusionPlaneEngine { reverse_winding: self.reverse_winding };
        let result = engine.compute(&self.transform, origin, projection_view);
        self.is_back = result.is_clockwise == self.reverse_winding;
        self.debug_points = result.points;
        if self.is_back {
            self.points = None;
            return ;
        }
        self.points = Some(result.points);
        self.subbuffer.write(frame_parity, &result.vertices);
    }

    /// Whether the buffers were refreshed for `frame_parity`: the runtime
    /// form of the draw contract, for callers outside the verified core.
    pub fn updated_for(&self, frame_parity: usize) -> (r: bool)
        ensures
            r == (self.guard_last() == Some(frame_parity)),
    {
        self.guard.check_updated(frame_parity)
    }

    /// What a draw for `frame_parity` must record: the vertex region and
    /// the index list when the quad faces the light, nothing when it is
    /// back-facing. A draw may only follow a buffer update for the same
    /// parity; that is the dirty-guard contract.
    pub fn draw(&self, frame_parity: usize) -> (r: Option<(&Vec<Vec4>, &Vec<u16>)>)
        requires
            self.inv(),
            frame_parity < self.num_regions_spec(),
            self.guard_last() == Some(frame_parity),
        ensures
            r is Some <==> !self.is_back_spec(),
            r matches Some(d) ==> d.0@ == self.region_spec(frame_parity as int) && d.1@
                =~= seq![0u16, 1u16, 2u16, 1u16, 3u16, 2u16],
    {
        self.guard.assert_updated(frame_parity);
        if self.is_back {
            return None;
        }
        Some((self.subbuffer.region(frame_parity), &self.indices))
    }
}

} // verus!
