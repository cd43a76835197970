//! Topology of the teapot demo mesh: a body of revolution with a bottom cap
//! vertex, nine rings of sixteen vertices, and a top cap vertex. The vertex
//! positions and normals are floating point and are computed by the
//! application; the triangle list is integer and is built here.
use vstd::prelude::*;

verus! {

/// Segments around the Y axis.
pub const SEGMENTS: usize = 16;

/// Non-degenerate profile rings.
pub const NUM_RINGS: usize = 9;

/// Vertices on the rings.
pub const BODY_VERTS: usize = 144;

/// Vertex count: ring vertices plus the bottom and top cap vertices.
pub const MAX_VERTICES: usize = 146;

/// Triangle count: bottom fan (16) + 8 bands of 16 quads (256) + top fan (16).
pub const MAX_TRIANGLES: usize = 288;

/// Index of the bottom cap vertex.
pub const BOTTOM_CAP_VERTEX: u16 = 0;

/// Index of the top cap vertex.
pub const TOP_CAP_VERTEX: u16 = 145;

/// Index of vertex `s` (taken modulo the segment count) on ring `ring`;
/// ring 0 starts right after the bottom cap vertex.
pub open spec fn ring_vertex(ring: int, s: int) -> int {
    1 + ring * 16 + (s % 16)
}

/// Triangle `t` of the mesh: the bottom fan for t < 16, then two triangles
/// per quad of the bands between adjacent rings, then the top fan.
pub open spec fn teapot_triangle(t: int) -> (int, int, int) {
    if t < 16 {
        (0, ring_vertex(0, t + 1), ring_vertex(0, t))
    } else if t < 272 {
        let k = t - 16;
        let ring = k / 32;
        let s = (k % 32) / 2;
        if k % 2 == 0 {
            (ring_vertex(ring, s), ring_vertex(ring, s + 1), ring_vertex(ring + 1, s + 1))
        } else {
            (ring_vertex(ring, s), ring_vertex(ring + 1, s + 1), ring_vertex(ring + 1, s))
        }
    } else {
        let s = t - 272;
        (ring_vertex(8, s), ring_vertex(8, s + 1), 145)
    }
}

/// `tri` holds triangle `t` of the mesh.
pub open spec fn is_teapot_triangle(tri: [u16; 3], t: int) -> bool {
    &&& tri[0] == teapot_triangle(t).0
    &&& tri[1] == teapot_triangle(t).1
    &&& tri[2] == teapot_triangle(t).2
}

/// Build the triangle list of the teapot mesh, in order.
pub fn teapot_indices() -> (tris: Vec<[u16; 3]>)
    ensures
        tris@.len() == MAX_TRIANGLES,
        forall|t: int| 0 <= t < MAX_TRIANGLES ==> is_teapot_triangle(#[trigger] tris@[t], t),
{
    let mut tris: Vec<[u16; 3]> = Vec::new();
    let ring_base: usize = 1;
    // Bottom cap fan: bottom cap -> first ring.
    let mut s: usize = 0;
    while s < SEGMENTS
        invariant
            s <= SEGMENTS,
            ring_base == 1,
            tris@.len() == s,
            forall|t: int| 0 <= t < tris@.len() ==> is_teapot_triangle(#[trigger] tris@[t], t),
        decreases SEGMENTS - s,
    {
        let next_s = (s + 1) % SEGMENTS;
        tris.push([BOTTOM_CAP_VERTEX, (ring_base + next_s) as u16, (ring_base + s) as u16]);
        s = s + 1;
    }
    // Body quad strips between adjacent rings.
    let mut ring: usize = 0;
    while ring < NUM_RINGS - 1
        invariant
            ring <= NUM_RINGS - 1,
            ring_base == 1,
            tris@.len() == 16 + ring * 32,
            forall|t: int| 0 <= t < tris@.len() ==> is_teapot_triangle(#[trigger] tris@[t], t),
        decreases NUM_RINGS - 1 - ring,
    {
        let base_curr = ring_base + ring * SEGMENTS;
        let base_next = ring_base + (ring + 1) * SEGMENTS;
        let mut s: usize = 0;
        while s < SEGMENTS
            invariant
                ring < NUM_RINGS - 1,
                s <= SEGMENTS,
                base_curr == 1 + ring * 16,
                base_next == 1 + (ring + 1) * 16,
                tris@.len() == 16 + ring * 32 + 2 * s,
                forall|t: int| 0 <= t < tris@.len() ==> is_teapot_triangle(#[trigger] tris@[t], t),
            decreases SEGMENTS - s,
        {
            let next_s = (s + 1) % SEGMENTS;
            let a = (base_curr + s) as u16;
            let b = (base_curr + next_s) as u16;
            let c = (base_next + next_s) as u16;
            let d = (base_next + s) as u16;
            let ghost k = (ring * 32 + 2 * s) as int;
            assert(k / 32 == ring && (k % 32) / 2 == s && k % 2 == 0 && (k + 1) / 32 == ring && ((
            k + 1) % 32) / 2 == s && (k + 1) % 2 == 1) by (nonlinear_arith)
                requires
                    k == ring * 32 + 2 * s,
                    s < 16,
            ;
            tris.push([a, b, c]);
            tris.push([a, c, d]);
            s = s + 1;
        }
        ring = ring + 1;
    }
    // Top cap fan: last ring -> top cap.
    let last_ring_base = ring_base + (NUM_RINGS - 1) * SEGMENTS;
    let mut s: usize = 0;
    while s < SEGMENTS
        invariant
            s <= SEGMENTS,
            last_ring_base == 129,
            tris@.len() == 272 + s,
            forall|t: int| 0 <= t < tris@.len() ==> is_teapot_triangle(#[trigger] tris@[t], t),
        decreases SEGMENTS - s,
    {
        let next_s = (s + 1) % SEGMENTS;
        tris.push([(last_ring_base + s) as u16, (last_ring_base + next_s) as u16, TOP_CAP_VERTEX]);
        s = s + 1;
    }
    tris
}

proof fn lemma_ring_vertex(r: int, s: int, r2: int, s2: int)
    requires
        0 <= r <= 8,
        0 <= r2 <= 8,
        0 <= s,
        0 <= s2,
    ensures
        1 <= ring_vertex(r, s) < 145,
        ring_vertex(r, s) == ring_vertex(r2, s2) ==> r == r2 && s % 16 == s2 % 16,
{
    assert(1 <= ring_vertex(r, s) < 145 && (ring_vertex(r, s) == ring_vertex(r2, s2) ==> r == r2
        && s % 16 == s2 % 16)) by (nonlinear_arith)
        requires
            0 <= r <= 8,
            0 <= r2 <= 8,
            0 <= s,
            0 <= s2,
            ring_vertex(r, s) == 1 + r * 16 + (s % 16),
            ring_vertex(r2, s2) == 1 + r2 * 16 + (s2 % 16),
            0 <= s % 16 < 16,
            0 <= s2 % 16 < 16,
    ;
}

/// Every triangle of the teapot uses three distinct vertices, all of which
/// exist (index below `MAX_VERTICES`).
pub proof fn law_teapot_triangles_valid(t: int)
    requires
        0 <= t < MAX_TRIANGLES,
    ensures
        0 <= teapot_triangle(t).0 < MAX_VERTICES,
        0 <= teapot_triangle(t).1 < MAX_VERTICES,
        0 <= teapot_triangle(t).2 < MAX_VERTICES,
        teapot_triangle(t).0 != teapot_triangle(t).1,
        teapot_triangle(t).1 != teapot_triangle(t).2,
        teapot_triangle(t).0 != teapot_triangle(t).2,
{
    if t < 16 {
        lemma_ring_vertex(0, t + 1, 0, t);
    } else if t < 272 {
        let k = t - 16;
        let ring = k / 32;
        let s = (k % 32) / 2;
        assert(0 <= ring <= 7 && 0 <= s < 16);
        lemma_ring_vertex(ring, s, ring, s + 1);
        lemma_ring_vertex(ring, s, ring + 1, s + 1);
        lemma_ring_vertex(ring, s + 1, ring + 1, s + 1);
        lemma_ring_vertex(ring, s, ring + 1, s);
        lemma_ring_vertex(ring + 1, s + 1, ring + 1, s);
    } else {
        let s = t - 272;
        lemma_ring_vertex(8, s, 8, s + 1);
    }
}

} // verus!
