//! Splitting a triangle mesh into GPU-sized patches, and laying quantized
//! patch data out as a structure-of-arrays blob.
//!
//! Vertex attributes are floating point and are quantized by the
//! application; here a vertex is known by its index in the mesh's vertex
//! list, and a quantized vertex by its integer fields.
use vstd::prelude::*;

verus! {

/// One patch of a split mesh, by vertex index: `vertices` lists the mesh
/// vertices the patch uses (its local vertex `k` is mesh vertex
/// `vertices[k]`), `indices` its triangles as local indices.
pub struct IndexPatch {
    /// Mesh vertex indices, in local order.
    pub vertices: Vec<u32>,
    /// Triangle indices, local to this patch.
    pub indices: Vec<u16>,
    /// Patch index (0-based) within the parent mesh.
    pub patch_index: usize,
}

/// A patch as mathematical sequences.
#[verifier::ext_equal]
pub struct PatchModel {
    pub verts: Seq<u32>,
    pub idx: Seq<u16>,
}

/// The empty patch.
pub open spec fn empty_patch() -> PatchModel {
    PatchModel { verts: Seq::empty(), idx: Seq::empty() }
}

/// The patch after adding mesh vertex `g` to its index list: its existing
/// local index when the patch already has it, else a new local vertex at the
/// end (numbered by the vertex count, as a `u16`).
pub open spec fn add_vertex(p: PatchModel, g: u32) -> PatchModel {
    if p.verts.contains(g) {
        PatchModel { verts: p.verts, idx: p.idx.push(p.verts.index_of(g) as u16) }
    } else {
        PatchModel { verts: p.verts.push(g), idx: p.idx.push(p.verts.len() as u16) }
    }
}

/// How many of the triangle's three vertex references the patch does not have
/// yet (a vertex repeated within the triangle counts each time).
pub open spec fn new_vertex_count(p: PatchModel, a: u32, b: u32, c: u32) -> nat {
    (if p.verts.contains(a) { 0nat } else { 1nat }) + (if p.verts.contains(b) { 0nat } else { 1nat })
        + (if p.verts.contains(c) { 0nat } else { 1nat })
}

/// Triangle `t` does not fit in the current (non-empty) patch: it would take
/// the vertex count past `max_vertices` or the index count past `max_indices`.
pub open spec fn must_close(p: PatchModel, a: u32, b: u32, c: u32, max_vertices: nat, max_indices: nat) -> bool {
    (p.verts.len() + new_vertex_count(p, a, b, c) > max_vertices || p.idx.len() + 3 > max_indices)
        && p.verts.len() > 0
}

/// The finished patches and the open patch after the first `n` triangles of
/// `indices`, under the greedy rule: a triangle that does not fit closes the
/// open patch (unless it is empty) and starts a new one.
pub open spec fn split_state(indices: Seq<u32>, n: nat, max_vertices: nat, max_indices: nat) -> (Seq<PatchModel>, PatchModel)
    decreases n,
{
    if n == 0 {
        (Seq::empty(), empty_patch())
    } else {
        let prev = split_state(indices, (n - 1) as nat, max_vertices, max_indices);
        let a = indices[3 * (n - 1)];
        let b = indices[3 * (n - 1) + 1];
        let c = indices[3 * (n - 1) + 2];
        let (done, cur) = if must_close(prev.1, a, b, c, max_vertices, max_indices) {
            (prev.0.push(prev.1), empty_patch())
        } else {
            prev
        };
        (done, add_vertex(add_vertex(add_vertex(cur, a), b), c))
    }
}

/// The patches of a mesh: the finished ones and the last open one, when it
/// is not empty. Trailing indices that do not make a whole triangle are ignored.
pub open spec fn split_patches(indices: Seq<u32>, max_vertices: nat, max_indices: nat) -> Seq<PatchModel> {
    let s = split_state(indices, indices.len() / 3, max_vertices, max_indices);
    if s.1.verts.len() > 0 {
        s.0.push(s.1)
    } else {
        s.0
    }
}

/// The model of an index patch.
pub open spec fn patch_model(p: &IndexPatch) -> PatchModel {
    PatchModel { verts: p.vertices@, idx: p.indices@ }
}

/// Local index of mesh vertex `g` in `verts`, if present.
fn find_vertex(verts: &Vec<u32>, g: u32) -> (r: Option<usize>)
    requires
        verts@.no_duplicates(),
    ensures
        r is Some <==> verts@.contains(g),
        r matches Some(k) ==> k < verts@.len() && k == verts@.index_of(g),
{
    let mut k: usize = 0;
    while k < verts.len()
        invariant
            k <= verts@.len(),
            verts@.no_duplicates(),
            forall|m: int| 0 <= m < k ==> verts@[m] != g,
        decreases verts@.len() - k,
    {
        if verts[k] == g {
            assert(verts@[k as int] == g);
            assert(verts@.contains(g));
            let ghost j = verts@.index_of(g);
            assert(verts@[j] == g);
            assert(j == k);
            return Some(k);
        }
        k = k + 1;
    }
    None
}

/// Add mesh vertex `g` to the open patch (see `add_vertex`).
fn push_vertex(verts: &mut Vec<u32>, idx: &mut Vec<u16>, g: u32)
    requires
        old(verts)@.no_duplicates(),
    ensures
        final(verts)@.no_duplicates(),
        (PatchModel { verts: final(verts)@, idx: final(idx)@ }) == add_vertex(
            (PatchModel { verts: old(verts)@, idx: old(idx)@ }),
            g,
        ),
{
    match find_vertex(verts, g) {
        Some(k) => {
            idx.push(k as u16);
        },
        None => {
            let local = verts.len() as u16;
            verts.push(g);
            idx.push(local);
        },
    }
}

/// Split a mesh's triangle list into patches of at most `max_vertices`
/// vertices and `max_indices` indices, greedily and in order (see
/// `split_patches`). A triangle that does not fit even in an empty patch
/// still gets one of its own.
pub fn split_into_index_patches(indices: &[u32], max_vertices: usize, max_indices: usize) -> (patches: Vec<IndexPatch>)
    ensures
        patches@.len() == split_patches(indices@, max_vertices as nat, max_indices as nat).len(),
        forall|i: int|
            0 <= i < patches@.len() ==> {
                &&& patch_model(&#[trigger] patches@[i]) == split_patches(
                    indices@,
                    max_vertices as nat,
                    max_indices as nat,
                )[i]
                &&& patches@[i].patch_index == i
            },
{
    let ghost mv = max_vertices as nat;
    let ghost mi = max_indices as nat;
    let mut patches: Vec<IndexPatch> = Vec::new();
    let mut current_verts: Vec<u32> = Vec::new();
    let mut current_indices: Vec<u16> = Vec::new();
    let mut patch_index: usize = 0;
    let len = indices.len();
    let n_tris = len / 3;
    let mut t: usize = 0;
    while t < n_tris
        invariant
            len == indices@.len(),
            mv == max_vertices as nat,
            mi == max_indices as nat,
            n_tris == indices@.len() / 3,
            t <= n_tris,
            current_verts@.no_duplicates(),
            current_verts@.len() <= current_indices@.len(),
            current_indices@.len() <= 3 * t,
            patch_index == patches@.len(),
            patches@.len() <= t,
            split_state(indices@, t as nat, mv, mi).1 == (PatchModel {
                verts: current_verts@,
                idx: current_indices@,
            }),
            split_state(indices@, t as nat, mv, mi).0.len() == patches@.len(),
            forall|i: int|
                0 <= i < patches@.len() ==> {
                    &&& patch_model(&#[trigger] patches@[i]) == split_state(indices@, t as nat, mv, mi).0[i]
                    &&& patches@[i].patch_index == i
                },
        decreases n_tris - t,
    {
        let ghost prev = split_state(indices@, t as nat, mv, mi);
        assert(prev.1.idx == current_indices@ && prev.1.verts == current_verts@);
        assert(3 * t + 2 < indices@.len()) by (nonlinear_arith)
            requires
                t < n_tris,
                n_tris == indices@.len() / 3,
        ;
        let i0 = indices[3 * t];
        let i1 = indices[3 * t + 1];
        let i2 = indices[3 * t + 2];
        let mut new_verts: usize = 0;
        if find_vertex(&current_verts, i0).is_none() {
            new_verts = new_verts + 1;
        }
        if find_vertex(&current_verts, i1).is_none() {
            new_verts = new_verts + 1;
        }
        if find_vertex(&current_verts, i2).is_none() {
            new_verts = new_verts + 1;
        }
        assert(new_verts == new_vertex_count(prev.1, i0, i1, i2));
        let ghost closes = must_close(prev.1, i0, i1, i2, mv, mi);
        let ghost mid = if closes {
            (prev.0.push(prev.1), empty_patch())
        } else {
            prev
        };
        assert(split_state(indices@, (t + 1) as nat, mv, mi) == (
            mid.0,
            add_vertex(add_vertex(add_vertex(mid.1, i0), i1), i2),
        ));
        let would_have_verts = current_verts.len() + new_verts;
        let would_have_indices = current_indices.len() + 3;
        assert(((would_have_verts > max_vertices || would_have_indices > max_indices)
            && current_verts.len() > 0) == closes);
        if (would_have_verts > max_vertices || would_have_indices > max_indices)
            && current_verts.len() > 0 {
            let finished = IndexPatch {
                vertices: current_verts,
                indices: current_indices,
                patch_index,
            };
            patches.push(finished);
            patch_index = patch_index + 1;
            current_verts = Vec::new();
            current_indices = Vec::new();
        }
        push_vertex(&mut current_verts, &mut current_indices, i0);
        push_vertex(&mut current_verts, &mut current_indices, i1);
        push_vertex(&mut current_verts, &mut current_indices, i2);
        assert(split_state(indices@, (t + 1) as nat, mv, mi).1 == PatchModel {
            verts: current_verts@,
            idx: current_indices@,
        });
        t = t + 1;
    }
    let ghost fin = split_state(indices@, n_tris as nat, mv, mi);
    if current_verts.len() > 0 {
        let last = IndexPatch { vertices: current_verts, indices: current_indices, patch_index };
        patches.push(last);
    }
    patches
}

/// Every local index of the patch names one of its vertices, and no mesh
/// vertex appears twice in it.
pub open spec fn patch_well_formed(p: PatchModel) -> bool {
    &&& p.verts.no_duplicates()
    &&& forall|k: int| 0 <= k < p.idx.len() ==> (#[trigger] p.idx[k] as int) < p.verts.len()
}

/// The mesh vertex indices that the patch's triangles refer to, in order.
pub open spec fn patch_triangles(p: PatchModel) -> Seq<u32> {
    p.idx.map_values(|k: u16| p.verts[k as int])
}

/// The mesh vertex indices referred to by all patches, one patch after another.
pub open spec fn flatten_patches(ps: Seq<PatchModel>) -> Seq<u32>
    decreases ps.len(),
{
    if ps.len() == 0 {
        seq![]
    } else {
        flatten_patches(ps.drop_last()) + patch_triangles(ps.last())
    }
}

proof fn lemma_add_vertex(p: PatchModel, g: u32)
    requires
        patch_well_formed(p),
        p.verts.len() <= 0x1_0000,
        !p.verts.contains(g) ==> p.verts.len() < 0x1_0000,
    ensures
        patch_well_formed(add_vertex(p, g)),
        patch_triangles(add_vertex(p, g)) == patch_triangles(p).push(g),
        add_vertex(p, g).verts.len() == p.verts.len() + (if p.verts.contains(g) { 0int } else { 1int }),
        add_vertex(p, g).idx.len() == p.idx.len() + 1,
        forall|x: u32| p.verts.contains(x) ==> add_vertex(p, g).verts.contains(x),
{
    let q = add_vertex(p, g);
    if p.verts.contains(g) {
        let j = p.verts.index_of(g);
        assert(0 <= j < p.verts.len() && p.verts[j] == g);
        assert(j < 0x1_0000);
        assert(q.idx[p.idx.len() as int] as int == j);
        assert forall|k: int| 0 <= k < q.idx.len() implies (#[trigger] q.idx[k] as int) < q.verts.len() by {
            if k < p.idx.len() {
                assert(q.idx[k] == p.idx[k]);
            }
        }
        assert(patch_triangles(q) =~= patch_triangles(p).push(g));
    } else {
        assert(q.idx[p.idx.len() as int] as int == p.verts.len());
        assert forall|k: int| 0 <= k < q.idx.len() implies (#[trigger] q.idx[k] as int) < q.verts.len() by {
            if k < p.idx.len() {
                assert(q.idx[k] == p.idx[k]);
            }
        }
        assert forall|a: int, b: int| 0 <= a < q.verts.len() && 0 <= b < q.verts.len() && a != b implies q.verts[a] != q.verts[b] by {
            if a < p.verts.len() && b < p.verts.len() {
            } else if a == p.verts.len() {
                assert(p.verts[b] != g);
            } else {
                assert(p.verts[a] != g);
            }
        }
        assert forall|k: int| 0 <= k < p.idx.len() implies #[trigger] q.verts[p.idx[k] as int] == p.verts[p.idx[k] as int] by {}
        assert(patch_triangles(q) =~= patch_triangles(p).push(g));
    }
    assert forall|x: u32| p.verts.contains(x) implies q.verts.contains(x) by {
        let j = choose|j: int| 0 <= j < p.verts.len() && p.verts[j] == x;
        assert(q.verts[j] == x);
    }
}

/// What the split keeps after each triangle: the finished patches are well
/// formed and non-empty, the open patch is well formed, and together they
/// refer to exactly the mesh vertices of the triangles so far.
pub open spec fn split_invariant(indices: Seq<u32>, n: nat, max_vertices: nat, max_indices: nat) -> bool {
    let st = split_state(indices, n, max_vertices, max_indices);
    let bound_v = if max_vertices >= 3 { max_vertices } else { 3 };
    &&& forall|i: int| 0 <= i < st.0.len() ==> patch_well_formed(#[trigger] st.0[i]) && st.0[i].verts.len() > 0
        && st.0[i].verts.len() <= bound_v && (max_indices >= 3 ==> st.0[i].idx.len() <= max_indices)
        && st.0[i].idx.len() >= 3 && st.0[i].idx.len() % 3 == 0
    &&& patch_well_formed(st.1)
    &&& st.1.idx.len() % 3 == 0
    &&& st.1.verts.len() <= bound_v
    &&& (max_indices >= 3 ==> st.1.idx.len() <= max_indices)
    &&& st.1.verts.len() <= st.1.idx.len()
    &&& (st.1.verts.len() == 0 ==> st.1.idx.len() == 0)
    &&& forall|j: int| 0 <= j < st.1.verts.len() ==> indices.contains(#[trigger] st.1.verts[j])
    &&& flatten_patches(st.0) + patch_triangles(st.1) == indices.take((3 * n) as int)
    &&& forall|i: int|
        0 <= i && i + 1 < st.0.len() ==> !first_triangle_fits(#[trigger] st.0[i], st.0[i + 1], max_vertices, max_indices)
    &&& st.0.len() > 0 ==> st.1.idx.len() >= 3 && !first_triangle_fits(st.0.last(), st.1, max_vertices, max_indices)
}

/// Triangle (a, b, c) fits into patch `p`: counting each of its vertex
/// references that the patch does not have yet, the patch stays within
/// `max_vertices` vertices, and with its three indices within `max_indices`.
pub open spec fn triangle_fits(p: PatchModel, a: u32, b: u32, c: u32, max_vertices: nat, max_indices: nat) -> bool {
    p.verts.len() + new_vertex_count(p, a, b, c) <= max_vertices && p.idx.len() + 3 <= max_indices
}

/// The first triangle of patch `q` fits into patch `p`.
pub open spec fn first_triangle_fits(p: PatchModel, q: PatchModel, max_vertices: nat, max_indices: nat) -> bool {
    let t = patch_triangles(q);
    triangle_fits(p, t[0], t[1], t[2], max_vertices, max_indices)
}

/// No patch can outgrow 16-bit local indices: the vertex limit or the index
/// limit is at most 65536, or the mesh refers to at most 65536 distinct
/// vertices.
pub open spec fn local_indices_fit(indices: Seq<u32>, max_vertices: nat, max_indices: nat) -> bool {
    max_vertices <= 0x1_0000 || max_indices <= 0x1_0000 || indices.to_set().len() <= 0x1_0000
}

/// A patch whose vertices all come from `indices`, without repeats, has at
/// most as many vertices as `indices` has distinct values, and fewer when some
/// value of `indices` is not among them.
proof fn lemma_room_for_vertex(verts: Seq<u32>, indices: Seq<u32>, g: u32)
    requires
        verts.no_duplicates(),
        forall|j: int| 0 <= j < verts.len() ==> indices.contains(#[trigger] verts[j]),
        indices.contains(g),
    ensures
        verts.len() <= indices.to_set().len(),
        !verts.contains(g) ==> verts.len() < indices.to_set().len(),
{
    broadcast use vstd::seq_lib::seq_to_set_is_finite;

    verts.unique_seq_to_set();
    assert(verts.to_set().subset_of(indices.to_set())) by {
        assert forall|x: u32| verts.to_set().contains(x) implies indices.to_set().contains(x) by {
            let j = choose|j: int| 0 <= j < verts.len() && verts[j] == x;
            assert(indices.contains(verts[j]));
        }
    }
    vstd::set_lib::lemma_len_subset(verts.to_set(), indices.to_set());
    if !verts.contains(g) {
        let w = verts.push(g);
        assert(w.no_duplicates()) by {
            assert forall|a: int, b: int| 0 <= a < w.len() && 0 <= b < w.len() && a != b implies w[a] != w[b] by {
                if a < verts.len() && b < verts.len() {
                } else if a == verts.len() {
                    assert(verts[b] != g);
                } else {
                    assert(verts[a] != g);
                }
            }
        }
        w.unique_seq_to_set();
        assert(w.to_set().subset_of(indices.to_set())) by {
            assert forall|x: u32| w.to_set().contains(x) implies indices.to_set().contains(x) by {
                let j = choose|j: int| 0 <= j < w.len() && w[j] == x;
                if j < verts.len() {
                    assert(w[j] == verts[j]);
                    assert(indices.contains(verts[j]));
                }
            }
        }
        vstd::set_lib::lemma_len_subset(w.to_set(), indices.to_set());
    }
}

/// The patch after adding `g` still draws its vertices from `indices`.
proof fn lemma_add_vertex_from(p: PatchModel, g: u32, indices: Seq<u32>)
    requires
        forall|j: int| 0 <= j < p.verts.len() ==> indices.contains(#[trigger] p.verts[j]),
        indices.contains(g),
    ensures
        forall|j: int| 0 <= j < add_vertex(p, g).verts.len() ==> indices.contains(#[trigger] add_vertex(p, g).verts[j]),
{
    let q = add_vertex(p, g);
    assert forall|j: int| 0 <= j < q.verts.len() implies indices.contains(#[trigger] q.verts[j]) by {
        if j < p.verts.len() {
            assert(q.verts[j] == p.verts[j]);
        }
    }
}

proof fn lemma_split_step(indices: Seq<u32>, n: nat, max_vertices: nat, max_indices: nat)
    requires
        3 * (n + 1) <= indices.len(),
        local_indices_fit(indices, max_vertices, max_indices),
        split_invariant(indices, n, max_vertices, max_indices),
    ensures
        split_invariant(indices, n + 1, max_vertices, max_indices),
{
    let prev = split_state(indices, n, max_vertices, max_indices);
    let a = indices[(3 * n) as int];
    let b = indices[(3 * n + 1) as int];
    let c = indices[(3 * n + 2) as int];
    assert(indices.contains(a) && indices.contains(b) && indices.contains(c));
    let bound_v = if max_vertices >= 3 { max_vertices } else { 3 };
    let closes = must_close(prev.1, a, b, c, max_vertices, max_indices);
    let mid = if closes { (prev.0.push(prev.1), empty_patch()) } else { prev };
    let next = split_state(indices, n + 1, max_vertices, max_indices);
    assert(next == (mid.0, add_vertex(add_vertex(add_vertex(mid.1, a), b), c)));
    let p0 = mid.1;
    assert(patch_well_formed(p0));
    assert(forall|j: int| 0 <= j < p0.verts.len() ==> indices.contains(#[trigger] p0.verts[j]));
    assert(p0.verts.len() == 0 || p0.verts.len() + new_vertex_count(p0, a, b, c) <= max_vertices);
    assert(p0.verts.len() + new_vertex_count(p0, a, b, c) <= bound_v);
    assert(p0.verts.len() == 0 || p0.idx.len() + 3 <= max_indices);
    // When a limit is at most 65536, the patch after this triangle stays
    // within 65536 vertices.
    let by_limits = max_vertices <= 0x1_0000 || max_indices <= 0x1_0000;
    assert(by_limits ==> p0.verts.len() + new_vertex_count(p0, a, b, c) <= 0x1_0000);
    if !by_limits {
        lemma_room_for_vertex(p0.verts, indices, a);
    }
    lemma_add_vertex(p0, a);
    lemma_add_vertex_from(p0, a, indices);
    let p1 = add_vertex(p0, a);
    assert(!p1.verts.contains(b) ==> !p0.verts.contains(b));
    if !by_limits {
        lemma_room_for_vertex(p1.verts, indices, b);
    }
    lemma_add_vertex(p1, b);
    lemma_add_vertex_from(p1, b, indices);
    let p2 = add_vertex(p1, b);
    assert(!p2.verts.contains(c) ==> !p1.verts.contains(c));
    assert(!p2.verts.contains(c) ==> !p0.verts.contains(c));
    assert(p2.verts.len() <= p0.verts.len() + new_vertex_count(p0, a, b, c));
    if !by_limits {
        lemma_room_for_vertex(p2.verts, indices, c);
    }
    lemma_add_vertex(p2, c);
    lemma_add_vertex_from(p2, c, indices);
    let p3 = add_vertex(p2, c);
    assert(p3.verts.len() <= p0.verts.len() + new_vertex_count(p0, a, b, c));
    assert(patch_triangles(p3) == patch_triangles(p0).push(a).push(b).push(c));
    assert(indices.take((3 * (n + 1)) as int) =~= indices.take((3 * n) as int).push(a).push(b).push(c));
    if closes {
        assert(mid.0.drop_last() =~= prev.0);
        assert(flatten_patches(mid.0) == flatten_patches(prev.0) + patch_triangles(prev.1));
        assert(patch_triangles(p0) =~= Seq::<u32>::empty());
        assert(flatten_patches(mid.0) + patch_triangles(p3) =~= indices.take((3 * (n + 1)) as int));
        assert(patch_triangles(p3) =~= seq![a, b, c]);
        assert(!first_triangle_fits(prev.1, p3, max_vertices, max_indices));
        assert forall|i: int|
            0 <= i && i + 1 < mid.0.len() implies !first_triangle_fits(
            #[trigger] mid.0[i],
            mid.0[i + 1],
            max_vertices,
            max_indices,
        ) by {
            if i + 1 < prev.0.len() {
                assert(mid.0[i] == prev.0[i] && mid.0[i + 1] == prev.0[i + 1]);
            } else {
                assert(mid.0[i] == prev.0.last() && mid.0[i + 1] == prev.1);
            }
        }
    } else {
        assert(flatten_patches(mid.0) + patch_triangles(p3) =~= indices.take((3 * (n + 1)) as int));
        if prev.0.len() > 0 {
            let t0 = patch_triangles(p0);
            let t3 = patch_triangles(p3);
            assert(t3 == t0.push(a).push(b).push(c));
            assert(t0.len() >= 3);
            assert(t3[0] == t0[0] && t3[1] == t0[1] && t3[2] == t0[2]);
        }
    }
}

proof fn lemma_split_invariant(indices: Seq<u32>, n: nat, max_vertices: nat, max_indices: nat)
    requires
        3 * n <= indices.len(),
        local_indices_fit(indices, max_vertices, max_indices),
    ensures
        split_invariant(indices, n, max_vertices, max_indices),
    decreases n,
{
    if n == 0 {
        assert(patch_triangles(empty_patch()) =~= Seq::<u32>::empty());
        assert(indices.take(0) =~= Seq::<u32>::empty());
        assert(flatten_patches(Seq::<PatchModel>::empty()) =~= Seq::<u32>::empty());
    } else {
        lemma_split_invariant(indices, (n - 1) as nat, max_vertices, max_indices);
        lemma_split_step(indices, (n - 1) as nat, max_vertices, max_indices);
    }
}

/// Splitting into patches loses and invents nothing: the patches' triangles,
/// one patch after another and read through each patch's vertex list, are the
/// mesh's triangle list (its whole triangles). Every patch is non-empty, uses
/// only vertices it lists, and lists no vertex twice; it holds whole
/// triangles, at least one; when the limits allow at least one triangle, no
/// patch exceeds them. And the split is greedy: a patch is closed only when
/// the first triangle of the next one does not fit into it. Local indices are 16-bit, so
/// splits where a patch could outgrow them are left out (`local_indices_fit`).
pub proof fn law_split_reconstructs_mesh(indices: Seq<u32>, max_vertices: nat, max_indices: nat)
    requires
        local_indices_fit(indices, max_vertices, max_indices),
    ensures
        flatten_patches(split_patches(indices, max_vertices, max_indices)) == indices.take(
            (3 * (indices.len() / 3)) as int,
        ),
        forall|i: int|
            0 <= i < split_patches(indices, max_vertices, max_indices).len() ==> {
                let p = #[trigger] split_patches(indices, max_vertices, max_indices)[i];
                &&& patch_well_formed(p)
                &&& p.verts.len() > 0
                &&& max_vertices >= 3 ==> p.verts.len() <= max_vertices
                &&& max_indices >= 3 ==> p.idx.len() <= max_indices
                &&& p.idx.len() >= 3 && p.idx.len() % 3 == 0
            },
        forall|i: int|
            0 <= i && i + 1 < split_patches(indices, max_vertices, max_indices).len() ==> !first_triangle_fits(
                #[trigger] split_patches(indices, max_vertices, max_indices)[i],
                split_patches(indices, max_vertices, max_indices)[i + 1],
                max_vertices,
                max_indices,
            ),
{
    let n = indices.len() / 3;
    lemma_split_invariant(indices, n, max_vertices, max_indices);
    let st = split_state(indices, n, max_vertices, max_indices);
    if st.1.verts.len() > 0 {
        assert(st.0.push(st.1).drop_last() =~= st.0);
        let ps = st.0.push(st.1);
        assert forall|i: int| 0 <= i && i + 1 < ps.len() implies !first_triangle_fits(
            #[trigger] ps[i],
            ps[i + 1],
            max_vertices,
            max_indices,
        ) by {
            if i + 1 < st.0.len() {
                assert(ps[i] == st.0[i] && ps[i + 1] == st.0[i + 1]);
            } else {
                assert(ps[i] == st.0.last() && ps[i + 1] == st.1);
            }
        }
    } else {
        assert(patch_triangles(st.1) =~= Seq::<u32>::empty());
        assert(flatten_patches(st.0) + patch_triangles(st.1) =~= flatten_patches(st.0));
    }
}

/// A vertex after quantization: position as u16 on the mesh AABB, normal as
/// Q1.15, UV as Q2.13 (the latter two signed).
#[derive(Clone, Copy, Debug)]
pub struct QuantizedVertex {
    pub position: [u16; 3],
    pub normal: [i16; 3],
    pub uv: [i16; 2],
}

/// Number of 16-bit attribute columns per vertex: position x/y/z, normal
/// x/y/z, u, v.
pub const SOA_COLUMNS: usize = 8;

/// The 16-bit pattern of attribute column `f` of a vertex (signed values in
/// two's complement).
pub open spec fn column_value(v: QuantizedVertex, f: int) -> u16 {
    if f < 3 {
        v.position[f]
    } else if f < 6 {
        v.normal[f - 3] as u16
    } else {
        v.uv[f - 6] as u16
    }
}

/// Attribute column `f` of all vertices, in vertex order.
pub open spec fn column(vs: Seq<QuantizedVertex>, f: int) -> Seq<u16> {
    vs.map_values(|v: QuantizedVertex| column_value(v, f))
}

/// Little-endian bytes of a 16-bit value.
pub open spec fn le16(v: u16) -> Seq<u8> {
    seq![(v % 256) as u8, (v / 256) as u8]
}

/// Little-endian bytes of a sequence of 16-bit values, one after the other.
pub open spec fn le16_seq(vals: Seq<u16>) -> Seq<u8>
    decreases vals.len(),
{
    if vals.len() == 0 {
        seq![]
    } else {
        le16_seq(vals.drop_last()) + le16(vals.last())
    }
}

/// The first `k` attribute columns, each column complete before the next.
pub open spec fn columns_bytes(vs: Seq<QuantizedVertex>, k: nat) -> Seq<u8>
    decreases k,
{
    if k == 0 {
        seq![]
    } else {
        columns_bytes(vs, (k - 1) as nat) + le16_seq(column(vs, k - 1))
    }
}

/// The SoA blob of a patch: position x, y, z columns, normal x, y, z
/// columns, u column, v column, then the indices; all 16-bit little-endian.
pub open spec fn soa_blob(vs: Seq<QuantizedVertex>, indices: Seq<u16>) -> Seq<u8> {
    columns_bytes(vs, 8) + le16_seq(indices)
}

fn push_le16(blob: &mut Vec<u8>, v: u16)
    ensures
        final(blob)@ == old(blob)@ + le16(v),
{
    assert((v & 0xFF) == v % 256 && (v >> 8u16) == v / 256) by (bit_vector);
    blob.push((v & 0xFF) as u8);
    blob.push((v >> 8) as u8);
    assert(blob@ =~= old(blob)@ + le16(v));
}

fn column_value_exec(v: &QuantizedVertex, f: usize) -> (c: u16)
    requires
        f < SOA_COLUMNS,
    ensures
        c == column_value(*v, f as int),
{
    if f < 3 {
        v.position[f]
    } else if f < 6 {
        v.normal[f - 3] as u16
    } else {
        v.uv[f - 6] as u16
    }
}

/// Pack quantized vertex data and indices into one contiguous SoA blob
/// (see `soa_blob`): N x 16 + M x 2 bytes.
pub fn pack_soa_blob_quantized(vertices: &[QuantizedVertex], indices: &[u16]) -> (blob: Vec<u8>)
    ensures
        blob@ == soa_blob(vertices@, indices@),
{
    let mut blob: Vec<u8> = Vec::new();
    let mut f: usize = 0;
    while f < SOA_COLUMNS
        invariant
            f <= SOA_COLUMNS,
            blob@ == columns_bytes(vertices@, f as nat),
        decreases SOA_COLUMNS - f,
    {
        let ghost before = blob@;
        let mut i: usize = 0;
        while i < vertices.len()
            invariant
                f < SOA_COLUMNS,
                i <= vertices@.len(),
                blob@ == before + le16_seq(column(vertices@, f as int).take(i as int)),
            decreases vertices@.len() - i,
        {
            let c = column_value_exec(&vertices[i], f);
            push_le16(&mut blob, c);
            assert(column(vertices@, f as int).take(i + 1).drop_last() =~= column(
                vertices@,
                f as int,
            ).take(i as int));
            i = i + 1;
        }
        assert(column(vertices@, f as int).take(i as int) =~= column(vertices@, f as int));
        f = f + 1;
    }
    let ghost before = blob@;
    let mut j: usize = 0;
    while j < indices.len()
        invariant
            j <= indices@.len(),
            blob@ == before + le16_seq(indices@.take(j as int)),
        decreases indices@.len() - j,
    {
        push_le16(&mut blob, indices[j]);
        assert(indices@.take(j + 1).drop_last() =~= indices@.take(j as int));
        j = j + 1;
    }
    assert(indices@.take(j as int) =~= indices@);
    blob
}

proof fn lemma_le16_seq(vals: Seq<u16>)
    ensures
        le16_seq(vals).len() == 2 * vals.len(),
        forall|i: int|
            0 <= i < vals.len() ==> le16_seq(vals)[2 * i] == (#[trigger] vals[i]) % 256
                && le16_seq(vals)[2 * i + 1] == vals[i] / 256,
    decreases vals.len(),
{
    if vals.len() > 0 {
        lemma_le16_seq(vals.drop_last());
        assert forall|i: int| 0 <= i < vals.len() implies le16_seq(vals)[2 * i] == (
        #[trigger] vals[i]) % 256 && le16_seq(vals)[2 * i + 1] == vals[i] / 256 by {
            if i < vals.len() - 1 {
                assert(vals.drop_last()[i] == vals[i]);
            }
        }
    }
}

proof fn lemma_columns_bytes(vs: Seq<QuantizedVertex>, k: nat)
    ensures
        columns_bytes(vs, k).len() == 2 * k * vs.len(),
        forall|f: int, i: int|
            0 <= f < k && 0 <= i < vs.len() ==> columns_bytes(vs, k)[2 * (f * vs.len() + i)]
                == #[trigger] column_value(vs[i], f) % 256 && columns_bytes(vs, k)[2 * (f
                * vs.len() + i) + 1] == column_value(vs[i], f) / 256,
    decreases k,
{
    if k == 0 {
        assert(2 * k * vs.len() == 0) by (nonlinear_arith)
            requires
                k == 0,
        ;
    } else {
        let n = vs.len();
        lemma_columns_bytes(vs, (k - 1) as nat);
        let col = column(vs, k - 1);
        lemma_le16_seq(col);
        assert(col.len() == n);
        assert(2 * k * n == 2 * (k - 1) * n + 2 * n) by (nonlinear_arith);
        assert forall|f: int, i: int| 0 <= f < k && 0 <= i < n implies columns_bytes(vs, k)[2 * (f
            * n + i)] == #[trigger] column_value(vs[i], f) % 256 && columns_bytes(vs, k)[2 * (f * n
            + i) + 1] == column_value(vs[i], f) / 256 by {
            if f < k - 1 {
                assert(2 * (f * n + i) + 1 < 2 * (k - 1) * n) by (nonlinear_arith)
                    requires
                        0 <= f < k - 1,
                        0 <= i < n,
                ;
            } else {
                assert(2 * (f * n + i) == 2 * (k - 1) * n + 2 * i) by (nonlinear_arith)
                    requires
                        f == k - 1,
                ;
                assert(col[i] == column_value(vs[i], f));
            }
        }
    }
}

/// The SoA blob is 16 bytes per vertex plus 2 per index. Attribute column
/// `f` (position x, y, z, normal x, y, z, u, v) of vertex `i` is the
/// little-endian 16-bit value at byte offset 2 * (f * N + i), and index `j`
/// the one at 16 * N + 2 * j.
pub proof fn law_soa_blob_layout(vs: Seq<QuantizedVertex>, indices: Seq<u16>)
    ensures
        soa_blob(vs, indices).len() == 16 * vs.len() + 2 * indices.len(),
        forall|f: int, i: int|
            0 <= f < 8 && 0 <= i < vs.len() ==> soa_blob(vs, indices)[2 * (f * vs.len() + i)]
                == #[trigger] column_value(vs[i], f) % 256 && soa_blob(vs, indices)[2 * (f
                * vs.len() + i) + 1] == column_value(vs[i], f) / 256,
        forall|j: int|
            0 <= j < indices.len() ==> soa_blob(vs, indices)[16 * vs.len() + 2 * j] == (
            #[trigger] indices[j]) % 256 && soa_blob(vs, indices)[16 * vs.len() + 2 * j + 1]
                == indices[j] / 256,
{
    let n = vs.len();
    lemma_columns_bytes(vs, 8);
    lemma_le16_seq(indices);
    assert forall|f: int, i: int| 0 <= f < 8 && 0 <= i < n implies soa_blob(vs, indices)[2 * (f * n
        + i)] == #[trigger] column_value(vs[i], f) % 256 && soa_blob(vs, indices)[2 * (f * n + i)
        + 1] == column_value(vs[i], f) / 256 by {
        assert(2 * (f * n + i) + 1 < 16 * n) by (nonlinear_arith)
            requires
                0 <= f < 8,
                0 <= i < n,
        ;
    }
}

} // verus!
