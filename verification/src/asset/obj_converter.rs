//! Merging the models of an OBJ file into one mesh: the integer side.
//!
//! Each model's vertices are appended to one vertex list, so its triangle
//! indices move up by the number of vertices of the models before it. Vertex
//! attributes are floating point and are copied by the application; here a
//! model is known by the length of its position list and its indices.
use vstd::prelude::*;

verus! {

/// The integer shape of one model: how many position components it has
/// (three per vertex) and its triangle indices, local to the model.
pub struct ModelIndices {
    /// Length of the model's flat position list.
    pub position_len: usize,
    /// Triangle indices into the model's own vertices.
    pub indices: Vec<u32>,
}

/// The same model as mathematical values.
pub struct ModelShape {
    pub position_len: nat,
    pub indices: Seq<u32>,
}

/// The shape of a model.
pub open spec fn model_shape(m: &ModelIndices) -> ModelShape {
    ModelShape { position_len: m.position_len as nat, indices: m.indices@ }
}

/// The vertices a model contributes: none when it has no positions, else
/// one per three position components.
pub open spec fn contributed_vertices(m: ModelShape) -> nat {
    if m.position_len == 0 {
        0
    } else {
        m.position_len / 3
    }
}

/// Number of merged vertices that come before model `k`.
pub open spec fn vertex_offset(ms: Seq<ModelShape>, k: nat) -> nat
    decreases k,
{
    if k == 0 {
        0
    } else {
        vertex_offset(ms, (k - 1) as nat) + contributed_vertices(ms[k - 1])
    }
}

/// A model's indices, shifted by `offset`.
pub open spec fn shifted(indices: Seq<u32>, offset: nat) -> Seq<int> {
    indices.map_values(|i: u32| i + offset)
}

/// The merged index list of the first `k` models: each model with positions
/// contributes its indices shifted by its vertex offset; a model without
/// positions contributes nothing.
pub open spec fn merged_indices(ms: Seq<ModelShape>, k: nat) -> Seq<int>
    decreases k,
{
    if k == 0 {
        seq![]
    } else {
        let m = ms[k - 1];
        let rest = merged_indices(ms, (k - 1) as nat);
        if m.position_len == 0 {
            rest
        } else {
            rest + shifted(m.indices, vertex_offset(ms, (k - 1) as nat))
        }
    }
}

/// The merge stays within `u32`: the running vertex count and every shifted
/// index fit.
pub open spec fn merge_fits(ms: Seq<ModelShape>) -> bool {
    &&& vertex_offset(ms, ms.len()) <= u32::MAX
    &&& forall|k: int, j: int|
        0 <= k < ms.len() && ms[k].position_len > 0 && 0 <= j < ms[k].indices.len() ==> #[trigger] ms[k].indices[j]
            + vertex_offset(ms, k as nat) <= u32::MAX
}

proof fn lemma_offset_monotone(ms: Seq<ModelShape>, a: nat, b: nat)
    requires
        a <= b,
    ensures
        vertex_offset(ms, a) <= vertex_offset(ms, b),
    decreases b,
{
    if a < b {
        lemma_offset_monotone(ms, a, (b - 1) as nat);
    }
}

/// Whether merging `models` stays within `u32` (`merge_fits`), so that
/// `merge_model_indices` may be called on them.
pub fn merge_model_indices_fits(models: &[ModelIndices]) -> (b: bool)
    ensures
        b == merge_fits(models@.map_values(|m: ModelIndices| model_shape(&m))),
{
    let ghost ms = models@.map_values(|m: ModelIndices| model_shape(&m));
    let mut offset: u64 = 0;
    let mut k: usize = 0;
    while k < models.len()
        invariant
            ms == models@.map_values(|m: ModelIndices| model_shape(&m)),
            k <= models.len(),
            offset == vertex_offset(ms, k as nat),
            offset <= u32::MAX,
            forall|a: int, j: int|
                0 <= a < k && ms[a].position_len > 0 && 0 <= j < ms[a].indices.len() ==> #[trigger] ms[a].indices[j]
                    + vertex_offset(ms, a as nat) <= u32::MAX,
        decreases models.len() - k,
    {
        let m = &models[k];
        assert(model_shape(m) == ms[k as int]);
        if m.position_len > 0 {
            let mut j: usize = 0;
            while j < m.indices.len()
                invariant
                    ms == models@.map_values(|m: ModelIndices| model_shape(&m)),
                    k < models.len(),
                    m == &models[k as int],
                    model_shape(m) == ms[k as int],
                    m.position_len > 0,
                    ms.len() == models.len(),
                    offset == vertex_offset(ms, k as nat),
                    offset <= u32::MAX,
                    j <= m.indices.len(),
                    forall|b: int| 0 <= b < j ==> ms[k as int].indices[b] + offset <= u32::MAX,
                decreases m.indices.len() - j,
            {
                if m.indices[j] as u64 + offset > u32::MAX as u64 {
                    assert(ms[k as int].indices[j as int] + vertex_offset(ms, k as nat) > u32::MAX);
                    return false;
                }
                j = j + 1;
            }
            let count = (m.position_len / 3) as u64;
            assert(vertex_offset(ms, (k + 1) as nat) == offset + count);
            if offset + count > u32::MAX as u64 {
                proof {
                    lemma_offset_monotone(ms, (k + 1) as nat, ms.len());
                }
                return false;
            }
            offset = offset + count;
        }
        k = k + 1;
    }
    true
}

/// Merge the index lists of `models` into one, shifting each model's indices
/// by the number of vertices of the models before it (models without
/// positions are skipped). Returns the merged indices and the number of
/// merged vertices.
///
/// A merge that would leave `u32` is left out: there the running counts
/// overflow.
pub fn merge_model_indices(models: &[ModelIndices]) -> (r: (Vec<u32>, u32))
    requires
        merge_fits(models@.map_values(|m: ModelIndices| model_shape(&m))),
    ensures
        ({
            let ms = models@.map_values(|m: ModelIndices| model_shape(&m));
            &&& r.0@.map_values(|i: u32| i as int) == merged_indices(ms, ms.len())
            &&& r.1 == vertex_offset(ms, ms.len())
        }),
{
    let ghost ms = models@.map_values(|m: ModelIndices| model_shape(&m));
    let mut out: Vec<u32> = Vec::new();
    let mut offset: u32 = 0;
    let mut k: usize = 0;
    while k < models.len()
        invariant
            ms == models@.map_values(|m: ModelIndices| model_shape(&m)),
            merge_fits(ms),
            k <= models.len(),
            offset == vertex_offset(ms, k as nat),
            out@.map_values(|i: u32| i as int) == merged_indices(ms, k as nat),
        decreases models.len() - k,
    {
        let m = &models[k];
        assert(model_shape(m) == ms[k as int]);
        proof {
            lemma_offset_monotone(ms, (k + 1) as nat, ms.len());
        }
        if m.position_len > 0 {
            let ghost before = out@;
            let mut j: usize = 0;
            while j < m.indices.len()
                invariant
                    ms == models@.map_values(|m: ModelIndices| model_shape(&m)),
                    merge_fits(ms),
                    k < models.len(),
                    m == &models[k as int],
                    model_shape(m) == ms[k as int],
                    m.position_len > 0,
                    offset == vertex_offset(ms, k as nat),
                    j <= m.indices.len(),
                    out@.len() == before.len() + j,
                    forall|a: int| 0 <= a < before.len() ==> out@[a] == before[a],
                    forall|a: int| 0 <= a < j ==> out@[before.len() + a] as int == m.indices@[a] + offset,
                decreases m.indices.len() - j,
            {
                assert(ms[k as int].indices[j as int] + vertex_offset(ms, k as nat) <= u32::MAX);
                out.push(m.indices[j] + offset);
                j = j + 1;
            }
            assert(out@.map_values(|i: u32| i as int) =~= before.map_values(|i: u32| i as int) + shifted(
                m.indices@,
                offset as nat,
            ));
            offset = offset + (m.position_len / 3) as u32;
        }
        k = k + 1;
    }
    assert(ms.len() == models@.len());
    (out, offset)
}

} // verus!
