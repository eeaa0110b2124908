//! Layout of the geometry buffers: one tightly packed buffer per vertex
//! attribute, bound to a fixed slot, and one element buffer of triangle
//! indices. The plan is checked here; the host performs the uploads.
use vstd::prelude::*;

verus! {

/// The most components a vertex attribute can have.
pub const MAX_COMPONENTS: usize = 4;

/// One vertex stream's binding: the attribute slot it feeds and how many
/// components each vertex has in it. Streams are tightly packed, so the
/// stride is always zero.
#[derive(Clone, Copy, Debug, PartialEq, Eq, Structural)]
pub struct AttributeLayout {
    pub slot: u32,
    pub components: usize,
}

/// The checked plan for a geometry: one binding per vertex stream, in the
/// order given, and the number of indices to draw.
pub struct GeometryPlan {
    pub attributes: Vec<AttributeLayout>,
    pub index_count: usize,
}

/// Why a geometry cannot be built.
#[derive(Clone, Copy, Debug, PartialEq, Eq, Structural)]
pub enum LayoutError {
    /// The vertex count is zero.
    NoVertices,
    /// The number of slots differs from the number of streams.
    SlotCountMismatch,
    /// The stream at this position does not hold one to four whole
    /// components per vertex.
    UnevenStream(usize),
    /// The index sequence does not make whole triangles.
    IncompleteTriangle,
    /// The index at this position names no vertex.
    IndexOutOfRange(usize),
}

/// A stream of `len` values holds `vertex_count` vertices of one to four
/// components each.
pub open spec fn stream_fits(len: nat, vertex_count: nat) -> bool {
    &&& vertex_count > 0
    &&& len % vertex_count == 0
    &&& 1 <= len / vertex_count <= MAX_COMPONENTS
}

/// Every stream before position `k` fits.
pub open spec fn fit_before(lens: Seq<usize>, vertex_count: nat, k: int) -> bool {
    forall|j: int| 0 <= j < k ==> stream_fits(#[trigger] lens[j] as nat, vertex_count)
}

/// Every index before position `k` names a vertex.
pub open spec fn in_range_before(indices: Seq<u16>, vertex_count: nat, k: int) -> bool {
    forall|j: int| 0 <= j < k ==> (#[trigger] indices[j] as nat) < vertex_count
}

/// Checks a geometry of `vertex_count` vertices whose streams hold
/// `stream_lens[i]` values each, bound to `slots[i]`, drawn with `indices`,
/// and gives each stream's binding. The checks run in this order and the
/// first that fails is reported: a vertex count of zero, a slot count
/// different from the stream count, the first stream that does not hold one
/// to four components per vertex, an index count that is no multiple of
/// three, the first index that names no vertex.
pub fn plan_geometry(
    stream_lens: &Vec<usize>,
    slots: &Vec<u32>,
    indices: &Vec<u16>,
    vertex_count: usize,
) -> (r: Result<GeometryPlan, LayoutError>)
    ensures
        match r {
            Ok(plan) => {
                &&& vertex_count > 0
                &&& slots@.len() == stream_lens@.len()
                &&& fit_before(stream_lens@, vertex_count as nat, stream_lens@.len() as int)
                &&& indices@.len() % 3 == 0
                &&& in_range_before(indices@, vertex_count as nat, indices@.len() as int)
                &&& plan.attributes@.len() == stream_lens@.len()
                &&& forall|i: int|
                    0 <= i < stream_lens@.len() ==> #[trigger] plan.attributes@[i] == (
                    AttributeLayout {
                        slot: slots@[i],
                        components: (stream_lens@[i] / vertex_count) as usize,
                    })
                &&& plan.index_count == indices@.len()
            },
            Err(LayoutError::NoVertices) => vertex_count == 0,
            Err(LayoutError::SlotCountMismatch) => {
                &&& vertex_count > 0
                &&& slots@.len() != stream_lens@.len()
            },
            Err(LayoutError::UnevenStream(i)) => {
                &&& vertex_count > 0
                &&& slots@.len() == stream_lens@.len()
                &&& i < stream_lens@.len()
                &&& !stream_fits(stream_lens@[i as int] as nat, vertex_count as nat)
                &&& fit_before(stream_lens@, vertex_count as nat, i as int)
            },
            Err(LayoutError::IncompleteTriangle) => {
                &&& vertex_count > 0
                &&& slots@.len() == stream_lens@.len()
                &&& fit_before(stream_lens@, vertex_count as nat, stream_lens@.len() as int)
                &&& indices@.len() % 3 != 0
            },
            Err(LayoutError::IndexOutOfRange(p)) => {
                &&& vertex_count > 0
                &&& slots@.len() == stream_lens@.len()
                &&& fit_before(stream_lens@, vertex_count as nat, stream_lens@.len() as int)
                &&& indices@.len() % 3 == 0
                &&& p < indices@.len()
                &&& indices@[p as int] as nat >= vertex_count
                &&& in_range_before(indices@, vertex_count as nat, p as int)
            },
        },
{
    if vertex_count == 0 {
        return Err(LayoutError::NoVertices);
    }
    if slots.len() != stream_lens.len() {
        return Err(LayoutError::SlotCountMismatch);
    }
    let mut attributes: Vec<AttributeLayout> = Vec::new();
    let mut i: usize = 0;
    while i < stream_lens.len()
        invariant
            vertex_count > 0,
            slots@.len() == stream_lens@.len(),
            i <= stream_lens@.len(),
            fit_before(stream_lens@, vertex_count as nat, i as int),
            attributes@.len() == i,
            forall|j: int|
                0 <= j < i ==> #[trigger] attributes@[j] == (AttributeLayout {
                    slot: slots@[j],
                    components: (stream_lens@[j] / vertex_count) as usize,
                }),
        decreases stream_lens@.len() - i,
    {
        let len = stream_lens[i];
        let components = len / vertex_count;
        if len % vertex_count != 0 || components == 0 || components > MAX_COMPONENTS {
            return Err(LayoutError::UnevenStream(i));
        }
        attributes.push(AttributeLayout { slot: slots[i], components });
        i = i + 1;
    }
    if indices.len() % 3 != 0 {
        return Err(LayoutError::IncompleteTriangle);
    }
    let mut p: usize = 0;
    while p < indices.len()
        invariant
            vertex_count > 0,
            slots@.len() == stream_lens@.len(),
            fit_before(stream_lens@, vertex_count as nat, stream_lens@.len() as int),
            indices@.len() % 3 == 0,
            p <= indices@.len(),
            in_range_before(indices@, vertex_count as nat, p as int),
        decreases indices@.len() - p,
    {
        if indices[p] as usize >= vertex_count {
            return Err(LayoutError::IndexOutOfRange(p));
        }
        p = p + 1;
    }
    Ok(GeometryPlan { attributes, index_count: indices.len() })
}

} // verus!
