//! Vertex data layout: stride and byte-offset arithmetic for an interleaved
//! float vertex format, element counts and buffer sizes, and index-buffer
//! bounds checking.

use vstd::prelude::*;

verus! {

/// Bytes in one 32-bit float vertex component.
pub const FLOAT_BYTES: u32 = 4;

/// Largest component count `glVertexAttribPointer` accepts for one attribute.
pub const MAX_ATTRIBUTE_COMPONENTS: u32 = 4;

/// One attribute of an interleaved vertex format, as handed to
/// `glVertexAttribPointer`: its location, its number of float components,
/// and its byte offset from the start of a vertex.
#[derive(Clone, Copy, PartialEq, Eq, Structural, Debug)]
pub struct VertexAttribute {
    pub location: u32,
    pub components: u32,
    pub offset_bytes: u32,
}

/// Total float components of the first `n` attributes of `counts`.
pub open spec fn components_before(counts: Seq<u32>, n: int) -> int
    decreases n,
{
    if n <= 0 {
        0
    } else {
        components_before(counts, n - 1) + counts[n - 1]
    }
}

/// Every attribute has between one and four float components, as OpenGL
/// demands.
pub open spec fn counts_well_formed(counts: Seq<u32>) -> bool {
    forall|i: int| 0 <= i < counts.len() ==> 1 <= #[trigger] counts[i] <= MAX_ATTRIBUTE_COMPONENTS
}

/// `attrs` with stride `stride` is the interleaved layout of the attributes
/// whose component counts are `counts`: locations in order, each offset the
/// byte size of the components before it, the stride the byte size of a
/// whole vertex.
pub open spec fn is_layout_of(counts: Seq<u32>, attrs: Seq<VertexAttribute>, stride: u32) -> bool {
    &&& attrs.len() == counts.len()
    &&& stride == FLOAT_BYTES * components_before(counts, counts.len() as int)
    &&& forall|i: int|
        0 <= i < attrs.len() ==> attrs[i] == (VertexAttribute {
            location: i as u32,
            components: counts[i],
            offset_bytes: (FLOAT_BYTES * components_before(counts, i)) as u32,
        })
}

/// Prefixes of the component sum grow with their length.
pub proof fn lemma_components_before_monotonic(counts: Seq<u32>, i: int, j: int)
    requires
        0 <= i <= j <= counts.len(),
    ensures
        components_before(counts, i) <= components_before(counts, j),
    decreases j - i,
{
    if i < j {
        lemma_components_before_monotonic(counts, i, j - 1);
    }
}

/// The stride and the offsets of an interleaved layout with well-formed
/// counts, laid out by `interleaved_layout`.
pub fn interleaved_layout(counts: &Vec<u32>) -> (r: Option<(Vec<VertexAttribute>, u32)>)
    ensures
        (r is Some) == (counts_well_formed(counts@) && FLOAT_BYTES * components_before(
            counts@,
            counts@.len() as int,
        ) <= u32::MAX),
        r matches Some(p) ==> is_layout_of(counts@, p.0@, p.1),
{
    let mut attrs: Vec<VertexAttribute> = Vec::new();
    let mut total_bytes: u32 = 0;
    let mut k: usize = 0;
    while k < counts.len()
        invariant
            k <= counts@.len(),
            counts_well_formed(counts@.subrange(0, k as int)),
            total_bytes == FLOAT_BYTES * components_before(counts@, k as int),
            attrs@.len() == k,
            forall|i: int|
                0 <= i < k ==> attrs@[i] == (VertexAttribute {
                    location: i as u32,
                    components: counts@[i],
                    offset_bytes: (FLOAT_BYTES * components_before(counts@, i)) as u32,
                }),
        decreases counts@.len() - k,
    {
        let c = counts[k];
        if c < 1 || c > MAX_ATTRIBUTE_COMPONENTS {
            proof {
                assert(!counts_well_formed(counts@));
            }
            return None;
        }
        let step = FLOAT_BYTES * c;
        if total_bytes > u32::MAX - step {
            proof {
                lemma_components_before_monotonic(counts@, k + 1, counts@.len() as int);
            }
            return None;
        }
        attrs.push(VertexAttribute { location: k as u32, components: c, offset_bytes: total_bytes });
        total_bytes = total_bytes + step;
        k = k + 1;
        proof {
            assert(counts_well_formed(counts@.subrange(0, k as int)));
        }
    }
    proof {
        assert(counts@.subrange(0, counts@.len() as int) =~= counts@);
    }
    Some((attrs, total_bytes))
}

/// The attributes of a layout tile a vertex with no gap and no overlap: each
/// one's bytes end exactly where the next one's begin, and the last ends
/// exactly at the stride. In particular every attribute lies within the
/// stride.
pub proof fn lemma_layout_contiguous(
    counts: Seq<u32>,
    attrs: Seq<VertexAttribute>,
    stride: u32,
    i: int,
)
    requires
        is_layout_of(counts, attrs, stride),
        0 <= i < attrs.len(),
    ensures
        i + 1 < attrs.len() ==> attrs[i].offset_bytes + FLOAT_BYTES * attrs[i].components
            == attrs[i + 1].offset_bytes,
        i + 1 == attrs.len() ==> attrs[i].offset_bytes + FLOAT_BYTES * attrs[i].components
            == stride,
        attrs[i].offset_bytes + FLOAT_BYTES * attrs[i].components <= stride,
{
    lemma_components_before_monotonic(counts, 0, i);
    lemma_components_before_monotonic(counts, i + 1, counts.len() as int);
    assert(components_before(counts, i + 1) == components_before(counts, i) + counts[i]);
}

/// Whether every index of `indices` names a vertex, that is, lies below
/// `vertex_count`.
pub fn indices_in_bounds(indices: &Vec<u32>, vertex_count: u32) -> (r: bool)
    ensures
        r == forall|i: int| 0 <= i < indices@.len() ==> indices@[i] < vertex_count,
{
    let mut k: usize = 0;
    while k < indices.len()
        invariant
            k <= indices@.len(),
            forall|i: int| 0 <= i < k ==> indices@[i] < vertex_count,
        decreases indices@.len() - k,
    {
        if indices[k] >= vertex_count {
            return false;
        }
        k = k + 1;
    }
    true
}

/// Number of vertices in a flat array of `len` float components holding
/// `per_vertex` components for each vertex; `None` when the array does not
/// divide into whole vertices.
pub fn vertex_count(len: usize, per_vertex: usize) -> (r: Option<usize>)
    ensures
        (r is Some) == (per_vertex != 0 && (len as int) % (per_vertex as int) == 0),
        r matches Some(n) ==> n == len as int / per_vertex as int && n * per_vertex == len,
{
    if per_vertex == 0 {
        return None;
    }
    if len % per_vertex != 0 {
        return None;
    }
    let n = len / per_vertex;
    proof {
        vstd::arithmetic::div_mod::lemma_fundamental_div_mod(len as int, per_vertex as int);
        vstd::arithmetic::mul::lemma_mul_is_commutative(n as int, per_vertex as int);
    }
    Some(n)
}

/// Total byte size of a buffer of `count` elements of `elem_bytes` bytes
/// each; `None` when that size does not fit in `usize`.
pub fn buffer_bytes(count: usize, elem_bytes: usize) -> (r: Option<usize>)
    ensures
        (r is Some) == (count * elem_bytes <= usize::MAX),
        r matches Some(n) ==> n == count * elem_bytes,
{
    count.checked_mul(elem_bytes)
}

} // verus!
