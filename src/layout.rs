use vstd::prelude::*;

verus! {

/// Where one attribute of an interleaved vertex buffer lies, in the terms that the driver's
/// attribute-pointer call takes them.
#[derive(Clone, Copy, Debug, PartialEq, Eq, Structural)]
pub struct VertexAttribute {
    /// Components of the attribute in one vertex.
    pub components: i32,
    /// Bytes from one vertex to the next.
    pub stride: i32,
    /// Bytes from the start of a vertex to this attribute.
    pub offset: usize,
}

/// The number of components in the first `n` attributes.
pub open spec fn components_before(components: Seq<u32>, n: int) -> int
    decreases n,
{
    if n <= 0 {
        0
    } else {
        components_before(components, n - 1) + components[n - 1] as int
    }
}

/// The number of components in one vertex.
pub open spec fn vertex_components(components: Seq<u32>) -> int {
    components_before(components, components.len() as int)
}

/// Whether every size that a layout hands to the driver fits the driver's 32-bit size type.
pub open spec fn layout_fits(components: Seq<u32>, component_bytes: u32) -> bool {
    &&& vertex_components(components) * component_bytes <= i32::MAX
    &&& forall|i: int| 0 <= i < components.len() ==> components[i] <= i32::MAX
}

/// The attribute that stands at position `i` of an interleaved layout.
pub open spec fn attribute_at(components: Seq<u32>, component_bytes: u32, i: int) -> VertexAttribute {
    VertexAttribute {
        components: components[i] as i32,
        stride: (vertex_components(components) * component_bytes) as i32,
        offset: (components_before(components, i) * component_bytes) as usize,
    }
}

proof fn lemma_components_before_monotonic(components: Seq<u32>, i: int, j: int)
    requires
        0 <= i <= j <= components.len(),
    ensures
        components_before(components, i) <= components_before(components, j),
    decreases j - i,
{
    if i < j {
        lemma_components_before_monotonic(components, i, j - 1);
    }
}

/// Lays attributes out one after the other in each vertex, in the order given: attribute `i`
/// has `components[i]` components of `component_bytes` bytes each. `None` when a size does not
/// fit the driver's size type.
pub fn interleaved_attributes(components: &[u32], component_bytes: u32) -> (r: Option<
    Vec<VertexAttribute>,
>)
    ensures
        r is Some <==> layout_fits(components@, component_bytes),
        r matches Some(v) ==> {
            &&& v@.len() == components@.len()
            &&& forall|i: int|
                0 <= i < v@.len() ==> v@[i] == attribute_at(components@, component_bytes, i)
        },
{
    let n = components.len();
    let cb = component_bytes as u64;
    let mut stride: u64 = 0;
    let mut i: usize = 0;
    while i < n
        invariant
            n == components@.len(),
            cb == component_bytes,
            i <= n,
            stride == components_before(components@, i as int) * cb,
            stride <= i32::MAX,
            forall|j: int| 0 <= j < i ==> components@[j] <= i32::MAX,
        decreases n - i,
    {
        let c = components[i];
        if c > i32::MAX as u32 {
            return None;
        }
        assert(c as u64 * cb <= u32::MAX as u64 * u32::MAX as u64) by (nonlinear_arith)
            requires
                c <= u32::MAX,
                cb <= u32::MAX,
        ;
        let add = c as u64 * cb;
        assert(components_before(components@, i + 1) * cb == stride + add) by (nonlinear_arith)
            requires
                components_before(components@, i + 1) == components_before(components@, i as int)
                    + c,
                stride == components_before(components@, i as int) * cb,
                add == c * cb,
        ;
        if stride + add > i32::MAX as u64 {
            proof {
                lemma_components_before_monotonic(components@, i + 1, n as int);
                let before = components_before(components@, i + 1);
                let all = vertex_components(components@);
                assert(before * cb <= all * cb) by (nonlinear_arith)
                    requires
                        before <= all,
                        cb >= 0,
                ;
            }
            return None;
        }
        stride = stride + add;
        i = i + 1;
    }
    let mut attributes: Vec<VertexAttribute> = Vec::new();
    let mut offset: u64 = 0;
    let mut k: usize = 0;
    while k < n
        invariant
            n == components@.len(),
            cb == component_bytes,
            k <= n,
            layout_fits(components@, component_bytes),
            stride == vertex_components(components@) * cb,
            offset == components_before(components@, k as int) * cb,
            attributes@.len() == k,
            forall|j: int|
                0 <= j < k ==> attributes@[j] == attribute_at(components@, component_bytes, j),
        decreases n - k,
    {
        proof {
            lemma_components_before_monotonic(components@, k as int, n as int);
            lemma_components_before_monotonic(components@, k + 1, n as int);
            let before = components_before(components@, k as int);
            let next = components_before(components@, k + 1);
            let all = vertex_components(components@);
            assert(before * cb <= all * cb && next * cb <= all * cb) by (nonlinear_arith)
                requires
                    before <= all,
                    next <= all,
                    cb >= 0,
            ;
            assert(next * cb == before * cb + components@[k as int] * cb) by (nonlinear_arith)
                requires
                    next == before + components@[k as int],
            ;
        }
        let c = components[k];
        attributes.push(
            VertexAttribute { components: c as i32, stride: stride as i32, offset: offset as usize },
        );
        offset = offset + c as u64 * cb;
        k = k + 1;
    }
    Some(attributes)
}

/// The size in bytes of a buffer of `count` items of `item_bytes` bytes each, in the driver's
/// signed size type; `None` when it does not fit.
pub fn buffer_bytes(count: usize, item_bytes: usize) -> (r: Option<isize>)
    ensures
        r is Some <==> count * item_bytes <= isize::MAX,
        r matches Some(b) ==> b == count * item_bytes,
{
    match count.checked_mul(item_bytes) {
        Some(b) => {
            if b <= isize::MAX as usize {
                Some(b as isize)
            } else {
                None
            }
        },
        None => None,
    }
}

} // verus!
