//! Interleaved vertex layouts, buffer sizes and indexed draws.

use vstd::prelude::*;

verus! {

/// The size in bytes of one vertex component and of one index.
pub const COMPONENT_BYTES: u32 = 4;

/// One attribute of an interleaved vertex: its location, its number of components,
/// and its offset in bytes from the start of the vertex.
#[derive(Clone, Copy, PartialEq, Eq, Structural, Debug)]
pub struct Attribute {
    pub location: u32,
    pub components: u32,
    pub offset: u32,
}

/// How the attributes of one vertex lie in an interleaved buffer.
#[derive(Debug)]
pub struct Layout {
    pub attributes: Vec<Attribute>,
    /// The distance in bytes from one vertex to the next.
    pub stride: u32,
}

/// The number of components of the first `n` attributes.
pub open spec fn components_before(c: Seq<u32>, n: int) -> int
    decreases n,
{
    if n <= 0 {
        0
    } else {
        components_before(c, n - 1) + c[n - 1]
    }
}

/// A component count that a vertex attribute can have.
pub open spec fn valid_components(n: u32) -> bool {
    1 <= n <= 4
}

/// True when attributes with these component counts can be laid out with a stride that
/// the graphics interface takes.
pub open spec fn layout_fits(c: Seq<u32>) -> bool {
    &&& forall|i: int| 0 <= i < c.len() ==> valid_components(#[trigger] c[i])
    &&& COMPONENT_BYTES * components_before(c, c.len() as int) <= i32::MAX
}

proof fn lemma_components_before_grows(c: Seq<u32>, i: int, j: int)
    requires
        0 <= i <= j <= c.len(),
    ensures
        components_before(c, i) <= components_before(c, j),
    decreases j - i,
{
    if i < j {
        lemma_components_before_grows(c, i, j - 1);
    }
}

/// Lays the attributes out one after the other, at locations 0, 1, 2, ... in the order
/// given, each `components[i]` components long; `None` where a count is not 1 to 4 or
/// the stride would not fit the graphics interface.
pub fn interleaved(components: &Vec<u32>) -> (r: Option<Layout>)
    ensures
        r is Some <==> layout_fits(components@),
        r matches Some(l) ==> {
            &&& l.stride == COMPONENT_BYTES * components_before(
                components@,
                components@.len() as int,
            )
            &&& l.attributes@.len() == components@.len()
            &&& forall|i: int|
                0 <= i < components@.len() ==> #[trigger] l.attributes@[i] == (Attribute {
                    location: i as u32,
                    components: components@[i],
                    offset: (COMPONENT_BYTES * components_before(components@, i)) as u32,
                })
        },
{
    let mut attributes: Vec<Attribute> = Vec::new();
    let mut total: u32 = 0;
    let mut i: usize = 0;
    while i < components.len()
        invariant
            i <= components@.len(),
            total == components_before(components@, i as int),
            COMPONENT_BYTES * total <= i32::MAX,
            forall|j: int| 0 <= j < i ==> valid_components(#[trigger] components@[j]),
            attributes@.len() == i,
            forall|j: int|
                0 <= j < i ==> #[trigger] attributes@[j] == (Attribute {
                    location: j as u32,
                    components: components@[j],
                    offset: (COMPONENT_BYTES * components_before(components@, j)) as u32,
                }),
        decreases components@.len() - i,
    {
        let n = components[i];
        if n < 1 || n > 4 {
            return None;
        }
        if total + n > 536870911 {
            proof {
                lemma_components_before_grows(components@, i as int + 1, components@.len() as int);
            }
            return None;
        }
        attributes.push(Attribute { location: i as u32, components: n, offset: COMPONENT_BYTES * total });
        total = total + n;
        i = i + 1;
    }
    Some(Layout { attributes, stride: COMPONENT_BYTES * total })
}

/// The number of vertices in a buffer of `values` components, `per_vertex` to a vertex;
/// `None` where `per_vertex` is zero or does not divide `values`.
pub fn vertex_count(values: usize, per_vertex: u32) -> (r: Option<usize>)
    ensures
        r is Some <==> per_vertex > 0 && (values as int) % (per_vertex as int) == 0,
        r matches Some(n) ==> n * per_vertex == values,
{
    if per_vertex == 0 {
        return None;
    }
    let per = per_vertex as usize;
    if values % per != 0 {
        return None;
    }
    let n = values / per;
    proof {
        assert(n * per == values) by (nonlinear_arith)
            requires
                n == values / per,
                values % per == 0,
                per > 0,
        ;
    }
    Some(n)
}

/// The size in bytes of a buffer of `count` components or indices, in the signed size
/// that the graphics interface takes; `None` where it would not fit.
pub fn buffer_bytes(count: usize) -> (r: Option<isize>)
    ensures
        r is Some <==> COMPONENT_BYTES * count <= isize::MAX,
        r matches Some(b) ==> b == COMPONENT_BYTES * count,
{
    if count > (isize::MAX as usize) / 4 {
        return None;
    }
    Some((count * 4) as isize)
}

/// One indexed draw of whole triangles.
#[derive(Clone, Copy, PartialEq, Eq, Structural, Debug)]
pub struct DrawCall {
    /// The number of indices read, as the graphics interface takes it.
    pub count: i32,
    pub triangles: usize,
}

/// True when every index names one of the first `vertices` vertices.
pub open spec fn indices_in_range(indices: Seq<u32>, vertices: int) -> bool {
    forall|i: int| 0 <= i < indices.len() ==> #[trigger] indices[i] < vertices
}

/// The draw that reads all of `indices` as triangles over `vertices` vertices; `None`
/// where the indices do not make whole triangles, are too many for one draw, or one of
/// them lies past the last vertex, so that no draw reads outside either buffer.
pub fn draw_call(vertices: usize, indices: &Vec<u32>) -> (r: Option<DrawCall>)
    ensures
        r is Some <==> indices@.len() % 3 == 0 && indices@.len() <= i32::MAX && indices_in_range(
            indices@,
            vertices as int,
        ),
        r matches Some(d) ==> d.count == indices@.len() && 3 * d.triangles == indices@.len(),
{
    let n = indices.len();
    if n % 3 != 0 || n > i32::MAX as usize {
        return None;
    }
    let mut i: usize = 0;
    while i < n
        invariant
            n == indices@.len(),
            i <= n,
            forall|j: int| 0 <= j < i ==> #[trigger] indices@[j] < vertices,
        decreases n - i,
    {
        if indices[i] as usize >= vertices {
            return None;
        }
        i = i + 1;
    }
    Some(DrawCall { count: n as i32, triangles: n / 3 })
}

} // verus!
