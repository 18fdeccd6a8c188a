//! Turning a triangulated mesh's per-corner vertices into a vertex list
//! without repeats and an index list into it.

use vstd::prelude::*;

verus! {

/// A vertex, identified by the bit patterns of its components: position,
/// color and texture coordinate.
#[derive(Clone, Copy, Debug, PartialEq, Eq, Structural)]
pub struct VertexKey {
    pub pos_x: u32,
    pub pos_y: u32,
    pub pos_z: u32,
    pub color_r: u32,
    pub color_g: u32,
    pub color_b: u32,
    pub tex_u: u32,
    pub tex_v: u32,
}

/// The vertices in order of first appearance, each kept once.
pub open spec fn unique_vertices(s: Seq<VertexKey>) -> Seq<VertexKey>
    decreases s.len(),
{
    if s.len() == 0 {
        Seq::empty()
    } else {
        let rest = unique_vertices(s.drop_last());
        if rest.contains(s.last()) {
            rest
        } else {
            rest.push(s.last())
        }
    }
}

/// The mesh as a vertex list and an index list.
pub struct IndexedMesh {
    pub vertices: Vec<VertexKey>,
    pub indices: Vec<u32>,
}

fn find_vertex(vertices: &Vec<VertexKey>, c: &VertexKey) -> (r: Option<usize>)
    ensures
        r matches Some(j) ==> j < vertices@.len() && vertices@[j as int] == *c,
        r is None ==> !vertices@.contains(*c),
{
    let mut j: usize = 0;
    while j < vertices.len()
        invariant
            j <= vertices@.len(),
            forall|t: int| 0 <= t < j ==> vertices@[t] != *c,
        decreases vertices@.len() - j,
    {
        if vertices[j] == *c {
            return Some(j);
        }
        j = j + 1;
    }
    None
}

/// Builds the vertex list (each distinct vertex once, in order of first
/// appearance) and one index per corner pointing at that corner's vertex.
pub fn deduplicate_vertices(corners: &Vec<VertexKey>) -> (r: IndexedMesh)
    requires
        corners@.len() <= u32::MAX,
    ensures
        r.vertices@ == unique_vertices(corners@),
        r.vertices@.no_duplicates(),
        r.indices@.len() == corners@.len(),
        forall|i: int|
            0 <= i < corners@.len() ==> (#[trigger] r.indices@[i]) < r.vertices@.len()
                && r.vertices@[r.indices@[i] as int] == corners@[i],
{
    let mut vertices: Vec<VertexKey> = Vec::new();
    let mut indices: Vec<u32> = Vec::new();
    let mut i: usize = 0;
    while i < corners.len()
        invariant
            i <= corners@.len() <= u32::MAX,
            vertices@ == unique_vertices(corners@.take(i as int)),
            vertices@.no_duplicates(),
            vertices@.len() <= i,
            indices@.len() == i,
            forall|k: int|
                0 <= k < i ==> (#[trigger] indices@[k]) < vertices@.len() && vertices@[indices@[k] as int]
                    == corners@[k],
        decreases corners@.len() - i,
    {
        let c = corners[i];
        let ghost prefix = corners@.take(i as int);
        let ghost next = corners@.take(i + 1);
        assert(next.drop_last() =~= prefix);
        assert(next.last() == c);
        match find_vertex(&vertices, &c) {
            Some(j) => {
                assert(vertices@[j as int] == c);
                indices.push(j as u32);
            },
            None => {
                let n = vertices.len();
                vertices.push(c);
                indices.push(n as u32);
            },
        }
        i = i + 1;
    }
    assert(corners@.take(corners@.len() as int) =~= corners@);
    IndexedMesh { vertices, indices }
}

} // verus!
