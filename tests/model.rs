use renderer::model::{deduplicate_vertices, VertexKey};

fn key(x: u32, u: u32) -> VertexKey {
    VertexKey { pos_x: x, pos_y: 0, pos_z: 0, color_r: 1, color_g: 1, color_b: 1, tex_u: u, tex_v: 0 }
}

#[test]
fn repeated_corners_share_one_vertex() {
    let corners = vec![key(1, 0), key(2, 0), key(3, 0), key(3, 0), key(2, 0), key(4, 0), key(1, 1)];
    let mesh = deduplicate_vertices(&corners);
    assert_eq!(mesh.vertices, vec![key(1, 0), key(2, 0), key(3, 0), key(4, 0), key(1, 1)]);
    assert_eq!(mesh.indices, vec![0, 1, 2, 2, 1, 3, 4]);
    for (i, c) in corners.iter().enumerate() {
        assert_eq!(mesh.vertices[mesh.indices[i] as usize], *c);
    }
}

#[test]
fn empty_mesh_has_no_vertices() {
    let mesh = deduplicate_vertices(&vec![]);
    assert!(mesh.vertices.is_empty());
    assert!(mesh.indices.is_empty());
}
