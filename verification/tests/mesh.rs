use undergrowth::mesh::buffer_bytes;
use undergrowth::mesh::matrix_column;
use undergrowth::mesh::ColumnLayout;
use undergrowth::mesh::Mesh;
use undergrowth::mesh::MeshDefect;
use undergrowth::mesh::Vertex;
use undergrowth::mesh::MODEL_MAT_ATTRIB_PTR_1;
use undergrowth::mesh::MODEL_NORMAL_ATTRIB_PTR_3;
use undergrowth::mesh::NORMAL_ATTRIB_PTR;
use undergrowth::mesh::POSITION_ATTRIB_PTR;
use undergrowth::mesh::UV_ATTRIB_PTR;

fn quad() -> Mesh<f32> {
    Mesh {
        positions: vec![-1.0, -1.0, 0.0, 1.0, -1.0, 0.0, 1.0, 1.0, 0.0, -1.0, 1.0, 0.0],
        normals: vec![0.0, 0.0, 1.0, 0.0, 0.0, 1.0, 0.0, 0.0, 1.0, 0.0, 0.0, 1.0],
        uvs: vec![0.0, 0.0, 1.0, 0.0, 1.0, 1.0, 0.0, 1.0],
        indices: vec![0, 1, 2, 0, 2, 3],
    }
}

fn grid_vertex(num_quads: u32) -> impl Fn(u32, u32) -> Vertex<f32> {
    move |x, y| {
        let u = x as f32 / num_quads as f32;
        let v = y as f32 / num_quads as f32;
        Vertex { position: (u * 2.0 - 1.0, v * 2.0 - 1.0, 0.0), normal: (0.0, 0.0, 1.0), uv: (u, v) }
    }
}

#[test]
fn a_plain_quad_is_consistent() {
    assert_eq!(quad().check_consitency(), Ok(()));
    assert_eq!(quad().defect(), None);
}

#[test]
fn normals_and_uvs_may_be_left_out() {
    let mut mesh = quad();
    mesh.normals.clear();
    mesh.uvs.clear();
    assert_eq!(mesh.check_consitency(), Ok(()));
}

#[test]
fn each_defect_is_found() {
    let mut mesh = quad();
    mesh.positions.push(0.0);
    assert_eq!(mesh.defect(), Some(MeshDefect::PositionsNotTriples));
    assert_eq!(
        mesh.check_consitency(),
        Err("Positions length is not a multiple of 3 (X, Y, Z).")
    );

    let mut mesh = quad();
    mesh.normals.pop();
    assert_eq!(mesh.defect(), Some(MeshDefect::NormalsNotTriples));
    assert_eq!(
        mesh.check_consitency(),
        Err("Normals length is not a multiple of 3 (dX, dY, dZ).")
    );

    let mut mesh = quad();
    mesh.normals.truncate(9);
    assert_eq!(mesh.defect(), Some(MeshDefect::NormalCountMismatch));
    assert_eq!(mesh.check_consitency(), Err("Not as many normals as vertices."));

    let mut mesh = quad();
    mesh.uvs.pop();
    assert_eq!(mesh.defect(), Some(MeshDefect::UvsNotPairs));
    assert_eq!(mesh.check_consitency(), Err("UVs length is not a multiple of 2 (U, V)."));

    let mut mesh = quad();
    mesh.uvs.truncate(6);
    assert_eq!(mesh.defect(), Some(MeshDefect::UvCountMismatch));
    assert_eq!(mesh.check_consitency(), Err("Not as many UVs as vertices."));

    let mut mesh = quad();
    mesh.indices.pop();
    assert_eq!(mesh.defect(), Some(MeshDefect::IndicesNotTriples));
    assert_eq!(
        mesh.check_consitency(),
        Err("Indices length is not a multiple of 3 (Vertex 1, 2, 3).")
    );

    let mut mesh = quad();
    mesh.indices.clear();
    assert_eq!(mesh.defect(), Some(MeshDefect::NoIndices));
    assert_eq!(mesh.check_consitency(), Err("No indices."));

    let mut mesh = quad();
    mesh.indices[4] = 4;
    assert_eq!(mesh.defect(), Some(MeshDefect::IndexOutOfRange));
    assert_eq!(mesh.check_consitency(), Err("Indices point to non-existent vertices."));
}

#[test]
fn the_first_defect_in_checking_order_is_reported() {
    let mut mesh = quad();
    mesh.positions.push(0.0);
    mesh.uvs.pop();
    mesh.indices.clear();
    assert_eq!(mesh.defect(), Some(MeshDefect::PositionsNotTriples));

    let mut mesh = quad();
    mesh.uvs.pop();
    mesh.indices.clear();
    assert_eq!(mesh.defect(), Some(MeshDefect::UvsNotPairs));

    let empty: Mesh<f32> =
        Mesh { positions: Vec::new(), normals: Vec::new(), uvs: Vec::new(), indices: Vec::new() };
    assert_eq!(empty.defect(), Some(MeshDefect::NoIndices));
}

#[test]
fn the_last_vertex_may_be_named() {
    let mut mesh = quad();
    mesh.indices[5] = 3;
    assert_eq!(mesh.defect(), None);
    mesh.indices[0] = u32::MAX;
    assert_eq!(mesh.defect(), Some(MeshDefect::IndexOutOfRange));
}

#[test]
fn defects_have_their_messages() {
    assert_eq!(MeshDefect::NoIndices.message(), "No indices.");
    assert_eq!(MeshDefect::UvCountMismatch.message(), "Not as many UVs as vertices.");
}

#[test]
fn a_grid_of_one_quad() {
    let mesh = Mesh::quad_mesh(1, grid_vertex(1));
    assert_eq!(
        mesh.positions,
        vec![-1.0, -1.0, 0.0, 1.0, -1.0, 0.0, -1.0, 1.0, 0.0, 1.0, 1.0, 0.0]
    );
    assert_eq!(mesh.normals, vec![0.0, 0.0, 1.0, 0.0, 0.0, 1.0, 0.0, 0.0, 1.0, 0.0, 0.0, 1.0]);
    assert_eq!(mesh.uvs, vec![0.0, 0.0, 1.0, 0.0, 0.0, 1.0, 1.0, 1.0]);
    assert_eq!(mesh.indices, vec![0, 1, 2, 1, 3, 2]);
    assert_eq!(mesh.check_consitency(), Ok(()));
}

#[test]
fn a_grid_of_two_by_two_quads() {
    let mesh = Mesh::quad_mesh(2, grid_vertex(2));
    assert_eq!(mesh.positions.len(), 27);
    assert_eq!(mesh.normals.len(), 27);
    assert_eq!(mesh.uvs.len(), 18);
    assert_eq!(
        mesh.indices,
        vec![
            0, 1, 3, 1, 4, 3, //
            1, 2, 4, 2, 5, 4, //
            3, 4, 6, 4, 7, 6, //
            4, 5, 7, 5, 8, 7,
        ]
    );
    // The vertex in the middle.
    assert_eq!(&mesh.positions[12..15], &[0.0, 0.0, 0.0]);
    assert_eq!(&mesh.uvs[8..10], &[0.5, 0.5]);
    // The last vertex of the first row.
    assert_eq!(&mesh.positions[6..9], &[1.0, -1.0, 0.0]);
    assert_eq!(mesh.check_consitency(), Ok(()));
}

#[test]
fn a_grid_is_built_as_by_nested_loops() {
    let num_quads = 7u32;
    let mut positions = vec![];
    let mut normals = vec![];
    let mut uvs = vec![];
    let mut indices = vec![];
    for y in 0..=num_quads {
        for x in 0..=num_quads {
            let u = x as f32 / num_quads as f32;
            let v = y as f32 / num_quads as f32;
            positions.extend_from_slice(&[u * 2.0 - 1.0, v * 2.0 - 1.0, 0.0]);
            normals.extend_from_slice(&[0.0, 0.0, 1.0]);
            uvs.extend_from_slice(&[u, v]);
            if x < num_quads && y < num_quads {
                let this_i = x + y * (num_quads + 1);
                indices.extend_from_slice(&[
                    this_i,
                    this_i + 1,
                    this_i + (num_quads + 1),
                    this_i + 1,
                    this_i + (num_quads + 1) + 1,
                    this_i + (num_quads + 1),
                ]);
            }
        }
    }
    let mesh = Mesh::quad_mesh(num_quads, grid_vertex(num_quads));
    assert_eq!(mesh.positions, positions);
    assert_eq!(mesh.normals, normals);
    assert_eq!(mesh.uvs, uvs);
    assert_eq!(mesh.indices, indices);
    assert_eq!(mesh.defect(), None);
}

#[test]
fn a_grid_without_quads_has_one_vertex_and_no_indices() {
    let mesh = Mesh::quad_mesh(0, |_, _| Vertex {
        position: (0.0f32, 0.0, 0.0),
        normal: (0.0, 0.0, 1.0),
        uv: (0.0, 0.0),
    });
    assert_eq!(mesh.positions.len(), 3);
    assert_eq!(mesh.indices, Vec::<u32>::new());
    assert_eq!(mesh.defect(), Some(MeshDefect::NoIndices));
}

#[test]
fn the_terrain_grid_is_consistent() {
    let mesh = Mesh::quad_mesh(256, grid_vertex(256));
    assert_eq!(mesh.positions.len(), 3 * 257 * 257);
    assert_eq!(mesh.indices.len(), 6 * 256 * 256);
    assert_eq!(mesh.check_consitency(), Ok(()));
}

#[test]
fn attribute_slots() {
    assert_eq!(POSITION_ATTRIB_PTR, 0);
    assert_eq!(NORMAL_ATTRIB_PTR, 1);
    assert_eq!(UV_ATTRIB_PTR, 4);
    assert_eq!(MODEL_MAT_ATTRIB_PTR_1, 8);
    assert_eq!(MODEL_NORMAL_ATTRIB_PTR_3, 14);
}

#[test]
fn buffers_take_four_bytes_per_scalar() {
    assert_eq!(buffer_bytes(0), Some(0));
    assert_eq!(buffer_bytes(12), Some(48));
    assert_eq!(buffer_bytes(isize::MAX as usize / 4), Some(isize::MAX / 4 * 4));
    assert_eq!(buffer_bytes(isize::MAX as usize / 4 + 1), None);
    assert_eq!(buffer_bytes(usize::MAX), None);
}

#[test]
fn matrix_columns_follow_one_another() {
    assert_eq!(matrix_column(0, 4), ColumnLayout { components: 4, stride: 64, offset: 0 });
    assert_eq!(matrix_column(1, 4), ColumnLayout { components: 4, stride: 64, offset: 16 });
    assert_eq!(matrix_column(3, 4), ColumnLayout { components: 4, stride: 64, offset: 48 });
    assert_eq!(matrix_column(0, 3), ColumnLayout { components: 3, stride: 36, offset: 0 });
    assert_eq!(matrix_column(2, 3), ColumnLayout { components: 3, stride: 36, offset: 24 });
    assert_eq!(matrix_column(0, 1), ColumnLayout { components: 1, stride: 4, offset: 0 });
}
