//! Triangle meshes as flat attribute lists, and the checks a mesh has to pass
//! before it is handed to the graphics driver.

use vstd::prelude::*;

verus! {

/// Vertex attribute slot of the positions.
pub const POSITION_ATTRIB_PTR: u32 = 0;

/// Vertex attribute slot of the normals.
pub const NORMAL_ATTRIB_PTR: u32 = 1;

/// Vertex attribute slot of the tangents.
pub const TANGENT_ATTRIB_PTR: u32 = 2;

/// Vertex attribute slot of the bitangents.
pub const BITANGENT_ATTRIB_PTR: u32 = 3;

/// Vertex attribute slot of the texture coordinates.
pub const UV_ATTRIB_PTR: u32 = 4;

/// Vertex attribute slot of the first column of an instance's model matrix.
pub const MODEL_MAT_ATTRIB_PTR_1: u32 = 8;

/// Vertex attribute slot of the second column of an instance's model matrix.
pub const MODEL_MAT_ATTRIB_PTR_2: u32 = 9;

/// Vertex attribute slot of the third column of an instance's model matrix.
pub const MODEL_MAT_ATTRIB_PTR_3: u32 = 10;

/// Vertex attribute slot of the fourth column of an instance's model matrix.
pub const MODEL_MAT_ATTRIB_PTR_4: u32 = 11;

/// Vertex attribute slot of the first column of an instance's normal matrix.
pub const MODEL_NORMAL_ATTRIB_PTR_1: u32 = 12;

/// Vertex attribute slot of the second column of an instance's normal matrix.
pub const MODEL_NORMAL_ATTRIB_PTR_2: u32 = 13;

/// Vertex attribute slot of the third column of an instance's normal matrix.
pub const MODEL_NORMAL_ATTRIB_PTR_3: u32 = 14;

/// The size of one scalar of a vertex attribute in bytes.
pub const SCALAR_BYTES: usize = 4;

/// The size in bytes of a buffer of `scalars` scalars, or `None` where the
/// driver's signed sizes cannot hold it.
pub fn buffer_bytes(scalars: usize) -> (bytes: Option<isize>)
    ensures
        bytes is Some <==> scalars * SCALAR_BYTES <= isize::MAX,
        bytes matches Some(size) ==> size == scalars * SCALAR_BYTES,
{
    if scalars <= isize::MAX as usize / SCALAR_BYTES {
        Some((scalars * SCALAR_BYTES) as isize)
    } else {
        None
    }
}

/// Where the driver finds one column of a square matrix that is stored per
/// instance, column after column.
#[derive(Clone, Copy, Debug, PartialEq, Eq, Structural)]
pub struct ColumnLayout {
    /// The number of scalars in the column.
    pub components: i32,
    /// The distance in bytes from an instance's matrix to the next one's.
    pub stride: i32,
    /// The distance in bytes from the start of a matrix to the column.
    pub offset: usize,
}

/// The layout of column `column` of a matrix of `components` by `components`
/// scalars, for matrices of up to four columns.
pub fn matrix_column(column: usize, components: usize) -> (layout: ColumnLayout)
    requires
        column < components <= 4,
    ensures
        layout.components == components,
        layout.stride == components * components * SCALAR_BYTES,
        layout.offset == column * components * SCALAR_BYTES,
{
    let vec_size = components * SCALAR_BYTES;
    assert(components * vec_size <= 64 && column * vec_size <= 64) by (nonlinear_arith)
        requires
            column < components <= 4,
            vec_size == components * 4,
    ;
    assert(components * vec_size == components * components * SCALAR_BYTES
        && column * vec_size == column * components * SCALAR_BYTES) by (nonlinear_arith)
        requires
            vec_size == components * SCALAR_BYTES,
    ;
    ColumnLayout {
        components: components as i32,
        stride: (components * vec_size) as i32,
        offset: column * vec_size,
    }
}

/// A triangle mesh over scalars of type `S`.
pub struct Mesh<S> {
    /// Cyclic X, Y, Z components.
    pub positions: Vec<S>,
    /// Cyclic X, Y, Z components.
    pub normals: Vec<S>,
    /// Cyclic U, V components.
    pub uvs: Vec<S>,
    /// Cyclic first, second, third vertex index.
    pub indices: Vec<u32>,
}

/// What can be wrong with a mesh.
#[derive(Clone, Copy, Debug, PartialEq, Eq, Structural)]
pub enum MeshDefect {
    /// The positions do not come in triples.
    PositionsNotTriples,
    /// The normals do not come in triples.
    NormalsNotTriples,
    /// There are normals, but not one for each vertex.
    NormalCountMismatch,
    /// The texture coordinates do not come in pairs.
    UvsNotPairs,
    /// There are texture coordinates, but not one pair for each vertex.
    UvCountMismatch,
    /// The indices do not come in triples.
    IndicesNotTriples,
    /// There are no indices at all.
    NoIndices,
    /// An index names a vertex that the mesh does not have.
    IndexOutOfRange,
}

impl MeshDefect {
    /// The text that describes the defect.
    pub open spec fn text(self) -> Seq<char> {
        match self {
            MeshDefect::PositionsNotTriples => "Positions length is not a multiple of 3 (X, Y, Z)."@,
            MeshDefect::NormalsNotTriples => "Normals length is not a multiple of 3 (dX, dY, dZ)."@,
            MeshDefect::NormalCountMismatch => "Not as many normals as vertices."@,
            MeshDefect::UvsNotPairs => "UVs length is not a multiple of 2 (U, V)."@,
            MeshDefect::UvCountMismatch => "Not as many UVs as vertices."@,
            MeshDefect::IndicesNotTriples => "Indices length is not a multiple of 3 (Vertex 1, 2, 3)."@,
            MeshDefect::NoIndices => "No indices."@,
            MeshDefect::IndexOutOfRange => "Indices point to non-existent vertices."@,
        }
    }

    /// The text that describes the defect.
    pub fn message(self) -> (message: &'static str)
        ensures
            message@ == self.text(),
    {
        match self {
            MeshDefect::PositionsNotTriples => "Positions length is not a multiple of 3 (X, Y, Z).",
            MeshDefect::NormalsNotTriples => "Normals length is not a multiple of 3 (dX, dY, dZ).",
            MeshDefect::NormalCountMismatch => "Not as many normals as vertices.",
            MeshDefect::UvsNotPairs => "UVs length is not a multiple of 2 (U, V).",
            MeshDefect::UvCountMismatch => "Not as many UVs as vertices.",
            MeshDefect::IndicesNotTriples => "Indices length is not a multiple of 3 (Vertex 1, 2, 3).",
            MeshDefect::NoIndices => "No indices.",
            MeshDefect::IndexOutOfRange => "Indices point to non-existent vertices.",
        }
    }
}

/// Every index names one of `vertices` vertices.
pub open spec fn indices_in_range(indices: Seq<u32>, vertices: int) -> bool {
    forall|i: int| 0 <= i < indices.len() ==> (#[trigger] indices[i]) < vertices
}

/// The first defect of a mesh with attribute lists of the given lengths and
/// the given indices, in the order in which the lists are checked, or `None`
/// for a mesh that is fit for upload.
///
/// Normals and texture coordinates may be left out altogether. Where they are
/// given there is one of each per vertex.
pub open spec fn first_defect(positions: nat, normals: nat, uvs: nat, indices: Seq<u32>) -> Option<
    MeshDefect,
> {
    if positions % 3 != 0 {
        Some(MeshDefect::PositionsNotTriples)
    } else if normals % 3 != 0 {
        Some(MeshDefect::NormalsNotTriples)
    } else if normals != 0 && normals != positions {
        Some(MeshDefect::NormalCountMismatch)
    } else if uvs % 2 != 0 {
        Some(MeshDefect::UvsNotPairs)
    } else if uvs != 0 && uvs != positions / 3 * 2 {
        Some(MeshDefect::UvCountMismatch)
    } else if indices.len() % 3 != 0 {
        Some(MeshDefect::IndicesNotTriples)
    } else if indices.len() == 0 {
        Some(MeshDefect::NoIndices)
    } else if !indices_in_range(indices, positions as int / 3) {
        Some(MeshDefect::IndexOutOfRange)
    } else {
        None
    }
}

/// The largest of `indices`, which holds at least one.
fn largest_index(indices: &Vec<u32>) -> (largest: u32)
    requires
        indices@.len() > 0,
    ensures
        forall|i: int| 0 <= i < indices@.len() ==> indices@[i] <= largest,
        exists|i: int| 0 <= i < indices@.len() && indices@[i] == largest,
{
    let mut largest: u32 = indices[0];
    let mut at: usize = 1;
    while at < indices.len()
        invariant
            1 <= at <= indices@.len(),
            forall|i: int| 0 <= i < at ==> indices@[i] <= largest,
            exists|i: int| 0 <= i < at && indices@[i] == largest,
        decreases indices@.len() - at,
    {
        if indices[at] > largest {
            largest = indices[at];
        }
        at += 1;
    }
    largest
}

impl<S> Mesh<S> {
    /// The mesh's first defect, as a value.
    pub open spec fn defect_spec(&self) -> Option<MeshDefect> {
        first_defect(self.positions@.len(), self.normals@.len(), self.uvs@.len(), self.indices@)
    }

    /// Finds the mesh's first defect, or `None` for a mesh fit for upload.
    pub fn defect(&self) -> (defect: Option<MeshDefect>)
        ensures
            defect == self.defect_spec(),
    {
        if self.positions.len() % 3 != 0 {
            return Some(MeshDefect::PositionsNotTriples);
        }
        if self.normals.len() % 3 != 0 {
            return Some(MeshDefect::NormalsNotTriples);
        }
        if self.normals.len() != 0 && self.normals.len() != self.positions.len() {
            return Some(MeshDefect::NormalCountMismatch);
        }
        if self.uvs.len() % 2 != 0 {
            return Some(MeshDefect::UvsNotPairs);
        }
        if self.uvs.len() != 0 && self.uvs.len() != self.positions.len() / 3 * 2 {
            return Some(MeshDefect::UvCountMismatch);
        }
        if self.indices.len() % 3 != 0 {
            return Some(MeshDefect::IndicesNotTriples);
        }
        if self.indices.len() == 0 {
            return Some(MeshDefect::NoIndices);
        }
        let largest = largest_index(&self.indices);
        if largest as usize >= self.positions.len() / 3 {
            return Some(MeshDefect::IndexOutOfRange);
        }
        None
    }

    /// Checks that the mesh has positions, normals and texture coordinates of
    /// matching sizes and strides, and indices that name its vertices.
    pub fn check_consitency(&self) -> (verdict: Result<(), &'static str>)
        ensures
            verdict is Ok <==> self.defect_spec() is None,
            verdict matches Err(message) ==> message@ == self.defect_spec()->0.text(),
    {
        match self.defect() {
            None => Ok(()),
            Some(defect) => Err(defect.message()),
        }
    }
}

/// The attributes of one vertex.
pub struct Vertex<S> {
    /// Where the vertex is: X, Y, Z.
    pub position: (S, S, S),
    /// Which way its surface faces: dX, dY, dZ.
    pub normal: (S, S, S),
    /// Where it lies on the texture: U, V.
    pub uv: (S, S),
}

/// The vertex with number `vertex` in flat attribute lists: three scalars of
/// position, three of normal and two of texture coordinates apiece.
pub open spec fn vertex_in<S>(positions: Seq<S>, normals: Seq<S>, uvs: Seq<S>, vertex: int) -> Vertex<
    S,
> {
    Vertex {
        position: (positions[3 * vertex], positions[3 * vertex + 1], positions[3 * vertex + 2]),
        normal: (normals[3 * vertex], normals[3 * vertex + 1], normals[3 * vertex + 2]),
        uv: (uvs[2 * vertex], uvs[2 * vertex + 1]),
    }
}

/// The vertex in column `x` and row `y` of a grid with `side` vertices along
/// each side, stored row after row.
pub open spec fn grid_vertex<S>(
    positions: Seq<S>,
    normals: Seq<S>,
    uvs: Seq<S>,
    side: int,
    x: int,
    y: int,
) -> Vertex<S> {
    vertex_in(positions, normals, uvs, y * side + x)
}

/// Entry `at` of the index list of a grid of `num_quads` by `num_quads` quads.
///
/// Each quad takes six entries, the quads of a row from left to right, the
/// rows from bottom to top. A quad's first triangle joins its own corner, the
/// corner to the right and the corner above; its second triangle joins the
/// corner to the right, the corner above that one and the corner above its
/// own.
pub open spec fn quad_index(num_quads: int, at: int) -> int {
    let quad = at / 6;
    let corner = at % 6;
    let own = quad % num_quads + (quad / num_quads) * (num_quads + 1);
    if corner == 0 {
        own
    } else if corner == 1 || corner == 3 {
        own + 1
    } else if corner == 2 || corner == 5 {
        own + (num_quads + 1)
    } else {
        own + (num_quads + 1) + 1
    }
}

/// The index list of a grid of `num_quads` by `num_quads` quads.
pub open spec fn quad_indices(num_quads: nat) -> Seq<u32> {
    Seq::new(6 * num_quads * num_quads, |at: int| quad_index(num_quads as int, at) as u32)
}

/// The number of quads whose triangles are listed once the vertices before
/// column `x` of row `y` have been visited.
pub open spec fn quads_before(num_quads: int, x: int, y: int) -> int {
    if y < num_quads {
        y * num_quads + if x < num_quads {
            x
        } else {
            num_quads
        }
    } else {
        num_quads * num_quads
    }
}

/// Vertex and quad numbers of a grid stay below the grid's vertex and quad
/// counts.
proof fn lemma_grid_bounds(num_quads: int, x: int, y: int)
    requires
        0 <= x <= num_quads,
        0 <= y <= num_quads,
    ensures
        0 <= y * (num_quads + 1) + x < (num_quads + 1) * (num_quads + 1),
        x < num_quads && y < num_quads ==> x + y * (num_quads + 1) + (num_quads + 1) + 1 < (
        num_quads + 1) * (num_quads + 1),
        0 <= quads_before(num_quads, x, y) <= num_quads * num_quads,
        x < num_quads && y < num_quads ==> quads_before(num_quads, x, y) < num_quads * num_quads,
{
    assert(y * (num_quads + 1) + x <= num_quads * (num_quads + 1) + num_quads
        && (num_quads + 1) * (num_quads + 1) == num_quads * (num_quads + 1) + num_quads + 1
        && y * (num_quads + 1) >= 0) by (nonlinear_arith)
        requires
            0 <= x <= num_quads,
            0 <= y <= num_quads,
    ;
    if x < num_quads && y < num_quads {
        assert(y * (num_quads + 1) <= (num_quads - 1) * (num_quads + 1) && (num_quads - 1) * (
        num_quads + 1) + (num_quads - 1) + (num_quads + 1) + 1 < (num_quads + 1) * (num_quads + 1)
            && y * num_quads + x < num_quads * num_quads) by (nonlinear_arith)
            requires
                0 <= x < num_quads,
                0 <= y < num_quads,
        ;
    }
    assert(0 <= y * num_quads && (y < num_quads ==> y * num_quads + num_quads <= num_quads
        * num_quads) && 0 <= num_quads * num_quads) by (nonlinear_arith)
        requires
            0 <= y <= num_quads,
    ;
}

/// A vertex that comes earlier in the row-by-row order has the smaller
/// number.
proof fn lemma_row_order(side: int, x: int, y: int, earlier_x: int, earlier_y: int)
    requires
        0 <= x <= side,
        0 <= earlier_x < side,
        0 <= earlier_y,
        earlier_y < y || (earlier_y == y && earlier_x < x),
    ensures
        0 <= earlier_y * side + earlier_x < y * side + x,
{
    assert(0 <= earlier_y * side && (earlier_y < y ==> earlier_y * side + side <= y * side))
        by (nonlinear_arith)
        requires
            0 <= earlier_y,
            earlier_y <= y,
            0 <= side,
    ;
}

/// The six entries of the quad in column `x` and row `y`, by its corners.
proof fn lemma_quad_index(num_quads: int, x: int, y: int, corner: int)
    requires
        0 <= x < num_quads,
        0 <= y,
        0 <= corner < 6,
    ensures
        quad_index(num_quads, 6 * (y * num_quads + x) + corner) == x + y * (num_quads + 1) + if corner
            == 0 {
            0
        } else if corner == 1 || corner == 3 {
            1
        } else if corner == 2 || corner == 5 {
            num_quads + 1
        } else {
            num_quads + 2
        },
{
    let quad = y * num_quads + x;
    let at = 6 * quad + corner;
    vstd::arithmetic::div_mod::lemma_fundamental_div_mod_converse(at, 6, quad, corner);
    vstd::arithmetic::div_mod::lemma_fundamental_div_mod_converse(quad, num_quads, y, x);
}

/// Every entry of a grid's index list names a vertex of the grid.
proof fn lemma_quad_index_in_grid(num_quads: int, at: int)
    requires
        0 < num_quads,
        0 <= at < 6 * num_quads * num_quads,
    ensures
        0 <= quad_index(num_quads, at) < (num_quads + 1) * (num_quads + 1),
{
    let quad = at / 6;
    let x = quad % num_quads;
    let y = quad / num_quads;
    assert(6 * num_quads * num_quads == 6 * (num_quads * num_quads)) by (nonlinear_arith);
    vstd::arithmetic::div_mod::lemma_fundamental_div_mod(quad, num_quads);
    assert(0 <= y < num_quads) by (nonlinear_arith)
        requires
            0 <= quad < num_quads * num_quads,
            quad == num_quads * y + x,
            0 <= x < num_quads,
            0 < num_quads,
    ;
    lemma_grid_bounds(num_quads, x, y);
    assert(y * (num_quads + 1) >= 0) by (nonlinear_arith)
        requires
            y >= 0,
            num_quads > 0,
    ;
}

/// Appends the attributes of `made` to the three attribute lists.
fn push_vertex<S>(
    positions: &mut Vec<S>,
    normals: &mut Vec<S>,
    uvs: &mut Vec<S>,
    made: Vertex<S>,
)
    ensures
        final(positions)@ == old(positions)@.push(made.position.0).push(made.position.1).push(
            made.position.2,
        ),
        final(normals)@ == old(normals)@.push(made.normal.0).push(made.normal.1).push(
            made.normal.2,
        ),
        final(uvs)@ == old(uvs)@.push(made.uv.0).push(made.uv.1),
{
    let Vertex { position, normal, uv } = made;
    positions.push(position.0);
    positions.push(position.1);
    positions.push(position.2);
    normals.push(normal.0);
    normals.push(normal.1);
    normals.push(normal.2);
    uvs.push(uv.0);
    uvs.push(uv.1);
}

/// Appends the two triangles of the quad whose own corner is vertex `own`, in
/// a grid with `side` vertices along each side.
fn push_quad(indices: &mut Vec<u32>, own: u32, side: u32)
    requires
        own + side + 1 <= u32::MAX,
    ensures
        final(indices)@ == old(indices)@ + seq![
            own,
            (own + 1) as u32,
            (own + side) as u32,
            (own + 1) as u32,
            (own + side + 1) as u32,
            (own + side) as u32,
        ],
{
    indices.push(own);
    indices.push(own + 1);
    indices.push(own + side);
    indices.push(own + 1);
    indices.push(own + side + 1);
    indices.push(own + side);
    assert(indices@ =~= old(indices)@ + seq![
        own,
        (own + 1) as u32,
        (own + side) as u32,
        (own + 1) as u32,
        (own + side + 1) as u32,
        (own + side) as u32,
    ]);
}

/// Appending a vertex to attribute lists of `count` vertices makes it the
/// vertex with number `count` and leaves the vertices before it as they are.
proof fn lemma_vertex_appended<S>(
    positions: Seq<S>,
    normals: Seq<S>,
    uvs: Seq<S>,
    made: Vertex<S>,
    count: int,
)
    requires
        0 <= count,
        positions.len() == 3 * count,
        normals.len() == 3 * count,
        uvs.len() == 2 * count,
    ensures
        vertex_in(
            positions.push(made.position.0).push(made.position.1).push(made.position.2),
            normals.push(made.normal.0).push(made.normal.1).push(made.normal.2),
            uvs.push(made.uv.0).push(made.uv.1),
            count,
        ) == made,
        forall|earlier: int|
            0 <= earlier < count ==> #[trigger] vertex_in(
                positions.push(made.position.0).push(made.position.1).push(made.position.2),
                normals.push(made.normal.0).push(made.normal.1).push(made.normal.2),
                uvs.push(made.uv.0).push(made.uv.1),
                earlier,
            ) == vertex_in(positions, normals, uvs, earlier),
{
}

/// Appending the two triangles of the quad in column `x` and row `y` to the
/// index list of the quads before it gives the index list up to that quad.
proof fn lemma_quad_appended(indices: Seq<u32>, num_quads: int, x: int, y: int)
    requires
        0 <= x < num_quads,
        0 <= y < num_quads,
        (num_quads + 1) * (num_quads + 1) <= 0x1_0000_0000,
        indices.len() == 6 * (y * num_quads + x),
        forall|at: int| 0 <= at < indices.len() ==> (#[trigger] indices[at]) == quad_index(
            num_quads,
            at,
        ),
    ensures
        x + y * (num_quads + 1) + (num_quads + 1) + 1 <= u32::MAX,
        ({
            let own = x + y * (num_quads + 1);
            let longer = indices + seq![
                own as u32,
                (own + 1) as u32,
                (own + (num_quads + 1)) as u32,
                (own + 1) as u32,
                (own + (num_quads + 1) + 1) as u32,
                (own + (num_quads + 1)) as u32,
            ];
            &&& longer.len() == 6 * (y * num_quads + x + 1)
            &&& forall|at: int|
                0 <= at < longer.len() ==> (#[trigger] longer[at]) == quad_index(num_quads, at)
        }),
{
    lemma_grid_bounds(num_quads, x, y);
    let own = x + y * (num_quads + 1);
    let first = 6 * (y * num_quads + x);
    let longer = indices + seq![
        own as u32,
        (own + 1) as u32,
        (own + (num_quads + 1)) as u32,
        (own + 1) as u32,
        (own + (num_quads + 1) + 1) as u32,
        (own + (num_quads + 1)) as u32,
    ];
    assert(0 <= y * (num_quads + 1)) by (nonlinear_arith)
        requires
            0 <= y,
            0 <= num_quads,
    ;
    assert forall|at: int| 0 <= at < longer.len() implies (#[trigger] longer[at]) == quad_index(
        num_quads,
        at,
    ) by {
        if at >= first {
            lemma_quad_index(num_quads, x, y, at - first);
        }
    }
}

impl<S> Mesh<S> {
    /// Builds a square grid of `num_quads` by `num_quads` quads, two triangles
    /// to a quad. The vertices are laid out row after row; `vertex` gives the
    /// attributes of the vertex in column `x` and row `y`.
    ///
    /// A grid of at least one quad is a mesh without defect.
    pub fn quad_mesh<F: Fn(u32, u32) -> Vertex<S>>(num_quads: u32, vertex: F) -> (mesh: Mesh<S>)
        requires
            (num_quads + 1) * (num_quads + 1) <= 0x1_0000_0000,
            3 * ((num_quads + 1) * (num_quads + 1)) <= usize::MAX,
            6 * (num_quads * num_quads) <= usize::MAX,
            forall|x: u32, y: u32| x <= num_quads && y <= num_quads ==> vertex.requires((x, y)),
        ensures
            mesh.positions@.len() == 3 * ((num_quads + 1) * (num_quads + 1)),
            mesh.normals@.len() == 3 * ((num_quads + 1) * (num_quads + 1)),
            mesh.uvs@.len() == 2 * ((num_quads + 1) * (num_quads + 1)),
            mesh.indices@ == quad_indices(num_quads as nat),
            forall|x: u32, y: u32|
                x <= num_quads && y <= num_quads ==> vertex.ensures(
                    (x, y),
                    #[trigger] grid_vertex(
                        mesh.positions@,
                        mesh.normals@,
                        mesh.uvs@,
                        num_quads + 1,
                        x as int,
                        y as int,
                    ),
                ),
            num_quads > 0 ==> mesh.defect_spec() is None,
    {
        assert(num_quads + 1 <= 0x1_0000) by (nonlinear_arith)
            requires
                (num_quads + 1) * (num_quads + 1) <= 0x1_0000_0000,
        ;
        let side: u32 = num_quads + 1;
        let ghost quads = num_quads as int;
        let mut positions: Vec<S> = Vec::new();
        let mut normals: Vec<S> = Vec::new();
        let mut uvs: Vec<S> = Vec::new();
        let mut indices: Vec<u32> = Vec::new();
        let mut y: u32 = 0;
        assert(quads_before(quads, 0, 0) == 0) by (nonlinear_arith)
            requires
                quads >= 0,
        ;
        while y < side
            invariant
                side == num_quads + 1,
                quads == num_quads,
                side * side <= 0x1_0000_0000,
                forall|x: u32, y: u32| x <= num_quads && y <= num_quads ==> vertex.requires((x, y)),
                y <= side,
                positions@.len() == 3 * (y * side),
                normals@.len() == 3 * (y * side),
                uvs@.len() == 2 * (y * side),
                indices@.len() == 6 * quads_before(quads, 0, y as int),
                forall|at: int|
                    0 <= at < indices@.len() ==> (#[trigger] indices@[at]) == quad_index(quads, at),
                forall|ex: u32, ey: u32|
                    ex < side && ey < y ==> vertex.ensures(
                        (ex, ey),
                        #[trigger] grid_vertex(
                            positions@,
                            normals@,
                            uvs@,
                            side as int,
                            ex as int,
                            ey as int,
                        ),
                    ),
            decreases side - y,
        {
            let mut x: u32 = 0;
            while x < side
                invariant
                    side == num_quads + 1,
                    quads == num_quads,
                    side * side <= 0x1_0000_0000,
                    forall|x: u32, y: u32|
                        x <= num_quads && y <= num_quads ==> vertex.requires((x, y)),
                    y < side,
                    x <= side,
                    positions@.len() == 3 * (y * side + x),
                    normals@.len() == 3 * (y * side + x),
                    uvs@.len() == 2 * (y * side + x),
                    indices@.len() == 6 * quads_before(quads, x as int, y as int),
                    forall|at: int|
                        0 <= at < indices@.len() ==> (#[trigger] indices@[at]) == quad_index(
                            quads,
                            at,
                        ),
                    forall|ex: u32, ey: u32|
                        ex < side && (ey < y || (ey == y && ex < x)) ==> vertex.ensures(
                            (ex, ey),
                            #[trigger] grid_vertex(
                                positions@,
                                normals@,
                                uvs@,
                                side as int,
                                ex as int,
                                ey as int,
                            ),
                        ),
                decreases side - x,
            {
                let ghost old_positions = positions@;
                let ghost old_normals = normals@;
                let ghost old_uvs = uvs@;
                let ghost count = y * side + x;
                let made = vertex(x, y);
                push_vertex(&mut positions, &mut normals, &mut uvs, made);
                proof {
                    lemma_grid_bounds(quads, x as int, y as int);
                    lemma_vertex_appended(old_positions, old_normals, old_uvs, made, count);
                    assert forall|ex: u32, ey: u32|
                        ex < side && (ey < y || (ey == y && ex < x + 1)) implies vertex.ensures(
                        (ex, ey),
                        #[trigger] grid_vertex(
                            positions@,
                            normals@,
                            uvs@,
                            side as int,
                            ex as int,
                            ey as int,
                        ),
                    ) by {
                        if !(ey == y && ex == x) {
                            lemma_row_order(side as int, x as int, y as int, ex as int, ey as int);
                            assert(grid_vertex(
                                positions@,
                                normals@,
                                uvs@,
                                side as int,
                                ex as int,
                                ey as int,
                            ) == grid_vertex(
                                old_positions,
                                old_normals,
                                old_uvs,
                                side as int,
                                ex as int,
                                ey as int,
                            ));
                        }
                    }
                }
                if x < num_quads && y < num_quads {
                    proof {
                        lemma_quad_appended(indices@, quads, x as int, y as int);
                    }
                    push_quad(&mut indices, x + y * side, side);
                }
                x += 1;
            }
            proof {
                assert((y + 1) * side == y * side + side) by (nonlinear_arith);
                assert((y + 1) * quads == y * quads + quads) by (nonlinear_arith);
            }
            y += 1;
        }
        let mesh = Mesh { positions, normals, uvs, indices };
        proof {
            lemma_grid_defect_free(mesh.indices@, quads);
        }
        mesh
    }
}

/// The index list of a grid names vertices of the grid only, so with
/// attributes for each of its vertices a grid of at least one quad has no
/// defect.
proof fn lemma_grid_defect_free(indices: Seq<u32>, num_quads: int)
    requires
        0 <= num_quads,
        (num_quads + 1) * (num_quads + 1) <= 0x1_0000_0000,
        indices.len() == 6 * (num_quads * num_quads),
        forall|at: int| 0 <= at < indices.len() ==> (#[trigger] indices[at]) == quad_index(
            num_quads,
            at,
        ),
    ensures
        indices == quad_indices(num_quads as nat),
        num_quads > 0 ==> first_defect(
            (3 * ((num_quads + 1) * (num_quads + 1))) as nat,
            (3 * ((num_quads + 1) * (num_quads + 1))) as nat,
            (2 * ((num_quads + 1) * (num_quads + 1))) as nat,
            indices,
        ) is None,
{
    let vertices = (num_quads + 1) * (num_quads + 1);
    assert(6 * num_quads * num_quads == 6 * (num_quads * num_quads)) by (nonlinear_arith);
    assert(indices =~= quad_indices(num_quads as nat));
    if num_quads > 0 {
        assert(0 < num_quads * num_quads) by (nonlinear_arith)
            requires
                num_quads > 0,
        ;
        assert forall|at: int| 0 <= at < indices.len() implies (#[trigger] indices[at])
            < vertices by {
            lemma_quad_index_in_grid(num_quads, at);
        }
    }
}

} // verus!
