//! Vertex records, their declared attribute layout, and the built-in meshes.
//!
//! Every component of a vertex is a single-precision number held as its bit
//! pattern, so that a vertex is a record of integers and its byte image is a
//! function of those integers alone.

use crate::renderer_backend::binary32::lemma_named_values;
use crate::renderer_backend::binary32::scaled_value;
use crate::renderer_backend::binary32::HALF;
use crate::renderer_backend::binary32::NEG_HALF;
use crate::renderer_backend::binary32::NEG_THREE_QUARTERS;
use crate::renderer_backend::binary32::ONE;
use crate::renderer_backend::binary32::THREE_QUARTERS;
use crate::renderer_backend::binary32::ZERO;
use vstd::arithmetic::power2::pow2;
use vstd::prelude::*;

verus! {

/// The component formats a vertex attribute of this library can declare:
/// one to four single-precision components.
#[derive(Clone, Copy, Debug, PartialEq, Eq, Structural)]
pub enum VertexFormat {
    Float32,
    Float32x2,
    Float32x3,
    Float32x4,
}

impl VertexFormat {
    /// Number of 32-bit components.
    pub open spec fn components(self) -> nat {
        match self {
            VertexFormat::Float32 => 1,
            VertexFormat::Float32x2 => 2,
            VertexFormat::Float32x3 => 3,
            VertexFormat::Float32x4 => 4,
        }
    }

    /// Size in bytes of one attribute of this format.
    pub open spec fn size(self) -> nat {
        4 * self.components()
    }
}

/// Calls `wgpu::VertexFormat::size` on the `wgpu` format of the same name.
///
/// Not proved, but assumed of `wgpu`: it gives the formats of one, two, three
/// and four single-precision components the sizes 4, 8, 12 and 16 bytes.
#[verifier::external_body]
fn vertex_format_size(format: VertexFormat) -> (size: u64)
    ensures
        size == format.size(),
{
    let outside = match format {
        VertexFormat::Float32 => wgpu::VertexFormat::Float32,
        VertexFormat::Float32x2 => wgpu::VertexFormat::Float32x2,
        VertexFormat::Float32x3 => wgpu::VertexFormat::Float32x3,
        VertexFormat::Float32x4 => wgpu::VertexFormat::Float32x4,
    };
    outside.size()
}

/// How often the vertex buffer advances.
#[derive(Clone, Copy, Debug, PartialEq, Eq, Structural)]
pub enum VertexStepMode {
    Vertex,
    Instance,
}

/// One shader input read from a vertex buffer.
#[derive(Clone, Copy, Debug, PartialEq, Eq, Structural)]
pub struct VertexAttribute {
    pub format: VertexFormat,
    pub offset: u64,
    pub shader_location: u32,
}

/// The attribute layout of one vertex buffer.
#[derive(Debug, PartialEq, Eq)]
pub struct VertexBufferLayout {
    pub array_stride: u64,
    pub step_mode: VertexStepMode,
    pub attributes: Vec<VertexAttribute>,
}

/// Total size of a run of tightly packed attributes.
pub open spec fn packed_size(formats: Seq<VertexFormat>) -> nat
    decreases formats.len(),
{
    if formats.len() == 0 {
        0
    } else {
        packed_size(formats.drop_last()) + formats.last().size()
    }
}

/// The formats of a list of `(shader location, format)` declarations.
pub open spec fn declared_formats(decls: Seq<(u32, VertexFormat)>) -> Seq<VertexFormat> {
    decls.map_values(|d: (u32, VertexFormat)| d.1)
}

/// The attribute that declaration `i` gives: its own location and format,
/// placed directly behind the attributes declared before it.
pub open spec fn packed_attribute(decls: Seq<(u32, VertexFormat)>, i: int) -> VertexAttribute {
    VertexAttribute {
        format: decls[i].1,
        offset: packed_size(declared_formats(decls).take(i)) as u64,
        shader_location: decls[i].0,
    }
}

/// The attributes of a tightly packed buffer, one per declaration, in order.
pub open spec fn packed_attributes(decls: Seq<(u32, VertexFormat)>) -> Seq<VertexAttribute> {
    Seq::new(decls.len(), |i: int| packed_attribute(decls, i))
}

/// A packed size never exceeds sixteen bytes per attribute.
pub proof fn lemma_packed_size_bound(formats: Seq<VertexFormat>)
    ensures
        packed_size(formats) <= 16 * formats.len(),
    decreases formats.len(),
{
    if formats.len() > 0 {
        lemma_packed_size_bound(formats.drop_last());
    }
}

/// Extending a run by one attribute adds that attribute's size.
pub proof fn lemma_packed_size_step(formats: Seq<VertexFormat>, i: int)
    requires
        0 <= i < formats.len(),
    ensures
        packed_size(formats.take(i + 1)) == packed_size(formats.take(i)) + formats[i].size(),
{
    assert(formats.take(i + 1).drop_last() =~= formats.take(i));
}

/// Lays the declared attributes out back to back, starting at offset zero.
///
/// Returns the attributes and the size of one packed element.
pub fn attribute_array(decls: &[(u32, VertexFormat)]) -> (out: (Vec<VertexAttribute>, u64))
    requires
        16 * decls@.len() <= u64::MAX,
    ensures
        out.0@ == packed_attributes(decls@),
        out.1 == packed_size(declared_formats(decls@)),
{
    let ghost formats = declared_formats(decls@);
    let mut attributes: Vec<VertexAttribute> = Vec::new();
    let mut offset: u64 = 0;
    let mut i: usize = 0;
    while i < decls.len()
        invariant
            i <= decls@.len(),
            16 * decls@.len() <= u64::MAX,
            formats == declared_formats(decls@),
            offset == packed_size(formats.take(i as int)),
            attributes@ == packed_attributes(decls@).take(i as int),
        decreases decls@.len() - i,
    {
        let (location, format) = decls[i];
        let size = vertex_format_size(format);
        proof {
            lemma_packed_size_step(formats, i as int);
            lemma_packed_size_bound(formats.take(i + 1));
        }
        attributes.push(VertexAttribute { format, offset, shader_location: location });
        assert(attributes@ =~= packed_attributes(decls@).take(i + 1));
        offset = offset + size;
        i = i + 1;
    }
    assert(formats.take(i as int) =~= formats);
    assert(attributes@ =~= packed_attributes(decls@));
    (attributes, offset)
}

/// Three single-precision components, each held as its IEEE-754 bit pattern.
#[derive(Clone, Copy, Debug, PartialEq, Eq, Structural)]
pub struct Vec3 {
    pub x: u32,
    pub y: u32,
    pub z: u32,
}

impl Vec3 {
    pub fn new(x: u32, y: u32, z: u32) -> (v: Vec3)
        ensures
            v == (Vec3 { x, y, z }),
    {
        Vec3 { x, y, z }
    }
}

/// One vertex: a position and a colour, in that order.
#[derive(Clone, Copy, Debug, PartialEq, Eq, Structural)]
pub struct Vertex {
    pub position: Vec3,
    pub color: Vec3,
}

/// Size in bytes of one packed vertex.
pub const VERTEX_SIZE: u64 = 24;

/// The four bytes of a 32-bit word, least significant first.
pub open spec fn u32_le_bytes(word: u32) -> Seq<u8> {
    seq![
        (word % 256) as u8,
        (word / 256 % 256) as u8,
        (word / 65536 % 256) as u8,
        (word / 16777216) as u8,
    ]
}

/// The twelve bytes of three components, in declaration order.
pub open spec fn vec3_bytes(v: Vec3) -> Seq<u8> {
    u32_le_bytes(v.x) + u32_le_bytes(v.y) + u32_le_bytes(v.z)
}

/// The bytes of every vertex of a sequence, one vertex after the other.
pub open spec fn packed_vertices(vertices: Seq<Vertex>) -> Seq<u8>
    decreases vertices.len(),
{
    if vertices.len() == 0 {
        Seq::empty()
    } else {
        packed_vertices(vertices.drop_last()) + vertices.last().bytes()
    }
}

/// The bytes of every 16-bit index of a sequence, least significant byte first.
pub open spec fn packed_indices(indices: Seq<u16>) -> Seq<u8> {
    Seq::new(
        2 * indices.len(),
        |k: int| if k % 2 == 0 { (indices[k / 2] % 256) as u8 } else { (indices[k / 2] / 256) as u8 },
    )
}

fn push_u32_le(out: &mut Vec<u8>, word: u32)
    ensures
        final(out)@ == old(out)@ + u32_le_bytes(word),
{
    out.push((word % 256) as u8);
    out.push((word / 256 % 256) as u8);
    out.push((word / 65536 % 256) as u8);
    out.push((word / 16777216) as u8);
    assert(out@ =~= old(out)@ + u32_le_bytes(word));
}

fn push_vec3(out: &mut Vec<u8>, v: Vec3)
    ensures
        final(out)@ == old(out)@ + vec3_bytes(v),
{
    push_u32_le(out, v.x);
    push_u32_le(out, v.y);
    push_u32_le(out, v.z);
    assert(out@ =~= old(out)@ + vec3_bytes(v));
}

impl Vertex {
    /// The declarations the layout is derived from: one per field, in field
    /// order, each with the shader location it feeds.
    pub open spec fn field_declarations() -> Seq<(u32, VertexFormat)> {
        seq![(0u32, VertexFormat::Float32x3), (1u32, VertexFormat::Float32x3)]
    }

    /// The byte image of the vertex: position, then colour.
    pub open spec fn bytes(self) -> Seq<u8> {
        vec3_bytes(self.position) + vec3_bytes(self.color)
    }

    /// Appends the byte image of the vertex to `out`.
    pub fn write_bytes(&self, out: &mut Vec<u8>)
        ensures
            final(out)@ == old(out)@ + self.bytes(),
    {
        push_vec3(out, self.position);
        push_vec3(out, self.color);
        assert(out@ =~= old(out)@ + self.bytes());
    }

    /// The attribute layout of a buffer of packed vertices: the fields in
    /// declaration order, back to back, and a stride of one whole vertex.
    pub fn get_layout() -> (layout: VertexBufferLayout)
        ensures
            layout.step_mode == VertexStepMode::Vertex,
            layout.array_stride == VERTEX_SIZE,
            layout.attributes@ == packed_attributes(Self::field_declarations()),
            layout.attributes@ == seq![
                VertexAttribute { format: VertexFormat::Float32x3, offset: 0, shader_location: 0 },
                VertexAttribute { format: VertexFormat::Float32x3, offset: 12, shader_location: 1 },
            ],
    {
        let decls = [(0u32, VertexFormat::Float32x3), (1u32, VertexFormat::Float32x3)];
        assert(decls@ =~= Self::field_declarations());
        let (attributes, stride) = attribute_array(decls.as_slice());
        proof {
            lemma_vertex_layout();
        }
        VertexBufferLayout { array_stride: stride, step_mode: VertexStepMode::Vertex, attributes }
    }
}

/// The layout derived from the vertex's fields has exactly two attributes,
/// the first at offset zero, the second directly behind the first, and
/// together they fill the vertex: no gap and no overlap.
pub proof fn lemma_vertex_layout()
    ensures
        packed_attributes(Vertex::field_declarations()) == seq![
            VertexAttribute { format: VertexFormat::Float32x3, offset: 0, shader_location: 0 },
            VertexAttribute { format: VertexFormat::Float32x3, offset: 12, shader_location: 1 },
        ],
        packed_size(declared_formats(Vertex::field_declarations())) == VERTEX_SIZE,
{
    let decls = Vertex::field_declarations();
    let formats = declared_formats(decls);
    assert(formats.take(0) =~= Seq::<VertexFormat>::empty());
    lemma_packed_size_step(formats, 0);
    lemma_packed_size_step(formats, 1);
    assert(formats.take(2) =~= formats);
    assert(packed_size(formats.take(0)) == 0);
    assert(packed_size(formats.take(1)) == 12);
    assert(packed_attributes(decls) =~= seq![
        VertexAttribute { format: VertexFormat::Float32x3, offset: 0, shader_location: 0 },
        VertexAttribute { format: VertexFormat::Float32x3, offset: 12, shader_location: 1 },
    ]);
}

/// The layout's offsets are where the packed bytes of the fields lie: the
/// attribute at shader location 0 covers the position's bytes and the one at
/// location 1 the colour's, and a packed vertex is as long as the stride.
pub proof fn lemma_layout_matches_bytes(v: Vertex)
    ensures
        v.bytes().len() == VERTEX_SIZE,
        v.bytes().subrange(0, 12) == vec3_bytes(v.position),
        v.bytes().subrange(12, 24) == vec3_bytes(v.color),
{
    assert(v.bytes().subrange(0, 12) =~= vec3_bytes(v.position));
    assert(v.bytes().subrange(12, 24) =~= vec3_bytes(v.color));
}

/// A run of packed vertices holds `VERTEX_SIZE` bytes per vertex, and vertex
/// `i` lies at byte `VERTEX_SIZE * i`.
pub proof fn lemma_packed_vertices(vertices: Seq<Vertex>)
    ensures
        packed_vertices(vertices).len() == VERTEX_SIZE * vertices.len(),
        forall|i: int|
            0 <= i < vertices.len() ==> #[trigger] packed_vertices(vertices).subrange(
                VERTEX_SIZE * i,
                VERTEX_SIZE * i + VERTEX_SIZE,
            ) == vertices[i].bytes(),
    decreases vertices.len(),
{
    if vertices.len() > 0 {
        let front = vertices.drop_last();
        lemma_packed_vertices(front);
        let all = packed_vertices(vertices);
        assert forall|i: int| 0 <= i < vertices.len() implies #[trigger] all.subrange(
            VERTEX_SIZE * i,
            VERTEX_SIZE * i + VERTEX_SIZE,
        ) == vertices[i].bytes() by {
            if i < front.len() {
                assert(packed_vertices(front).subrange(VERTEX_SIZE * i, VERTEX_SIZE * i + VERTEX_SIZE)
                    == front[i].bytes());
                assert(all.subrange(VERTEX_SIZE * i, VERTEX_SIZE * i + VERTEX_SIZE)
                    =~= packed_vertices(front).subrange(
                    VERTEX_SIZE * i,
                    VERTEX_SIZE * i + VERTEX_SIZE,
                ));
            } else {
                assert(all.subrange(VERTEX_SIZE * i, VERTEX_SIZE * i + VERTEX_SIZE)
                    =~= vertices.last().bytes());
            }
        }
    }
}

/// Serialises vertices for upload: each vertex's fields in declaration order,
/// each component as four little-endian bytes.
pub fn pack_vertices(vertices: &Vec<Vertex>) -> (out: Vec<u8>)
    ensures
        out@ == packed_vertices(vertices@),
        out@.len() == VERTEX_SIZE * vertices@.len(),
{
    let mut out: Vec<u8> = Vec::new();
    let mut i: usize = 0;
    while i < vertices.len()
        invariant
            i <= vertices@.len(),
            out@ == packed_vertices(vertices@.take(i as int)),
        decreases vertices@.len() - i,
    {
        assert(vertices@.take(i + 1).drop_last() =~= vertices@.take(i as int));
        vertices[i].write_bytes(&mut out);
        i = i + 1;
    }
    assert(vertices@.take(i as int) =~= vertices@);
    proof {
        lemma_packed_vertices(vertices@);
    }
    out
}

/// Serialises 16-bit indices for upload, two little-endian bytes each.
pub fn pack_indices(indices: &Vec<u16>) -> (out: Vec<u8>)
    ensures
        out@ == packed_indices(indices@),
{
    let mut out: Vec<u8> = Vec::new();
    let mut i: usize = 0;
    while i < indices.len()
        invariant
            i <= indices@.len(),
            out@ == packed_indices(indices@.take(i as int)),
        decreases indices@.len() - i,
    {
        let index = indices[i];
        out.push((index % 256) as u8);
        out.push((index / 256) as u8);
        assert(out@ =~= packed_indices(indices@.take(i + 1)));
        i = i + 1;
    }
    assert(indices@.take(i as int) =~= indices@);
    out
}

/// Twice the signed area of the triangle `a`, `b`, `c` in the plane of x and
/// y, with x to the right and y upwards, in units of 2^-298. It is positive
/// exactly if the corners go round counter-clockwise.
pub open spec fn doubled_area(a: Vertex, b: Vertex, c: Vertex) -> int {
    let ax = scaled_value(a.position.x);
    let ay = scaled_value(a.position.y);
    let bx = scaled_value(b.position.x);
    let by = scaled_value(b.position.y);
    let cx = scaled_value(c.position.x);
    let cy = scaled_value(c.position.y);
    (bx - ax) * (cy - ay) - (cx - ax) * (by - ay)
}

/// What a mesh holds: its vertices and, for an indexed mesh, the indices
/// that pick them.
#[verifier::ext_equal]
pub struct MeshView {
    pub vertices: Seq<Vertex>,
    pub indices: Option<Seq<u16>>,
}

impl MeshView {
    /// Number of elements one draw of the mesh covers: its indices if it has
    /// any, else its vertices.
    pub open spec fn draw_count(self) -> nat {
        match self.indices {
            Some(indices) => indices.len(),
            None => self.vertices.len(),
        }
    }

    /// The vertex a draw reads in `k`-th place: the one the `k`-th index
    /// names, or the `k`-th vertex of a mesh without indices.
    pub open spec fn corner(self, k: int) -> Vertex {
        match self.indices {
            Some(indices) => self.vertices[indices[k] as int],
            None => self.vertices[k],
        }
    }

    /// The doubled area of the `t`-th triangle a draw covers.
    pub open spec fn triangle_area(self, t: int) -> int {
        doubled_area(self.corner(3 * t), self.corner(3 * t + 1), self.corner(3 * t + 2))
    }

    /// Every triangle a draw covers goes round counter-clockwise.
    pub open spec fn winds_counter_clockwise(self) -> bool {
        forall|t: int| 0 <= t && 3 * t + 2 < self.draw_count() ==> #[trigger] self.triangle_area(t) > 0
    }

    /// Every index names a vertex, a draw covers whole triangles, and both
    /// counts fit a draw call's 32-bit range.
    pub open spec fn well_formed(self) -> bool {
        &&& self.vertices.len() <= u32::MAX
        &&& self.draw_count() <= u32::MAX
        &&& self.draw_count() % 3 == 0
        &&& match self.indices {
            Some(indices) => forall|k: int|
                0 <= k < indices.len() ==> (#[trigger] indices[k]) < self.vertices.len(),
            None => true,
        }
    }
}

/// A static mesh, drawn as a list of triangles. It is made whole and never
/// changes; every mesh is well formed.
#[derive(Debug, PartialEq, Eq)]
pub struct Mesh {
    vertices: Vec<Vertex>,
    indices: Option<Vec<u16>>,
}

impl View for Mesh {
    type V = MeshView;

    closed spec fn view(&self) -> MeshView {
        MeshView {
            vertices: self.vertices@,
            indices: match self.indices {
                Some(indices) => Some(indices@),
                None => None,
            },
        }
    }
}

impl Mesh {
    #[verifier::type_invariant]
    spec fn is_well_formed(&self) -> bool {
        self@.well_formed()
    }

    pub fn vertices(&self) -> (vertices: &Vec<Vertex>)
        ensures
            vertices@ == self@.vertices,
            self@.well_formed(),
    {
        proof {
            use_type_invariant(self);
        }
        &self.vertices
    }

    /// The indices, if the mesh has an index buffer.
    pub fn indices(&self) -> (indices: Option<&Vec<u16>>)
        ensures
            match (indices, self@.indices) {
                (Some(have), Some(held)) => have@ == held,
                (None, None) => true,
                _ => false,
            },
    {
        match &self.indices {
            Some(indices) => Some(indices),
            None => None,
        }
    }

    pub fn is_indexed(&self) -> (indexed: bool)
        ensures
            indexed == self@.indices.is_some(),
    {
        self.indices.is_some()
    }

    pub fn vertex_count(&self) -> (count: u32)
        ensures
            count == self@.vertices.len(),
    {
        proof {
            use_type_invariant(self);
        }
        self.vertices.len() as u32
    }

    /// Number of indices; zero for a mesh without an index buffer.
    pub fn index_count(&self) -> (count: u32)
        ensures
            count == match self@.indices {
                Some(indices) => indices.len(),
                None => 0,
            },
    {
        proof {
            use_type_invariant(self);
        }
        match &self.indices {
            Some(indices) => indices.len() as u32,
            None => 0,
        }
    }

    /// The contents of the vertex buffer.
    pub fn vertex_bytes(&self) -> (bytes: Vec<u8>)
        ensures
            bytes@ == packed_vertices(self@.vertices),
            bytes@.len() == VERTEX_SIZE * self@.vertices.len(),
    {
        pack_vertices(&self.vertices)
    }

    /// The contents of the index buffer, if the mesh has one.
    pub fn index_bytes(&self) -> (bytes: Option<Vec<u8>>)
        ensures
            match (bytes, self@.indices) {
                (Some(have), Some(indices)) => have@ == packed_indices(indices),
                (None, None) => true,
                _ => false,
            },
    {
        match &self.indices {
            Some(indices) => Some(pack_indices(indices)),
            None => None,
        }
    }
}

/// The three corners of the built-in triangle.
pub open spec fn triangle_vertices() -> Seq<Vertex> {
    seq![
        Vertex {
            position: Vec3 { x: NEG_THREE_QUARTERS, y: NEG_THREE_QUARTERS, z: ZERO },
            color: Vec3 { x: ZERO, y: ZERO, z: ZERO },
        },
        Vertex {
            position: Vec3 { x: THREE_QUARTERS, y: NEG_THREE_QUARTERS, z: ZERO },
            color: Vec3 { x: ZERO, y: ZERO, z: ZERO },
        },
        Vertex {
            position: Vec3 { x: ZERO, y: THREE_QUARTERS, z: ZERO },
            color: Vec3 { x: ONE, y: ONE, z: ONE },
        },
    ]
}

/// The four corners of the built-in quad: the square of side one around the
/// origin, starting bottom left and going round against the clock.
pub open spec fn quad_vertices() -> Seq<Vertex> {
    seq![
        Vertex {
            position: Vec3 { x: NEG_HALF, y: NEG_HALF, z: ZERO },
            color: Vec3 { x: ONE, y: ZERO, z: ZERO },
        },
        Vertex {
            position: Vec3 { x: HALF, y: NEG_HALF, z: ZERO },
            color: Vec3 { x: ZERO, y: ONE, z: ZERO },
        },
        Vertex {
            position: Vec3 { x: HALF, y: HALF, z: ZERO },
            color: Vec3 { x: ZERO, y: ZERO, z: ONE },
        },
        Vertex {
            position: Vec3 { x: NEG_HALF, y: HALF, z: ZERO },
            color: Vec3 { x: ONE, y: ONE, z: ONE },
        },
    ]
}

/// The quad's two triangles: lower right half, then upper left half.
pub open spec fn quad_indices() -> Seq<u16> {
    seq![0u16, 1u16, 2u16, 2u16, 3u16, 0u16]
}

/// What the built-in quad holds.
pub open spec fn quad_view() -> MeshView {
    MeshView { vertices: quad_vertices(), indices: Some(quad_indices()) }
}

/// What the built-in triangle holds.
pub open spec fn triangle_view() -> MeshView {
    MeshView { vertices: triangle_vertices(), indices: None }
}

/// The built-in triangle: three vertices, drawn directly, counter-clockwise.
pub fn make_triangle() -> (mesh: Mesh)
    ensures
        mesh@ == triangle_view(),
        mesh@.well_formed(),
        mesh@.winds_counter_clockwise(),
{
    proof {
        lemma_triangle_winding();
    }
    let mut vertices: Vec<Vertex> = Vec::new();
    vertices.push(
        Vertex {
            position: Vec3::new(NEG_THREE_QUARTERS, NEG_THREE_QUARTERS, ZERO),
            color: Vec3::new(ZERO, ZERO, ZERO),
        },
    );
    vertices.push(
        Vertex {
            position: Vec3::new(THREE_QUARTERS, NEG_THREE_QUARTERS, ZERO),
            color: Vec3::new(ZERO, ZERO, ZERO),
        },
    );
    vertices.push(
        Vertex {
            position: Vec3::new(ZERO, THREE_QUARTERS, ZERO),
            color: Vec3::new(ONE, ONE, ONE),
        },
    );
    assert(vertices@ =~= triangle_vertices());
    let mesh = Mesh { vertices, indices: None };
    assert(mesh@ =~= triangle_view());
    mesh
}

/// The built-in quad: the four corners of the unit square and the six
/// indices of its two counter-clockwise triangles.
pub fn make_quad() -> (mesh: Mesh)
    ensures
        mesh@ == quad_view(),
        mesh@.well_formed(),
        mesh@.winds_counter_clockwise(),
{
    proof {
        lemma_quad_covers_unit_square();
    }
    let mut vertices: Vec<Vertex> = Vec::new();
    vertices.push(
        Vertex {
            position: Vec3::new(NEG_HALF, NEG_HALF, ZERO),
            color: Vec3::new(ONE, ZERO, ZERO),
        },
    );
    vertices.push(
        Vertex { position: Vec3::new(HALF, NEG_HALF, ZERO), color: Vec3::new(ZERO, ONE, ZERO) },
    );
    vertices.push(
        Vertex { position: Vec3::new(HALF, HALF, ZERO), color: Vec3::new(ZERO, ZERO, ONE) },
    );
    vertices.push(
        Vertex { position: Vec3::new(NEG_HALF, HALF, ZERO), color: Vec3::new(ONE, ONE, ONE) },
    );
    assert(vertices@ =~= quad_vertices());
    let mut indices: Vec<u16> = Vec::new();
    indices.push(0);
    indices.push(1);
    indices.push(2);
    indices.push(2);
    indices.push(3);
    indices.push(0);
    assert(indices@ =~= quad_indices());
    let mesh = Mesh { vertices, indices: Some(indices) };
    assert(mesh@ =~= quad_view());
    mesh
}

/// The built-in triangle goes round counter-clockwise.
pub proof fn lemma_triangle_winding()
    ensures
        triangle_view().winds_counter_clockwise(),
{
    lemma_named_values();
    let mesh = triangle_view();
    let q = pow2(147) as int;
    assert forall|t: int| 0 <= t && 3 * t + 2 < mesh.draw_count() implies #[trigger] mesh.triangle_area(
        t,
    ) > 0 by {
        assert(t == 0);
        assert(mesh.triangle_area(0) == (3 * q - (-3 * q)) * (3 * q - (-3 * q)) - (0 - (-3 * q)) * (
        (-3 * q) - (-3 * q)));
        assert((3 * q - (-3 * q)) * (3 * q - (-3 * q)) - (0 - (-3 * q)) * ((-3 * q) - (-3 * q)) > 0)
            by (nonlinear_arith)
            requires
                q > 0,
        ;
    }
}

/// The built-in quad is the square of side one around the origin, cut into
/// two triangles that both go round counter-clockwise: every corner lies at
/// plus or minus one half in x and in y and at zero in z, and the areas of
/// the two triangles add up to one.
pub proof fn lemma_quad_covers_unit_square()
    ensures
        quad_view().winds_counter_clockwise(),
        forall|i: int|
            0 <= i < 4 ==> {
                let p = (#[trigger] quad_vertices()[i]).position;
                &&& scaled_value(p.x) == pow2(148) || scaled_value(p.x) == -pow2(148)
                &&& scaled_value(p.y) == pow2(148) || scaled_value(p.y) == -pow2(148)
                &&& scaled_value(p.z) == 0
            },
        quad_view().triangle_area(0) + quad_view().triangle_area(1) == 2 * (pow2(149) * pow2(149)),
{
    lemma_named_values();
    let mesh = quad_view();
    let h = pow2(148) as int;
    assert(mesh.triangle_area(0) == (h - (-h)) * (h - (-h)) - (h - (-h)) * ((-h) - (-h)));
    assert(mesh.triangle_area(1) == ((-h) - h) * ((-h) - h) - ((-h) - h) * (h - h));
    assert((h - (-h)) * (h - (-h)) - (h - (-h)) * ((-h) - (-h)) == (2 * h) * (2 * h)) by (nonlinear_arith);
    assert(((-h) - h) * ((-h) - h) - ((-h) - h) * (h - h) == (2 * h) * (2 * h)) by (nonlinear_arith);
    assert((2 * h) * (2 * h) > 0) by (nonlinear_arith)
        requires
            h > 0,
    ;
    assert forall|t: int| 0 <= t && 3 * t + 2 < mesh.draw_count() implies #[trigger] mesh.triangle_area(
        t,
    ) > 0 by {
        assert(t == 0 || t == 1);
    }
}

} // verus!
