//! Layout of the data that the shaders read: vertices and uniforms.

use vstd::prelude::*;

verus! {

/// Numeric code of the format of three 32-bit floating-point components.
pub const FORMAT_R32G32B32_SFLOAT: i32 = 106;

/// Numeric code of the input rate "per vertex".
pub const VERTEX_INPUT_RATE_VERTEX: i32 = 0;

/// Size in bytes of one component of a vertex.
pub const COMPONENT_SIZE: u32 = 4;

/// Number of components of one vertex: three each of position, normal and
/// colour.
pub const VERTEX_COMPONENTS: usize = 9;

/// Size in bytes of one vertex.
pub const VERTEX_STRIDE: u32 = 36;

/// Size in bytes of the uniform payload: three matrices of four by four
/// components.
pub const UNIFORM_BUFFER_SIZE: u64 = 192;

/// Three components, each the 32-bit IEEE 754 encoding of a number.
#[derive(Debug, Clone, Copy, PartialEq, Eq, Structural)]
pub struct Vector3 {
    pub x: u32,
    pub y: u32,
    pub z: u32,
}

/// One vertex of the mesh, as the vertex shader reads it.
#[derive(Debug, Clone, Copy, PartialEq, Eq, Structural)]
pub struct Vertex {
    pub position: Vector3,
    pub normal: Vector3,
    pub color: Vector3,
}

/// How the vertex buffer is stepped through.
#[derive(Debug, Clone, Copy, PartialEq, Eq, Structural)]
pub struct VertexInputBindingDescription {
    pub binding: u32,
    pub stride: u32,
    pub input_rate: i32,
}

/// Where one input of the vertex shader lies within a vertex.
#[derive(Debug, Clone, Copy, PartialEq, Eq, Structural)]
pub struct VertexInputAttributeDescription {
    pub binding: u32,
    pub location: u32,
    pub format: i32,
    pub offset: u32,
}

/// The attributes of a vertex: position, normal and colour, at locations 0,
/// 1 and 2, each three components wide, one after the other.
pub open spec fn spec_attribute_description() -> Seq<VertexInputAttributeDescription> {
    seq![
        VertexInputAttributeDescription {
            binding: 0,
            location: 0,
            format: FORMAT_R32G32B32_SFLOAT,
            offset: 0,
        },
        VertexInputAttributeDescription {
            binding: 0,
            location: 1,
            format: FORMAT_R32G32B32_SFLOAT,
            offset: 12,
        },
        VertexInputAttributeDescription {
            binding: 0,
            location: 2,
            format: FORMAT_R32G32B32_SFLOAT,
            offset: 24,
        },
    ]
}

impl Vertex {
    /// The components of the vertex in buffer order.
    pub open spec fn spec_components(self) -> Seq<u32> {
        seq![
            self.position.x,
            self.position.y,
            self.position.z,
            self.normal.x,
            self.normal.y,
            self.normal.z,
            self.color.x,
            self.color.y,
            self.color.z,
        ]
    }

    /// The vertex buffer is bound at binding 0 and advances by one vertex
    /// for each vertex drawn.
    pub fn get_binding_description() -> (r: VertexInputBindingDescription)
        ensures
            r == (VertexInputBindingDescription {
                binding: 0,
                stride: VERTEX_STRIDE,
                input_rate: VERTEX_INPUT_RATE_VERTEX,
            }),
            r.stride == VERTEX_COMPONENTS * COMPONENT_SIZE,
    {
        VertexInputBindingDescription {
            binding: 0,
            stride: VERTEX_STRIDE,
            input_rate: VERTEX_INPUT_RATE_VERTEX,
        }
    }

    /// The attributes of a vertex: position, normal and colour.
    pub fn get_attribute_description() -> (r: Vec<VertexInputAttributeDescription>)
        ensures
            r@ == spec_attribute_description(),
    {
        let mut attributes: Vec<VertexInputAttributeDescription> = Vec::new();
        attributes.push(
            VertexInputAttributeDescription {
                binding: 0,
                location: 0,
                format: FORMAT_R32G32B32_SFLOAT,
                offset: 0,
            },
        );
        attributes.push(
            VertexInputAttributeDescription {
                binding: 0,
                location: 1,
                format: FORMAT_R32G32B32_SFLOAT,
                offset: 12,
            },
        );
        attributes.push(
            VertexInputAttributeDescription {
                binding: 0,
                location: 2,
                format: FORMAT_R32G32B32_SFLOAT,
                offset: 24,
            },
        );
        assert(attributes@ =~= spec_attribute_description());
        attributes
    }
}

/// The components of all vertices, vertex after vertex.
pub open spec fn spec_flatten(vertices: Seq<Vertex>) -> Seq<u32> {
    Seq::new(
        vertices.len() * VERTEX_COMPONENTS as nat,
        |i: int| vertices[i / VERTEX_COMPONENTS as int].spec_components()[i % VERTEX_COMPONENTS as int],
    )
}

/// The data of a vertex buffer: the components of all vertices, vertex
/// after vertex.
pub fn flatten(vertices: &Vec<Vertex>) -> (r: Vec<u32>)
    ensures
        r@ == spec_flatten(vertices@),
{
    let mut data: Vec<u32> = Vec::new();
    let mut i: usize = 0;
    while i < vertices.len()
        invariant
            i <= vertices@.len(),
            data@.len() == i * VERTEX_COMPONENTS,
            forall|k: int|
                0 <= k < data@.len() ==> #[trigger] data@[k] == vertices@[k
                    / VERTEX_COMPONENTS as int].spec_components()[k % VERTEX_COMPONENTS as int],
        decreases vertices@.len() - i,
    {
        let vertex = vertices[i];
        let ghost before = data@;
        data.push(vertex.position.x);
        data.push(vertex.position.y);
        data.push(vertex.position.z);
        data.push(vertex.normal.x);
        data.push(vertex.normal.y);
        data.push(vertex.normal.z);
        data.push(vertex.color.x);
        data.push(vertex.color.y);
        data.push(vertex.color.z);
        proof {
            assert(data@ =~= before + vertex.spec_components());
            assert forall|k: int| 0 <= k < data@.len() implies #[trigger] data@[k] == vertices@[k
                / VERTEX_COMPONENTS as int].spec_components()[k % VERTEX_COMPONENTS as int] by {
                if k >= before.len() {
                    assert(k / 9 == i && k % 9 == k - 9 * i);
                }
            }
        }
        i += 1;
    }
    assert(data@ =~= spec_flatten(vertices@));
    data
}

} // verus!
