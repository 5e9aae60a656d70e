//! How the vertex shader reads vertices: one binding of consecutive
//! vertices, and two attributes per vertex. The byte layout of a vertex
//! comes from the vertex type itself.
use vstd::prelude::*;
use crate::vkconst::{FORMAT_R32G32B32_SFLOAT, FORMAT_R32G32_SFLOAT, VERTEX_INPUT_RATE_VERTEX};

verus! {

/// `VkVertexInputBindingDescription`.
#[derive(Clone, Copy, Debug, PartialEq, Eq, Structural)]
pub struct VertexBindingDesc {
    pub binding: u32,
    pub stride: u32,
    pub input_rate: i32,
}

/// `VkVertexInputAttributeDescription`.
#[derive(Clone, Copy, Debug, PartialEq, Eq, Structural)]
pub struct VertexAttributeDesc {
    pub location: u32,
    pub binding: u32,
    pub format: i32,
    pub offset: u32,
}

/// Binding 0 steps one vertex of `stride` bytes per vertex.
pub fn get_binding_description(stride: u32) -> (r: VertexBindingDesc)
    ensures
        r == (VertexBindingDesc { binding: 0, stride, input_rate: VERTEX_INPUT_RATE_VERTEX }),
{
    VertexBindingDesc { binding: 0, stride, input_rate: VERTEX_INPUT_RATE_VERTEX }
}

/// A textured vertex: location 0 reads the position as three 32-bit
/// floats at `position_offset`, location 1 the texture coordinates as two
/// 32-bit floats at `texture_coordinates_offset`.
pub fn textured_attribute_descriptions(position_offset: u32, texture_coordinates_offset: u32) -> (r: Vec<VertexAttributeDesc>)
    ensures
        r@ == seq![
            VertexAttributeDesc { location: 0, binding: 0, format: FORMAT_R32G32B32_SFLOAT, offset: position_offset },
            VertexAttributeDesc { location: 1, binding: 0, format: FORMAT_R32G32_SFLOAT, offset: texture_coordinates_offset }
        ],
{
    vec![
        VertexAttributeDesc { location: 0, binding: 0, format: FORMAT_R32G32B32_SFLOAT, offset: position_offset },
        VertexAttributeDesc { location: 1, binding: 0, format: FORMAT_R32G32_SFLOAT, offset: texture_coordinates_offset },
    ]
}

/// A colored vertex: location 0 reads the position as two 32-bit floats
/// at `position_offset`, location 1 the color as three 32-bit floats at
/// `color_offset`.
pub fn colored_attribute_descriptions(position_offset: u32, color_offset: u32) -> (r: Vec<VertexAttributeDesc>)
    ensures
        r@ == seq![
            VertexAttributeDesc { location: 0, binding: 0, format: FORMAT_R32G32_SFLOAT, offset: position_offset },
            VertexAttributeDesc { location: 1, binding: 0, format: FORMAT_R32G32B32_SFLOAT, offset: color_offset }
        ],
{
    vec![
        VertexAttributeDesc { location: 0, binding: 0, format: FORMAT_R32G32_SFLOAT, offset: position_offset },
        VertexAttributeDesc { location: 1, binding: 0, format: FORMAT_R32G32B32_SFLOAT, offset: color_offset },
    ]
}

} // verus!
