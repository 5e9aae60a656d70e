//! Plain descriptions of what the renderer asks Vulkan to create or record.
//! Each mirrors one Vulkan create-info or command argument field by field;
//! the caller turns it into the `ash` structure of the same name.
use vstd::prelude::*;
use ash::vk::{Buffer, Image, ImageView, PipelineLayout, RenderPass, Sampler, ShaderModule};

verus! {

/// A two-dimensional size in pixels (`VkExtent2D`).
#[derive(Clone, Copy, Debug, PartialEq, Eq, Structural)]
pub struct Extent {
    pub width: u32,
    pub height: u32,
}

/// `VkImageSubresourceRange`.
#[derive(Clone, Copy, Debug, PartialEq, Eq, Structural)]
pub struct SubresourceRange {
    pub aspect_mask: u32,
    pub base_mip_level: u32,
    pub level_count: u32,
    pub base_array_layer: u32,
    pub layer_count: u32,
}

/// `VkImageCreateInfo`.
#[derive(Clone, Copy, Debug, PartialEq, Eq, Structural)]
pub struct ImageDesc {
    pub image_type: i32,
    pub width: u32,
    pub height: u32,
    pub depth: u32,
    pub mip_levels: u32,
    pub array_layers: u32,
    pub format: i32,
    pub tiling: i32,
    pub initial_layout: i32,
    pub usage: u32,
    pub sharing_mode: i32,
    pub samples: u32,
}

/// `VkImageViewCreateInfo`.
#[derive(Clone, Copy, Debug)]
pub struct ImageViewDesc {
    pub image: Image,
    pub view_type: i32,
    pub format: i32,
    pub subresource_range: SubresourceRange,
}

/// `VkBufferCreateInfo`.
#[derive(Clone, Copy, Debug, PartialEq, Eq, Structural)]
pub struct BufferDesc {
    pub size: u64,
    pub usage: u32,
    pub sharing_mode: i32,
}

/// `VkImageMemoryBarrier`, together with the two stage masks of the
/// `vkCmdPipelineBarrier` that records it.
#[derive(Clone, Copy, Debug)]
pub struct ImageBarrierDesc {
    pub old_layout: i32,
    pub new_layout: i32,
    pub src_queue_family_index: u32,
    pub dst_queue_family_index: u32,
    pub image: Image,
    pub subresource_range: SubresourceRange,
    pub src_access_mask: u32,
    pub dst_access_mask: u32,
    pub src_stage_mask: u32,
    pub dst_stage_mask: u32,
}

/// `VkBufferCopy`.
#[derive(Clone, Copy, Debug, PartialEq, Eq, Structural)]
pub struct BufferCopyDesc {
    pub src_offset: u64,
    pub dst_offset: u64,
    pub size: u64,
}

/// `VkBufferImageCopy`.
#[derive(Clone, Copy, Debug, PartialEq, Eq, Structural)]
pub struct BufferImageCopyDesc {
    pub buffer_offset: u64,
    pub buffer_row_length: u32,
    pub buffer_image_height: u32,
    pub aspect_mask: u32,
    pub mip_level: u32,
    pub base_array_layer: u32,
    pub layer_count: u32,
    pub offset_x: i32,
    pub offset_y: i32,
    pub offset_z: i32,
    pub width: u32,
    pub height: u32,
    pub depth: u32,
}

/// `VkAttachmentDescription`.
#[derive(Clone, Copy, Debug, PartialEq, Eq, Structural)]
pub struct AttachmentDesc {
    pub format: i32,
    pub samples: u32,
    pub load_op: i32,
    pub store_op: i32,
    pub stencil_load_op: i32,
    pub stencil_store_op: i32,
    pub initial_layout: i32,
    pub final_layout: i32,
}

/// `VkAttachmentReference`.
#[derive(Clone, Copy, Debug, PartialEq, Eq, Structural)]
pub struct AttachmentRef {
    pub attachment: u32,
    pub layout: i32,
}

/// `VkSubpassDependency`.
#[derive(Clone, Copy, Debug, PartialEq, Eq, Structural)]
pub struct SubpassDependencyDesc {
    pub src_subpass: u32,
    pub dst_subpass: u32,
    pub src_stage_mask: u32,
    pub dst_stage_mask: u32,
    pub src_access_mask: u32,
    pub dst_access_mask: u32,
}

/// `VkRenderPassCreateInfo` with its single subpass.
#[derive(Debug)]
pub struct RenderPassDesc {
    pub attachments: Vec<AttachmentDesc>,
    pub pipeline_bind_point: i32,
    pub color_attachments: Vec<AttachmentRef>,
    /// `None` for a render pass without a depth attachment.
    pub depth_stencil_attachment: Option<AttachmentRef>,
    pub dependencies: Vec<SubpassDependencyDesc>,
}

/// `VkFramebufferCreateInfo`.
#[derive(Debug)]
pub struct FramebufferDesc {
    pub render_pass: RenderPass,
    pub attachments: Vec<ImageView>,
    pub width: u32,
    pub height: u32,
    pub layers: u32,
}

/// `VkDescriptorSetLayoutBinding`.
#[derive(Clone, Copy, Debug, PartialEq, Eq, Structural)]
pub struct DescriptorBindingDesc {
    pub binding: u32,
    pub descriptor_type: i32,
    pub descriptor_count: u32,
    pub stage_flags: u32,
}

/// `VkDescriptorPoolSize`.
#[derive(Clone, Copy, Debug, PartialEq, Eq, Structural)]
pub struct DescriptorPoolSizeDesc {
    pub descriptor_type: i32,
    pub descriptor_count: u32,
}

/// `VkDescriptorPoolCreateInfo`.
#[derive(Debug)]
pub struct DescriptorPoolDesc {
    pub pool_sizes: Vec<DescriptorPoolSizeDesc>,
    pub max_sets: u32,
}

/// `VkDescriptorImageInfo`.
#[derive(Clone, Copy, Debug)]
pub struct DescriptorImageDesc {
    pub image_layout: i32,
    pub image_view: ImageView,
    pub sampler: Sampler,
}

/// A `VkWriteDescriptorSet` that writes image infos.
#[derive(Debug)]
pub struct ImageWriteDesc {
    pub dst_binding: u32,
    pub dst_array_element: u32,
    pub descriptor_type: i32,
    pub image_infos: Vec<DescriptorImageDesc>,
}

/// A `VkWriteDescriptorSet` that writes one buffer info.
#[derive(Clone, Copy, Debug)]
pub struct BufferWriteDesc {
    pub dst_binding: u32,
    pub dst_array_element: u32,
    pub descriptor_type: i32,
    pub buffer: Buffer,
    pub offset: u64,
    pub range: u64,
}

/// `VkPipelineRasterizationStateCreateInfo` without its floating-point
/// fields (line width and depth bias factors).
#[derive(Clone, Copy, Debug, PartialEq, Eq, Structural)]
pub struct RasterizationDesc {
    pub depth_clamp_enable: bool,
    pub rasterizer_discard_enable: bool,
    pub polygon_mode: i32,
    pub cull_mode: u32,
    pub front_face: i32,
    pub depth_bias_enable: bool,
}

/// `VkPipelineMultisampleStateCreateInfo` without its minimum sample
/// shading, with an empty sample mask.
#[derive(Clone, Copy, Debug, PartialEq, Eq, Structural)]
pub struct MultisampleDesc {
    pub rasterization_samples: u32,
    pub sample_shading_enable: bool,
    pub alpha_to_coverage_enable: bool,
    pub alpha_to_one_enable: bool,
}

/// `VkPipelineDepthStencilStateCreateInfo` without its depth bounds and
/// with both stencil operation states left at their defaults.
#[derive(Clone, Copy, Debug, PartialEq, Eq, Structural)]
pub struct DepthStencilDesc {
    pub depth_test_enable: bool,
    pub depth_write_enable: bool,
    pub depth_compare_op: i32,
    pub depth_bounds_test_enable: bool,
    pub stencil_test_enable: bool,
}

/// `VkPipelineColorBlendAttachmentState`.
#[derive(Clone, Copy, Debug, PartialEq, Eq, Structural)]
pub struct ColorBlendAttachmentDesc {
    pub color_write_mask: u32,
    pub blend_enable: bool,
    pub src_color_blend_factor: i32,
    pub dst_color_blend_factor: i32,
    pub color_blend_op: i32,
    pub src_alpha_blend_factor: i32,
    pub dst_alpha_blend_factor: i32,
    pub alpha_blend_op: i32,
}

/// `VkGraphicsPipelineCreateInfo` for one subpass, apart from the shader
/// stages, the vertex input (which the vertex type lays out) and the
/// floating-point fields: one viewport over the whole extent and one
/// scissor at the origin of `scissor_extent`, with one color blend
/// attachment.
#[derive(Debug)]
pub struct GraphicsPipelineDesc {
    pub topology: i32,
    pub primitive_restart_enable: bool,
    pub dynamic_states: Vec<i32>,
    pub scissor_extent: Extent,
    pub rasterization: RasterizationDesc,
    pub multisample: MultisampleDesc,
    pub depth_stencil: DepthStencilDesc,
    pub color_blend_attachment: ColorBlendAttachmentDesc,
    pub logic_op_enable: bool,
    pub logic_op: i32,
    pub layout: PipelineLayout,
    pub render_pass: RenderPass,
    pub subpass: u32,
}

/// `VkPipelineShaderStageCreateInfo`; every stage enters at `main`.
#[derive(Clone, Copy, Debug)]
pub struct ShaderStageDesc {
    pub stage: u32,
    pub module: ShaderModule,
}

} // verus!
