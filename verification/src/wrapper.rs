//! What the renderer creates on a device: which physical device it uses,
//! how its swapchain, render pass, framebuffers and descriptors look, and
//! the buffers and images it uploads data through.
use vstd::prelude::*;
use ash::vk::{Buffer, Image, ImageView, PhysicalDevice, PipelineLayout, RenderPass, Sampler};
use crate::descs::{
    AttachmentDesc, AttachmentRef, BufferCopyDesc, BufferDesc, BufferImageCopyDesc, BufferWriteDesc,
    ColorBlendAttachmentDesc, DepthStencilDesc, DescriptorBindingDesc, DescriptorImageDesc,
    DescriptorPoolDesc, DescriptorPoolSizeDesc, Extent, FramebufferDesc, GraphicsPipelineDesc, ImageDesc,
    ImageViewDesc, ImageWriteDesc, MultisampleDesc, RasterizationDesc, RenderPassDesc,
    SubpassDependencyDesc,
};
use crate::internal::{
    features_available, first_level_and_layer, is_first_queue_family, queue_family_suitable,
    supported_transition, InternalVulkan,
};
use crate::vkconst::{
    ACCESS_COLOR_ATTACHMENT_WRITE, ACCESS_DEPTH_STENCIL_ATTACHMENT_WRITE, ATTACHMENT_LOAD_OP_CLEAR,
    ATTACHMENT_LOAD_OP_DONT_CARE, ATTACHMENT_STORE_OP_DONT_CARE, ATTACHMENT_STORE_OP_STORE,
    BUFFER_USAGE_INDEX_BUFFER, BUFFER_USAGE_STORAGE_BUFFER, BUFFER_USAGE_TRANSFER_DST,
    BUFFER_USAGE_TRANSFER_SRC, BUFFER_USAGE_VERTEX_BUFFER, COMPOSITE_ALPHA_OPAQUE,
    DESCRIPTOR_TYPE_COMBINED_IMAGE_SAMPLER, DESCRIPTOR_TYPE_STORAGE_BUFFER, FORMAT_R8G8B8A8_SRGB,
    IMAGE_ASPECT_COLOR, IMAGE_ASPECT_DEPTH, IMAGE_LAYOUT_COLOR_ATTACHMENT_OPTIMAL,
    IMAGE_LAYOUT_DEPTH_STENCIL_ATTACHMENT_OPTIMAL, IMAGE_LAYOUT_PRESENT_SRC_KHR,
    IMAGE_LAYOUT_SHADER_READ_ONLY_OPTIMAL, IMAGE_LAYOUT_TRANSFER_DST_OPTIMAL, IMAGE_LAYOUT_UNDEFINED,
    IMAGE_TILING_OPTIMAL, IMAGE_USAGE_COLOR_ATTACHMENT, IMAGE_USAGE_DEPTH_STENCIL_ATTACHMENT,
    IMAGE_USAGE_SAMPLED, IMAGE_USAGE_TRANSFER_DST, MEMORY_PROPERTY_DEVICE_LOCAL,
    MEMORY_PROPERTY_HOST_COHERENT, MEMORY_PROPERTY_HOST_VISIBLE, PIPELINE_BIND_POINT_GRAPHICS,
    PIPELINE_STAGE_COLOR_ATTACHMENT_OUTPUT, PIPELINE_STAGE_EARLY_FRAGMENT_TESTS,
    PIPELINE_STAGE_LATE_FRAGMENT_TESTS, PRESENT_MODE_FIFO, PRESENT_MODE_MAILBOX, SAMPLE_COUNT_1,
    SHADER_STAGE_FRAGMENT, SHADER_STAGE_VERTEX, SHARING_MODE_EXCLUSIVE, SUBPASS_EXTERNAL,
    BLEND_FACTOR_ONE, BLEND_FACTOR_ONE_MINUS_SRC_ALPHA, BLEND_FACTOR_SRC_ALPHA, BLEND_FACTOR_ZERO,
    BLEND_OP_ADD, COLOR_COMPONENT_RGBA, COMPARE_OP_LESS, COMPARE_OP_NEVER, CULL_MODE_BACK, DYNAMIC_STATE_SCISSOR,
    DYNAMIC_STATE_VIEWPORT, FRONT_FACE_CLOCKWISE, LOGIC_OP_COPY, POLYGON_MODE_FILL,
    PRIMITIVE_TOPOLOGY_TRIANGLE_LIST,
};

verus! {

/// Builds what the renderer creates on a device.
pub struct VulkanWrapper;

/// The size in bytes of one model-view-projection entry of the storage
/// buffer: three 4x4 matrices of 32-bit floats.
pub const MVP_SIZE: u64 = 192;

/// The bytes that `count` model-view-projections take up.
pub open spec fn mvp_bytes(count: int) -> int {
    count * MVP_SIZE
}

/// Pointing the storage-buffer descriptor at `entity_count` entries never
/// reaches past the end of a buffer made for `capacity` entries, as long as
/// the entities fit.
pub proof fn mvp_range_within_buffer(entity_count: usize, capacity: usize)
    requires
        entity_count <= capacity,
    ensures
        mvp_bytes(entity_count as int) <= mvp_bytes(capacity as int),
{
    assert(entity_count * MVP_SIZE <= capacity * MVP_SIZE) by (nonlinear_arith)
        requires
            entity_count <= capacity;
}

/// What the caller found out about a physical device, for the renderer to
/// decide whether to use it.
#[derive(Debug)]
pub struct PhysicalDeviceInfo {
    pub device: PhysicalDevice,
    pub sampler_anisotropy: u32,
    pub runtime_descriptor_array: u32,
    pub shader_sampled_image_array_non_uniform_indexing: u32,
    /// The flags of each queue family.
    pub queue_flags: Vec<u32>,
    /// Whether each queue family can present to the surface.
    pub surface_support: Vec<bool>,
}

pub open spec fn device_info_wf(d: PhysicalDeviceInfo) -> bool {
    d.queue_flags.len() == d.surface_support.len() && d.queue_flags.len() <= u32::MAX
}

/// The renderer can use the device: it has the features and a queue family
/// that draws and presents.
pub open spec fn device_usable(d: PhysicalDeviceInfo) -> bool {
    &&& features_available(d.sampler_anisotropy, d.runtime_descriptor_array, d.shader_sampled_image_array_non_uniform_indexing)
    &&& exists|k: int| queue_family_suitable(d.queue_flags@, d.surface_support@, k)
}

/// What a surface allows a swapchain to be (`VkSurfaceCapabilitiesKHR`).
#[derive(Clone, Copy, Debug)]
pub struct SurfaceCapabilities {
    pub min_image_count: u32,
    /// Zero when there is no upper limit.
    pub max_image_count: u32,
    pub current_extent: Extent,
    pub current_transform: u32,
}

/// A format and color space a surface supports (`VkSurfaceFormatKHR`).
#[derive(Clone, Copy, Debug, PartialEq, Eq, Structural)]
pub struct SurfaceFormat {
    pub format: i32,
    pub color_space: i32,
}

/// `VkSwapchainCreateInfoKHR`, less the surface it is created for.
#[derive(Clone, Copy, Debug, PartialEq, Eq, Structural)]
pub struct SwapchainDesc {
    pub min_image_count: u32,
    pub image_format: i32,
    pub image_color_space: i32,
    pub image_extent: Extent,
    pub image_array_layers: u32,
    pub image_usage: u32,
    pub image_sharing_mode: i32,
    pub pre_transform: u32,
    pub composite_alpha: u32,
    pub present_mode: i32,
    pub clipped: bool,
}

/// One more image than the surface's minimum, unless that exceeds its
/// maximum, in which case the maximum.
pub open spec fn swapchain_image_count(min_image_count: u32, max_image_count: u32) -> u32 {
    if min_image_count + 1 > max_image_count {
        max_image_count
    } else {
        (min_image_count + 1) as u32
    }
}

/// The swapchain never asks for more images than the surface's maximum,
/// and asks for one more than the minimum whenever the maximum allows it.
/// A surface without an upper limit reports a maximum of zero and is
/// asked for zero images.
pub proof fn swapchain_image_count_bounds(min_image_count: u32, max_image_count: u32)
    requires
        min_image_count < u32::MAX,
    ensures
        swapchain_image_count(min_image_count, max_image_count) <= max_image_count,
        min_image_count < max_image_count ==> swapchain_image_count(min_image_count, max_image_count) == min_image_count + 1,
        max_image_count == 0 ==> swapchain_image_count(min_image_count, max_image_count) == 0,
{
}

/// Mailbox when the surface offers it, first-in first-out otherwise.
pub open spec fn chosen_present_mode(present_modes: Seq<i32>) -> i32 {
    if present_modes.contains(PRESENT_MODE_MAILBOX) {
        PRESENT_MODE_MAILBOX
    } else {
        PRESENT_MODE_FIFO
    }
}

/// The swapchain presents by mailbox whenever the surface offers mailbox,
/// wherever it stands in the list of offered modes.
pub proof fn mailbox_whenever_offered(present_modes: Seq<i32>, i: int)
    requires
        0 <= i < present_modes.len(),
        present_modes[i] == PRESENT_MODE_MAILBOX,
    ensures
        chosen_present_mode(present_modes) == PRESENT_MODE_MAILBOX,
{
    assert(present_modes.contains(PRESENT_MODE_MAILBOX));
}

/// Without mailbox among the offered modes, the swapchain presents first-in
/// first-out, which every surface supports.
pub proof fn fifo_unless_mailbox_offered(present_modes: Seq<i32>)
    requires
        forall|i: int| 0 <= i < present_modes.len() ==> present_modes[i] != PRESENT_MODE_MAILBOX,
    ensures
        chosen_present_mode(present_modes) == PRESENT_MODE_FIFO,
{
}

/// How data of some size is uploaded: written into a host-visible staging
/// buffer, then copied into a device-local buffer of the same size.
#[derive(Debug)]
pub struct UploadPlan {
    pub staging: BufferDesc,
    pub staging_properties: u32,
    pub target: BufferDesc,
    pub target_properties: u32,
    pub copy: BufferCopyDesc,
}

/// The buffers, image and commands through which a texture is uploaded.
#[derive(Debug)]
pub struct TexturePlan {
    pub extent: Extent,
    /// Bytes of the RGBA8 pixels.
    pub size: u64,
    pub staging: BufferDesc,
    pub staging_properties: u32,
    pub image: ImageDesc,
    pub image_properties: u32,
    /// Layout transition before the copy, as (old, new).
    pub before_copy: (i32, i32),
    pub copy: BufferImageCopyDesc,
    /// Layout transition after the copy, as (old, new).
    pub after_copy: (i32, i32),
    pub view_format: i32,
    pub view_aspect: u32,
}

/// The depth image and its view of a frame of size `extent`.
#[derive(Debug)]
pub struct DepthPlan {
    pub image: ImageDesc,
    pub image_properties: u32,
    pub view_format: i32,
    pub view_aspect: u32,
}

pub open spec fn upload_plan_spec(plan: UploadPlan, size: u64, usage: u32) -> bool {
    &&& plan.staging == (BufferDesc { size, usage: BUFFER_USAGE_TRANSFER_SRC, sharing_mode: SHARING_MODE_EXCLUSIVE })
    &&& plan.staging_properties == MEMORY_PROPERTY_HOST_VISIBLE | MEMORY_PROPERTY_HOST_COHERENT
    &&& plan.target == (BufferDesc { size, usage: usage | BUFFER_USAGE_TRANSFER_DST, sharing_mode: SHARING_MODE_EXCLUSIVE })
    &&& plan.target_properties == MEMORY_PROPERTY_DEVICE_LOCAL
    &&& plan.copy == (BufferCopyDesc { src_offset: 0, dst_offset: 0, size })
}

/// Whether `mode` is among `present_modes`.
fn contains_mode(present_modes: &Vec<i32>, mode: i32) -> (r: bool)
    ensures
        r == present_modes@.contains(mode),
{
    let mut index: usize = 0;
    while index < present_modes.len()
        invariant
            index <= present_modes.len(),
            forall|j: int| 0 <= j < index ==> present_modes[j] != mode,
        decreases present_modes.len() - index,
    {
        if present_modes[index] == mode {
            assert(present_modes@[index as int] == mode);
            return true;
        }
        index = index + 1;
    }
    false
}

impl VulkanWrapper {
    /// The first device the renderer can use, with its first queue family
    /// that draws and presents.
    pub fn find_physical_device(devices: &Vec<PhysicalDeviceInfo>) -> (r: Option<(PhysicalDevice, u32)>)
        requires
            forall|i: int| 0 <= i < devices.len() ==> device_info_wf(#[trigger] devices[i]),
        ensures
            match r {
                Some((device, queue_family)) => exists|i: int|
                    0 <= i < devices.len() && (#[trigger] devices[i]).device == device
                        && features_available(devices[i].sampler_anisotropy, devices[i].runtime_descriptor_array,
                            devices[i].shader_sampled_image_array_non_uniform_indexing)
                        && is_first_queue_family(devices[i].queue_flags@, devices[i].surface_support@, Some(queue_family))
                        && forall|j: int| 0 <= j < i ==> !device_usable(#[trigger] devices[j]),
                None => forall|j: int| 0 <= j < devices.len() ==> !device_usable(#[trigger] devices[j]),
            },
    {
        let mut index: usize = 0;
        while index < devices.len()
            invariant
                index <= devices.len(),
                forall|i: int| 0 <= i < devices.len() ==> device_info_wf(#[trigger] devices[i]),
                forall|j: int| 0 <= j < index ==> !device_usable(#[trigger] devices[j]),
            decreases devices.len() - index,
        {
            let info = &devices[index];
            assert(device_info_wf(devices[index as int]));
            if InternalVulkan::device_features_available(
                info.sampler_anisotropy,
                info.runtime_descriptor_array,
                info.shader_sampled_image_array_non_uniform_indexing,
            ) {
                match InternalVulkan::get_queue_family_index(&info.queue_flags, &info.surface_support) {
                    Some(queue_family) => {
                        return Some((info.device, queue_family));
                    },
                    None => {},
                }
            }
            index = index + 1;
        }
        None
    }

    /// The swapchain for a surface with `capabilities` that offers
    /// `formats` and `present_modes`: its first format, one image more than
    /// the minimum (capped at the maximum), mailbox presentation when
    /// offered, and the surface's current extent and transform. `None`
    /// when the surface offers no format.
    pub fn create_swapchain(
        capabilities: SurfaceCapabilities,
        formats: &Vec<SurfaceFormat>,
        present_modes: &Vec<i32>,
    ) -> (r: Option<SwapchainDesc>)
        requires
            capabilities.min_image_count < u32::MAX,
        ensures
            formats.len() == 0 <==> r is None,
            formats.len() > 0 ==> r == Some(SwapchainDesc {
                min_image_count: swapchain_image_count(capabilities.min_image_count, capabilities.max_image_count),
                image_format: formats[0].format,
                image_color_space: formats[0].color_space,
                image_extent: capabilities.current_extent,
                image_array_layers: 1,
                image_usage: IMAGE_USAGE_COLOR_ATTACHMENT,
                image_sharing_mode: SHARING_MODE_EXCLUSIVE,
                pre_transform: capabilities.current_transform,
                composite_alpha: COMPOSITE_ALPHA_OPAQUE,
                present_mode: chosen_present_mode(present_modes@),
                clipped: true,
            }),
            formats.len() > 0 ==> (r.unwrap().present_mode == PRESENT_MODE_MAILBOX
                <==> exists|i: int| 0 <= i < present_modes.len() && present_modes[i] == PRESENT_MODE_MAILBOX),
            formats.len() > 0 ==> (r.unwrap().present_mode == PRESENT_MODE_MAILBOX
                || r.unwrap().present_mode == PRESENT_MODE_FIFO),
    {
        if formats.len() == 0 {
            return None;
        }
        let surface_format = formats[0];
        let mut min_image_count = capabilities.min_image_count + 1;
        if min_image_count > capabilities.max_image_count {
            min_image_count = capabilities.max_image_count;
        }
        let present_mode = if contains_mode(present_modes, PRESENT_MODE_MAILBOX) {
            PRESENT_MODE_MAILBOX
        } else {
            PRESENT_MODE_FIFO
        };
        Some(SwapchainDesc {
            min_image_count,
            image_format: surface_format.format,
            image_color_space: surface_format.color_space,
            image_extent: capabilities.current_extent,
            image_array_layers: 1,
            image_usage: IMAGE_USAGE_COLOR_ATTACHMENT,
            image_sharing_mode: SHARING_MODE_EXCLUSIVE,
            pre_transform: capabilities.current_transform,
            composite_alpha: COMPOSITE_ALPHA_OPAQUE,
            present_mode,
            clipped: true,
        })
    }

    /// One color view of each swapchain image, in order.
    pub fn create_image_views(images: &Vec<Image>, format: i32) -> (r: Vec<ImageViewDesc>)
        ensures
            r.len() == images.len(),
            forall|i: int| 0 <= i < r.len() ==> (#[trigger] r[i]).image == images[i]
                && r[i].view_type == crate::vkconst::IMAGE_VIEW_TYPE_2D
                && r[i].format == format
                && r[i].subresource_range == first_level_and_layer(IMAGE_ASPECT_COLOR),
    {
        let mut views: Vec<ImageViewDesc> = Vec::new();
        let mut index: usize = 0;
        while index < images.len()
            invariant
                index <= images.len(),
                views.len() == index,
                forall|i: int| 0 <= i < index ==> (#[trigger] views[i]).image == images[i]
                    && views[i].view_type == crate::vkconst::IMAGE_VIEW_TYPE_2D
                    && views[i].format == format
                    && views[i].subresource_range == first_level_and_layer(IMAGE_ASPECT_COLOR),
            decreases images.len() - index,
        {
            views.push(InternalVulkan::image_view_desc(images[index], format, IMAGE_ASPECT_COLOR));
            index = index + 1;
        }
        views
    }

    /// The render pass of a frame: a color attachment of `format` that is
    /// cleared and then presented, a depth attachment of `depth_format`
    /// that is cleared and then discarded, one graphics subpass that uses
    /// both, and a dependency that makes the subpass wait for the previous
    /// frame's color output and depth writes.
    pub fn create_render_pass(format: i32, depth_format: i32) -> (r: RenderPassDesc)
        ensures
            frame_render_pass(r, format, depth_format),
            r.depth_stencil_attachment is Some,
            r.depth_stencil_attachment.unwrap().attachment < r.attachments@.len(),
            r.attachments@[r.depth_stencil_attachment.unwrap().attachment as int].load_op == ATTACHMENT_LOAD_OP_CLEAR,
            r.color_attachments@.len() == 1,
            r.color_attachments@[0].attachment < r.attachments@.len(),
            r.attachments@[r.color_attachments@[0].attachment as int].load_op == ATTACHMENT_LOAD_OP_CLEAR,
    {
        let color_attachment = AttachmentDesc {
            format,
            samples: SAMPLE_COUNT_1,
            load_op: ATTACHMENT_LOAD_OP_CLEAR,
            store_op: ATTACHMENT_STORE_OP_STORE,
            stencil_load_op: ATTACHMENT_LOAD_OP_DONT_CARE,
            stencil_store_op: ATTACHMENT_STORE_OP_DONT_CARE,
            initial_layout: IMAGE_LAYOUT_UNDEFINED,
            final_layout: IMAGE_LAYOUT_PRESENT_SRC_KHR,
        };
        let depth_attachment = AttachmentDesc {
            format: depth_format,
            samples: SAMPLE_COUNT_1,
            load_op: ATTACHMENT_LOAD_OP_CLEAR,
            store_op: ATTACHMENT_STORE_OP_DONT_CARE,
            stencil_load_op: ATTACHMENT_LOAD_OP_DONT_CARE,
            stencil_store_op: ATTACHMENT_STORE_OP_DONT_CARE,
            initial_layout: IMAGE_LAYOUT_UNDEFINED,
            final_layout: IMAGE_LAYOUT_DEPTH_STENCIL_ATTACHMENT_OPTIMAL,
        };
        let dependency = SubpassDependencyDesc {
            src_subpass: SUBPASS_EXTERNAL,
            dst_subpass: 0,
            src_stage_mask: PIPELINE_STAGE_COLOR_ATTACHMENT_OUTPUT | PIPELINE_STAGE_LATE_FRAGMENT_TESTS,
            dst_stage_mask: PIPELINE_STAGE_COLOR_ATTACHMENT_OUTPUT | PIPELINE_STAGE_EARLY_FRAGMENT_TESTS,
            src_access_mask: ACCESS_DEPTH_STENCIL_ATTACHMENT_WRITE,
            dst_access_mask: ACCESS_COLOR_ATTACHMENT_WRITE | ACCESS_DEPTH_STENCIL_ATTACHMENT_WRITE,
        };
        let r = RenderPassDesc {
            attachments: vec![color_attachment, depth_attachment],
            pipeline_bind_point: PIPELINE_BIND_POINT_GRAPHICS,
            color_attachments: vec![AttachmentRef { attachment: 0, layout: IMAGE_LAYOUT_COLOR_ATTACHMENT_OPTIMAL }],
            depth_stencil_attachment: Some(AttachmentRef { attachment: 1, layout: IMAGE_LAYOUT_DEPTH_STENCIL_ATTACHMENT_OPTIMAL }),
            dependencies: vec![dependency],
        };
        assert(r.attachments@ =~= seq![color_attachment, depth_attachment]);
        assert(r.dependencies@ =~= seq![dependency]);
        assert(r.color_attachments@ =~= seq![AttachmentRef { attachment: 0, layout: IMAGE_LAYOUT_COLOR_ATTACHMENT_OPTIMAL }]);
        r
    }

    /// One framebuffer of size `extent` per swapchain image view, in order;
    /// each attaches its view and, when given, the shared depth view.
    pub fn create_framebuffers(
        render_pass: RenderPass,
        image_views: &Vec<ImageView>,
        depth_image_view: Option<ImageView>,
        extent: Extent,
    ) -> (r: Vec<FramebufferDesc>)
        ensures
            r.len() == image_views.len(),
            forall|i: int| 0 <= i < r.len() ==> framebuffer_for(#[trigger] r[i], render_pass, image_views[i], depth_image_view, extent),
    {
        let mut framebuffers: Vec<FramebufferDesc> = Vec::new();
        let mut index: usize = 0;
        while index < image_views.len()
            invariant
                index <= image_views.len(),
                framebuffers.len() == index,
                forall|i: int| 0 <= i < index ==> framebuffer_for(#[trigger] framebuffers[i], render_pass, image_views[i], depth_image_view, extent),
            decreases image_views.len() - index,
        {
            let attachments = match depth_image_view {
                Some(depth) => {
                    let a = vec![image_views[index], depth];
                    assert(a@ =~= seq![image_views[index as int], depth]);
                    a
                },
                None => {
                    let a = vec![image_views[index]];
                    assert(a@ =~= seq![image_views[index as int]]);
                    a
                },
            };
            framebuffers.push(FramebufferDesc { render_pass, attachments, width: extent.width, height: extent.height, layers: 1 });
            index = index + 1;
        }
        framebuffers
    }

    /// The graphics pipeline of the renderer, drawing into subpass 0 of
    /// `render_pass` with `pipeline_layout`, with the depth test on.
    pub fn create_graphics_pipeline(
        extent: Extent,
        render_pass: RenderPass,
        pipeline_layout: PipelineLayout,
    ) -> (r: GraphicsPipelineDesc)
        ensures
            graphics_pipeline_spec(r, extent, render_pass, pipeline_layout, depth_tested()),
    {
        let depth_stencil = DepthStencilDesc {
            depth_test_enable: true,
            depth_write_enable: true,
            depth_compare_op: COMPARE_OP_LESS,
            depth_bounds_test_enable: false,
            stencil_test_enable: false,
        };
        graphics_pipeline(extent, render_pass, pipeline_layout, depth_stencil)
    }

    /// The upload of `size` bytes of vertices into a vertex buffer.
    pub fn create_vertex_buffer(size: u64) -> (r: UploadPlan)
        ensures
            upload_plan_spec(r, size, BUFFER_USAGE_VERTEX_BUFFER),
    {
        upload_plan(size, BUFFER_USAGE_VERTEX_BUFFER)
    }

    /// The upload of `size` bytes of indices into an index buffer.
    pub fn create_index_buffer(size: u64) -> (r: UploadPlan)
        ensures
            upload_plan_spec(r, size, BUFFER_USAGE_INDEX_BUFFER),
    {
        upload_plan(size, BUFFER_USAGE_INDEX_BUFFER)
    }

    /// The descriptor set layout and pool for `in_flight` frames: binding 0
    /// is the vertex shader's storage buffer of model-view-projections,
    /// binding 1 an array of `texture_count` sampled textures for the
    /// fragment shader, and the pool holds one set per frame.
    pub fn create_descriptors(in_flight: u32, texture_count: u32) -> (r: (Vec<DescriptorBindingDesc>, DescriptorPoolDesc))
        requires
            texture_count * in_flight <= u32::MAX,
        ensures
            r.0@ == seq![
                DescriptorBindingDesc {
                    binding: 0,
                    descriptor_type: DESCRIPTOR_TYPE_STORAGE_BUFFER,
                    descriptor_count: 1,
                    stage_flags: SHADER_STAGE_VERTEX,
                },
                DescriptorBindingDesc {
                    binding: 1,
                    descriptor_type: DESCRIPTOR_TYPE_COMBINED_IMAGE_SAMPLER,
                    descriptor_count: texture_count,
                    stage_flags: SHADER_STAGE_FRAGMENT,
                }
            ],
            r.1.pool_sizes@ == seq![
                DescriptorPoolSizeDesc { descriptor_type: DESCRIPTOR_TYPE_STORAGE_BUFFER, descriptor_count: in_flight },
                DescriptorPoolSizeDesc {
                    descriptor_type: DESCRIPTOR_TYPE_COMBINED_IMAGE_SAMPLER,
                    descriptor_count: (texture_count * in_flight) as u32,
                }
            ],
            r.1.max_sets == in_flight,
            forall|i: int| 0 <= i < 2 ==> (#[trigger] r.1.pool_sizes@[i]).descriptor_type == r.0@[i].descriptor_type
                && r.1.pool_sizes@[i].descriptor_count == r.0@[i].descriptor_count * in_flight,
    {
        let bindings = vec![
            DescriptorBindingDesc {
                binding: 0,
                descriptor_type: DESCRIPTOR_TYPE_STORAGE_BUFFER,
                descriptor_count: 1,
                stage_flags: SHADER_STAGE_VERTEX,
            },
            DescriptorBindingDesc {
                binding: 1,
                descriptor_type: DESCRIPTOR_TYPE_COMBINED_IMAGE_SAMPLER,
                descriptor_count: texture_count,
                stage_flags: SHADER_STAGE_FRAGMENT,
            },
        ];
        let pool = DescriptorPoolDesc {
            pool_sizes: vec![
                DescriptorPoolSizeDesc { descriptor_type: DESCRIPTOR_TYPE_STORAGE_BUFFER, descriptor_count: in_flight },
                DescriptorPoolSizeDesc {
                    descriptor_type: DESCRIPTOR_TYPE_COMBINED_IMAGE_SAMPLER,
                    descriptor_count: texture_count * in_flight,
                },
            ],
            max_sets: in_flight,
        };
        assert(bindings@[0].descriptor_count == 1);
        assert(1 * in_flight == in_flight) by (nonlinear_arith);
        assert(pool.pool_sizes@[1].descriptor_count == bindings@[1].descriptor_count * in_flight);
        (bindings, pool)
    }

    /// The write that points binding 1 of a descriptor set at the texture
    /// views, in order, each sampled with `texture_sampler`.
    pub fn update_texture_descriptors(texture_image_views: &Vec<ImageView>, texture_sampler: Sampler) -> (r: ImageWriteDesc)
        ensures
            r.dst_binding == 1,
            r.dst_array_element == 0,
            r.descriptor_type == DESCRIPTOR_TYPE_COMBINED_IMAGE_SAMPLER,
            r.image_infos.len() == texture_image_views.len(),
            forall|i: int| 0 <= i < r.image_infos.len() ==> #[trigger] r.image_infos[i] == (DescriptorImageDesc {
                image_layout: IMAGE_LAYOUT_SHADER_READ_ONLY_OPTIMAL,
                image_view: texture_image_views[i],
                sampler: texture_sampler,
            }),
    {
        let mut image_infos: Vec<DescriptorImageDesc> = Vec::new();
        let mut index: usize = 0;
        while index < texture_image_views.len()
            invariant
                index <= texture_image_views.len(),
                image_infos.len() == index,
                forall|i: int| 0 <= i < index ==> #[trigger] image_infos[i] == (DescriptorImageDesc {
                    image_layout: IMAGE_LAYOUT_SHADER_READ_ONLY_OPTIMAL,
                    image_view: texture_image_views[i],
                    sampler: texture_sampler,
                }),
            decreases texture_image_views.len() - index,
        {
            image_infos.push(DescriptorImageDesc {
                image_layout: IMAGE_LAYOUT_SHADER_READ_ONLY_OPTIMAL,
                image_view: texture_image_views[index],
                sampler: texture_sampler,
            });
            index = index + 1;
        }
        ImageWriteDesc {
            dst_binding: 1,
            dst_array_element: 0,
            descriptor_type: DESCRIPTOR_TYPE_COMBINED_IMAGE_SAMPLER,
            image_infos,
        }
    }

    /// The write that points binding 0 of a descriptor set at the first
    /// `entity_count` model-view-projections of `mvp_buffer`.
    pub fn update_mvp_descriptors(entity_count: usize, mvp_buffer: Buffer) -> (r: BufferWriteDesc)
        requires
            mvp_bytes(entity_count as int) <= usize::MAX,
        ensures
            r == (BufferWriteDesc {
                dst_binding: 0,
                dst_array_element: 0,
                descriptor_type: DESCRIPTOR_TYPE_STORAGE_BUFFER,
                buffer: mvp_buffer,
                offset: 0,
                range: mvp_bytes(entity_count as int) as u64,
            }),
    {
        BufferWriteDesc {
            dst_binding: 0,
            dst_array_element: 0,
            descriptor_type: DESCRIPTOR_TYPE_STORAGE_BUFFER,
            buffer: mvp_buffer,
            offset: 0,
            range: entity_count as u64 * MVP_SIZE,
        }
    }

    /// The upload of a `width` by `height` RGBA8 texture: a staging buffer
    /// of its bytes, an sRGB image that transfers write and shaders
    /// sample, the transition to a transfer destination, the copy, the
    /// transition to shader reads, and a color view.
    pub fn create_texture(width: u32, height: u32) -> (r: TexturePlan)
        requires
            width * height * 4 <= u32::MAX,
        ensures
            r.extent == (Extent { width, height }),
            r.size == width * height * 4,
            r.staging == (BufferDesc { size: r.size, usage: BUFFER_USAGE_TRANSFER_SRC, sharing_mode: SHARING_MODE_EXCLUSIVE }),
            r.staging_properties == MEMORY_PROPERTY_HOST_VISIBLE | MEMORY_PROPERTY_HOST_COHERENT,
            r.image == (ImageDesc {
                image_type: crate::vkconst::IMAGE_TYPE_2D,
                width,
                height,
                depth: 1,
                mip_levels: 1,
                array_layers: 1,
                format: FORMAT_R8G8B8A8_SRGB,
                tiling: IMAGE_TILING_OPTIMAL,
                initial_layout: IMAGE_LAYOUT_UNDEFINED,
                usage: IMAGE_USAGE_TRANSFER_DST | IMAGE_USAGE_SAMPLED,
                sharing_mode: SHARING_MODE_EXCLUSIVE,
                samples: SAMPLE_COUNT_1,
            }),
            r.image_properties == MEMORY_PROPERTY_DEVICE_LOCAL,
            r.before_copy == (IMAGE_LAYOUT_UNDEFINED, IMAGE_LAYOUT_TRANSFER_DST_OPTIMAL),
            r.copy == (BufferImageCopyDesc {
                buffer_offset: 0,
                buffer_row_length: 0,
                buffer_image_height: 0,
                aspect_mask: IMAGE_ASPECT_COLOR,
                mip_level: 0,
                base_array_layer: 0,
                layer_count: 1,
                offset_x: 0,
                offset_y: 0,
                offset_z: 0,
                width,
                height,
                depth: 1,
            }),
            r.after_copy == (IMAGE_LAYOUT_TRANSFER_DST_OPTIMAL, IMAGE_LAYOUT_SHADER_READ_ONLY_OPTIMAL),
            r.view_format == FORMAT_R8G8B8A8_SRGB,
            r.view_aspect == IMAGE_ASPECT_COLOR,
            supported_transition(r.before_copy.0, r.before_copy.1),
            supported_transition(r.after_copy.0, r.after_copy.1),
            r.before_copy.1 == r.after_copy.0,
    {
        let size = (width * height * 4) as u64;
        let extent = Extent { width, height };
        TexturePlan {
            extent,
            size,
            staging: InternalVulkan::buffer_desc(size, BUFFER_USAGE_TRANSFER_SRC),
            staging_properties: MEMORY_PROPERTY_HOST_VISIBLE | MEMORY_PROPERTY_HOST_COHERENT,
            image: InternalVulkan::image_desc(
                extent,
                FORMAT_R8G8B8A8_SRGB,
                IMAGE_TILING_OPTIMAL,
                IMAGE_USAGE_TRANSFER_DST | IMAGE_USAGE_SAMPLED,
            ),
            image_properties: MEMORY_PROPERTY_DEVICE_LOCAL,
            before_copy: (IMAGE_LAYOUT_UNDEFINED, IMAGE_LAYOUT_TRANSFER_DST_OPTIMAL),
            copy: InternalVulkan::buffer_image_copy_desc(extent),
            after_copy: (IMAGE_LAYOUT_TRANSFER_DST_OPTIMAL, IMAGE_LAYOUT_SHADER_READ_ONLY_OPTIMAL),
            view_format: FORMAT_R8G8B8A8_SRGB,
            view_aspect: IMAGE_ASPECT_COLOR,
        }
    }

    /// The depth image of a frame of size `extent` in `depth_format`, in
    /// device-local memory, and its depth view.
    pub fn create_depth(extent: Extent, depth_format: i32) -> (r: DepthPlan)
        ensures
            r.image == (ImageDesc {
                image_type: crate::vkconst::IMAGE_TYPE_2D,
                width: extent.width,
                height: extent.height,
                depth: 1,
                mip_levels: 1,
                array_layers: 1,
                format: depth_format,
                tiling: IMAGE_TILING_OPTIMAL,
                initial_layout: IMAGE_LAYOUT_UNDEFINED,
                usage: IMAGE_USAGE_DEPTH_STENCIL_ATTACHMENT,
                sharing_mode: SHARING_MODE_EXCLUSIVE,
                samples: SAMPLE_COUNT_1,
            }),
            r.image_properties == MEMORY_PROPERTY_DEVICE_LOCAL,
            r.view_format == depth_format,
            r.view_aspect == IMAGE_ASPECT_DEPTH,
    {
        DepthPlan {
            image: InternalVulkan::image_desc(extent, depth_format, IMAGE_TILING_OPTIMAL, IMAGE_USAGE_DEPTH_STENCIL_ATTACHMENT),
            image_properties: MEMORY_PROPERTY_DEVICE_LOCAL,
            view_format: depth_format,
            view_aspect: IMAGE_ASPECT_DEPTH,
        }
    }

    /// The host-visible storage buffer for `capacity` model-view-projections
    /// and the memory properties it is allocated with.
    pub fn create_ssbo(capacity: usize) -> (r: (BufferDesc, u32))
        requires
            mvp_bytes(capacity as int) <= usize::MAX,
        ensures
            r.0 == (BufferDesc {
                size: mvp_bytes(capacity as int) as u64,
                usage: BUFFER_USAGE_STORAGE_BUFFER,
                sharing_mode: SHARING_MODE_EXCLUSIVE,
            }),
            r.1 == MEMORY_PROPERTY_HOST_VISIBLE | MEMORY_PROPERTY_HOST_COHERENT,
    {
        let size = capacity as u64 * MVP_SIZE;
        (
            InternalVulkan::buffer_desc(size, BUFFER_USAGE_STORAGE_BUFFER),
            MEMORY_PROPERTY_HOST_VISIBLE | MEMORY_PROPERTY_HOST_COHERENT,
        )
    }
}

/// The depth state of a pipeline that draws with a depth attachment: a
/// fragment is kept and written when it is nearer than what is there.
pub open spec fn depth_tested() -> DepthStencilDesc {
    DepthStencilDesc {
        depth_test_enable: true,
        depth_write_enable: true,
        depth_compare_op: COMPARE_OP_LESS,
        depth_bounds_test_enable: false,
        stencil_test_enable: false,
    }
}

/// The depth state of a pipeline without a depth attachment: every test
/// off, as Vulkan's defaults leave it.
pub open spec fn depth_untested() -> DepthStencilDesc {
    DepthStencilDesc {
        depth_test_enable: false,
        depth_write_enable: false,
        depth_compare_op: COMPARE_OP_NEVER,
        depth_bounds_test_enable: false,
        stencil_test_enable: false,
    }
}

/// `p` is the pipeline that the renderers draw with, for subpass 0 of
/// `render_pass`: triangle lists; viewport and scissor set while drawing;
/// filled polygons with back faces culled and clockwise front faces; one
/// sample; the depth state `depth_stencil`; and the color blended over
/// what is there by its alpha, with no logic operation.
pub open spec fn graphics_pipeline_spec(
    p: GraphicsPipelineDesc,
    extent: Extent,
    render_pass: RenderPass,
    layout: PipelineLayout,
    depth_stencil: DepthStencilDesc,
) -> bool {
    &&& p.topology == PRIMITIVE_TOPOLOGY_TRIANGLE_LIST
    &&& !p.primitive_restart_enable
    &&& p.dynamic_states@ == seq![DYNAMIC_STATE_SCISSOR, DYNAMIC_STATE_VIEWPORT]
    &&& p.scissor_extent == extent
    &&& p.rasterization == RasterizationDesc {
        depth_clamp_enable: false,
        rasterizer_discard_enable: false,
        polygon_mode: POLYGON_MODE_FILL,
        cull_mode: CULL_MODE_BACK,
        front_face: FRONT_FACE_CLOCKWISE,
        depth_bias_enable: false,
    }
    &&& p.multisample == MultisampleDesc {
        rasterization_samples: SAMPLE_COUNT_1,
        sample_shading_enable: false,
        alpha_to_coverage_enable: false,
        alpha_to_one_enable: false,
    }
    &&& p.depth_stencil == depth_stencil
    &&& p.color_blend_attachment == ColorBlendAttachmentDesc {
        color_write_mask: COLOR_COMPONENT_RGBA,
        blend_enable: true,
        src_color_blend_factor: BLEND_FACTOR_SRC_ALPHA,
        dst_color_blend_factor: BLEND_FACTOR_ONE_MINUS_SRC_ALPHA,
        color_blend_op: BLEND_OP_ADD,
        src_alpha_blend_factor: BLEND_FACTOR_ONE,
        dst_alpha_blend_factor: BLEND_FACTOR_ZERO,
        alpha_blend_op: BLEND_OP_ADD,
    }
    &&& !p.logic_op_enable
    &&& p.logic_op == LOGIC_OP_COPY
    &&& p.layout == layout
    &&& p.render_pass == render_pass
    &&& p.subpass == 0
}

pub(crate) fn graphics_pipeline(
    extent: Extent,
    render_pass: RenderPass,
    layout: PipelineLayout,
    depth_stencil: DepthStencilDesc,
) -> (r: GraphicsPipelineDesc)
    ensures
        graphics_pipeline_spec(r, extent, render_pass, layout, depth_stencil),
{
    GraphicsPipelineDesc {
        topology: PRIMITIVE_TOPOLOGY_TRIANGLE_LIST,
        primitive_restart_enable: false,
        dynamic_states: vec![DYNAMIC_STATE_SCISSOR, DYNAMIC_STATE_VIEWPORT],
        scissor_extent: extent,
        rasterization: RasterizationDesc {
            depth_clamp_enable: false,
            rasterizer_discard_enable: false,
            polygon_mode: POLYGON_MODE_FILL,
            cull_mode: CULL_MODE_BACK,
            front_face: FRONT_FACE_CLOCKWISE,
            depth_bias_enable: false,
        },
        multisample: MultisampleDesc {
            rasterization_samples: SAMPLE_COUNT_1,
            sample_shading_enable: false,
            alpha_to_coverage_enable: false,
            alpha_to_one_enable: false,
        },
        depth_stencil,
        color_blend_attachment: ColorBlendAttachmentDesc {
            color_write_mask: COLOR_COMPONENT_RGBA,
            blend_enable: true,
            src_color_blend_factor: BLEND_FACTOR_SRC_ALPHA,
            dst_color_blend_factor: BLEND_FACTOR_ONE_MINUS_SRC_ALPHA,
            color_blend_op: BLEND_OP_ADD,
            src_alpha_blend_factor: BLEND_FACTOR_ONE,
            dst_alpha_blend_factor: BLEND_FACTOR_ZERO,
            alpha_blend_op: BLEND_OP_ADD,
        },
        logic_op_enable: false,
        logic_op: LOGIC_OP_COPY,
        layout,
        render_pass,
        subpass: 0,
    }
}

/// `r` is the render pass of a frame: a color attachment of `format` that
/// is cleared and then presented, a depth attachment of `depth_format` that
/// is cleared and then discarded, one graphics subpass that uses both, and
/// a dependency that makes the subpass wait for the previous frame's color
/// output and depth writes.
pub open spec fn frame_render_pass(r: RenderPassDesc, format: i32, depth_format: i32) -> bool {
    &&& r.attachments@ == seq![
        AttachmentDesc {
            format,
            samples: SAMPLE_COUNT_1,
            load_op: ATTACHMENT_LOAD_OP_CLEAR,
            store_op: ATTACHMENT_STORE_OP_STORE,
            stencil_load_op: ATTACHMENT_LOAD_OP_DONT_CARE,
            stencil_store_op: ATTACHMENT_STORE_OP_DONT_CARE,
            initial_layout: IMAGE_LAYOUT_UNDEFINED,
            final_layout: IMAGE_LAYOUT_PRESENT_SRC_KHR,
        },
        AttachmentDesc {
            format: depth_format,
            samples: SAMPLE_COUNT_1,
            load_op: ATTACHMENT_LOAD_OP_CLEAR,
            store_op: ATTACHMENT_STORE_OP_DONT_CARE,
            stencil_load_op: ATTACHMENT_LOAD_OP_DONT_CARE,
            stencil_store_op: ATTACHMENT_STORE_OP_DONT_CARE,
            initial_layout: IMAGE_LAYOUT_UNDEFINED,
            final_layout: IMAGE_LAYOUT_DEPTH_STENCIL_ATTACHMENT_OPTIMAL,
        }
    ]
    &&& r.pipeline_bind_point == PIPELINE_BIND_POINT_GRAPHICS
    &&& r.color_attachments@ == seq![AttachmentRef { attachment: 0, layout: IMAGE_LAYOUT_COLOR_ATTACHMENT_OPTIMAL }]
    &&& r.depth_stencil_attachment == Some(AttachmentRef { attachment: 1, layout: IMAGE_LAYOUT_DEPTH_STENCIL_ATTACHMENT_OPTIMAL })
    &&& r.dependencies@ == seq![
        SubpassDependencyDesc {
            src_subpass: SUBPASS_EXTERNAL,
            dst_subpass: 0,
            src_stage_mask: PIPELINE_STAGE_COLOR_ATTACHMENT_OUTPUT | PIPELINE_STAGE_LATE_FRAGMENT_TESTS,
            dst_stage_mask: PIPELINE_STAGE_COLOR_ATTACHMENT_OUTPUT | PIPELINE_STAGE_EARLY_FRAGMENT_TESTS,
            src_access_mask: ACCESS_DEPTH_STENCIL_ATTACHMENT_WRITE,
            dst_access_mask: ACCESS_COLOR_ATTACHMENT_WRITE | ACCESS_DEPTH_STENCIL_ATTACHMENT_WRITE,
        }
    ]
}

/// The frame's render pass clears both of its attachments when a frame
/// starts: the depth attachment the subpass tests against starts from
/// undefined contents and is cleared, and the color attachment is cleared,
/// stored and left ready to present.
pub proof fn frame_render_pass_clears_its_attachments(rp: RenderPassDesc, format: i32, depth_format: i32)
    requires
        frame_render_pass(rp, format, depth_format),
    ensures
        rp.depth_stencil_attachment is Some,
        rp.depth_stencil_attachment.unwrap().attachment < rp.attachments@.len(),
        rp.attachments@[rp.depth_stencil_attachment.unwrap().attachment as int].initial_layout == IMAGE_LAYOUT_UNDEFINED,
        rp.attachments@[rp.depth_stencil_attachment.unwrap().attachment as int].load_op == ATTACHMENT_LOAD_OP_CLEAR,
        rp.attachments@[rp.depth_stencil_attachment.unwrap().attachment as int].format == depth_format,
        rp.color_attachments@.len() == 1,
        rp.color_attachments@[0].attachment < rp.attachments@.len(),
        rp.attachments@[rp.color_attachments@[0].attachment as int].load_op == ATTACHMENT_LOAD_OP_CLEAR,
        rp.attachments@[rp.color_attachments@[0].attachment as int].store_op == ATTACHMENT_STORE_OP_STORE,
        rp.attachments@[rp.color_attachments@[0].attachment as int].final_layout == IMAGE_LAYOUT_PRESENT_SRC_KHR,
{
}

/// A frame's framebuffer fits the frame's render pass: it has one view per
/// attachment, the subpass's color reference selects the swapchain view
/// and its depth reference the depth view, and each reference's layout is
/// the layout its attachment ends in (for the color attachment, before it
/// is presented).
pub proof fn framebuffer_fits_render_pass(
    rp: RenderPassDesc,
    format: i32,
    depth_format: i32,
    fb: FramebufferDesc,
    render_pass: RenderPass,
    view: ImageView,
    depth_view: ImageView,
    extent: Extent,
)
    requires
        frame_render_pass(rp, format, depth_format),
        framebuffer_for(fb, render_pass, view, Some(depth_view), extent),
    ensures
        fb.attachments@.len() == rp.attachments@.len(),
        rp.color_attachments@.len() == 1,
        rp.color_attachments@[0].attachment < fb.attachments@.len(),
        fb.attachments@[rp.color_attachments@[0].attachment as int] == view,
        rp.attachments@[rp.color_attachments@[0].attachment as int].format == format,
        rp.depth_stencil_attachment is Some,
        rp.depth_stencil_attachment.unwrap().attachment < fb.attachments@.len(),
        fb.attachments@[rp.depth_stencil_attachment.unwrap().attachment as int] == depth_view,
        rp.attachments@[rp.depth_stencil_attachment.unwrap().attachment as int].format == depth_format,
        rp.attachments@[rp.depth_stencil_attachment.unwrap().attachment as int].final_layout
            == rp.depth_stencil_attachment.unwrap().layout,
{
}

/// `fb` is the framebuffer of `render_pass` for the swapchain view `view`.
pub open spec fn framebuffer_for(
    fb: FramebufferDesc,
    render_pass: RenderPass,
    view: ImageView,
    depth_image_view: Option<ImageView>,
    extent: Extent,
) -> bool {
    &&& fb.render_pass == render_pass
    &&& fb.attachments@ == match depth_image_view {
        Some(depth) => seq![view, depth],
        None => seq![view],
    }
    &&& fb.width == extent.width
    &&& fb.height == extent.height
    &&& fb.layers == 1
}

fn upload_plan(size: u64, usage: u32) -> (r: UploadPlan)
    ensures
        upload_plan_spec(r, size, usage),
{
    UploadPlan {
        staging: InternalVulkan::buffer_desc(size, BUFFER_USAGE_TRANSFER_SRC),
        staging_properties: MEMORY_PROPERTY_HOST_VISIBLE | MEMORY_PROPERTY_HOST_COHERENT,
        target: InternalVulkan::buffer_desc(size, usage | BUFFER_USAGE_TRANSFER_DST),
        target_properties: MEMORY_PROPERTY_DEVICE_LOCAL,
        copy: InternalVulkan::buffer_copy_desc(size),
    }
}

} // verus!
