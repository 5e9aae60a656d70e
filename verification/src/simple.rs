//! The setup of a window that only clears and presents: any device with a
//! queue family that draws and presents will do, and the render pass has
//! a single color attachment.
use vstd::prelude::*;
use ash::vk::{PhysicalDevice, PipelineLayout, RenderPass};
use crate::descs::{AttachmentDesc, AttachmentRef, DepthStencilDesc, Extent, GraphicsPipelineDesc, RenderPassDesc};
use crate::internal::{is_first_queue_family, queue_family_suitable, InternalVulkan};
use crate::vkconst::{
    ATTACHMENT_LOAD_OP_CLEAR, ATTACHMENT_LOAD_OP_DONT_CARE, ATTACHMENT_STORE_OP_DONT_CARE,
    ATTACHMENT_STORE_OP_STORE, IMAGE_LAYOUT_COLOR_ATTACHMENT_OPTIMAL, IMAGE_LAYOUT_PRESENT_SRC_KHR,
    IMAGE_LAYOUT_UNDEFINED, PIPELINE_BIND_POINT_GRAPHICS, SAMPLE_COUNT_1, COMPARE_OP_NEVER,
};
use crate::wrapper::{depth_untested, graphics_pipeline, graphics_pipeline_spec};

verus! {

/// Builds what the clearing window creates.
pub struct VulkanWrapper;

/// The queue families of a physical device.
#[derive(Debug)]
pub struct DeviceQueues {
    pub device: PhysicalDevice,
    /// The flags of each queue family.
    pub queue_flags: Vec<u32>,
    /// Whether each queue family can present to the surface.
    pub surface_support: Vec<bool>,
}

pub open spec fn device_queues_wf(d: DeviceQueues) -> bool {
    d.queue_flags.len() == d.surface_support.len() && d.queue_flags.len() <= u32::MAX
}

/// The device has a queue family that draws and presents.
pub open spec fn has_suitable_queue_family(d: DeviceQueues) -> bool {
    exists|k: int| queue_family_suitable(d.queue_flags@, d.surface_support@, k)
}

impl VulkanWrapper {
    /// The first device with a queue family that draws and presents,
    /// together with its first such family.
    pub fn find_physical_device(devices: &Vec<DeviceQueues>) -> (r: Option<(PhysicalDevice, u32)>)
        requires
            forall|i: int| 0 <= i < devices.len() ==> device_queues_wf(#[trigger] devices[i]),
        ensures
            match r {
                Some((device, queue_family)) => exists|i: int|
                    0 <= i < devices.len() && (#[trigger] devices[i]).device == device
                        && is_first_queue_family(devices[i].queue_flags@, devices[i].surface_support@, Some(queue_family))
                        && forall|j: int| 0 <= j < i ==> !has_suitable_queue_family(#[trigger] devices[j]),
                None => forall|j: int| 0 <= j < devices.len() ==> !has_suitable_queue_family(#[trigger] devices[j]),
            },
    {
        let mut index: usize = 0;
        while index < devices.len()
            invariant
                index <= devices.len(),
                forall|i: int| 0 <= i < devices.len() ==> device_queues_wf(#[trigger] devices[i]),
                forall|j: int| 0 <= j < index ==> !has_suitable_queue_family(#[trigger] devices[j]),
            decreases devices.len() - index,
        {
            let info = &devices[index];
            assert(device_queues_wf(devices[index as int]));
            match InternalVulkan::get_queue_family_index(&info.queue_flags, &info.surface_support) {
                Some(queue_family) => {
                    return Some((info.device, queue_family));
                },
                None => {},
            }
            index = index + 1;
        }
        None
    }

    /// A render pass with one color attachment of `format` that is cleared
    /// and then presented, drawn by one graphics subpass.
    pub fn create_render_pass(format: i32) -> (r: RenderPassDesc)
        ensures
            r.attachments@ == seq![
                AttachmentDesc {
                    format,
                    samples: SAMPLE_COUNT_1,
                    load_op: ATTACHMENT_LOAD_OP_CLEAR,
                    store_op: ATTACHMENT_STORE_OP_STORE,
                    stencil_load_op: ATTACHMENT_LOAD_OP_DONT_CARE,
                    stencil_store_op: ATTACHMENT_STORE_OP_DONT_CARE,
                    initial_layout: IMAGE_LAYOUT_UNDEFINED,
                    final_layout: IMAGE_LAYOUT_PRESENT_SRC_KHR,
                }
            ],
            r.pipeline_bind_point == PIPELINE_BIND_POINT_GRAPHICS,
            r.color_attachments@ == seq![AttachmentRef { attachment: 0, layout: IMAGE_LAYOUT_COLOR_ATTACHMENT_OPTIMAL }],
            r.depth_stencil_attachment is None,
            r.dependencies@.len() == 0,
    {
        RenderPassDesc {
            attachments: vec![AttachmentDesc {
                format,
                samples: SAMPLE_COUNT_1,
                load_op: ATTACHMENT_LOAD_OP_CLEAR,
                store_op: ATTACHMENT_STORE_OP_STORE,
                stencil_load_op: ATTACHMENT_LOAD_OP_DONT_CARE,
                stencil_store_op: ATTACHMENT_STORE_OP_DONT_CARE,
                initial_layout: IMAGE_LAYOUT_UNDEFINED,
                final_layout: IMAGE_LAYOUT_PRESENT_SRC_KHR,
            }],
            pipeline_bind_point: PIPELINE_BIND_POINT_GRAPHICS,
            color_attachments: vec![AttachmentRef { attachment: 0, layout: IMAGE_LAYOUT_COLOR_ATTACHMENT_OPTIMAL }],
            depth_stencil_attachment: None,
            dependencies: Vec::new(),
        }
    }

    /// The graphics pipeline of the window, drawing into subpass 0 of
    /// `render_pass` with `pipeline_layout`, without a depth test.
    pub fn create_graphics_pipeline(
        extent: Extent,
        render_pass: RenderPass,
        pipeline_layout: PipelineLayout,
    ) -> (r: GraphicsPipelineDesc)
        ensures
            graphics_pipeline_spec(r, extent, render_pass, pipeline_layout, depth_untested()),
    {
        let depth_stencil = DepthStencilDesc {
            depth_test_enable: false,
            depth_write_enable: false,
            depth_compare_op: COMPARE_OP_NEVER,
            depth_bounds_test_enable: false,
            stencil_test_enable: false,
        };
        graphics_pipeline(extent, render_pass, pipeline_layout, depth_stencil)
    }
}

} // verus!
