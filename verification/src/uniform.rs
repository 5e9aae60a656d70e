//! Descriptors of a renderer that feeds its shaders one uniform buffer and
//! one texture.
use vstd::prelude::*;
use ash::vk::{Buffer, ImageView, Sampler};
use crate::descs::{BufferDesc, DescriptorBindingDesc, BufferWriteDesc, DescriptorImageDesc, DescriptorPoolDesc, DescriptorPoolSizeDesc, ImageWriteDesc};
use crate::internal::InternalVulkan;
use crate::renderer::AcquireStep;
use crate::vkconst::{
    BUFFER_USAGE_UNIFORM_BUFFER, DESCRIPTOR_TYPE_COMBINED_IMAGE_SAMPLER, DESCRIPTOR_TYPE_UNIFORM_BUFFER,
    IMAGE_LAYOUT_SHADER_READ_ONLY_OPTIMAL, MEMORY_PROPERTY_HOST_COHERENT, MEMORY_PROPERTY_HOST_VISIBLE,
    SHADER_STAGE_FRAGMENT, SHADER_STAGE_VERTEX, SHARING_MODE_EXCLUSIVE,
};

verus! {

/// Builds the uniform buffer and descriptors of the uniform-buffer renderer.
pub struct VulkanWrapper;

/// The descriptor pool and writes of the uniform-buffer renderer.
#[derive(Debug)]
pub struct UniformDescriptors {
    pub pool: DescriptorPoolDesc,
    pub uniform_write: BufferWriteDesc,
    pub texture_write: ImageWriteDesc,
}

/// What the uniform-buffer window does after asking for the next swapchain
/// image, which gave `acquired` (`None` when the swapchain is out of date):
/// make the swapchain again and skip the frame, or draw into that image
/// with the framebuffers it already has.
pub fn window_after_acquire(acquired: Option<u32>) -> (r: AcquireStep)
    ensures
        acquired is None <==> r is RecreateAndSkip,
        match acquired {
            None => r is RecreateAndSkip,
            Some(index) => r == (AcquireStep::Draw { image_index: index, create_framebuffers: false }),
        },
{
    match acquired {
        None => AcquireStep::RecreateAndSkip,
        Some(index) => AcquireStep::Draw { image_index: index, create_framebuffers: false },
    }
}

/// Whether the uniform-buffer window must make its swapchain again after a
/// presentation that `presented` or failed: exactly when it failed.
pub fn window_after_present(presented: bool) -> (recreate: bool)
    ensures
        recreate == !presented,
{
    !presented
}

impl VulkanWrapper {
    /// The layout of the renderer's one descriptor set: binding 0 is the
    /// vertex shader's uniform buffer, binding 1 the fragment shader's
    /// sampled texture, matching the writes of `create_descriptors`.
    pub fn create_descriptor_set_layout() -> (r: Vec<DescriptorBindingDesc>)
        ensures
            r@ == seq![
                DescriptorBindingDesc {
                    binding: 0,
                    descriptor_type: DESCRIPTOR_TYPE_UNIFORM_BUFFER,
                    descriptor_count: 1,
                    stage_flags: SHADER_STAGE_VERTEX,
                },
                DescriptorBindingDesc {
                    binding: 1,
                    descriptor_type: DESCRIPTOR_TYPE_COMBINED_IMAGE_SAMPLER,
                    descriptor_count: 1,
                    stage_flags: SHADER_STAGE_FRAGMENT,
                }
            ],
    {
        vec![
            DescriptorBindingDesc {
                binding: 0,
                descriptor_type: DESCRIPTOR_TYPE_UNIFORM_BUFFER,
                descriptor_count: 1,
                stage_flags: SHADER_STAGE_VERTEX,
            },
            DescriptorBindingDesc {
                binding: 1,
                descriptor_type: DESCRIPTOR_TYPE_COMBINED_IMAGE_SAMPLER,
                descriptor_count: 1,
                stage_flags: SHADER_STAGE_FRAGMENT,
            },
        ]
    }

    /// The host-visible uniform buffer of `size` bytes and the memory
    /// properties it is allocated with.
    pub fn create_uniform_buffers(size: u64) -> (r: (BufferDesc, u32))
        ensures
            r.0 == (BufferDesc { size, usage: BUFFER_USAGE_UNIFORM_BUFFER, sharing_mode: SHARING_MODE_EXCLUSIVE }),
            r.1 == MEMORY_PROPERTY_HOST_VISIBLE | MEMORY_PROPERTY_HOST_COHERENT,
    {
        (InternalVulkan::buffer_desc(size, BUFFER_USAGE_UNIFORM_BUFFER), MEMORY_PROPERTY_HOST_VISIBLE | MEMORY_PROPERTY_HOST_COHERENT)
    }

    /// A pool for one set with one uniform buffer and one sampled texture,
    /// and the writes that point binding 0 at the first `uniform_range`
    /// bytes of `uniform_buffer` and binding 1 at the texture.
    pub fn create_descriptors(
        uniform_buffer: Buffer,
        uniform_range: u64,
        texture_image_view: ImageView,
        texture_sampler: Sampler,
    ) -> (r: UniformDescriptors)
        ensures
            r.pool.pool_sizes@ == seq![
                DescriptorPoolSizeDesc { descriptor_type: DESCRIPTOR_TYPE_UNIFORM_BUFFER, descriptor_count: 1 },
                DescriptorPoolSizeDesc { descriptor_type: DESCRIPTOR_TYPE_COMBINED_IMAGE_SAMPLER, descriptor_count: 1 }
            ],
            r.pool.max_sets == 1,
            r.uniform_write == (BufferWriteDesc {
                dst_binding: 0,
                dst_array_element: 0,
                descriptor_type: DESCRIPTOR_TYPE_UNIFORM_BUFFER,
                buffer: uniform_buffer,
                offset: 0,
                range: uniform_range,
            }),
            r.texture_write.dst_binding == 1,
            r.texture_write.dst_array_element == 0,
            r.texture_write.descriptor_type == DESCRIPTOR_TYPE_COMBINED_IMAGE_SAMPLER,
            r.texture_write.image_infos@ == seq![DescriptorImageDesc {
                image_layout: IMAGE_LAYOUT_SHADER_READ_ONLY_OPTIMAL,
                image_view: texture_image_view,
                sampler: texture_sampler,
            }],
    {
        let pool = DescriptorPoolDesc {
            pool_sizes: vec![
                DescriptorPoolSizeDesc { descriptor_type: DESCRIPTOR_TYPE_UNIFORM_BUFFER, descriptor_count: 1 },
                DescriptorPoolSizeDesc { descriptor_type: DESCRIPTOR_TYPE_COMBINED_IMAGE_SAMPLER, descriptor_count: 1 },
            ],
            max_sets: 1,
        };
        let uniform_write = BufferWriteDesc {
            dst_binding: 0,
            dst_array_element: 0,
            descriptor_type: DESCRIPTOR_TYPE_UNIFORM_BUFFER,
            buffer: uniform_buffer,
            offset: 0,
            range: uniform_range,
        };
        let texture_write = ImageWriteDesc {
            dst_binding: 1,
            dst_array_element: 0,
            descriptor_type: DESCRIPTOR_TYPE_COMBINED_IMAGE_SAMPLER,
            image_infos: vec![DescriptorImageDesc {
                image_layout: IMAGE_LAYOUT_SHADER_READ_ONLY_OPTIMAL,
                image_view: texture_image_view,
                sampler: texture_sampler,
            }],
        };
        UniformDescriptors { pool, uniform_write, texture_write }
    }
}

} // verus!
