//! The Vulkan object handles of `ash` that the library carries around.
//! Each is a plain copyable handle; the library never looks inside one.
use vstd::prelude::*;

verus! {

/// `ash::vk::Buffer`, a Vulkan handle the library holds and passes on.
#[verifier::external_type_specification]
#[verifier::external_body]
pub struct ExBuffer(ash::vk::Buffer);

/// `ash::vk::DeviceMemory`, a Vulkan handle the library holds and passes on.
#[verifier::external_type_specification]
#[verifier::external_body]
pub struct ExDeviceMemory(ash::vk::DeviceMemory);

/// `ash::vk::Image`, a Vulkan handle the library holds and passes on.
#[verifier::external_type_specification]
#[verifier::external_body]
pub struct ExImage(ash::vk::Image);

/// `ash::vk::ImageView`, a Vulkan handle the library holds and passes on.
#[verifier::external_type_specification]
#[verifier::external_body]
pub struct ExImageView(ash::vk::ImageView);

/// `ash::vk::Framebuffer`, a Vulkan handle the library holds and passes on.
#[verifier::external_type_specification]
#[verifier::external_body]
pub struct ExFramebuffer(ash::vk::Framebuffer);

/// `ash::vk::RenderPass`, a Vulkan handle the library holds and passes on.
#[verifier::external_type_specification]
#[verifier::external_body]
pub struct ExRenderPass(ash::vk::RenderPass);

/// `ash::vk::CommandPool`, a Vulkan handle the library holds and passes on.
#[verifier::external_type_specification]
#[verifier::external_body]
pub struct ExCommandPool(ash::vk::CommandPool);

/// `ash::vk::CommandBuffer`, a Vulkan handle the library holds and passes on.
#[verifier::external_type_specification]
#[verifier::external_body]
pub struct ExCommandBuffer(ash::vk::CommandBuffer);

/// `ash::vk::Semaphore`, a Vulkan handle the library holds and passes on.
#[verifier::external_type_specification]
#[verifier::external_body]
pub struct ExSemaphore(ash::vk::Semaphore);

/// `ash::vk::Fence`, a Vulkan handle the library holds and passes on.
#[verifier::external_type_specification]
#[verifier::external_body]
pub struct ExFence(ash::vk::Fence);

/// `ash::vk::DescriptorSet`, a Vulkan handle the library holds and passes on.
#[verifier::external_type_specification]
#[verifier::external_body]
pub struct ExDescriptorSet(ash::vk::DescriptorSet);

/// `ash::vk::DescriptorSetLayout`, a Vulkan handle the library holds and passes on.
#[verifier::external_type_specification]
#[verifier::external_body]
pub struct ExDescriptorSetLayout(ash::vk::DescriptorSetLayout);

/// `ash::vk::DescriptorPool`, a Vulkan handle the library holds and passes on.
#[verifier::external_type_specification]
#[verifier::external_body]
pub struct ExDescriptorPool(ash::vk::DescriptorPool);

/// `ash::vk::Pipeline`, a Vulkan handle the library holds and passes on.
#[verifier::external_type_specification]
#[verifier::external_body]
pub struct ExPipeline(ash::vk::Pipeline);

/// `ash::vk::PipelineLayout`, a Vulkan handle the library holds and passes on.
#[verifier::external_type_specification]
#[verifier::external_body]
pub struct ExPipelineLayout(ash::vk::PipelineLayout);

/// `ash::vk::Sampler`, a Vulkan handle the library holds and passes on.
#[verifier::external_type_specification]
#[verifier::external_body]
pub struct ExSampler(ash::vk::Sampler);

/// `ash::vk::Queue`, a Vulkan handle the library holds and passes on.
#[verifier::external_type_specification]
#[verifier::external_body]
pub struct ExQueue(ash::vk::Queue);

/// `ash::vk::SwapchainKHR`, a Vulkan handle the library holds and passes on.
#[verifier::external_type_specification]
#[verifier::external_body]
pub struct ExSwapchainKHR(ash::vk::SwapchainKHR);

/// `ash::vk::PhysicalDevice`, a Vulkan handle the library holds and passes on.
#[verifier::external_type_specification]
#[verifier::external_body]
pub struct ExPhysicalDevice(ash::vk::PhysicalDevice);

/// `ash::vk::ShaderModule`, a Vulkan handle the library holds and passes on.
#[verifier::external_type_specification]
#[verifier::external_body]
pub struct ExShaderModule(ash::vk::ShaderModule);

} // verus!
