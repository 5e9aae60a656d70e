use ash::vk::{
    Buffer, CommandBuffer, CommandPool, DescriptorPool, DescriptorSet, DescriptorSetLayout, DeviceMemory, Fence,
    Framebuffer, Handle, Image, ImageView, Pipeline, PipelineLayout, Queue, RenderPass, Sampler, Semaphore,
    SwapchainKHR,
};
use vulkan_renderer::descs::Extent;
use vulkan_renderer::renderer::{
    AcquireStep, FrameData, Renderer, SwapchainElements, FRAMES_IN_FLIGHT, INITIAL_MVP_CAPACITY,
};
use vulkan_renderer::structs::{ImageData, StorageBufferObject};
use vulkan_renderer::uniform::{window_after_acquire, window_after_present};

fn frame(raw: u64) -> FrameData<u64> {
    FrameData {
        command_pool: CommandPool::from_raw(raw),
        command_buffer: CommandBuffer::from_raw(raw),
        descriptor_set: DescriptorSet::from_raw(raw),
        mvp_buffer: StorageBufferObject::create(Buffer::from_raw(raw), DeviceMemory::from_raw(raw), raw, INITIAL_MVP_CAPACITY),
        image_available: Semaphore::from_raw(raw),
        render_finished: Semaphore::from_raw(raw + 100),
        in_flight: Fence::from_raw(raw),
    }
}

fn swapchain(raw: u64, framebuffers: Vec<Framebuffer>) -> SwapchainElements<&'static str> {
    SwapchainElements {
        swapchain: SwapchainKHR::from_raw(raw),
        swapchain_loader: "loader",
        format: 44,
        extent: Extent { width: 800, height: 600 },
        images: vec![Image::from_raw(raw + 1), Image::from_raw(raw + 2)],
        image_views: vec![ImageView::from_raw(raw + 1), ImageView::from_raw(raw + 2)],
        depth: ImageData::create(Image::from_raw(raw + 3), DeviceMemory::from_raw(raw + 3), ImageView::from_raw(raw + 3)),
        framebuffers,
    }
}

fn renderer() -> Renderer<u64, &'static str> {
    Renderer::create(
        swapchain(10, vec![Framebuffer::from_raw(99)]),
        vec![frame(1), frame(2)],
        Queue::from_raw(20),
        RenderPass::from_raw(21),
        Sampler::from_raw(22),
        DescriptorSetLayout::from_raw(23),
        DescriptorPool::from_raw(24),
        Pipeline::from_raw(25),
        PipelineLayout::from_raw(26),
    )
}

#[test]
fn renderer_starts_at_first_frame_without_framebuffers() {
    let r = renderer();
    assert_eq!(FRAMES_IN_FLIGHT, 2);
    assert_eq!(r.current_frame(), 0);
    assert!(r.swapchain_elements().framebuffers.is_empty());
    assert_eq!(r.frame().command_pool, CommandPool::from_raw(1));
    assert_eq!(r.graphics_queue(), Queue::from_raw(20));
    assert_eq!(r.render_pass(), RenderPass::from_raw(21));
    assert_eq!(r.texture_sampler(), Sampler::from_raw(22));
    assert_eq!(r.descriptor_set_layout(), DescriptorSetLayout::from_raw(23));
    assert_eq!(r.descriptor_pool(), DescriptorPool::from_raw(24));
    assert_eq!(r.pipeline(), Pipeline::from_raw(25));
    assert_eq!(r.pipeline_layout(), PipelineLayout::from_raw(26));
    assert_eq!(r.frames().len(), 2);
}

#[test]
fn frames_cycle_through_frames_in_flight() {
    let mut r = renderer();
    assert!(!r.end_frame(true));
    assert_eq!(r.current_frame(), 1);
    assert_eq!(r.frame().in_flight, Fence::from_raw(2));
    assert_eq!(r.frame().render_finished, Semaphore::from_raw(102));
    assert!(!r.end_frame(true));
    assert_eq!(r.current_frame(), 0);
    assert_eq!(r.frame().in_flight, Fence::from_raw(1));
}

#[test]
fn first_drawn_frame_makes_framebuffers() {
    let mut r = renderer();
    assert!(matches!(
        r.after_acquire(Some(1)),
        AcquireStep::Draw { image_index: 1, create_framebuffers: true }
    ));
    assert_eq!(r.framebuffer(1), None);
    r.set_framebuffers(vec![Framebuffer::from_raw(31), Framebuffer::from_raw(32)]);
    assert!(matches!(
        r.after_acquire(Some(1)),
        AcquireStep::Draw { image_index: 1, create_framebuffers: false }
    ));
    assert_eq!(r.framebuffer(1), Some(Framebuffer::from_raw(32)));
    assert_eq!(r.framebuffer(2), None);
}

#[test]
fn out_of_date_swapchain_skips_the_frame() {
    let r = renderer();
    assert!(matches!(r.after_acquire(None), AcquireStep::RecreateAndSkip));
    assert!(r.textures_need_update(3));
    assert!(!r.textures_need_update(0));
}

#[test]
fn replacing_the_swapchain_keeps_the_frame() {
    let mut r = renderer();
    assert!(!r.end_frame(true));
    let old = r.replace_swapchain(swapchain(40, vec![Framebuffer::from_raw(41), Framebuffer::from_raw(42)]));
    assert_eq!(old.swapchain, SwapchainKHR::from_raw(10));
    assert!(old.framebuffers.is_empty());
    assert_eq!(r.swapchain_elements().swapchain, SwapchainKHR::from_raw(40));
    assert_eq!(r.framebuffer(0), Some(Framebuffer::from_raw(41)));
    assert_eq!(r.current_frame(), 1);
    assert_eq!(r.frame().command_pool, CommandPool::from_raw(2));
}

#[test]
fn growing_the_mvp_buffer_keeps_its_capacity() {
    let mut r = renderer();
    assert!(!r.mvp_needs_resize(100));
    assert!(r.mvp_needs_resize(101));
    let (buffer, memory, mapped) = r.replace_mvp_buffer(Buffer::from_raw(70), DeviceMemory::from_raw(71), 72);
    assert_eq!((buffer, memory, mapped), (Buffer::from_raw(1), DeviceMemory::from_raw(1), 1));
    assert_eq!(r.frame().mvp_buffer.get_buffer(), Buffer::from_raw(70));
    assert_eq!(r.frame().mvp_buffer.get_capacity(), INITIAL_MVP_CAPACITY);
    assert!(r.mvp_needs_resize(101));
    assert_eq!(r.frames()[1].mvp_buffer.get_buffer(), Buffer::from_raw(2));
}

#[test]
fn storage_buffer_capacity() {
    let mut ssbo = StorageBufferObject::create(Buffer::from_raw(1), DeviceMemory::from_raw(2), 'm', 10);
    assert!(ssbo.fits(10));
    assert!(!ssbo.fits(11));
    assert!(!ssbo.needs_resize(10));
    assert!(ssbo.needs_resize(11));
    let previous = ssbo.replace_buffer(Buffer::from_raw(3), DeviceMemory::from_raw(4), 'n');
    assert_eq!(previous, (Buffer::from_raw(1), DeviceMemory::from_raw(2), 'm'));
    assert_eq!(ssbo.get_buffer(), Buffer::from_raw(3));
    assert_eq!(ssbo.get_memory(), DeviceMemory::from_raw(4));
    assert_eq!(*ssbo.get_mapped(), 'n');
    assert_eq!(ssbo.get_capacity(), 10);
}

#[test]
fn image_data_keeps_its_parts() {
    let data = ImageData::create(Image::from_raw(1), DeviceMemory::from_raw(2), ImageView::from_raw(3));
    assert_eq!(data.get_image(), Image::from_raw(1));
    assert_eq!(data.get_memory(), DeviceMemory::from_raw(2));
    assert_eq!(data.get_view(), ImageView::from_raw(3));
}

#[test]
fn failed_present_asks_for_a_new_swapchain() {
    let mut r = renderer();
    assert!(r.end_frame(false));
    assert_eq!(r.current_frame(), 1);
    assert_eq!(r.swapchain_elements().swapchain, SwapchainKHR::from_raw(10));
    assert!(r.end_frame(false));
    assert_eq!(r.current_frame(), 0);
}

#[test]
fn renderer_frames_start_with_initial_capacity() {
    let r = renderer();
    for frame in r.frames() {
        assert_eq!(frame.mvp_buffer.get_capacity(), INITIAL_MVP_CAPACITY);
    }
}

#[test]
fn uniform_window_steps() {
    assert!(matches!(window_after_acquire(None), AcquireStep::RecreateAndSkip));
    assert!(matches!(
        window_after_acquire(Some(2)),
        AcquireStep::Draw { image_index: 2, create_framebuffers: false }
    ));
    assert!(window_after_present(false));
    assert!(!window_after_present(true));
}

#[test]
fn setting_framebuffers_keeps_the_rest_of_the_swapchain() {
    let mut r = renderer();
    r.set_framebuffers(vec![Framebuffer::from_raw(31), Framebuffer::from_raw(32)]);
    let elements = r.swapchain_elements();
    assert_eq!(elements.swapchain, SwapchainKHR::from_raw(10));
    assert_eq!(elements.images, vec![Image::from_raw(11), Image::from_raw(12)]);
    assert_eq!(elements.image_views, vec![ImageView::from_raw(11), ImageView::from_raw(12)]);
    assert_eq!(elements.depth.get_view(), ImageView::from_raw(13));
    assert_eq!(elements.framebuffers.len(), elements.image_views.len());
}

#[test]
fn growing_the_mvp_buffer_keeps_the_rest_of_the_frame() {
    let mut r = renderer();
    r.replace_mvp_buffer(Buffer::from_raw(70), DeviceMemory::from_raw(71), 72);
    let frame = r.frame();
    assert_eq!(frame.command_pool, CommandPool::from_raw(1));
    assert_eq!(frame.command_buffer, CommandBuffer::from_raw(1));
    assert_eq!(frame.descriptor_set, DescriptorSet::from_raw(1));
    assert_eq!(frame.image_available, Semaphore::from_raw(1));
    assert_eq!(frame.render_finished, Semaphore::from_raw(101));
    assert_eq!(frame.in_flight, Fence::from_raw(1));
    assert_eq!(r.swapchain_elements().swapchain, SwapchainKHR::from_raw(10));
}
