//! The renderer's state from frame to frame: which frame's resources are in
//! use, when framebuffers must be made, when the swapchain must be made
//! again, and whether the model-view-projection buffer must grow.
use vstd::prelude::*;
use ash::vk::{
    Buffer, CommandBuffer, CommandPool, DescriptorPool, DescriptorSet, DescriptorSetLayout, DeviceMemory,
    Fence, Framebuffer, Image, ImageView, Pipeline, PipelineLayout, Queue, RenderPass, Sampler, Semaphore,
    SwapchainKHR,
};
use crate::descs::Extent;
use crate::structs::{ImageData, StorageBufferObject};

verus! {

/// How many frames the renderer records ahead of the device.
pub const FRAMES_IN_FLIGHT: usize = 2;

/// How many model-view-projections each frame's storage buffer holds at
/// first.
pub const INITIAL_MVP_CAPACITY: usize = 100;

/// The resources one frame in flight records and synchronizes with.
#[derive(Debug)]
pub struct FrameData<M> {
    pub command_pool: CommandPool,
    pub command_buffer: CommandBuffer,
    pub descriptor_set: DescriptorSet,
    pub mvp_buffer: StorageBufferObject<M>,
    pub image_available: Semaphore,
    pub render_finished: Semaphore,
    pub in_flight: Fence,
}

/// The swapchain and what is made from it: its images and their views, the
/// depth image and the framebuffers. `L` is the loader of the swapchain
/// functions.
#[derive(Debug)]
pub struct SwapchainElements<L> {
    pub swapchain: SwapchainKHR,
    pub swapchain_loader: L,
    pub format: i32,
    pub extent: Extent,
    pub images: Vec<Image>,
    pub image_views: Vec<ImageView>,
    pub depth: ImageData,
    pub framebuffers: Vec<Framebuffer>,
}

/// The swapchain holds one view per image, and either no framebuffers yet
/// or one framebuffer per view.
pub open spec fn swapchain_wf<L>(s: SwapchainElements<L>) -> bool {
    &&& s.images@.len() == s.image_views@.len()
    &&& (s.framebuffers@.len() == 0 || s.framebuffers@.len() == s.image_views@.len())
}

/// What to do once the next swapchain image has been asked for.
#[derive(Clone, Copy, Debug)]
pub enum AcquireStep {
    /// The swapchain no longer fits the surface: make it again and skip
    /// this frame.
    RecreateAndSkip,
    /// Draw into swapchain image `image_index`, first making the
    /// framebuffers when there are none yet.
    Draw { image_index: u32, create_framebuffers: bool },
}

/// The frame that follows frame `frame`.
pub open spec fn next_frame(frame: int) -> int {
    (frame + 1) % (FRAMES_IN_FLIGHT as int)
}

/// The frame reached from frame `frame` after `count` finished frames.
pub open spec fn frame_after(frame: int, count: nat) -> int
    decreases count,
{
    if count == 0 {
        frame
    } else {
        next_frame(frame_after(frame, (count - 1) as nat))
    }
}

/// After `count` finished frames, the renderer is at frame
/// `(frame + count) % FRAMES_IN_FLIGHT`; in particular, after
/// `FRAMES_IN_FLIGHT` finished frames it is back at the frame it started
/// from, and it never leaves the frames in flight.
pub proof fn frames_cycle(frame: int, count: nat)
    requires
        0 <= frame < FRAMES_IN_FLIGHT,
    ensures
        frame_after(frame, count) == (frame + count) % (FRAMES_IN_FLIGHT as int),
        0 <= frame_after(frame, count) < FRAMES_IN_FLIGHT,
        frame_after(frame, FRAMES_IN_FLIGHT as nat) == frame,
    decreases count,
{
    if count > 0 {
        frames_cycle(frame, (count - 1) as nat);
        vstd::arithmetic::div_mod::lemma_add_mod_noop(frame + count - 1, 1, FRAMES_IN_FLIGHT as int);
    }
    vstd::arithmetic::div_mod::lemma_mod_bound(frame + count, FRAMES_IN_FLIGHT as int);
    frames_cycle_full(frame);
}

proof fn frames_cycle_full(frame: int)
    requires
        0 <= frame < FRAMES_IN_FLIGHT,
    ensures
        frame_after(frame, FRAMES_IN_FLIGHT as nat) == frame,
{
    reveal_with_fuel(frame_after, 3);
}

/// The renderer: its swapchain, one set of resources per frame in flight,
/// the objects all frames share, and which frame is current. `M` is where a
/// frame's storage buffer is mapped and `L` the loader of the swapchain
/// functions.
#[derive(Debug)]
pub struct Renderer<M, L> {
    swapchain: SwapchainElements<L>,
    frames: Vec<FrameData<M>>,
    graphics_queue: Queue,
    render_pass: RenderPass,
    texture_sampler: Sampler,
    descriptor_set_layout: DescriptorSetLayout,
    descriptor_pool: DescriptorPool,
    pipeline: Pipeline,
    pipeline_layout: PipelineLayout,
    current_frame: usize,
}

impl<M, L> Renderer<M, L> {
    /// One set of frame resources per frame in flight, the current frame is
    /// one of them, and the swapchain has one view per image and, once they
    /// are made, one framebuffer per view.
    pub closed spec fn wf(&self) -> bool {
        &&& self.frames@.len() == FRAMES_IN_FLIGHT
        &&& self.current_frame < FRAMES_IN_FLIGHT
        &&& swapchain_wf(self.swapchain)
    }

    /// What `wf` says of the swapchain, for callers.
    pub proof fn lemma_wf_swapchain(&self)
        requires
            self.wf(),
        ensures
            swapchain_wf(self.spec_swapchain()),
            self.spec_framebuffers() == self.spec_swapchain().framebuffers@,
    {
    }

    pub closed spec fn spec_current_frame(&self) -> int {
        self.current_frame as int
    }

    pub closed spec fn spec_frames(&self) -> Seq<FrameData<M>> {
        self.frames@
    }

    pub closed spec fn spec_framebuffers(&self) -> Seq<Framebuffer> {
        self.swapchain.framebuffers@
    }

    pub closed spec fn spec_swapchain(&self) -> SwapchainElements<L> {
        self.swapchain
    }

    /// The parts that do not change from frame to frame.
    pub closed spec fn spec_fixed(&self) -> (Queue, RenderPass, Sampler, DescriptorSetLayout, DescriptorPool, Pipeline, PipelineLayout) {
        (
            self.graphics_queue,
            self.render_pass,
            self.texture_sampler,
            self.descriptor_set_layout,
            self.descriptor_pool,
            self.pipeline,
            self.pipeline_layout,
        )
    }

    /// The renderer made of its parts, starting at the first frame and
    /// without framebuffers, which the first frame drawn makes. Every frame
    /// starts with a storage buffer for `INITIAL_MVP_CAPACITY` entries.
    pub fn create(
        swapchain: SwapchainElements<L>,
        frames: Vec<FrameData<M>>,
        graphics_queue: Queue,
        render_pass: RenderPass,
        texture_sampler: Sampler,
        descriptor_set_layout: DescriptorSetLayout,
        descriptor_pool: DescriptorPool,
        pipeline: Pipeline,
        pipeline_layout: PipelineLayout,
    ) -> (r: Self)
        requires
            frames.len() == FRAMES_IN_FLIGHT,
            forall|i: int| 0 <= i < frames.len() ==> (#[trigger] frames[i]).mvp_buffer.spec_capacity() == INITIAL_MVP_CAPACITY,
            swapchain.images.len() == swapchain.image_views.len(),
        ensures
            r.wf(),
            forall|i: int| 0 <= i < FRAMES_IN_FLIGHT ==> (#[trigger] r.spec_frames()[i]).mvp_buffer.spec_capacity() == INITIAL_MVP_CAPACITY,
            r.spec_current_frame() == 0,
            r.spec_frames() == frames@,
            r.spec_framebuffers().len() == 0,
            r.spec_swapchain().swapchain == swapchain.swapchain,
            r.spec_swapchain().swapchain_loader == swapchain.swapchain_loader,
            r.spec_swapchain().format == swapchain.format,
            r.spec_swapchain().extent == swapchain.extent,
            r.spec_swapchain().images == swapchain.images,
            r.spec_swapchain().image_views == swapchain.image_views,
            r.spec_swapchain().depth == swapchain.depth,
            r.spec_fixed() == (graphics_queue, render_pass, texture_sampler, descriptor_set_layout, descriptor_pool, pipeline, pipeline_layout),
    {
        let mut swapchain = swapchain;
        swapchain.framebuffers = Vec::new();
        Renderer {
            swapchain,
            frames,
            graphics_queue,
            render_pass,
            texture_sampler,
            descriptor_set_layout,
            descriptor_pool,
            pipeline,
            pipeline_layout,
            current_frame: 0,
        }
    }

    pub fn current_frame(&self) -> (r: usize)
        requires
            self.wf(),
        ensures
            r == self.spec_current_frame(),
            r < FRAMES_IN_FLIGHT,
    {
        self.current_frame
    }

    /// The resources of the current frame.
    pub fn frame(&self) -> (r: &FrameData<M>)
        requires
            self.wf(),
        ensures
            *r == self.spec_frames()[self.spec_current_frame()],
    {
        &self.frames[self.current_frame]
    }

    /// The resources of every frame, in order.
    pub fn frames(&self) -> (r: &Vec<FrameData<M>>)
        ensures
            r@ == self.spec_frames(),
    {
        &self.frames
    }

    /// Whether the textures of the current frame's descriptor set must be
    /// written before drawing: whenever there are textures to draw with.
    pub fn textures_need_update(&self, texture_count: usize) -> (r: bool)
        ensures
            r == (texture_count > 0),
    {
        texture_count > 0
    }

    /// What to do after asking for the next swapchain image, which gave
    /// `acquired` (`None` when the swapchain is out of date).
    pub fn after_acquire(&self, acquired: Option<u32>) -> (r: AcquireStep)
        ensures
            match acquired {
                None => r is RecreateAndSkip,
                Some(index) => r == (AcquireStep::Draw {
                    image_index: index,
                    create_framebuffers: self.spec_framebuffers().len() == 0,
                }),
            },
    {
        match acquired {
            None => AcquireStep::RecreateAndSkip,
            Some(index) => AcquireStep::Draw {
                image_index: index,
                create_framebuffers: self.swapchain.framebuffers.len() == 0,
            },
        }
    }

    /// The framebuffer of swapchain image `image_index`, if there is one.
    pub fn framebuffer(&self, image_index: u32) -> (r: Option<Framebuffer>)
        ensures
            (image_index as int) < self.spec_framebuffers().len() ==> r == Some(self.spec_framebuffers()[image_index as int]),
            (image_index as int) >= self.spec_framebuffers().len() ==> r is None,
    {
        let index = image_index as usize;
        if index < self.swapchain.framebuffers.len() {
            Some(self.swapchain.framebuffers[index])
        } else {
            None
        }
    }

    /// Keeps the framebuffers made for the current swapchain.
    pub fn set_framebuffers(&mut self, framebuffers: Vec<Framebuffer>)
        requires
            old(self).wf(),
            framebuffers.len() == 0 || framebuffers.len() == old(self).spec_swapchain().image_views.len(),
        ensures
            final(self).wf(),
            final(self).spec_framebuffers() == framebuffers@,
            final(self).spec_swapchain().swapchain == old(self).spec_swapchain().swapchain,
            final(self).spec_swapchain().swapchain_loader == old(self).spec_swapchain().swapchain_loader,
            final(self).spec_swapchain().format == old(self).spec_swapchain().format,
            final(self).spec_swapchain().extent == old(self).spec_swapchain().extent,
            final(self).spec_swapchain().images == old(self).spec_swapchain().images,
            final(self).spec_swapchain().image_views == old(self).spec_swapchain().image_views,
            final(self).spec_swapchain().depth == old(self).spec_swapchain().depth,
            final(self).spec_swapchain().framebuffers == framebuffers,
            final(self).spec_frames() == old(self).spec_frames(),
            final(self).spec_current_frame() == old(self).spec_current_frame(),
            final(self).spec_fixed() == old(self).spec_fixed(),
    {
        self.swapchain.framebuffers = framebuffers;
    }

    /// The swapchain and what was made with it.
    pub fn swapchain_elements(&self) -> (r: &SwapchainElements<L>)
        ensures
            *r == self.spec_swapchain(),
    {
        &self.swapchain
    }

    /// Puts a newly made swapchain in place of the current one and hands
    /// the old one back; the frames and the current frame stay as they are.
    pub fn replace_swapchain(&mut self, swapchain: SwapchainElements<L>) -> (previous: SwapchainElements<L>)
        requires
            old(self).wf(),
            swapchain_wf(swapchain),
        ensures
            final(self).wf(),
            previous == old(self).spec_swapchain(),
            final(self).spec_swapchain() == swapchain,
            final(self).spec_frames() == old(self).spec_frames(),
            final(self).spec_current_frame() == old(self).spec_current_frame(),
            final(self).spec_fixed() == old(self).spec_fixed(),
    {
        let mut previous = swapchain;
        std::mem::swap(&mut self.swapchain, &mut previous);
        previous
    }

    /// Whether the current frame's storage buffer is too small for
    /// `entity_count` model-view-projections.
    pub fn mvp_needs_resize(&self, entity_count: usize) -> (r: bool)
        requires
            self.wf(),
        ensures
            r == (entity_count > self.spec_frames()[self.spec_current_frame()].mvp_buffer.spec_capacity()),
    {
        self.frames[self.current_frame].mvp_buffer.needs_resize(entity_count)
    }

    /// Puts a new storage buffer in place of the current frame's and hands
    /// the old one back; its recorded capacity stays what it was.
    pub fn replace_mvp_buffer(&mut self, buffer: Buffer, memory: DeviceMemory, mapped: M) -> (previous: (Buffer, DeviceMemory, M))
        requires
            old(self).wf(),
        ensures
            final(self).wf(),
            ({
                let frame = old(self).spec_current_frame();
                let before = old(self).spec_frames()[frame].mvp_buffer;
                let after = final(self).spec_frames()[frame].mvp_buffer;
                &&& previous == (before.spec_buffer(), before.spec_memory(), before.spec_mapped())
                &&& after.spec_buffer() == buffer
                &&& after.spec_memory() == memory
                &&& after.spec_mapped() == mapped
                &&& after.spec_capacity() == before.spec_capacity()
            }),
            ({
                let frame = old(self).spec_current_frame();
                let before = old(self).spec_frames()[frame];
                let after = final(self).spec_frames()[frame];
                &&& after.command_pool == before.command_pool
                &&& after.command_buffer == before.command_buffer
                &&& after.descriptor_set == before.descriptor_set
                &&& after.image_available == before.image_available
                &&& after.render_finished == before.render_finished
                &&& after.in_flight == before.in_flight
            }),
            forall|i: int| 0 <= i < FRAMES_IN_FLIGHT && i != old(self).spec_current_frame()
                ==> #[trigger] final(self).spec_frames()[i] == old(self).spec_frames()[i],
            final(self).spec_current_frame() == old(self).spec_current_frame(),
            final(self).spec_framebuffers() == old(self).spec_framebuffers(),
            final(self).spec_swapchain() == old(self).spec_swapchain(),
            final(self).spec_fixed() == old(self).spec_fixed(),
    {
        let frame = self.current_frame;
        self.frames[frame].mvp_buffer.replace_buffer(buffer, memory, mapped)
    }

    /// Ends a drawn frame, whose presentation `presented` or failed: the
    /// renderer moves on to the next frame in flight either way, and the
    /// result says whether the swapchain must be made again. A skipped
    /// frame never gets here, so it does not move the renderer on.
    pub fn end_frame(&mut self, presented: bool) -> (recreate: bool)
        requires
            old(self).wf(),
        ensures
            final(self).wf(),
            recreate == !presented,
            final(self).spec_current_frame() == next_frame(old(self).spec_current_frame()),
            final(self).spec_frames() == old(self).spec_frames(),
            final(self).spec_framebuffers() == old(self).spec_framebuffers(),
            final(self).spec_swapchain() == old(self).spec_swapchain(),
            final(self).spec_fixed() == old(self).spec_fixed(),
    {
        self.current_frame = (self.current_frame + 1) % FRAMES_IN_FLIGHT;
        !presented
    }

    pub fn graphics_queue(&self) -> (r: Queue)
        ensures
            r == self.spec_fixed().0,
    {
        self.graphics_queue
    }

    pub fn render_pass(&self) -> (r: RenderPass)
        ensures
            r == self.spec_fixed().1,
    {
        self.render_pass
    }

    pub fn texture_sampler(&self) -> (r: Sampler)
        ensures
            r == self.spec_fixed().2,
    {
        self.texture_sampler
    }

    pub fn descriptor_set_layout(&self) -> (r: DescriptorSetLayout)
        ensures
            r == self.spec_fixed().3,
    {
        self.descriptor_set_layout
    }

    pub fn descriptor_pool(&self) -> (r: DescriptorPool)
        ensures
            r == self.spec_fixed().4,
    {
        self.descriptor_pool
    }

    pub fn pipeline(&self) -> (r: Pipeline)
        ensures
            r == self.spec_fixed().5,
    {
        self.pipeline
    }

    pub fn pipeline_layout(&self) -> (r: PipelineLayout)
        ensures
            r == self.spec_fixed().6,
    {
        self.pipeline_layout
    }
}

} // verus!
