//! Device objects that the renderer keeps together.
use vstd::prelude::*;
use ash::vk::{Buffer, DeviceMemory, Image, ImageView};

verus! {

/// An image, the memory bound to it and a view of it.
#[derive(Debug)]
pub struct ImageData {
    image: Image,
    memory: DeviceMemory,
    view: ImageView,
}

impl ImageData {
    pub closed spec fn spec_image(&self) -> Image {
        self.image
    }

    pub closed spec fn spec_memory(&self) -> DeviceMemory {
        self.memory
    }

    pub closed spec fn spec_view(&self) -> ImageView {
        self.view
    }

    pub fn create(image: Image, memory: DeviceMemory, view: ImageView) -> (r: Self)
        ensures
            r.spec_image() == image,
            r.spec_memory() == memory,
            r.spec_view() == view,
    {
        ImageData { image, memory, view }
    }

    pub fn get_view(&self) -> (r: ImageView)
        ensures
            r == self.spec_view(),
    {
        self.view
    }

    pub fn get_image(&self) -> (r: Image)
        ensures
            r == self.spec_image(),
    {
        self.image
    }

    pub fn get_memory(&self) -> (r: DeviceMemory)
        ensures
            r == self.spec_memory(),
    {
        self.memory
    }
}

/// A host-visible storage buffer of model-view-projections, mapped at
/// `mapped`, with room for `capacity` entries.
#[derive(Debug)]
pub struct StorageBufferObject<M> {
    buffer: Buffer,
    memory: DeviceMemory,
    mapped: M,
    capacity: usize,
}

impl<M> StorageBufferObject<M> {
    pub closed spec fn spec_buffer(&self) -> Buffer {
        self.buffer
    }

    pub closed spec fn spec_memory(&self) -> DeviceMemory {
        self.memory
    }

    pub closed spec fn spec_mapped(&self) -> M {
        self.mapped
    }

    pub closed spec fn spec_capacity(&self) -> usize {
        self.capacity
    }

    /// The storage buffer made of a freshly created and mapped buffer with
    /// room for `capacity` entries.
    pub fn create(buffer: Buffer, memory: DeviceMemory, mapped: M, capacity: usize) -> (r: Self)
        ensures
            r.spec_buffer() == buffer,
            r.spec_memory() == memory,
            r.spec_mapped() == mapped,
            r.spec_capacity() == capacity,
    {
        StorageBufferObject { buffer, memory, mapped, capacity }
    }

    /// Whether `entity_count` entries need a larger buffer.
    pub fn needs_resize(&self, entity_count: usize) -> (r: bool)
        ensures
            r == (entity_count > self.spec_capacity()),
    {
        entity_count > self.capacity
    }

    /// Puts a new buffer in place of the old one and hands the old one
    /// back. The recorded capacity stays what it was.
    pub fn replace_buffer(&mut self, buffer: Buffer, memory: DeviceMemory, mapped: M) -> (previous: (Buffer, DeviceMemory, M))
        ensures
            previous.0 == old(self).spec_buffer(),
            previous.1 == old(self).spec_memory(),
            previous.2 == old(self).spec_mapped(),
            final(self).spec_buffer() == buffer,
            final(self).spec_memory() == memory,
            final(self).spec_mapped() == mapped,
            final(self).spec_capacity() == old(self).spec_capacity(),
    {
        let old_buffer = self.buffer;
        let old_memory = self.memory;
        let mut old_mapped = mapped;
        std::mem::swap(&mut self.mapped, &mut old_mapped);
        self.buffer = buffer;
        self.memory = memory;
        (old_buffer, old_memory, old_mapped)
    }

    /// Whether `len` entries fit in the buffer.
    pub fn fits(&self, len: usize) -> (r: bool)
        ensures
            r == (len <= self.spec_capacity()),
    {
        len <= self.capacity
    }

    pub fn get_buffer(&self) -> (r: Buffer)
        ensures
            r == self.spec_buffer(),
    {
        self.buffer
    }

    pub fn get_memory(&self) -> (r: DeviceMemory)
        ensures
            r == self.spec_memory(),
    {
        self.memory
    }

    pub fn get_mapped(&self) -> (r: &M)
        ensures
            *r == self.spec_mapped(),
    {
        &self.mapped
    }

    pub fn get_capacity(&self) -> (r: usize)
        ensures
            r == self.spec_capacity(),
    {
        self.capacity
    }
}

} // verus!
