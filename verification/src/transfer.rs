//! The staged-upload transfer pipeline, modeled over byte contents.
//!
//! Device-local memory is not host-writable, so every upload goes through a
//! staging buffer: create it host-visible and host-coherent, write the source
//! bytes in, record a one-shot copy into the device-local destination, and
//! destroy the staging buffer. Images additionally move through the layout
//! protocol undefined, transfer-dst, shader-read-only, with the mipmap chain
//! generated while the image is a transfer destination. The types here carry
//! the bytes and the layout as model state, so the contracts pin down that
//! what arrives in the destination is exactly what was written into staging.

use vstd::prelude::*;
use crate::image::{
    spec_transition_masks, spec_mipmap_commands, ImageLayout, MipCommand,
    mipmap_commands,
};

verus! {

/// The memory class a buffer's backing allocation must come from.
#[derive(Clone, Copy, Debug, PartialEq, Eq, Structural)]
pub enum MemoryClass {
    DeviceLocal,
    HostVisibleCoherent,
}

/// What a buffer is for; its usage decides its memory class.
#[derive(Clone, Copy, Debug, PartialEq, Eq, Structural)]
pub enum BufferKind {
    Staging,
    Vertex,
    Index,
    Uniform,
}

/// The memory class each buffer kind requires: staging and uniform buffers
/// must be host-writable, vertex and index buffers live in device-local
/// memory.
pub open spec fn spec_memory_class_for(kind: BufferKind) -> MemoryClass {
    match kind {
        BufferKind::Staging => MemoryClass::HostVisibleCoherent,
        BufferKind::Vertex => MemoryClass::DeviceLocal,
        BufferKind::Index => MemoryClass::DeviceLocal,
        BufferKind::Uniform => MemoryClass::HostVisibleCoherent,
    }
}

/// The memory class each buffer kind requires.
pub fn memory_class_for(kind: BufferKind) -> (class: MemoryClass)
    ensures
        class == spec_memory_class_for(kind),
{
    match kind {
        BufferKind::Staging => MemoryClass::HostVisibleCoherent,
        BufferKind::Vertex => MemoryClass::DeviceLocal,
        BufferKind::Index => MemoryClass::DeviceLocal,
        BufferKind::Uniform => MemoryClass::HostVisibleCoherent,
    }
}

/// An exact copy of the given bytes.
fn copy_bytes(data: &Vec<u8>) -> (out: Vec<u8>)
    ensures
        out@ == data@,
{
    let mut out: Vec<u8> = Vec::new();
    let mut i: usize = 0;
    while i < data.len()
        invariant
            i <= data@.len(),
            out@ == data@.take(i as int),
        decreases data@.len() - i,
    {
        out.push(data[i]);
        proof {
            assert(out@ =~= data@.take(i + 1 as int));
        }
        i = i + 1;
    }
    proof {
        assert(out@ =~= data@);
    }
    out
}

/// A host-visible, host-coherent staging buffer holding the bytes the host
/// wrote into its mapped memory.
pub struct StagingBuffer {
    bytes: Vec<u8>,
}

impl View for StagingBuffer {
    type V = Seq<u8>;

    closed spec fn view(&self) -> Seq<u8> {
        self.bytes@
    }
}

impl StagingBuffer {
    /// Creates a staging buffer sized to the data and writes the bytes into
    /// its mapped memory: steps one and two of the upload protocol.
    pub fn from_bytes(data: &Vec<u8>) -> (staging: StagingBuffer)
        ensures
            staging@ == data@,
    {
        StagingBuffer { bytes: copy_bytes(data) }
    }

    /// The memory class every staging buffer is allocated from.
    pub fn memory_class(&self) -> (class: MemoryClass)
        ensures
            class == spec_memory_class_for(BufferKind::Staging),
    {
        MemoryClass::HostVisibleCoherent
    }
}

/// A device buffer: its byte contents, what it is for, and the memory class
/// of its backing allocation.
pub struct DeviceBuffer {
    bytes: Vec<u8>,
    kind: BufferKind,
    memory_class: MemoryClass,
}

impl View for DeviceBuffer {
    type V = Seq<u8>;

    closed spec fn view(&self) -> Seq<u8> {
        self.bytes@
    }
}

impl DeviceBuffer {
    /// The buffer's memory class matches what its kind requires.
    pub closed spec fn wf(&self) -> bool {
        self.memory_class == spec_memory_class_for(self.kind)
    }

    /// What the buffer is for.
    pub closed spec fn spec_kind(&self) -> BufferKind {
        self.kind
    }

    /// Creates a buffer of the given kind and size, allocated from exactly
    /// the memory class its usage requires. Its contents are not specified
    /// until filled.
    pub fn new(kind: BufferKind, size: usize) -> (buffer: DeviceBuffer)
        ensures
            buffer.wf(),
            buffer.spec_kind() == kind,
            buffer@.len() == size,
    {
        let mut bytes: Vec<u8> = Vec::new();
        let mut i: usize = 0;
        while i < size
            invariant
                i <= size,
                bytes@.len() == i,
            decreases size - i,
        {
            bytes.push(0);
            i = i + 1;
        }
        let memory_class = memory_class_for(kind);
        DeviceBuffer { bytes, kind, memory_class }
    }

    /// Records and synchronously submits a one-shot copy of the whole
    /// staging buffer into this buffer: step three and four of the upload
    /// protocol.
    pub fn copy_from_staging(&mut self, staging: &StagingBuffer)
        requires
            old(self).wf(),
            staging@.len() == old(self)@.len(),
        ensures
            final(self).wf(),
            final(self).spec_kind() == old(self).spec_kind(),
            final(self)@ == staging@,
    {
        self.bytes = copy_bytes(&staging.bytes);
    }

    /// The whole upload protocol for a buffer: stage the bytes, copy them
    /// into the destination, and release the staging buffer.
    pub fn fill(&mut self, data: &Vec<u8>)
        requires
            old(self).wf(),
            data@.len() == old(self)@.len(),
        ensures
            final(self).wf(),
            final(self).spec_kind() == old(self).spec_kind(),
            final(self)@ == data@,
    {
        let staging = StagingBuffer::from_bytes(data);
        self.copy_from_staging(&staging);
    }

    /// Test-only download path: reads the buffer's bytes back out.
    pub fn read_back(&self) -> (out: Vec<u8>)
        ensures
            out@ == self@,
    {
        copy_bytes(&self.bytes)
    }
}

/// A device image: its base-level pixel bytes, size, mip chain length, and
/// current layout.
pub struct DeviceImage {
    pixels: Vec<u8>,
    width: u32,
    height: u32,
    mip_levels: u32,
    layout: ImageLayout,
}

impl View for DeviceImage {
    type V = Seq<u8>;

    closed spec fn view(&self) -> Seq<u8> {
        self.pixels@
    }
}

impl DeviceImage {
    /// The base level holds four bytes per pixel and the chain has at least
    /// one level.
    pub closed spec fn wf(&self) -> bool {
        &&& self@.len() == self.width as nat * self.height as nat * 4
        &&& self.width >= 1
        &&& self.height >= 1
        &&& self.mip_levels >= 1
    }

    /// The image's current layout.
    pub closed spec fn spec_layout(&self) -> ImageLayout {
        self.layout
    }

    /// The base level's width.
    pub closed spec fn spec_width(&self) -> u32 {
        self.width
    }

    /// The base level's height.
    pub closed spec fn spec_height(&self) -> u32 {
        self.height
    }

    /// Levels in the image's mipmap chain.
    pub closed spec fn spec_mip_levels(&self) -> u32 {
        self.mip_levels
    }

    /// The base level's width.
    pub fn width(&self) -> (w: u32)
        ensures
            w == self.spec_width(),
    {
        self.width
    }

    /// The base level's height.
    pub fn height(&self) -> (h: u32)
        ensures
            h == self.spec_height(),
    {
        self.height
    }

    /// Levels in the image's mipmap chain.
    pub fn mip_levels(&self) -> (levels: u32)
        ensures
            levels == self.spec_mip_levels(),
    {
        self.mip_levels
    }

    /// Creates an image in the undefined layout. Its contents are not
    /// specified until filled.
    pub fn new(width: u32, height: u32, mip_levels: u32) -> (img: DeviceImage)
        requires
            width >= 1,
            height >= 1,
            mip_levels >= 1,
            width as nat * height as nat * 4 <= usize::MAX,
        ensures
            img.wf(),
            img.spec_width() == width,
            img.spec_height() == height,
            img.spec_mip_levels() == mip_levels,
            img.spec_layout() == ImageLayout::Undefined,
    {
        let pixel_bytes: usize = (width as usize) * (height as usize) * 4;
        let mut pixels: Vec<u8> = Vec::new();
        let mut i: usize = 0;
        while i < pixel_bytes
            invariant
                i <= pixel_bytes,
                pixels@.len() == i,
            decreases pixel_bytes - i,
        {
            pixels.push(0);
            i = i + 1;
        }
        DeviceImage { pixels, width, height, mip_levels, layout: ImageLayout::Undefined }
    }

    /// Transitions the image between layouts. Only transitions the pipeline
    /// defines barrier masks for may be recorded; contents are untouched.
    pub fn transition(&mut self, new_layout: ImageLayout)
        requires
            spec_transition_masks(old(self).spec_layout(), new_layout) is Some,
        ensures
            final(self).spec_layout() == new_layout,
            final(self)@ == old(self)@,
            final(self).spec_width() == old(self).spec_width(),
            final(self).spec_height() == old(self).spec_height(),
            final(self).spec_mip_levels() == old(self).spec_mip_levels(),
            old(self).wf() ==> final(self).wf(),
    {
        self.layout = new_layout;
    }

    /// Records and synchronously submits a one-shot copy of the staging
    /// buffer into the image's base level; the image must already be a
    /// transfer destination.
    pub fn copy_from_staging(&mut self, staging: &StagingBuffer)
        requires
            old(self).wf(),
            old(self).spec_layout() == ImageLayout::TransferDstOptimal,
            staging@.len() == old(self)@.len(),
        ensures
            final(self).wf(),
            final(self).spec_layout() == ImageLayout::TransferDstOptimal,
            final(self)@ == staging@,
            final(self).spec_width() == old(self).spec_width(),
            final(self).spec_height() == old(self).spec_height(),
            final(self).spec_mip_levels() == old(self).spec_mip_levels(),
    {
        self.pixels = copy_bytes(&staging.bytes);
    }

    /// Produces the mipmap-generation plan for this image and accounts for
    /// its effect: every level ends shader-readable. The base level's bytes
    /// are untouched.
    pub fn generate_mipmaps(&mut self) -> (ops: Vec<MipCommand>)
        requires
            old(self).wf(),
            old(self).spec_layout() == ImageLayout::TransferDstOptimal,
        ensures
            final(self).wf(),
            final(self).spec_layout() == ImageLayout::ShaderReadOnlyOptimal,
            final(self)@ == old(self)@,
            final(self).spec_width() == old(self).spec_width(),
            final(self).spec_height() == old(self).spec_height(),
            final(self).spec_mip_levels() == old(self).spec_mip_levels(),
            ops@ == spec_mipmap_commands(old(self).spec_mip_levels(), old(self).spec_width(), old(self).spec_height()),
    {
        let ops = mipmap_commands(self.mip_levels, self.width, self.height);
        self.layout = ImageLayout::ShaderReadOnlyOptimal;
        ops
    }

    /// The whole upload protocol for an image: transition to transfer-dst,
    /// stage the pixel bytes, copy them into the base level, generate the
    /// mipmap chain, and release the staging buffer. Returns the recorded
    /// mipmap plan.
    pub fn fill(&mut self, data: &Vec<u8>) -> (ops: Vec<MipCommand>)
        requires
            old(self).wf(),
            old(self).spec_layout() == ImageLayout::Undefined,
            data@.len() == old(self)@.len(),
        ensures
            final(self).wf(),
            final(self).spec_layout() == ImageLayout::ShaderReadOnlyOptimal,
            final(self)@ == data@,
            final(self).spec_width() == old(self).spec_width(),
            final(self).spec_height() == old(self).spec_height(),
            final(self).spec_mip_levels() == old(self).spec_mip_levels(),
            ops@ == spec_mipmap_commands(old(self).spec_mip_levels(), old(self).spec_width(), old(self).spec_height()),
    {
        self.transition(ImageLayout::TransferDstOptimal);
        let staging = StagingBuffer::from_bytes(data);
        self.copy_from_staging(&staging);
        self.generate_mipmaps()
    }

    /// Test-only download path: reads the base level's bytes back out.
    pub fn read_back(&self) -> (out: Vec<u8>)
        ensures
            out@ == self@,
    {
        copy_bytes(&self.pixels)
    }
}

/// Round trip of the staged upload: bytes written into a staging buffer,
/// copied to a destination, and read back through the download path are
/// exactly the bytes the host wrote.
pub proof fn lemma_staged_round_trip(
    data: Seq<u8>,
    staged: Seq<u8>,
    destination: Seq<u8>,
    read_back: Seq<u8>,
)
    requires
        staged == data,
        destination == staged,
        read_back == destination,
    ensures
        read_back == data,
{
}

} // verus!
