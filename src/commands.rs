//! What the command buffers hold: the initial upload, and per back-buffer the
//! timer update and the draw. Each is recorded once and submitted unchanged.
use vstd::prelude::*;
use crate::layout::{
    BufferLayout, BACK_BUFFER_COUNT, EXTENT_HEIGHT, EXTENT_WIDTH, TIMER_SIZE, TRIANGLE_VERTEX_COUNT,
};

verus! {

/// `VK_ACCESS_VERTEX_ATTRIBUTE_READ_BIT`.
pub const ACCESS_VERTEX_ATTRIBUTE_READ: u32 = 0x4;

/// `VK_ACCESS_UNIFORM_READ_BIT`.
pub const ACCESS_UNIFORM_READ: u32 = 0x8;

/// `VK_ACCESS_TRANSFER_READ_BIT`.
pub const ACCESS_TRANSFER_READ: u32 = 0x800;

/// `VK_ACCESS_TRANSFER_WRITE_BIT`.
pub const ACCESS_TRANSFER_WRITE: u32 = 0x1000;

/// `VK_ACCESS_HOST_WRITE_BIT`.
pub const ACCESS_HOST_WRITE: u32 = 0x4000;

/// `VK_ACCESS_MEMORY_READ_BIT`.
pub const ACCESS_MEMORY_READ: u32 = 0x8000;

/// `VK_PIPELINE_STAGE_VERTEX_INPUT_BIT`.
pub const STAGE_VERTEX_INPUT: u32 = 0x4;

/// `VK_PIPELINE_STAGE_VERTEX_SHADER_BIT`.
pub const STAGE_VERTEX_SHADER: u32 = 0x8;

/// `VK_PIPELINE_STAGE_TRANSFER_BIT`.
pub const STAGE_TRANSFER: u32 = 0x1000;

/// `VK_PIPELINE_STAGE_HOST_BIT`.
pub const STAGE_HOST: u32 = 0x4000;

/// `VK_IMAGE_LAYOUT_GENERAL`.
pub const IMAGE_LAYOUT_GENERAL: u32 = 1;

/// `VK_IMAGE_LAYOUT_PREINITIALIZED`.
pub const IMAGE_LAYOUT_PREINITIALIZED: u32 = 8;

/// A change of access mask on one resource.
#[derive(Debug, Clone, Copy, PartialEq, Eq, Structural)]
pub struct AccessChange {
    /// Accesses made before the barrier.
    pub src: u32,
    /// Accesses made after it.
    pub dst: u32,
}

/// The same change taken backwards.
pub open spec fn reversed(a: AccessChange) -> AccessChange {
    AccessChange { src: a.dst, dst: a.src }
}

/// One pipeline barrier over the staging buffer and the device buffer, both
/// from offset 0 over `size` bytes.
#[derive(Debug, Clone, Copy, PartialEq, Eq, Structural)]
pub struct BufferBarriers {
    /// Stages that the barrier waits on.
    pub src_stages: u32,
    /// Stages that wait on the barrier.
    pub dst_stages: u32,
    /// The staging buffer's change.
    pub staging: AccessChange,
    /// The device buffer's change.
    pub device: AccessChange,
    /// Bytes covered in each buffer, from offset 0.
    pub size: usize,
}

/// The commands of one per-frame command buffer.
#[derive(Debug, Clone, Copy, PartialEq, Eq, Structural)]
pub struct FrameRecording {
    /// The framebuffer rendered into, the one of the same back-buffer index.
    pub framebuffer: usize,
    /// Barrier before the staging-to-device copy of the timer.
    pub update_in: BufferBarriers,
    /// Bytes copied from offset 0 of the staging buffer to offset 0 of the device buffer.
    pub copy_size: usize,
    /// Barrier after that copy.
    pub update_out: BufferBarriers,
    /// Width of the render area, cleared to transparent black.
    pub render_width: u32,
    /// Height of the render area.
    pub render_height: u32,
    /// Offset of the vertex buffer binding within the device buffer.
    pub vertex_offset: usize,
    /// Vertices drawn.
    pub vertex_count: u32,
    /// Instances drawn.
    pub instance_count: u32,
}

/// The commands of the per-frame command buffer of back-buffer `slot`.
pub open spec fn frame_recording_spec(slot: usize, vertex_offset: usize) -> FrameRecording {
    let update_in = BufferBarriers {
        src_stages: STAGE_HOST | STAGE_VERTEX_SHADER,
        dst_stages: STAGE_TRANSFER,
        staging: AccessChange { src: ACCESS_HOST_WRITE, dst: ACCESS_TRANSFER_READ },
        device: AccessChange { src: ACCESS_UNIFORM_READ, dst: ACCESS_TRANSFER_WRITE },
        size: TIMER_SIZE,
    };
    FrameRecording {
        framebuffer: slot,
        update_in,
        copy_size: TIMER_SIZE,
        update_out: BufferBarriers {
            src_stages: update_in.dst_stages,
            dst_stages: update_in.src_stages,
            staging: reversed(update_in.staging),
            device: reversed(update_in.device),
            size: TIMER_SIZE,
        },
        render_width: EXTENT_WIDTH,
        render_height: EXTENT_HEIGHT,
        vertex_offset,
        vertex_count: TRIANGLE_VERTEX_COUNT as u32,
        instance_count: 1,
    }
}

/// The commands of the per-frame command buffer of back-buffer `slot`: the
/// timer prefix copied between a barrier and its reverse, then the render
/// pass over the full extent drawing the triangle once.
pub fn frame_recording(slot: usize, layout: &BufferLayout) -> (r: FrameRecording)
    ensures
        r == frame_recording_spec(slot, layout.vertex_offset),
        r.update_out.staging == reversed(r.update_in.staging),
        r.update_out.device == reversed(r.update_in.device),
        r.copy_size == TIMER_SIZE && r.update_in.size == TIMER_SIZE,
{
    let update_in = BufferBarriers {
        src_stages: STAGE_HOST | STAGE_VERTEX_SHADER,
        dst_stages: STAGE_TRANSFER,
        staging: AccessChange { src: ACCESS_HOST_WRITE, dst: ACCESS_TRANSFER_READ },
        device: AccessChange { src: ACCESS_UNIFORM_READ, dst: ACCESS_TRANSFER_WRITE },
        size: TIMER_SIZE,
    };
    let update_out = BufferBarriers {
        src_stages: update_in.dst_stages,
        dst_stages: update_in.src_stages,
        staging: AccessChange { src: update_in.staging.dst, dst: update_in.staging.src },
        device: AccessChange { src: update_in.device.dst, dst: update_in.device.src },
        size: TIMER_SIZE,
    };
    FrameRecording {
        framebuffer: slot,
        update_in,
        copy_size: TIMER_SIZE,
        update_out,
        render_width: EXTENT_WIDTH,
        render_height: EXTENT_HEIGHT,
        vertex_offset: layout.vertex_offset,
        vertex_count: TRIANGLE_VERTEX_COUNT as u32,
        instance_count: 1,
    }
}

/// The commands of the one-shot upload that fills the device buffer and
/// brings the shared images into the general layout.
#[derive(Debug, Clone, Copy, PartialEq, Eq, Structural)]
pub struct UploadRecording {
    /// Barrier before the copy.
    pub upload_in: BufferBarriers,
    /// Bytes copied, the whole buffer.
    pub copy_size: usize,
    /// Barrier after the copy.
    pub upload_out: BufferBarriers,
    /// Access change of every shared image in the barrier after the copy.
    pub image_access: AccessChange,
    /// Layout of the shared images before the upload.
    pub image_old_layout: u32,
    /// Layout of the shared images after it, the one the render pass starts and ends in.
    pub image_new_layout: u32,
}

/// The commands of the initial upload of a combined buffer of `size` bytes.
pub open spec fn upload_recording_spec(size: usize) -> UploadRecording {
    UploadRecording {
        upload_in: BufferBarriers {
            src_stages: STAGE_HOST,
            dst_stages: STAGE_TRANSFER,
            staging: AccessChange { src: ACCESS_HOST_WRITE, dst: ACCESS_TRANSFER_READ },
            device: AccessChange { src: 0, dst: ACCESS_TRANSFER_WRITE },
            size,
        },
        copy_size: size,
        upload_out: BufferBarriers {
            src_stages: STAGE_TRANSFER,
            dst_stages: STAGE_HOST | STAGE_VERTEX_INPUT | STAGE_VERTEX_SHADER,
            staging: AccessChange { src: ACCESS_TRANSFER_READ, dst: ACCESS_HOST_WRITE },
            device: AccessChange {
                src: ACCESS_TRANSFER_WRITE,
                dst: ACCESS_VERTEX_ATTRIBUTE_READ | ACCESS_UNIFORM_READ,
            },
            size,
        },
        image_access: AccessChange { src: 0, dst: ACCESS_MEMORY_READ },
        image_old_layout: IMAGE_LAYOUT_PREINITIALIZED,
        image_new_layout: IMAGE_LAYOUT_GENERAL,
    }
}

/// The commands of the initial upload: the whole staging buffer copied to the
/// device buffer between barriers, and each shared image moved from the
/// preinitialized to the general layout.
pub fn upload_recording(layout: &BufferLayout) -> (r: UploadRecording)
    ensures
        r == upload_recording_spec(layout.size),
{
    UploadRecording {
        upload_in: BufferBarriers {
            src_stages: STAGE_HOST,
            dst_stages: STAGE_TRANSFER,
            staging: AccessChange { src: ACCESS_HOST_WRITE, dst: ACCESS_TRANSFER_READ },
            device: AccessChange { src: 0, dst: ACCESS_TRANSFER_WRITE },
            size: layout.size,
        },
        copy_size: layout.size,
        upload_out: BufferBarriers {
            src_stages: STAGE_TRANSFER,
            dst_stages: STAGE_HOST | STAGE_VERTEX_INPUT | STAGE_VERTEX_SHADER,
            staging: AccessChange { src: ACCESS_TRANSFER_READ, dst: ACCESS_HOST_WRITE },
            device: AccessChange {
                src: ACCESS_TRANSFER_WRITE,
                dst: ACCESS_VERTEX_ATTRIBUTE_READ | ACCESS_UNIFORM_READ,
            },
            size: layout.size,
        },
        image_access: AccessChange { src: 0, dst: ACCESS_MEMORY_READ },
        image_old_layout: IMAGE_LAYOUT_PREINITIALIZED,
        image_new_layout: IMAGE_LAYOUT_GENERAL,
    }
}

/// The per-frame command buffers, one per back-buffer, recorded once.
pub struct FrameRing {
    vertex_offset: usize,
    recordings: Vec<FrameRecording>,
}

impl View for FrameRing {
    type V = Seq<FrameRecording>;

    closed spec fn view(&self) -> Seq<FrameRecording> {
        self.recordings@
    }
}

impl FrameRing {
    /// The vertex offset the ring was recorded with.
    pub closed spec fn vertex_offset_spec(&self) -> usize {
        self.vertex_offset
    }

    /// One recording per back-buffer, the `i`-th for framebuffer `i`.
    pub open spec fn wf(&self) -> bool {
        &&& self@.len() == BACK_BUFFER_COUNT
        &&& forall|i: int|
            0 <= i < BACK_BUFFER_COUNT ==> #[trigger] self@[i] == frame_recording_spec(
                i as usize,
                self.vertex_offset_spec(),
            )
    }

    /// Records the command buffer of every back-buffer.
    pub fn record(layout: &BufferLayout) -> (r: FrameRing)
        ensures
            r.wf(),
            r.vertex_offset_spec() == layout.vertex_offset,
    {
        let mut recordings: Vec<FrameRecording> = Vec::new();
        let mut i: usize = 0;
        while i < BACK_BUFFER_COUNT
            invariant
                i <= BACK_BUFFER_COUNT,
                recordings@.len() == i,
                forall|j: int|
                    0 <= j < i ==> #[trigger] recordings@[j] == frame_recording_spec(
                        j as usize,
                        layout.vertex_offset,
                    ),
            decreases BACK_BUFFER_COUNT - i,
        {
            recordings.push(frame_recording(i, layout));
            i = i + 1;
        }
        FrameRing { vertex_offset: layout.vertex_offset, recordings }
    }

    /// The command buffer to submit for back-buffer `slot`.
    pub fn recording(&self, slot: usize) -> (r: FrameRecording)
        requires
            self.wf(),
            slot < BACK_BUFFER_COUNT,
        ensures
            r == self@[slot as int],
            r == frame_recording_spec(slot, self.vertex_offset_spec()),
            r.framebuffer == slot,
    {
        self.recordings[slot]
    }
}

/// The ring has no operation that changes it, and each of its recordings is
/// fixed by the back-buffer index and the vertex offset alone: every submission
/// of the command buffer of `slot` submits the same commands, for framebuffer `slot`.
pub proof fn lemma_recording_fixed_per_slot(ring: FrameRing, other: FrameRing, slot: usize)
    requires
        ring.wf(),
        other.wf(),
        ring.vertex_offset_spec() == other.vertex_offset_spec(),
        slot < BACK_BUFFER_COUNT,
    ensures
        ring@[slot as int] == other@[slot as int],
        ring@[slot as int] == frame_recording_spec(slot, ring.vertex_offset_spec()),
        ring@[slot as int].framebuffer == slot,
{
    assert(ring@[slot as int] == frame_recording_spec(slot, ring.vertex_offset_spec()));
    assert(other@[slot as int] == frame_recording_spec(slot, other.vertex_offset_spec()));
}

} // verus!
