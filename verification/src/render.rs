//! Frame scheduling and the layout of the render passes' work.

use vstd::prelude::*;
use crate::vulkan::descriptor::{
    plus_fits, spec_plus, spec_times, times_fits, CullFrame, DepthContext, DescriptorPoolSetup,
    SceneFrame, MAX_MIP_LEVELS,
};

verus! {

/// Number of frames recorded while earlier ones are still on the GPU.
pub const FRAMES_IN_FLIGHT: usize = 2;

/// Invocations of one work group of the culling compute shader.
pub const CULL_GROUP_SIZE: u32 = 256;

/// Which frame is recorded next, and whether the views must be set up
/// before (after the renderer or its views were created).
pub struct RenderSchedule {
    pub frame_count: usize,
    pub first_render: bool,
}

impl RenderSchedule {
    /// A fresh renderer: no frame rendered, setup pending.
    pub fn new() -> (s: Self)
        ensures
            s.frame_count == 0,
            s.first_render,
    {
        RenderSchedule { frame_count: 0, first_render: true }
    }

    /// Whether the views must be set up before the next frame is rendered.
    pub fn needs_setup(&self) -> (r: bool)
        ensures
            r == self.first_render,
    {
        self.first_render
    }

    /// The views were set up; a failed setup leaves the schedule as it was,
    /// so the next frame tries again.
    pub fn setup_done(&mut self)
        ensures
            !final(self).first_render,
            final(self).frame_count == old(self).frame_count,
    {
        self.first_render = false;
    }

    /// Starts recording a frame: returns which of the frames in flight to
    /// record, and counts the frame.
    pub fn next_frame(&mut self) -> (frame_index: usize)
        requires
            old(self).frame_count < usize::MAX,
        ensures
            frame_index == old(self).frame_count % FRAMES_IN_FLIGHT,
            final(self).frame_count == old(self).frame_count + 1,
            final(self).first_render == old(self).first_render,
    {
        let frame_index = self.frame_count % FRAMES_IN_FLIGHT;
        self.frame_count = self.frame_count + 1;
        frame_index
    }

    /// The views were created anew: set them up before the next frame.
    pub fn recreate_view(&mut self)
        ensures
            final(self).first_render,
            final(self).frame_count == old(self).frame_count,
    {
        self.first_render = true;
    }
}

/// Consecutive frames use the frames in flight in turn.
pub proof fn lemma_frames_alternate(count: nat)
    ensures
        (count % 2) != ((count + 1) % 2),
        count % 2 < FRAMES_IN_FLIGHT,
{
}

/// Number of work groups the culling pass dispatches for `object_count`
/// objects: enough groups of `CULL_GROUP_SIZE` to cover every object.
pub fn cull_group_count(object_count: u32) -> (groups: u32)
    requires
        object_count + 255 <= u32::MAX,
    ensures
        groups == (object_count + 255) / 256,
        groups * 256 >= object_count,
        groups == 0 || (groups - 1) * 256 < object_count,
{
    (object_count + 255) / CULL_GROUP_SIZE
}

/// Where a depth-pyramid pass reads from: the depth image (sampled in its
/// read-only layout) or a lower pyramid level (in the general layout).
#[derive(Clone, Copy, PartialEq, Eq, Debug)]
pub enum PyramidSource {
    DepthImage,
    Level(u32),
}

/// The input and output of the descriptor set of one pyramid pass.
#[derive(Clone, Copy, PartialEq, Eq, Debug)]
pub struct PyramidStage {
    pub source: PyramidSource,
    pub destination: u32,
}

/// The stage of pass `i`: level 0 reduces the depth image, level `i`
/// reduces level `i - 1`, and the sets beyond the last level repeat the
/// last level's stage.
pub open spec fn spec_pyramid_stage(i: int, mip_levels: int) -> PyramidStage {
    let level = if i < mip_levels {
        i
    } else {
        mip_levels - 1
    };
    PyramidStage {
        source: if level == 0 {
            PyramidSource::DepthImage
        } else {
            PyramidSource::Level((level - 1) as u32)
        },
        destination: level as u32,
    }
}

/// The stages of all `MAX_MIP_LEVELS` descriptor sets of the depth pyramid
/// for an image with `mip_levels` levels.
pub fn pyramid_stages(mip_levels: u32) -> (stages: Vec<PyramidStage>)
    requires
        0 < mip_levels <= MAX_MIP_LEVELS,
    ensures
        stages@.len() == MAX_MIP_LEVELS,
        forall|i: int|
            0 <= i < MAX_MIP_LEVELS ==> #[trigger] stages@[i] == spec_pyramid_stage(
                i,
                mip_levels as int,
            ),
{
    let mut stages: Vec<PyramidStage> = Vec::new();
    let mut i: u32 = 0;
    while i < MAX_MIP_LEVELS as u32
        invariant
            0 < mip_levels <= MAX_MIP_LEVELS,
            i <= MAX_MIP_LEVELS,
            stages@.len() == i,
            forall|j: int|
                0 <= j < i ==> #[trigger] stages@[j] == spec_pyramid_stage(j, mip_levels as int),
        decreases MAX_MIP_LEVELS - i,
    {
        let level = if i < mip_levels {
            i
        } else {
            mip_levels - 1
        };
        let source = if level == 0 {
            PyramidSource::DepthImage
        } else {
            PyramidSource::Level(level - 1)
        };
        stages.push(PyramidStage { source, destination: level });
        i = i + 1;
    }
    stages
}

/// Every pyramid level but the first reads the level just below it, so the
/// passes chain from the depth image up; no pass reads the level it writes.
pub proof fn lemma_pyramid_chains(i: int, mip_levels: int)
    requires
        0 < mip_levels <= MAX_MIP_LEVELS,
        0 <= i < MAX_MIP_LEVELS,
    ensures
        spec_pyramid_stage(i, mip_levels).destination < mip_levels,
        spec_pyramid_stage(i, mip_levels).source != PyramidSource::Level(
            spec_pyramid_stage(i, mip_levels).destination,
        ),
        0 < i < mip_levels ==> spec_pyramid_stage(i, mip_levels).source == PyramidSource::Level(
            spec_pyramid_stage(i - 1, mip_levels).destination,
        ),
{
}

/// The descriptor sets of one frame in flight.
pub struct Frame {
    pub cull: CullFrame,
    pub scene: SceneFrame,
}

/// The setup of one culling frame.
pub open spec fn cull_frame_setup() -> DescriptorPoolSetup {
    DescriptorPoolSetup {
        storage_buffers: 5,
        uniform_buffers: 1,
        sets: 1,
        combined_image_samplers: 1,
        storage_images: 0,
    }
}

/// The setup of one scene frame.
pub open spec fn scene_frame_setup() -> DescriptorPoolSetup {
    DescriptorPoolSetup {
        storage_buffers: 1,
        uniform_buffers: 1,
        sets: 1,
        combined_image_samplers: 0,
        storage_images: 0,
    }
}

/// The setup of the depth pyramid: one set per level, each with a sampler
/// and a storage image.
pub open spec fn depth_setup() -> DescriptorPoolSetup {
    DescriptorPoolSetup {
        storage_buffers: 0,
        uniform_buffers: 0,
        sets: MAX_MIP_LEVELS as u32,
        combined_image_samplers: MAX_MIP_LEVELS as u32,
        storage_images: MAX_MIP_LEVELS as u32,
    }
}

/// The setup of one frame, given that of its GUI pass.
pub open spec fn spec_frame_setup(gui: DescriptorPoolSetup) -> DescriptorPoolSetup {
    spec_plus(spec_plus(gui, cull_frame_setup()), scene_frame_setup())
}

/// No count of a frame's setup overflows.
pub open spec fn frame_setup_fits(gui: DescriptorPoolSetup) -> bool {
    &&& plus_fits(gui, cull_frame_setup())
    &&& plus_fits(spec_plus(gui, cull_frame_setup()), scene_frame_setup())
}

/// The setup of the descriptor pool of the render context, given the
/// setup of a frame's GUI pass: the context's own sets and those of every
/// frame in flight.
pub open spec fn spec_context_pool_setup(gui: DescriptorPoolSetup) -> DescriptorPoolSetup {
    spec_plus(depth_setup(), spec_times(spec_frame_setup(gui), FRAMES_IN_FLIGHT as u32))
}

/// No count of the context's pool overflows.
pub open spec fn context_pool_setup_fits(gui: DescriptorPoolSetup) -> bool {
    &&& frame_setup_fits(gui)
    &&& times_fits(spec_frame_setup(gui), FRAMES_IN_FLIGHT as u32)
    &&& plus_fits(depth_setup(), spec_times(spec_frame_setup(gui), FRAMES_IN_FLIGHT as u32))
}

impl Frame {
    /// The descriptors one frame allocates: those of its GUI pass (`gui`),
    /// its culling pass and its scene pass.
    pub fn pool_setup(gui: DescriptorPoolSetup) -> (s: DescriptorPoolSetup)
        requires
            frame_setup_fits(gui),
        ensures
            s == spec_frame_setup(gui),
    {
        gui.plus(CullFrame::pool_setup()).plus(SceneFrame::pool_setup())
    }
}

/// The render context's own descriptor sets.
pub struct Context {
    pub depth: DepthContext,
}

impl Context {
    /// The descriptors the context itself allocates: the depth pyramid's.
    pub fn pool_setup() -> (s: DescriptorPoolSetup)
        ensures
            s == depth_setup(),
    {
        DepthContext::pool_setup()
    }

    /// The setup of the descriptor pool the context creates, given the
    /// setup of a frame's GUI pass: its own sets plus those of each of the
    /// `FRAMES_IN_FLIGHT` frames.
    pub fn descriptor_pool_setup(gui: DescriptorPoolSetup) -> (s: DescriptorPoolSetup)
        requires
            context_pool_setup_fits(gui),
        ensures
            s == spec_context_pool_setup(gui),
    {
        Context::pool_setup().plus(Frame::pool_setup(gui).times(FRAMES_IN_FLIGHT as u32))
    }
}

} // verus!
