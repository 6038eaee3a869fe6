//! Descriptor pool sizing and the descriptor data of the render stages.

use vstd::prelude::*;

verus! {

/// Number of levels of the depth pyramid that descriptor sets are kept for.
pub const MAX_MIP_LEVELS: usize = 13;

/// How many descriptors of each kind (and how many sets) a pool must hold.
#[derive(Clone, Copy, PartialEq, Eq, Debug)]
pub struct DescriptorPoolSetup {
    pub storage_buffers: u32,
    pub uniform_buffers: u32,
    pub sets: u32,
    pub combined_image_samplers: u32,
    pub storage_images: u32,
}

/// Field-wise sum of two setups.
pub open spec fn spec_plus(a: DescriptorPoolSetup, b: DescriptorPoolSetup) -> DescriptorPoolSetup {
    DescriptorPoolSetup {
        storage_buffers: (a.storage_buffers + b.storage_buffers) as u32,
        uniform_buffers: (a.uniform_buffers + b.uniform_buffers) as u32,
        sets: (a.sets + b.sets) as u32,
        combined_image_samplers: (a.combined_image_samplers + b.combined_image_samplers) as u32,
        storage_images: (a.storage_images + b.storage_images) as u32,
    }
}

/// Field-wise multiple of a setup.
pub open spec fn spec_times(a: DescriptorPoolSetup, n: u32) -> DescriptorPoolSetup {
    DescriptorPoolSetup {
        storage_buffers: (a.storage_buffers * n) as u32,
        uniform_buffers: (a.uniform_buffers * n) as u32,
        sets: (a.sets * n) as u32,
        combined_image_samplers: (a.combined_image_samplers * n) as u32,
        storage_images: (a.storage_images * n) as u32,
    }
}

/// No field of the sum overflows.
pub open spec fn plus_fits(a: DescriptorPoolSetup, b: DescriptorPoolSetup) -> bool {
    &&& a.storage_buffers + b.storage_buffers <= u32::MAX
    &&& a.uniform_buffers + b.uniform_buffers <= u32::MAX
    &&& a.sets + b.sets <= u32::MAX
    &&& a.combined_image_samplers + b.combined_image_samplers <= u32::MAX
    &&& a.storage_images + b.storage_images <= u32::MAX
}

/// No field of the multiple overflows.
pub open spec fn times_fits(a: DescriptorPoolSetup, n: u32) -> bool {
    &&& a.storage_buffers * n <= u32::MAX
    &&& a.uniform_buffers * n <= u32::MAX
    &&& a.sets * n <= u32::MAX
    &&& a.combined_image_samplers * n <= u32::MAX
    &&& a.storage_images * n <= u32::MAX
}

impl DescriptorPoolSetup {
    /// The setup for the needs of both `self` and `other`.
    pub fn plus(self, other: Self) -> (r: Self)
        requires
            plus_fits(self, other),
        ensures
            r == spec_plus(self, other),
    {
        DescriptorPoolSetup {
            storage_buffers: self.storage_buffers + other.storage_buffers,
            uniform_buffers: self.uniform_buffers + other.uniform_buffers,
            sets: self.sets + other.sets,
            combined_image_samplers: self.combined_image_samplers + other.combined_image_samplers,
            storage_images: self.storage_images + other.storage_images,
        }
    }

    /// The setup for `n` times the needs of `self`.
    pub fn times(self, n: u32) -> (r: Self)
        requires
            times_fits(self, n),
        ensures
            r == spec_times(self, n),
    {
        DescriptorPoolSetup {
            storage_buffers: self.storage_buffers * n,
            uniform_buffers: self.uniform_buffers * n,
            sets: self.sets * n,
            combined_image_samplers: self.combined_image_samplers * n,
            storage_images: self.storage_images * n,
        }
    }
}

/// The sum of setups is commutative and the multiple distributes over it:
/// a pool sized for two users in either order, or for `n` copies of a sum,
/// is the same.
pub proof fn lemma_setup_algebra(a: DescriptorPoolSetup, b: DescriptorPoolSetup, n: u32)
    requires
        plus_fits(a, b),
        times_fits(a, n),
        times_fits(b, n),
        times_fits(spec_plus(a, b), n),
    ensures
        spec_plus(a, b) == spec_plus(b, a),
        spec_times(spec_plus(a, b), n) == spec_plus(spec_times(a, n), spec_times(b, n)),
{
    assert((a.storage_buffers + b.storage_buffers) * n == a.storage_buffers * n
        + b.storage_buffers * n) by (nonlinear_arith);
    assert((a.uniform_buffers + b.uniform_buffers) * n == a.uniform_buffers * n
        + b.uniform_buffers * n) by (nonlinear_arith);
    assert((a.sets + b.sets) * n == a.sets * n + b.sets * n) by (nonlinear_arith);
    assert((a.combined_image_samplers + b.combined_image_samplers) * n
        == a.combined_image_samplers * n + b.combined_image_samplers * n) by (nonlinear_arith);
    assert((a.storage_images + b.storage_images) * n == a.storage_images * n
        + b.storage_images * n) by (nonlinear_arith);
}

#[verifier::external_type_specification]
#[verifier::external_body]
pub struct ExDescriptorSet(ash::vk::DescriptorSet);

#[verifier::external_type_specification]
#[verifier::external_body]
pub struct ExPipeline(ash::vk::Pipeline);

#[verifier::external_type_specification]
#[verifier::external_body]
pub struct ExPipelineLayout(ash::vk::PipelineLayout);

#[verifier::external_type_specification]
#[verifier::external_body]
pub struct ExDescriptorSetLayout(ash::vk::DescriptorSetLayout);

#[verifier::external_type_specification]
#[verifier::external_body]
pub struct ExShaderModule(ash::vk::ShaderModule);

/// The per-frame descriptor set of the culling compute pass.
pub struct CullFrame {
    pub descriptor_set: ash::vk::DescriptorSet,
}

impl CullFrame {
    /// The descriptors one culling frame allocates: five storage buffers,
    /// one uniform buffer and one depth-pyramid sampler in one set.
    pub fn pool_setup() -> (s: DescriptorPoolSetup)
        ensures
            s == (DescriptorPoolSetup {
                storage_buffers: 5,
                uniform_buffers: 1,
                sets: 1,
                combined_image_samplers: 1,
                storage_images: 0,
            }),
    {
        DescriptorPoolSetup {
            storage_buffers: 5,
            uniform_buffers: 1,
            sets: 1,
            combined_image_samplers: 1,
            storage_images: 0,
        }
    }
}

/// The per-frame descriptor set of the scene's draw pass.
pub struct SceneFrame {
    pub descriptor_set: ash::vk::DescriptorSet,
}

impl SceneFrame {
    /// The descriptors one scene frame allocates: a storage buffer for the
    /// objects and a uniform buffer for the constants, in one set.
    pub fn pool_setup() -> (s: DescriptorPoolSetup)
        ensures
            s == (DescriptorPoolSetup {
                storage_buffers: 1,
                uniform_buffers: 1,
                sets: 1,
                combined_image_samplers: 0,
                storage_images: 0,
            }),
    {
        DescriptorPoolSetup {
            combined_image_samplers: 0,
            sets: 1,
            storage_buffers: 1,
            storage_images: 0,
            uniform_buffers: 1,
        }
    }
}

/// The pipeline and descriptor sets of the depth-pyramid compute pass.
pub struct DepthContext {
    pub pipeline: ash::vk::Pipeline,
    pub pipeline_layout: ash::vk::PipelineLayout,
    pub set_layout: ash::vk::DescriptorSetLayout,
    pub shader_module: ash::vk::ShaderModule,
    pub descriptor_sets: Vec<ash::vk::DescriptorSet>,
}

impl DepthContext {
    /// One set per pyramid level, each with a sampler for the source level
    /// and a storage image for the destination level.
    pub fn pool_setup() -> (s: DescriptorPoolSetup)
        ensures
            s == (DescriptorPoolSetup {
                storage_buffers: 0,
                uniform_buffers: 0,
                sets: MAX_MIP_LEVELS as u32,
                combined_image_samplers: MAX_MIP_LEVELS as u32,
                storage_images: MAX_MIP_LEVELS as u32,
            }),
    {
        let level = DescriptorPoolSetup {
            storage_buffers: 0,
            uniform_buffers: 0,
            sets: 1,
            combined_image_samplers: 1,
            storage_images: 1,
        };
        level.times(MAX_MIP_LEVELS as u32)
    }
}

} // verus!
