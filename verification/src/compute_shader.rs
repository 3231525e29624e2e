//! Keeps a compute shader bound to the texture of a pixel buffer and
//! dispatches it every frame.
//!
//! The work of a frame is split in stages. Extract reads the asset events
//! of the frame and the buffers that pair an image with a shader. Prepare
//! brings the caches of bind groups up to date. Queue assembles the list of
//! dispatches from the pairings whose bind groups are both ready. The
//! render node, once the pipeline has compiled, records the commands of
//! that list into a compute pass.

pub mod extract;
pub mod node;
pub mod prepare;
pub mod queue;

pub use self::extract::{cs_extract, Extracted, ExtractedShaders, InvalidatedImages};
pub use self::node::{ComputeShaderNode, PassCommand, State};
pub use self::prepare::{
    prepare_images, prepare_shaders, AsBindGroupError, PrepareNextFrameShaders,
};
pub use self::queue::{cs_queue_bind_group, ComputeShaderInfo};

use vstd::prelude::*;
use crate::math::UVec2;

verus! {

/// Index of the bind group that holds the storage texture of the buffer.
pub const TEXTURE_BIND_GROUP: u32 = 0;

/// Index of the bind group that holds the shader's own resources.
pub const USER_BIND_GROUP: u32 = 1;

/// Where the code of a shader comes from.
#[derive(Debug)]
pub enum ShaderRef {
    /// No shader. A compute shader has to name its code: there is no
    /// default compute shader.
    Default,
    /// A shader that is already loaded, by its handle
    Handle(u64),
    /// A shader to load from the assets, by its path
    Path(String),
}

/// Where a compute pipeline takes the code of its shader from.
#[derive(Debug)]
pub enum ShaderSource {
    /// A shader that is already loaded, by its handle
    Handle(u64),
    /// A shader to load from the assets, by its path
    Path(String),
}

/// What a compute pipeline is built from, besides the layouts of its two
/// bind groups.
#[derive(Debug)]
pub struct ComputeShaderPipeline {
    /// The code of the shader
    pub shader: ShaderSource,
    /// Entry point of the shader
    pub entry_point: String,
}

impl ComputeShaderPipeline {
    /// Describes the pipeline of a shader, from what it gives as its code
    /// and its entry point. There is no pipeline for [ShaderRef::Default].
    pub fn new(shader: ShaderRef, entry_point: String) -> (pipeline: Option<ComputeShaderPipeline>)
        ensures
            match shader {
                ShaderRef::Default => pipeline is None,
                ShaderRef::Handle(handle) => pipeline is Some && pipeline.unwrap().shader
                    == ShaderSource::Handle(handle) && pipeline.unwrap().entry_point
                    == entry_point,
                ShaderRef::Path(path) => pipeline is Some && pipeline.unwrap().shader
                    == ShaderSource::Path(path) && pipeline.unwrap().entry_point == entry_point,
            },
    {
        match shader {
            ShaderRef::Default => None,
            ShaderRef::Handle(handle) => Some(
                ComputeShaderPipeline { shader: ShaderSource::Handle(handle), entry_point },
            ),
            ShaderRef::Path(path) => Some(
                ComputeShaderPipeline { shader: ShaderSource::Path(path), entry_point },
            ),
        }
    }
}

/// Implemented by a type that represents a compute shader instance.
///
/// # About the number of workgrups
/// The reason behind [ComputeShader::workgroups] has a size parameter is
/// because the size of the texture can change by a fill configuration or
/// because it is changed by the user.
///
/// The number of workgroups combined with the workgroup size (defined in
/// the shader) need to match together to process all the of the texture
/// (the pixel buffer). For example, it we want **one invocation** of the
/// shader per pixel, and we have a `512 * 512` buffer, and the workgroup
/// size is `8` by `8`; we need `512 / 8 = 64` workgroups in each dimension
/// to process the entire buffer.
///
/// # About the bindings in the shader
/// The bind group 0 is set up with the texture in binding 0. The bind group
/// 1 is the user bind group.
pub trait ComputeShader: Send + Sync + Clone + Default + Sized + 'static {
    /// Shader code to load. It must not be [ShaderRef::Default].
    fn shader() -> ShaderRef;

    /// Entry point of the shader.
    fn entry_point() -> String;

    /// Number of workgroups. It is to depend on the size of the texture
    /// alone.
    fn workgroups(texture_size: UVec2) -> UVec2;
}

/// An entity that pairs the image of a pixel buffer with a shader.
#[derive(Clone, Copy, Debug, PartialEq, Eq, Structural)]
pub struct ShaderBinding {
    /// The entity
    pub entity: u64,
    /// Handle of the image of the pixel buffer
    pub image: u64,
    /// Handle of the shader instance
    pub shader: u64,
}

/// What happened to an asset since the last frame.
#[derive(Clone, Copy, Debug, PartialEq, Eq, Structural)]
pub enum AssetEvent {
    /// The asset was added
    Created {
        /// Handle of the asset
        handle: u64,
    },
    /// The asset was changed, for an image also when it was resized
    Modified {
        /// Handle of the asset
        handle: u64,
    },
    /// The asset was removed
    Removed {
        /// Handle of the asset
        handle: u64,
    },
}

impl AssetEvent {
    /// Handle of the asset that the event is about.
    pub open spec fn asset(self) -> u64 {
        match self {
            AssetEvent::Created { handle } => handle,
            AssetEvent::Modified { handle } => handle,
            AssetEvent::Removed { handle } => handle,
        }
    }

    /// Handle of the asset that the event is about.
    pub fn handle(&self) -> (handle: u64)
        ensures
            handle == self.asset(),
    {
        match self {
            AssetEvent::Created { handle } => *handle,
            AssetEvent::Modified { handle } => *handle,
            AssetEvent::Removed { handle } => *handle,
        }
    }
}

/// The images that the pairings refer to.
pub open spec fn paired_images(buffers: Seq<ShaderBinding>) -> Set<u64> {
    Set::new(|handle: u64| exists|i: int| 0 <= i < buffers.len() && buffers[i].image == handle)
}

/// One more pairing adds its image to the paired images.
pub proof fn lemma_paired_images_grow(buffers: Seq<ShaderBinding>, i: int)
    requires
        0 <= i < buffers.len(),
    ensures
        paired_images(buffers.take(i + 1)) == paired_images(buffers.take(i)).insert(
            buffers[i].image,
        ),
{
    let shorter = buffers.take(i);
    let longer = buffers.take(i + 1);
    assert forall|handle: u64| #[trigger]
        paired_images(longer).contains(handle) == paired_images(shorter).insert(
            buffers[i].image,
        ).contains(handle) by {
        if paired_images(longer).contains(handle) {
            let k = choose|k: int| 0 <= k < longer.len() && longer[k].image == handle;
            assert(k < i ==> shorter[k].image == handle);
        }
        if paired_images(shorter).contains(handle) {
            let k = choose|k: int| 0 <= k < shorter.len() && shorter[k].image == handle;
            assert(longer[k].image == handle);
        }
        if handle == buffers[i].image {
            assert(longer[i].image == handle);
        }
    }
}

} // verus!
