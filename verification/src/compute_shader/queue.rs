//! Queue stage: the dispatches of a frame.

use vstd::prelude::*;
use crate::compute_shader::extract::invalidated_images;
use crate::compute_shader::prepare::images_prepared;
use crate::compute_shader::{paired_images, AssetEvent, ComputeShader, ShaderBinding};
use crate::math::UVec2;
use crate::prepared::{PreparedImage, PreparedImages, PreparedShader, PreparedShaders};

verus! {

/// One dispatch of a frame.
#[derive(Clone, Copy, Debug, PartialEq, Eq, Structural)]
pub struct ComputeShaderInfo {
    /// Bind group of the storage texture
    pub texture_bind_group: u64,
    /// Bind group of the shader's own resources
    pub user_bind_group: u64,
    /// Number of workgroups in X and Y
    pub workgroups: UVec2,
}

/// A pairing whose bind groups are both ready.
pub struct ReadyBinding {
    /// Bind group of the storage texture
    pub texture_bind_group: u64,
    /// Bind group of the shader's own resources
    pub user_bind_group: u64,
    /// Size of the texture when it was bound
    pub size: UVec2,
}

/// What is ready of a pairing, where the bind groups of its image and its
/// shader are both ready; nothing otherwise.
pub open spec fn ready(
    binding: ShaderBinding,
    images: Map<u64, PreparedImage>,
    shaders: Map<u64, PreparedShader>,
) -> Option<ReadyBinding> {
    if images.contains_key(binding.image) && shaders.contains_key(binding.shader) {
        Some(
            ReadyBinding {
                texture_bind_group: images[binding.image].texture_bind_group,
                user_bind_group: shaders[binding.shader].user_bind_group,
                size: images[binding.image].size,
            },
        )
    } else {
        None
    }
}

/// The pairings that are ready, in the order of the pairings.
pub open spec fn ready_bindings(
    buffers: Seq<ShaderBinding>,
    images: Map<u64, PreparedImage>,
    shaders: Map<u64, PreparedShader>,
) -> Seq<ReadyBinding> {
    buffers.filter_map(|binding: ShaderBinding| ready(binding, images, shaders))
}

/// Whether a dispatch is the one of a ready pairing: it carries the bind
/// groups of the pairing, and a number of workgroups that the shader gives
/// for the size of the texture.
pub open spec fn dispatches<S: ComputeShader>(shader: ComputeShaderInfo, pairing: ReadyBinding) -> bool {
    &&& shader.texture_bind_group == pairing.texture_bind_group
    &&& shader.user_bind_group == pairing.user_bind_group
    &&& call_ensures(S::workgroups, (pairing.size,), shader.workgroups)
}

/// Whether a queue is the dispatch queue of a frame: one dispatch for each
/// pairing that is ready, in the order of the pairings.
pub open spec fn is_dispatch_queue<S: ComputeShader>(
    queue: Seq<ComputeShaderInfo>,
    buffers: Seq<ShaderBinding>,
    images: Map<u64, PreparedImage>,
    shaders: Map<u64, PreparedShader>,
) -> bool {
    &&& queue.len() == ready_bindings(buffers, images, shaders).len()
    &&& forall|k: int|
        0 <= k < queue.len() ==> dispatches::<S>(
            #[trigger] queue[k],
            ready_bindings(buffers, images, shaders)[k],
        )
}

/// Queue stage: lists the dispatches of the frame. A pairing whose image or
/// shader has no bind group yet is left out.
pub fn cs_queue_bind_group<S: ComputeShader>(
    buffers: &[ShaderBinding],
    prepared_shaders: &PreparedShaders,
    prepared_images: &PreparedImages,
) -> (queue: Vec<ComputeShaderInfo>)
    ensures
        is_dispatch_queue::<S>(queue@, buffers@, prepared_images@, prepared_shaders@),
{
    let ghost pick = |binding: ShaderBinding| ready(binding, prepared_images@, prepared_shaders@);
    let mut shaders: Vec<ComputeShaderInfo> = Vec::new();
    let mut i: usize = 0;
    while i < buffers.len()
        invariant
            i <= buffers@.len(),
            pick == |binding: ShaderBinding| ready(binding, prepared_images@, prepared_shaders@),
            shaders@.len() == buffers@.take(i as int).filter_map(pick).len(),
            forall|k: int|
                0 <= k < shaders@.len() ==> dispatches::<S>(
                    #[trigger] shaders@[k],
                    buffers@.take(i as int).filter_map(pick)[k],
                ),
        decreases buffers@.len() - i,
    {
        let binding = buffers[i];
        proof {
            buffers@.lemma_filter_map_take_succ(pick, i as int);
        }
        if let Some(prepared_image) = prepared_images.get(binding.image) {
            if let Some(prepared_shader) = prepared_shaders.get(binding.shader) {
                shaders.push(
                    ComputeShaderInfo {
                        texture_bind_group: prepared_image.texture_bind_group,
                        user_bind_group: prepared_shader.user_bind_group,
                        workgroups: S::workgroups(prepared_image.size),
                    },
                );
            }
        }
        i += 1;
    }
    assert(buffers@.take(buffers@.len() as int) =~= buffers@);
    shaders
}

/// An image of a pairing that an event of the frame is about is never
/// dispatched with the bind group that was prepared for it before the
/// event. After the prepare stage the cache has no entry for it, where
/// `view` had nothing for it, and then no pairing with that image is
/// ready; or it has the entry that `view` gave for it on this frame.
pub proof fn lemma_invalidated_image_is_not_dispatched_stale<V: Fn(u64) -> Option<PreparedImage>>(
    buffers: Seq<ShaderBinding>,
    image_events: Seq<AssetEvent>,
    event: int,
    view: V,
    before: Map<u64, PreparedImage>,
    after: Map<u64, PreparedImage>,
    shaders: Map<u64, PreparedShader>,
)
    requires
        0 <= event < image_events.len(),
        paired_images(buffers).contains(image_events[event].asset()),
        images_prepared(
            before,
            invalidated_images(image_events, paired_images(buffers)),
            paired_images(buffers),
            view,
            after,
        ),
    ensures
        after.contains_key(image_events[event].asset()) ==> view.ensures(
            (image_events[event].asset(),),
            Some(after[image_events[event].asset()]),
        ),
        !after.contains_key(image_events[event].asset()) ==> view.ensures(
            (image_events[event].asset(),),
            None,
        ) && forall|i: int|
            0 <= i < buffers.len() && buffers[i].image == image_events[event].asset() ==> ready(
                #[trigger] buffers[i],
                after,
                shaders,
            ) is None,
{
    assert(invalidated_images(image_events, paired_images(buffers)).contains(
        image_events[event].asset(),
    ));
}

/// Every dispatch of the queue stems from a pairing whose image and shader
/// both have an entry in the caches, and carries the bind groups of these
/// entries.
pub proof fn lemma_dispatches_stem_from_prepared<S: ComputeShader>(
    queue: Seq<ComputeShaderInfo>,
    buffers: Seq<ShaderBinding>,
    images: Map<u64, PreparedImage>,
    shaders: Map<u64, PreparedShader>,
    entry: int,
)
    requires
        is_dispatch_queue::<S>(queue, buffers, images, shaders),
        0 <= entry < queue.len(),
    ensures
        exists|i: int|
            0 <= i < buffers.len() && images.contains_key(buffers[i].image)
                && shaders.contains_key(buffers[i].shader) && queue[entry].texture_bind_group
                == images[buffers[i].image].texture_bind_group && queue[entry].user_bind_group
                == shaders[buffers[i].shader].user_bind_group && call_ensures(
                S::workgroups,
                (images[(#[trigger] buffers[i]).image].size,),
                queue[entry].workgroups,
            ),
{
    let pick = |binding: ShaderBinding| ready(binding, images, shaders);
    let pairings = buffers.filter_map(pick);
    buffers.lemma_filter_map_contains(pick, pairings[entry]);
    let binding = choose|binding: ShaderBinding|
        buffers.contains(binding) && pick(binding) == Some(pairings[entry]);
    let i = choose|i: int| 0 <= i < buffers.len() && buffers[i] == binding;
}

} // verus!
