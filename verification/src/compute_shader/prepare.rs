//! Prepare stage: the caches of bind groups are brought up to date.

use vstd::prelude::*;
use crate::compute_shader::extract::{ExtractedShaders, InvalidatedImages};
use crate::compute_shader::{lemma_paired_images_grow, paired_images, ShaderBinding};
use crate::handle_set::HandleSet;
use crate::prepared::{PreparedImage, PreparedImages, PreparedShader, PreparedShaders};

verus! {

/// Whether `after` is what the cache of prepared images `before` becomes
/// in the prepare stage of a frame with the given invalid images and
/// paired images:
///
/// - the cache has entries for paired images only;
/// - the entry of a paired image that is not invalid is kept;
/// - a paired image that had no entry, or an invalid one, has the entry
///   that `view` gave for it, or none where `view` had nothing for it.
pub open spec fn images_prepared<V: Fn(u64) -> Option<PreparedImage>>(
    before: Map<u64, PreparedImage>,
    invalid: Set<u64>,
    paired: Set<u64>,
    view: V,
    after: Map<u64, PreparedImage>,
) -> bool {
    &&& forall|handle: u64| after.contains_key(handle) ==> paired.contains(handle)
    &&& forall|handle: u64|
        paired.contains(handle) && before.contains_key(handle) && !invalid.contains(handle)
            ==> after.contains_key(handle) && after[handle] == before[handle]
    &&& forall|handle: u64|
        paired.contains(handle) && !(before.contains_key(handle) && !invalid.contains(handle))
            ==> if after.contains_key(handle) {
            view.ensures((handle,), Some(after[handle]))
        } else {
            view.ensures((handle,), None)
        }
}

/// Takes out of the cache every entry whose handle is, or is not, in a set.
fn evict(prepared_images: &mut PreparedImages, handles: &HandleSet, members: bool)
    ensures
        forall|handle: u64|
            #![trigger final(prepared_images)@.contains_key(handle)]
            #![trigger old(prepared_images)@.contains_key(handle)]
            final(prepared_images)@.contains_key(handle) <==> old(prepared_images)@.contains_key(
                handle,
            ) && handles@.contains(handle) != members,
        forall|handle: u64|
            #![trigger final(prepared_images)@[handle]]
            final(prepared_images)@.contains_key(handle) ==> final(prepared_images)@[handle]
                == old(prepared_images)@[handle],
{
    let keys = prepared_images.handles();
    let mut i: usize = 0;
    assert forall|j: int| 0 <= j < keys@.len() implies prepared_images@.contains_key(
        #[trigger] keys@[j],
    ) by {
        assert(keys@.to_set().contains(keys@[j]));
    }
    while i < keys.len()
        invariant
            i <= keys@.len(),
            keys@.no_duplicates(),
            keys@.to_set() == old(prepared_images)@.dom(),
            forall|handle: u64|
                #![trigger prepared_images@.contains_key(handle)]
                prepared_images@.contains_key(handle) ==> old(prepared_images)@.contains_key(
                    handle,
                ) && prepared_images@[handle] == old(prepared_images)@[handle],
            forall|j: int|
                0 <= j < i && handles@.contains(keys@[j]) == members
                    ==> !prepared_images@.contains_key(#[trigger] keys@[j]),
            forall|handle: u64|
                #![trigger old(prepared_images)@.contains_key(handle)]
                old(prepared_images)@.contains_key(handle) && handles@.contains(handle) != members
                    ==> prepared_images@.contains_key(handle),
            forall|j: int|
                i <= j < keys@.len() ==> prepared_images@.contains_key(#[trigger] keys@[j]),
        decreases keys@.len() - i,
    {
        let key = keys[i];
        if handles.contains(key) == members {
            prepared_images.remove(key);
        }
        i += 1;
    }
    assert forall|handle: u64| prepared_images@.contains_key(handle) implies handles@.contains(
        handle,
    ) != members by {
        assert(keys@.to_set().contains(handle));
    }
}

/// Prepare stage for images: brings the cache of texture bind groups up to
/// date. `view` binds the texture of an image and returns what to keep of
/// it, or nothing where the image is not on the GPU yet.
///
/// The entries of invalid images are removed first. Then every paired image
/// without an entry is prepared, if `view` has something for it. At last the
/// entries of images that no pairing refers to are removed.
pub fn prepare_images<V: Fn(u64) -> Option<PreparedImage>>(
    buffers: &[ShaderBinding],
    view: V,
    invalid_images: &InvalidatedImages,
    prepared_images: &mut PreparedImages,
)
    requires
        forall|handle: u64| view.requires((handle,)),
    ensures
        images_prepared(
            old(prepared_images)@,
            invalid_images.invalid@,
            paired_images(buffers@),
            view,
            final(prepared_images)@,
        ),
{
    // remove invalid prepared images
    evict(prepared_images, &invalid_images.invalid, true);

    let ghost before = old(prepared_images)@;
    let ghost invalid = invalid_images.invalid@;
    let mut buffer_images = HandleSet::new();
    // iterate over all the buffers
    let mut i: usize = 0;
    while i < buffers.len()
        invariant
            i <= buffers@.len(),
            before == old(prepared_images)@,
            invalid == invalid_images.invalid@,
            forall|handle: u64| view.requires((handle,)),
            buffer_images@ == paired_images(buffers@.take(i as int)),
            forall|handle: u64|
                #![trigger before.contains_key(handle)]
                before.contains_key(handle) && !invalid.contains(handle)
                    ==> prepared_images@.contains_key(handle) && prepared_images@[handle]
                    == before[handle],
            forall|handle: u64|
                #![trigger prepared_images@.contains_key(handle)]
                prepared_images@.contains_key(handle) && !(before.contains_key(handle)
                    && !invalid.contains(handle)) ==> view.ensures(
                    (handle,),
                    Some(prepared_images@[handle]),
                ) && buffer_images@.contains(handle),
            forall|handle: u64|
                #![trigger buffer_images@.contains(handle)]
                buffer_images@.contains(handle) && !prepared_images@.contains_key(handle)
                    ==> view.ensures((handle,), None),
        decreases buffers@.len() - i,
    {
        let image_handle = buffers[i].image;
        buffer_images.insert(image_handle);

        // if the image is not prepared, do it
        if prepared_images.get(image_handle).is_none() {
            if let Some(prepared) = view(image_handle) {
                prepared_images.insert(image_handle, prepared);
            }
        }
        proof {
            lemma_paired_images_grow(buffers@, i as int);
        }
        i += 1;
    }
    assert(buffers@.take(buffers@.len() as int) =~= buffers@);

    // remove untracked images
    evict(prepared_images, &buffer_images, false);
}

/// Why the resources of a shader could not be bound.
#[derive(Clone, Copy, Debug, PartialEq, Eq, Structural)]
pub enum AsBindGroupError {
    /// Something the shader depends on is not ready yet: try again on the
    /// next frame
    RetryNextUpdate,
}

/// The shaders whose preparation was put off to the next frame, in the
/// order in which they are to be tried again.
pub struct PrepareNextFrameShaders<S> {
    /// The shaders, with their handles
    pub assets: Vec<(u64, S)>,
}

impl<S> Default for PrepareNextFrameShaders<S> {
    fn default() -> (next: PrepareNextFrameShaders<S>)
        ensures
            next.assets@.len() == 0,
    {
        PrepareNextFrameShaders { assets: Vec::new() }
    }
}

/// Whether `outcomes` lists, for each of the shaders in turn, a result that
/// `prepare` gives for it.
pub open spec fn outcomes_of<S, P: Fn(&S) -> Result<PreparedShader, AsBindGroupError>>(
    prepare: P,
    assets: Seq<(u64, S)>,
    outcomes: Seq<Result<PreparedShader, AsBindGroupError>>,
) -> bool {
    &&& outcomes.len() == assets.len()
    &&& forall|i: int|
        0 <= i < assets.len() ==> prepare.ensures((&assets[i].1,), #[trigger] outcomes[i])
}

/// The shaders whose preparation failed, in their order.
pub open spec fn deferred<S>(
    assets: Seq<(u64, S)>,
    outcomes: Seq<Result<PreparedShader, AsBindGroupError>>,
) -> Seq<(u64, S)>
    decreases assets.len(),
{
    if assets.len() == 0 || outcomes.len() != assets.len() {
        Seq::empty()
    } else if outcomes.last() is Err {
        deferred(assets.drop_last(), outcomes.drop_last()).push(assets.last())
    } else {
        deferred(assets.drop_last(), outcomes.drop_last())
    }
}

/// The cache after the shaders whose preparation succeeded were entered in
/// their order, a later one in place of an earlier one for the same handle.
pub open spec fn with_prepared<S>(
    cache: Map<u64, PreparedShader>,
    assets: Seq<(u64, S)>,
    outcomes: Seq<Result<PreparedShader, AsBindGroupError>>,
) -> Map<u64, PreparedShader>
    decreases assets.len(),
{
    if assets.len() == 0 || outcomes.len() != assets.len() {
        cache
    } else {
        let rest = with_prepared(cache, assets.drop_last(), outcomes.drop_last());
        match outcomes.last() {
            Ok(prepared) => rest.insert(assets.last().0, prepared),
            Err(_) => rest,
        }
    }
}

/// The cache without the entries of the removed shaders.
pub open spec fn without_removed(cache: Map<u64, PreparedShader>, removed: Seq<u64>) -> Map<
    u64,
    PreparedShader,
> {
    cache.remove_keys(removed.to_set())
}

/// Whether a frame's prepare stage for shaders leads from the state before
/// to the state after, `prepare` having given `retried` for the shaders put
/// off on the frame before and `fresh` for the shaders extracted on this
/// one. The shaders put off are tried first, in their order. Then the
/// removed shaders leave the cache. Then the extracted shaders are tried.
/// A shader is entered in the cache where `prepare` succeeds, and put off
/// to the next frame, behind those put off before it, where it fails.
pub open spec fn shaders_prepared<S>(
    queued: Seq<(u64, S)>,
    retried: Seq<Result<PreparedShader, AsBindGroupError>>,
    removed: Seq<u64>,
    extracted: Seq<(u64, S)>,
    fresh: Seq<Result<PreparedShader, AsBindGroupError>>,
    before: Map<u64, PreparedShader>,
    after: Map<u64, PreparedShader>,
    next: Seq<(u64, S)>,
) -> bool {
    &&& next == deferred(queued, retried) + deferred(extracted, fresh)
    &&& after == with_prepared(
        without_removed(with_prepared(before, queued, retried), removed),
        extracted,
        fresh,
    )
}

/// Shaders that all fail to be prepared are put off in the order in which
/// they came: the first to be put off is the first to be tried again.
pub proof fn lemma_deferred_keep_their_order<S>(
    assets: Seq<(u64, S)>,
    outcomes: Seq<Result<PreparedShader, AsBindGroupError>>,
)
    requires
        outcomes.len() == assets.len(),
        forall|i: int| 0 <= i < outcomes.len() ==> outcomes[i] is Err,
    ensures
        deferred(assets, outcomes) == assets,
    decreases assets.len(),
{
    if assets.len() > 0 {
        lemma_deferred_keep_their_order(assets.drop_last(), outcomes.drop_last());
    }
}

/// Tries to prepare each of the shaders in turn: enters it in the cache
/// where that succeeds, puts it off to the next frame where it fails.
fn prepare_batch<S, P: Fn(&S) -> Result<PreparedShader, AsBindGroupError>>(
    assets: Vec<(u64, S)>,
    render_materials: &mut PreparedShaders,
    prepare_next_frame: &mut Vec<(u64, S)>,
    prepare: &P,
) -> (outcomes: Ghost<Seq<Result<PreparedShader, AsBindGroupError>>>)
    requires
        forall|shader: &S| prepare.requires((shader,)),
    ensures
        outcomes_of(*prepare, assets@, outcomes@),
        final(prepare_next_frame)@ == old(prepare_next_frame)@ + deferred(assets@, outcomes@),
        final(render_materials)@ == with_prepared(old(render_materials)@, assets@, outcomes@),
{
    let ghost all = assets@;
    let ghost mut outcomes: Seq<Result<PreparedShader, AsBindGroupError>> = Seq::empty();
    let mut assets = assets;
    while assets.len() > 0
        invariant
            forall|shader: &S| prepare.requires((shader,)),
            outcomes.len() + assets@.len() == all.len(),
            assets@ == all.skip(outcomes.len() as int),
            outcomes_of(*prepare, all.take(outcomes.len() as int), outcomes),
            prepare_next_frame@ == old(prepare_next_frame)@ + deferred(
                all.take(outcomes.len() as int),
                outcomes,
            ),
            render_materials@ == with_prepared(
                old(render_materials)@,
                all.take(outcomes.len() as int),
                outcomes,
            ),
        decreases assets@.len(),
    {
        let ghost done = outcomes.len() as int;
        let ghost earlier = outcomes;
        let (handle, shader) = assets.remove(0);
        let result = prepare(&shader);
        proof {
            outcomes = outcomes.push(result);
            assert(all.take(done + 1).drop_last() =~= all.take(done));
            assert(outcomes.drop_last() =~= earlier);
        }
        match result {
            Ok(prepared_asset) => {
                render_materials.insert(handle, prepared_asset);
            },
            Err(AsBindGroupError::RetryNextUpdate) => {
                prepare_next_frame.push((handle, shader));
            },
        }
        assert(prepare_next_frame@ =~= old(prepare_next_frame)@ + deferred(
            all.take(done + 1),
            outcomes,
        ));
    }
    Ghost(outcomes)
}

/// Prepare stage for shaders: brings the cache of user bind groups up to
/// date. `prepare` binds the resources of a shader, or asks to try again on
/// the next frame.
///
/// The shaders that were put off on the frame before are tried first, in
/// the order in which they were put off. Then the removed shaders leave the
/// cache. Then the extracted shaders are tried. A shader whose preparation
/// fails is put off to the next frame.
pub fn prepare_shaders<S, P: Fn(&S) -> Result<PreparedShader, AsBindGroupError>>(
    prepare_next_frame: &mut PrepareNextFrameShaders<S>,
    extracted_assets: &mut ExtractedShaders<S>,
    render_materials: &mut PreparedShaders,
    prepare: P,
)
    requires
        forall|shader: &S| prepare.requires((shader,)),
    ensures
        final(extracted_assets).extracted@.len() == 0,
        final(extracted_assets).removed@.len() == 0,
        exists|
            retried: Seq<Result<PreparedShader, AsBindGroupError>>,
            fresh: Seq<Result<PreparedShader, AsBindGroupError>>,
        |
            #![trigger
                outcomes_of(prepare, old(prepare_next_frame).assets@, retried),
                outcomes_of(prepare, old(extracted_assets).extracted@, fresh),
            ]
            outcomes_of(prepare, old(prepare_next_frame).assets@, retried) && outcomes_of(
                prepare,
                old(extracted_assets).extracted@,
                fresh,
            ) && shaders_prepared(
                old(prepare_next_frame).assets@,
                retried,
                old(extracted_assets).removed@,
                old(extracted_assets).extracted@,
                fresh,
                old(render_materials)@,
                final(render_materials)@,
                final(prepare_next_frame).assets@,
            ),
{
    let mut queued_assets: Vec<(u64, S)> = Vec::new();
    core::mem::swap(&mut queued_assets, &mut prepare_next_frame.assets);
    let retried = prepare_batch(
        queued_assets,
        render_materials,
        &mut prepare_next_frame.assets,
        &prepare,
    );

    let mut removed: Vec<u64> = Vec::new();
    core::mem::swap(&mut removed, &mut extracted_assets.removed);
    let ghost tried = render_materials@;
    let mut i: usize = 0;
    while i < removed.len()
        invariant
            i <= removed@.len(),
            render_materials@ == without_removed(tried, removed@.take(i as int)),
        decreases removed@.len() - i,
    {
        render_materials.remove(removed[i]);
        proof {
            assert(removed@.take(i + 1) =~= removed@.take(i as int).push(removed@[i as int]));
            removed@.take(i as int).lemma_push_to_set_commute(removed@[i as int]);
        }
        i += 1;
    }
    assert(removed@.take(removed@.len() as int) =~= removed@);

    let mut extracted: Vec<(u64, S)> = Vec::new();
    core::mem::swap(&mut extracted, &mut extracted_assets.extracted);
    let fresh = prepare_batch(
        extracted,
        render_materials,
        &mut prepare_next_frame.assets,
        &prepare,
    );
    proof {
        assert(prepare_next_frame.assets@ =~= deferred(
            old(prepare_next_frame).assets@,
            retried@,
        ) + deferred(old(extracted_assets).extracted@, fresh@));
    }
}

} // verus!
