//! Extract stage: what a frame takes over from the main world.

use vstd::prelude::*;
use crate::compute_shader::{lemma_paired_images_grow, paired_images, AssetEvent, ShaderBinding};
use crate::handle_set::HandleSet;

verus! {

/// The shaders that changed since the last frame, each with its current
/// value, and the handles of those that were removed.
pub struct ExtractedShaders<S> {
    /// Shaders that were created or modified, with their handles
    pub extracted: Vec<(u64, S)>,
    /// Handles of the shaders that were removed
    pub removed: Vec<u64>,
}

impl<S> Default for ExtractedShaders<S> {
    fn default() -> (shaders: ExtractedShaders<S>)
        ensures
            shaders.extracted@.len() == 0,
            shaders.removed@.len() == 0,
    {
        ExtractedShaders { extracted: Vec::new(), removed: Vec::new() }
    }
}

/// The images of pixel buffers whose asset changed since the last frame:
/// a bind group prepared for one of them must not be used any more.
pub struct InvalidatedImages {
    /// Handles of the images
    pub invalid: HandleSet,
}

impl Default for InvalidatedImages {
    fn default() -> (images: InvalidatedImages)
        ensures
            images.invalid@ == Set::<u64>::empty(),
    {
        InvalidatedImages { invalid: HandleSet::new() }
    }
}

/// What the extract stage hands to the stages that follow.
pub struct Extracted<S> {
    /// The pairings of the frame
    pub bindings: Vec<ShaderBinding>,
    /// The shaders to prepare again and those to forget
    pub shaders: ExtractedShaders<S>,
    /// The images to prepare again
    pub images: InvalidatedImages,
}

/// The last of the events that is about a given asset.
pub open spec fn last_event_about(events: Seq<AssetEvent>, handle: u64) -> Option<AssetEvent>
    decreases events.len(),
{
    if events.len() == 0 {
        None
    } else if events.last().asset() == handle {
        Some(events.last())
    } else {
        last_event_about(events.drop_last(), handle)
    }
}

/// The shaders to prepare again: those whose last event says that they were
/// created or modified.
pub open spec fn changed_shaders(events: Seq<AssetEvent>) -> Set<u64> {
    Set::new(
        |handle: u64|
            last_event_about(events, handle) matches Some(event) && !(event is Removed),
    )
}

/// Whether an event is a removal, and of which asset.
pub open spec fn removal(event: AssetEvent) -> Option<u64> {
    if event is Removed {
        Some(event.asset())
    } else {
        None
    }
}

/// The handles of the removed shaders, one for each removal, in the order
/// of the events.
pub open spec fn removed_shaders(events: Seq<AssetEvent>) -> Seq<u64> {
    events.filter_map(|event: AssetEvent| removal(event))
}

/// The paired images that an event is about.
pub open spec fn invalidated_images(events: Seq<AssetEvent>, paired: Set<u64>) -> Set<u64> {
    Set::new(
        |handle: u64|
            paired.contains(handle) && exists|i: int|
                0 <= i < events.len() && events[i].asset() == handle,
    )
}

/// Whether a list holds one entry for each of the changed shaders that is
/// still loaded, with the value that `shader_assets` gives for it, and
/// nothing else: each entry is about another changed shader, and a changed
/// shader without an entry is one for which `shader_assets` has nothing.
pub open spec fn extracted_from<S, L: Fn(u64) -> Option<S>>(
    changed: Set<u64>,
    shader_assets: L,
    extracted: Seq<(u64, S)>,
) -> bool {
    &&& forall|i: int, j: int|
        0 <= i < j < extracted.len() ==> extracted[i].0 != extracted[j].0
    &&& forall|i: int|
        0 <= i < extracted.len() ==> changed.contains(#[trigger] extracted[i].0)
            && shader_assets.ensures((extracted[i].0,), Some(extracted[i].1))
    &&& forall|handle: u64|
        changed.contains(handle) ==> (exists|i: int|
            0 <= i < extracted.len() && extracted[i].0 == handle) || shader_assets.ensures(
            (handle,),
            None,
        )
}

/// One more event changes the shaders to prepare again by its asset alone:
/// a creation or a modification adds it, a removal takes it out.
pub proof fn lemma_changed_shaders_step(events: Seq<AssetEvent>, i: int)
    requires
        0 <= i < events.len(),
    ensures
        changed_shaders(events.take(i + 1)) == (if events[i] is Removed {
            changed_shaders(events.take(i)).remove(events[i].asset())
        } else {
            changed_shaders(events.take(i)).insert(events[i].asset())
        }),
{
    assert(events.take(i + 1).drop_last() =~= events.take(i));
    if events[i] is Removed {
        assert(changed_shaders(events.take(i + 1)) =~= changed_shaders(events.take(i)).remove(
            events[i].asset(),
        ));
    } else {
        assert(changed_shaders(events.take(i + 1)) =~= changed_shaders(events.take(i)).insert(
            events[i].asset(),
        ));
    }
}

/// One more event invalidates its image, if the image is paired.
pub proof fn lemma_invalidated_images_step(events: Seq<AssetEvent>, paired: Set<u64>, i: int)
    requires
        0 <= i < events.len(),
    ensures
        invalidated_images(events.take(i + 1), paired) == (if paired.contains(events[i].asset()) {
            invalidated_images(events.take(i), paired).insert(events[i].asset())
        } else {
            invalidated_images(events.take(i), paired)
        }),
{
    let shorter = events.take(i);
    let longer = events.take(i + 1);
    let image = events[i].asset();
    assert forall|handle: u64| #[trigger]
        invalidated_images(longer, paired).contains(handle) == (invalidated_images(
            shorter,
            paired,
        ).contains(handle) || (handle == image && paired.contains(handle))) by {
        if invalidated_images(longer, paired).contains(handle) {
            let k = choose|k: int| 0 <= k < longer.len() && longer[k].asset() == handle;
            assert(k < i ==> shorter[k].asset() == handle);
        }
        if invalidated_images(shorter, paired).contains(handle) {
            let k = choose|k: int| 0 <= k < shorter.len() && shorter[k].asset() == handle;
            assert(longer[k].asset() == handle);
        }
        if handle == image && paired.contains(handle) {
            assert(longer[i].asset() == handle);
        }
    }
}

/// The images that the pairings refer to, as a set.
pub(crate) fn images_of(buffers: &[ShaderBinding]) -> (images: HandleSet)
    ensures
        images@ == paired_images(buffers@),
{
    let mut images = HandleSet::new();
    let mut i: usize = 0;
    while i < buffers.len()
        invariant
            i <= buffers@.len(),
            images@ == paired_images(buffers@.take(i as int)),
        decreases buffers@.len() - i,
    {
        images.insert(buffers[i].image);
        proof {
            lemma_paired_images_grow(buffers@, i as int);
        }
        i += 1;
    }
    assert(buffers@.take(buffers@.len() as int) =~= buffers@);
    images
}

/// Goes through the shader events: which shaders are to be prepared again,
/// and which removals are to be handed on.
fn changed_and_removed(shader_events: &[AssetEvent]) -> (out: (HandleSet, Vec<u64>))
    ensures
        out.0@ == changed_shaders(shader_events@),
        out.1@ == removed_shaders(shader_events@),
{
    let ghost pick = |event: AssetEvent| removal(event);
    let mut changed = HandleSet::new();
    let mut removed: Vec<u64> = Vec::new();
    let mut i: usize = 0;
    while i < shader_events.len()
        invariant
            i <= shader_events@.len(),
            pick == |event: AssetEvent| removal(event),
            changed@ == changed_shaders(shader_events@.take(i as int)),
            removed@ == shader_events@.take(i as int).filter_map(pick),
        decreases shader_events@.len() - i,
    {
        proof {
            shader_events@.lemma_filter_map_take_succ(pick, i as int);
            lemma_changed_shaders_step(shader_events@, i as int);
        }
        match shader_events[i] {
            AssetEvent::Created { handle } => {
                changed.insert(handle);
            },
            AssetEvent::Modified { handle } => {
                changed.insert(handle);
            },
            AssetEvent::Removed { handle } => {
                changed.remove(handle);
                removed.push(handle);
            },
        }
        i += 1;
    }
    assert(shader_events@.take(shader_events@.len() as int) =~= shader_events@);
    (changed, removed)
}

/// Pairs each of the handles with the value that `shader_assets` has for
/// it, and leaves out those for which it has none.
fn load_changed<S, L: Fn(u64) -> Option<S>>(handles: Vec<u64>, shader_assets: &L) -> (extracted:
    Vec<(u64, S)>)
    requires
        handles@.no_duplicates(),
        forall|handle: u64| shader_assets.requires((handle,)),
    ensures
        extracted_from(handles@.to_set(), *shader_assets, extracted@),
{
    let mut extracted: Vec<(u64, S)> = Vec::new();
    let mut i: usize = 0;
    while i < handles.len()
        invariant
            i <= handles@.len(),
            handles@.no_duplicates(),
            forall|handle: u64| shader_assets.requires((handle,)),
            forall|k: int|
                0 <= k < extracted@.len() ==> exists|j: int|
                    0 <= j < i && handles@[j] == (#[trigger] extracted@[k]).0,
            forall|k: int, l: int|
                0 <= k < l < extracted@.len() ==> extracted@[k].0 != extracted@[l].0,
            forall|k: int|
                0 <= k < extracted@.len() ==> shader_assets.ensures(
                    ((#[trigger] extracted@[k]).0,),
                    Some(extracted@[k].1),
                ),
            forall|j: int|
                0 <= j < i ==> (exists|k: int|
                    0 <= k < extracted@.len() && extracted@[k].0 == #[trigger] handles@[j])
                    || shader_assets.ensures((handles@[j],), None),
        decreases handles@.len() - i,
    {
        let handle = handles[i];
        let ghost before = extracted@;
        match shader_assets(handle) {
            Some(asset) => {
                extracted.push((handle, asset));
                proof {
                    let last = before.len() as int;
                    assert(extracted@[last].0 == handle);
                    assert forall|k: int, l: int|
                        0 <= k < l < extracted@.len() implies extracted@[k].0
                        != extracted@[l].0 by {
                        assert(extracted@[k] == before[k]);
                        if l == last {
                            let j = choose|j: int| 0 <= j < i && handles@[j] == before[k].0;
                            assert(handles@[j] != handles@[i as int]);
                        } else {
                            assert(extracted@[l] == before[l]);
                        }
                    }
                    assert forall|k: int| 0 <= k < extracted@.len() implies exists|j: int|
                        0 <= j < i + 1 && handles@[j] == (#[trigger] extracted@[k]).0 by {
                        if k == last {
                            assert(handles@[i as int] == extracted@[k].0);
                        } else {
                            assert(extracted@[k] == before[k]);
                            let j = choose|j: int| 0 <= j < i && handles@[j] == before[k].0;
                            assert(handles@[j] == extracted@[k].0);
                        }
                    }
                    assert forall|j: int| 0 <= j < i + 1 implies (exists|k: int|
                        0 <= k < extracted@.len() && extracted@[k].0 == #[trigger] handles@[j])
                        || shader_assets.ensures((handles@[j],), None) by {
                        if j == i {
                            assert(extracted@[last].0 == handles@[j]);
                        } else if exists|k: int|
                            0 <= k < before.len() && before[k].0 == handles@[j] {
                            let k = choose|k: int|
                                0 <= k < before.len() && before[k].0 == handles@[j];
                            assert(extracted@[k] == before[k]);
                        }
                    }
                }
            },
            None => {},
        }
        i += 1;
    }
    proof {
        assert forall|k: int| 0 <= k < extracted@.len() implies handles@.to_set().contains(
            #[trigger] extracted@[k].0,
        ) by {
            let j = choose|j: int| 0 <= j < handles@.len() && handles@[j] == extracted@[k].0;
            assert(handles@.contains(handles@[j]));
        }
        assert forall|handle: u64| handles@.to_set().contains(handle) implies (exists|k: int|
            0 <= k < extracted@.len() && extracted@[k].0 == handle) || shader_assets.ensures(
            (handle,),
            None,
        ) by {
            let j = choose|j: int| 0 <= j < handles@.len() && handles@[j] == handle;
            assert(handles@[j] == handle);
        }
    }
    extracted
}

/// The paired images that an image event is about.
fn invalidate(image_events: &[AssetEvent], buffer_images: &HandleSet) -> (invalid: HandleSet)
    ensures
        invalid@ == invalidated_images(image_events@, buffer_images@),
{
    let mut invalid = HandleSet::new();
    let mut i: usize = 0;
    while i < image_events.len()
        invariant
            i <= image_events@.len(),
            invalid@ == invalidated_images(image_events@.take(i as int), buffer_images@),
        decreases image_events@.len() - i,
    {
        let handle = image_events[i].handle();
        if buffer_images.contains(handle) {
            invalid.insert(handle);
        }
        proof {
            lemma_invalidated_images_step(image_events@, buffer_images@, i as int);
        }
        i += 1;
    }
    assert(image_events@.take(image_events@.len() as int) =~= image_events@);
    invalid
}

/// Extract stage: reads what the frame needs from the main world.
///
/// - The pairings are handed on as they are.
/// - A shader whose last event is a creation or a modification is handed
///   on with the value that `shader_assets` has for it, if it has one.
/// - Every removal of a shader is handed on.
/// - An image of a pairing that any event is about is invalid.
pub fn cs_extract<S, L: Fn(u64) -> Option<S>>(
    buffers: &[ShaderBinding],
    shader_events: &[AssetEvent],
    shader_assets: L,
    image_events: &[AssetEvent],
) -> (out: Extracted<S>)
    requires
        forall|handle: u64| shader_assets.requires((handle,)),
    ensures
        out.bindings@ == buffers@,
        extracted_from(changed_shaders(shader_events@), shader_assets, out.shaders.extracted@),
        out.shaders.removed@ == removed_shaders(shader_events@),
        out.images.invalid@ == invalidated_images(image_events@, paired_images(buffers@)),
{
    // Extract the entities to apply shaders
    let values = vstd::slice::slice_to_vec(buffers);
    let buffer_images = images_of(buffers);

    // Update the shader cache
    let (mut changed, removed) = changed_and_removed(shader_events);
    let extracted = load_changed(changed.drain(), &shader_assets);

    // Update image bind group cache
    let invalid = invalidate(image_events, &buffer_images);

    Extracted {
        bindings: values,
        shaders: ExtractedShaders { extracted, removed },
        images: InvalidatedImages { invalid },
    }
}

} // verus!
