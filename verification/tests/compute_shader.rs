use bevy_pixel_buffer::compute_shader::{
    cs_extract, cs_queue_bind_group, prepare_images, prepare_shaders, AsBindGroupError,
    AssetEvent, ComputeShader, ComputeShaderInfo, ComputeShaderNode, ComputeShaderPipeline,
    ExtractedShaders, InvalidatedImages, PassCommand, PrepareNextFrameShaders, ShaderBinding,
    ShaderRef, ShaderSource, State, TEXTURE_BIND_GROUP, USER_BIND_GROUP,
};
use bevy_pixel_buffer::math::UVec2;
use bevy_pixel_buffer::prepared::{PreparedImage, PreparedImages, PreparedShader, PreparedShaders};

#[derive(Clone, Default, Debug, PartialEq)]
struct Life {
    seed: u32,
}

impl ComputeShader for Life {
    fn shader() -> ShaderRef {
        ShaderRef::Path(String::from("life.wgsl"))
    }

    fn entry_point() -> String {
        String::from("update")
    }

    fn workgroups(texture_size: UVec2) -> UVec2 {
        UVec2::new(texture_size.x / 8, texture_size.y / 8)
    }
}

fn binding(entity: u64, image: u64, shader: u64) -> ShaderBinding {
    ShaderBinding { entity, image, shader }
}

fn sorted(mut handles: Vec<u64>) -> Vec<u64> {
    handles.sort();
    handles
}

fn no_shader(_: u64) -> Option<Life> {
    None
}

#[test]
fn shader_definition() {
    assert!(matches!(Life::shader(), ShaderRef::Path(path) if path == "life.wgsl"));
    assert_eq!(Life::entry_point(), "update");
    assert_eq!(Life::workgroups(UVec2::new(512, 256)), UVec2::new(64, 32));
    assert_eq!(TEXTURE_BIND_GROUP, 0);
    assert_eq!(USER_BIND_GROUP, 1);
}

#[test]
fn pipeline_takes_the_shader_of_the_definition() {
    let pipeline = ComputeShaderPipeline::new(Life::shader(), Life::entry_point()).unwrap();
    assert!(matches!(pipeline.shader, ShaderSource::Path(path) if path == "life.wgsl"));
    assert_eq!(pipeline.entry_point, "update");
    let loaded = ComputeShaderPipeline::new(ShaderRef::Handle(77), String::from("main")).unwrap();
    assert!(matches!(loaded.shader, ShaderSource::Handle(77)));
    assert_eq!(loaded.entry_point, "main");
}

#[test]
fn there_is_no_default_compute_shader() {
    assert!(ComputeShaderPipeline::new(ShaderRef::Default, String::from("main")).is_none());
}

#[test]
fn extract_hands_on_the_pairings() {
    let buffers = [binding(1, 10, 20), binding(2, 11, 20)];
    let out = cs_extract(&buffers, &[], no_shader, &[]);
    assert_eq!(out.bindings, buffers.to_vec());
    assert!(out.shaders.extracted.is_empty());
    assert!(out.shaders.removed.is_empty());
    assert!(!out.images.invalid.contains(10));
}

#[test]
fn extract_takes_created_and_modified_shaders() {
    let events = [
        AssetEvent::Created { handle: 20 },
        AssetEvent::Modified { handle: 21 },
        AssetEvent::Modified { handle: 20 },
    ];
    let out = cs_extract(&[], &events, |handle| Some(Life { seed: handle as u32 }), &[]);
    let mut extracted = out.shaders.extracted;
    extracted.sort_by_key(|(handle, _)| *handle);
    assert_eq!(extracted, vec![(20, Life { seed: 20 }), (21, Life { seed: 21 })]);
    assert!(out.shaders.removed.is_empty());
}

#[test]
fn extract_goes_by_the_last_event() {
    let events = [
        AssetEvent::Created { handle: 20 },
        AssetEvent::Removed { handle: 20 },
        AssetEvent::Removed { handle: 21 },
        AssetEvent::Created { handle: 21 },
        AssetEvent::Removed { handle: 22 },
        AssetEvent::Removed { handle: 20 },
    ];
    let out = cs_extract(&[], &events, |handle| Some(Life { seed: handle as u32 }), &[]);
    assert_eq!(out.shaders.extracted, vec![(21, Life { seed: 21 })]);
    assert_eq!(out.shaders.removed, vec![20, 21, 22, 20]);
}

#[test]
fn extract_leaves_out_shaders_that_are_gone() {
    let events = [AssetEvent::Created { handle: 20 }, AssetEvent::Created { handle: 21 }];
    let out = cs_extract(
        &[],
        &events,
        |handle| if handle == 21 { Some(Life { seed: 1 }) } else { None },
        &[],
    );
    assert_eq!(out.shaders.extracted, vec![(21, Life { seed: 1 })]);
}

#[test]
fn extract_invalidates_paired_images_only() {
    let buffers = [binding(1, 10, 20), binding(2, 11, 20)];
    let events = [
        AssetEvent::Modified { handle: 10 },
        AssetEvent::Created { handle: 12 },
        AssetEvent::Removed { handle: 11 },
        AssetEvent::Removed { handle: 13 },
    ];
    let out = cs_extract(&buffers, &[], no_shader, &events);
    assert!(out.images.invalid.contains(10));
    assert!(out.images.invalid.contains(11));
    assert!(!out.images.invalid.contains(12));
    assert!(!out.images.invalid.contains(13));
}

#[test]
fn prepare_images_prepares_what_is_ready() {
    let buffers = [binding(1, 10, 20), binding(2, 11, 20), binding(3, 10, 21)];
    let mut prepared = PreparedImages::default();
    prepare_images(
        &buffers,
        |handle| {
            if handle == 10 {
                Some(PreparedImage { texture_bind_group: 100, size: UVec2::new(64, 64) })
            } else {
                None
            }
        },
        &InvalidatedImages::default(),
        &mut prepared,
    );
    assert_eq!(
        prepared.get(10),
        Some(PreparedImage { texture_bind_group: 100, size: UVec2::new(64, 64) })
    );
    assert_eq!(prepared.get(11), None);
}

#[test]
fn prepare_images_keeps_what_is_prepared() {
    let buffers = [binding(1, 10, 20)];
    let mut prepared = PreparedImages::default();
    let first = |_: u64| Some(PreparedImage { texture_bind_group: 100, size: UVec2::new(64, 64) });
    let second = |_: u64| Some(PreparedImage { texture_bind_group: 200, size: UVec2::new(8, 8) });
    prepare_images(&buffers, first, &InvalidatedImages::default(), &mut prepared);
    prepare_images(&buffers, second, &InvalidatedImages::default(), &mut prepared);
    assert_eq!(
        prepared.get(10),
        Some(PreparedImage { texture_bind_group: 100, size: UVec2::new(64, 64) })
    );
}

#[test]
fn prepare_images_rebuilds_what_is_invalid() {
    let buffers = [binding(1, 10, 20), binding(2, 11, 20)];
    let mut prepared = PreparedImages::default();
    let first = |handle: u64| {
        Some(PreparedImage { texture_bind_group: 100 + handle, size: UVec2::new(64, 64) })
    };
    prepare_images(&buffers, first, &InvalidatedImages::default(), &mut prepared);
    // image 10 is resized
    let out = cs_extract(&buffers, &[], no_shader, &[AssetEvent::Modified { handle: 10 }]);
    let second = |handle: u64| {
        Some(PreparedImage { texture_bind_group: 200 + handle, size: UVec2::new(128, 128) })
    };
    prepare_images(&buffers, second, &out.images, &mut prepared);
    assert_eq!(
        prepared.get(10),
        Some(PreparedImage { texture_bind_group: 210, size: UVec2::new(128, 128) })
    );
    assert_eq!(
        prepared.get(11),
        Some(PreparedImage { texture_bind_group: 111, size: UVec2::new(64, 64) })
    );
}

#[test]
fn prepare_images_sweeps_what_is_not_paired() {
    let mut prepared = PreparedImages::default();
    let view = |handle: u64| {
        Some(PreparedImage { texture_bind_group: 100 + handle, size: UVec2::new(64, 64) })
    };
    prepare_images(
        &[binding(1, 10, 20), binding(2, 11, 20)],
        view,
        &InvalidatedImages::default(),
        &mut prepared,
    );
    assert!(prepared.get(10).is_some() && prepared.get(11).is_some());
    prepare_images(&[binding(2, 11, 20)], view, &InvalidatedImages::default(), &mut prepared);
    assert_eq!(prepared.get(10), None);
    assert!(prepared.get(11).is_some());
    prepare_images(&[], view, &InvalidatedImages::default(), &mut prepared);
    assert_eq!(prepared.get(11), None);
}

#[test]
fn removed_image_is_evicted_and_not_dispatched() {
    let buffers = [binding(1, 10, 20), binding(2, 11, 20)];
    let mut images = PreparedImages::default();
    let mut shaders = PreparedShaders::default();
    let mut next = PrepareNextFrameShaders::default();
    let mut extracted =
        ExtractedShaders { extracted: vec![(20, Life::default())], removed: vec![] };
    prepare_shaders(&mut next, &mut extracted, &mut shaders, |_: &Life| {
        Ok(PreparedShader { user_bind_group: 900 })
    });
    let ready = |handle: u64| {
        Some(PreparedImage { texture_bind_group: 100 + handle, size: UVec2::new(64, 32) })
    };
    prepare_images(&buffers, ready, &InvalidatedImages::default(), &mut images);
    assert_eq!(cs_queue_bind_group::<Life>(&buffers, &shaders, &images).len(), 2);

    // the asset of image 10 is removed: nothing can be bound for it any more
    let out = cs_extract(&buffers, &[], no_shader, &[AssetEvent::Removed { handle: 10 }]);
    let gone = |handle: u64| if handle == 10 { None } else { ready(handle) };
    prepare_images(&buffers, gone, &out.images, &mut images);
    assert_eq!(images.get(10), None);
    assert_eq!(
        cs_queue_bind_group::<Life>(&buffers, &shaders, &images),
        vec![ComputeShaderInfo {
            texture_bind_group: 111,
            user_bind_group: 900,
            workgroups: UVec2::new(8, 4),
        }]
    );
}

#[test]
fn prepare_shaders_enters_and_removes() {
    let mut shaders = PreparedShaders::default();
    let mut next = PrepareNextFrameShaders::default();
    let mut extracted = ExtractedShaders {
        extracted: vec![(20, Life { seed: 1 }), (21, Life { seed: 2 })],
        removed: vec![],
    };
    let prepare = |shader: &Life| Ok(PreparedShader { user_bind_group: 900 + shader.seed as u64 });
    prepare_shaders(&mut next, &mut extracted, &mut shaders, prepare);
    assert_eq!(shaders.get(20), Some(PreparedShader { user_bind_group: 901 }));
    assert_eq!(shaders.get(21), Some(PreparedShader { user_bind_group: 902 }));
    assert!(extracted.extracted.is_empty() && extracted.removed.is_empty());
    assert!(next.assets.is_empty());

    let mut removal = ExtractedShaders { extracted: vec![], removed: vec![20, 33] };
    prepare_shaders(&mut next, &mut removal, &mut shaders, prepare);
    assert_eq!(shaders.get(20), None);
    assert_eq!(shaders.get(21), Some(PreparedShader { user_bind_group: 902 }));
}

#[test]
fn prepare_shaders_removes_before_it_enters() {
    let mut shaders = PreparedShaders::default();
    let mut next = PrepareNextFrameShaders::default();
    let mut extracted =
        ExtractedShaders { extracted: vec![(20, Life { seed: 5 })], removed: vec![20] };
    prepare_shaders(&mut next, &mut extracted, &mut shaders, |shader: &Life| {
        Ok(PreparedShader { user_bind_group: shader.seed as u64 })
    });
    assert_eq!(shaders.get(20), Some(PreparedShader { user_bind_group: 5 }));
}

#[test]
fn prepare_shaders_retries_in_order() {
    let mut shaders = PreparedShaders::default();
    let mut next = PrepareNextFrameShaders::default();
    let not_ready = |_: &Life| Err(AsBindGroupError::RetryNextUpdate);
    let mut first = ExtractedShaders {
        extracted: vec![(20, Life { seed: 1 }), (21, Life { seed: 2 })],
        removed: vec![],
    };
    prepare_shaders(&mut next, &mut first, &mut shaders, not_ready);
    assert_eq!(next.assets, vec![(20, Life { seed: 1 }), (21, Life { seed: 2 })]);
    assert_eq!(shaders.get(20), None);

    // on the next frame the deferred shaders are tried before the new one,
    // and what fails again queues up in the same order
    let mut second = ExtractedShaders { extracted: vec![(22, Life { seed: 3 })], removed: vec![] };
    let odd_only = |shader: &Life| {
        if shader.seed % 2 == 1 {
            Ok(PreparedShader { user_bind_group: 900 + shader.seed as u64 })
        } else {
            Err(AsBindGroupError::RetryNextUpdate)
        }
    };
    prepare_shaders(&mut next, &mut second, &mut shaders, odd_only);
    assert_eq!(shaders.get(20), Some(PreparedShader { user_bind_group: 901 }));
    assert_eq!(shaders.get(21), None);
    assert_eq!(shaders.get(22), Some(PreparedShader { user_bind_group: 903 }));
    assert_eq!(next.assets, vec![(21, Life { seed: 2 })]);

    let mut third = ExtractedShaders { extracted: vec![(23, Life { seed: 4 })], removed: vec![] };
    prepare_shaders(&mut next, &mut third, &mut shaders, not_ready);
    assert_eq!(next.assets, vec![(21, Life { seed: 2 }), (23, Life { seed: 4 })]);
}

#[test]
fn prepare_shaders_removal_does_not_stop_a_retry() {
    let mut shaders = PreparedShaders::default();
    let mut next = PrepareNextFrameShaders { assets: vec![(20, Life { seed: 1 })] };
    let mut extracted = ExtractedShaders { extracted: vec![], removed: vec![20] };
    prepare_shaders(&mut next, &mut extracted, &mut shaders, |_: &Life| {
        Ok(PreparedShader { user_bind_group: 1 })
    });
    // the deferred shader is entered first, then the removal takes it out
    assert_eq!(shaders.get(20), None);
    assert!(next.assets.is_empty());
}

#[test]
fn queue_skips_what_is_not_ready() {
    let buffers =
        [binding(1, 10, 20), binding(2, 11, 20), binding(3, 10, 21), binding(4, 12, 22)];
    let mut images = PreparedImages::default();
    prepare_images(
        &buffers,
        |handle| match handle {
            10 => Some(PreparedImage { texture_bind_group: 100, size: UVec2::new(512, 512) }),
            12 => Some(PreparedImage { texture_bind_group: 120, size: UVec2::new(17, 8) }),
            _ => None,
        },
        &InvalidatedImages::default(),
        &mut images,
    );
    let mut shaders = PreparedShaders::default();
    let mut next = PrepareNextFrameShaders::default();
    let mut extracted = ExtractedShaders {
        extracted: vec![(20, Life { seed: 0 }), (22, Life { seed: 2 })],
        removed: vec![],
    };
    prepare_shaders(&mut next, &mut extracted, &mut shaders, |shader: &Life| {
        Ok(PreparedShader { user_bind_group: 900 + shader.seed as u64 })
    });
    let queue = cs_queue_bind_group::<Life>(&buffers, &shaders, &images);
    assert_eq!(
        queue,
        vec![
            ComputeShaderInfo {
                texture_bind_group: 100,
                user_bind_group: 900,
                workgroups: UVec2::new(64, 64),
            },
            ComputeShaderInfo {
                texture_bind_group: 120,
                user_bind_group: 902,
                workgroups: UVec2::new(2, 1),
            },
        ]
    );
}

#[test]
fn queue_of_nothing() {
    let queue =
        cs_queue_bind_group::<Life>(&[], &PreparedShaders::default(), &PreparedImages::default());
    assert!(queue.is_empty());
    let unready = cs_queue_bind_group::<Life>(
        &[binding(1, 10, 20)],
        &PreparedShaders::default(),
        &PreparedImages::default(),
    );
    assert!(unready.is_empty());
}

#[test]
fn node_starts_loading_and_stays_updating() {
    let mut node = ComputeShaderNode::default();
    assert_eq!(node.state, State::Loading);
    node.update(false);
    assert_eq!(node.state, State::Loading);
    node.update(true);
    assert_eq!(node.state, State::Update);
    node.update(false);
    assert_eq!(node.state, State::Update);
    node.update(true);
    assert_eq!(node.state, State::Update);
}

#[test]
fn loading_node_does_no_work() {
    let node = ComputeShaderNode::default();
    let queue = [ComputeShaderInfo {
        texture_bind_group: 1,
        user_bind_group: 2,
        workgroups: UVec2::new(3, 4),
    }];
    assert_eq!(node.run(&queue, true), None);
    assert_eq!(node.run(&queue, false), None);
}

#[test]
fn updating_node_dispatches_the_queue() {
    let node = ComputeShaderNode { state: State::Update };
    let queue = [
        ComputeShaderInfo { texture_bind_group: 1, user_bind_group: 2, workgroups: UVec2::new(3, 4) },
        ComputeShaderInfo { texture_bind_group: 5, user_bind_group: 6, workgroups: UVec2::new(7, 8) },
    ];
    assert_eq!(
        node.run(&queue, true),
        Some(vec![
            PassCommand::SetBindGroup { index: 0, bind_group: 1 },
            PassCommand::SetBindGroup { index: 1, bind_group: 2 },
            PassCommand::SetPipeline,
            PassCommand::DispatchWorkgroups { x: 3, y: 4, z: 1 },
            PassCommand::SetBindGroup { index: 0, bind_group: 5 },
            PassCommand::SetBindGroup { index: 1, bind_group: 6 },
            PassCommand::SetPipeline,
            PassCommand::DispatchWorkgroups { x: 7, y: 8, z: 1 },
        ])
    );
    assert_eq!(node.run(&[], true), Some(vec![]));
}

#[test]
fn missing_pipeline_skips_the_dispatch() {
    let node = ComputeShaderNode { state: State::Update };
    let queue = [ComputeShaderInfo {
        texture_bind_group: 1,
        user_bind_group: 2,
        workgroups: UVec2::new(3, 4),
    }];
    assert_eq!(
        node.run(&queue, false),
        Some(vec![
            PassCommand::SetBindGroup { index: 0, bind_group: 1 },
            PassCommand::SetBindGroup { index: 1, bind_group: 2 },
        ])
    );
}

#[test]
fn extracted_handles_come_once_each() {
    let events: Vec<AssetEvent> = (0u64..50)
        .flat_map(|handle| {
            [AssetEvent::Created { handle }, AssetEvent::Modified { handle: handle / 2 }]
        })
        .collect();
    let out = cs_extract(&[], &events, |handle| Some(Life { seed: handle as u32 }), &[]);
    let handles: Vec<u64> = out.shaders.extracted.iter().map(|(handle, _)| *handle).collect();
    assert_eq!(sorted(handles), (0u64..50).collect::<Vec<u64>>());
}
