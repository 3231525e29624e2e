use bevy_pixel_buffer::builder::{
    create_pixel_buffer, CustomSprite, CustomSpriteBundle, PixelBufferBuilder, RenderConfig,
    RenderConfigBuilder,
};
use bevy_pixel_buffer::image::{ImageSampler, TextureUsages};
use bevy_pixel_buffer::math::UVec2;
use bevy_pixel_buffer::pixel::Pixel;
use bevy_pixel_buffer::pixel_buffer::{Fill, FillKind, PixelBuffer, PixelBufferSize, Sprite};

#[test]
fn render_config_constructors() {
    assert_eq!(
        RenderConfig::sprite_and_camera(),
        RenderConfig::Sprite { spawn_camera: true, sprite_bundle: CustomSpriteBundle::default() }
    );
    assert_eq!(
        RenderConfig::sprite(),
        RenderConfig::Sprite { spawn_camera: false, sprite_bundle: CustomSpriteBundle::default() }
    );
    assert_eq!(RenderConfig::default(), RenderConfig::sprite());
    assert_eq!(CustomSprite::default(), CustomSprite { flip_x: false, flip_y: false });
}

#[test]
fn render_config_builder_conversions() {
    assert_eq!(RenderConfigBuilder::default().0, Some(RenderConfig::sprite_and_camera()));
    assert_eq!(RenderConfigBuilder::from(true).0, Some(RenderConfig::sprite_and_camera()));
    assert_eq!(RenderConfigBuilder::from(false).0, None);
    assert_eq!(RenderConfigBuilder::from(RenderConfig::sprite()).0, Some(RenderConfig::sprite()));
    assert_eq!(RenderConfigBuilder::from(None).0, None);
    assert_eq!(
        RenderConfigBuilder::from(Some(RenderConfig::sprite())).0,
        Some(RenderConfig::sprite())
    );
}

#[test]
fn builder_defaults() {
    let builder = PixelBufferBuilder::new();
    assert_eq!(builder.size, PixelBufferSize::new());
    assert_eq!(builder.fill, Fill::none());
    assert_eq!(builder.render, Some(RenderConfig::sprite_and_camera()));
    assert_eq!(PixelBufferBuilder::default(), builder);
}

#[test]
fn builder_setters() {
    let builder = PixelBufferBuilder::new()
        .with_size((400u32, 200u32))
        .with_fill(FillKind::Window)
        .with_render(false);
    assert_eq!(builder.size.size, UVec2::new(400, 200));
    assert_eq!(builder.size.pixel_size, UVec2::new(1, 1));
    assert_eq!(builder.fill, Fill::window());
    assert_eq!(builder.render, None);
    let other = PixelBufferBuilder::new()
        .with_size(((8u32, 8u32), (16u32, 16u32)))
        .with_fill(Fill::custom((64u32, 64u32)).with_stretch(true))
        .with_render(RenderConfig::sprite());
    assert_eq!(other.size, PixelBufferSize { size: UVec2::new(8, 8), pixel_size: UVec2::new(16, 16) });
    assert_eq!(other.fill.kind, FillKind::Custom(UVec2::new(64, 64)));
    assert!(other.fill.stretch);
    assert_eq!(other.render, Some(RenderConfig::sprite()));
}

#[test]
fn build_with_the_full_render_setup() {
    let parts = PixelBufferBuilder::new().with_size(((400u32, 200u32), (2u32, 3u32))).build();
    assert_eq!(parts.image.size(), UVec2::new(400, 200));
    assert_eq!(parts.image.data.len(), 400 * 200);
    assert!(parts.image.data.iter().all(|p| *p == Pixel::transparent()));
    assert_eq!(parts.image.usage, TextureUsages::pixel_buffer());
    assert_eq!(parts.image.sampler_descriptor, ImageSampler::Nearest);
    assert_eq!(parts.image.label, None);
    assert!(parts.spawn_camera);
    assert_eq!(
        parts.sprite,
        Some(Sprite { custom_size: Some(UVec2::new(800, 600)), flip_x: false, flip_y: false })
    );
    assert_eq!(
        parts.pixel_buffer,
        PixelBuffer {
            size: PixelBufferSize { size: UVec2::new(400, 200), pixel_size: UVec2::new(2, 3) },
            fill: Fill::none(),
        }
    );
}

#[test]
fn build_without_render() {
    let parts = PixelBufferBuilder::new().with_render(false).with_fill(Fill::window()).build();
    assert_eq!(parts.image.size(), UVec2::new(32, 32));
    assert!(!parts.spawn_camera);
    assert_eq!(parts.sprite, None);
    assert_eq!(parts.pixel_buffer.fill, Fill::window());
}

#[test]
fn build_with_a_custom_sprite() {
    let render = RenderConfig::Sprite {
        spawn_camera: false,
        sprite_bundle: CustomSpriteBundle { sprite: CustomSprite { flip_x: true, flip_y: false } },
    };
    let parts = create_pixel_buffer(PixelBufferSize::size((10u32, 10u32)), Fill::none(), Some(render));
    assert!(!parts.spawn_camera);
    assert_eq!(
        parts.sprite,
        Some(Sprite { custom_size: Some(UVec2::new(10, 10)), flip_x: true, flip_y: false })
    );
}
