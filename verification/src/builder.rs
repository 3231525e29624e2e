//! Utilities for constructing pixel buffers.
//!
//! A [PixelBufferBuilder] holds the configuration of a pixel buffer and
//! works out what has to be spawned for it.

use vstd::prelude::*;
use crate::frame::converts;
use crate::image::{addressable, blank, Image, ImageSampler, TextureUsages};
use crate::pixel_buffer::{create_image, CreateImageParams, Fill, PixelBuffer, PixelBufferSize, Sprite};

verus! {

/// Render setup configuration
#[derive(Clone, Copy, Debug, PartialEq, Eq, Structural)]
pub enum RenderConfig {
    /// Set up a sprite and an optional 2D camera
    Sprite {
        /// Spawn a 2D camera
        spawn_camera: bool,
        /// Custom sprite bundle parameters.
        sprite_bundle: CustomSpriteBundle,
    },
}

/// Customisable params for the sprite bundle that will be rendered by
/// [RenderConfig].
#[derive(Clone, Copy, Debug, PartialEq, Eq, Structural)]
pub struct CustomSpriteBundle {
    /// Parameters of the sprite itself
    pub sprite: CustomSprite,
}

/// Customisable params for the sprite that will be rendered by
/// [RenderConfig]. The size of the sprite is not among them: it follows the
/// pixel buffer.
#[derive(Clone, Copy, Debug, PartialEq, Eq, Structural)]
pub struct CustomSprite {
    /// Flip the sprite along the X axis
    pub flip_x: bool,
    /// Flip the sprite along the Y axis
    pub flip_y: bool,
}

impl Default for CustomSprite {
    fn default() -> (sprite: CustomSprite)
        ensures
            sprite == (CustomSprite { flip_x: false, flip_y: false }),
    {
        CustomSprite { flip_x: false, flip_y: false }
    }
}

impl Default for CustomSpriteBundle {
    fn default() -> (bundle: CustomSpriteBundle)
        ensures
            bundle == CustomSpriteBundle::plain(),
    {
        CustomSpriteBundle { sprite: CustomSprite { flip_x: false, flip_y: false } }
    }
}

impl CustomSpriteBundle {
    /// The sprite bundle without any customisation.
    pub open spec fn plain() -> CustomSpriteBundle {
        CustomSpriteBundle { sprite: CustomSprite { flip_x: false, flip_y: false } }
    }
}

impl Default for RenderConfig {
    fn default() -> (config: RenderConfig)
        ensures
            config == (RenderConfig::Sprite {
                spawn_camera: false,
                sprite_bundle: CustomSpriteBundle::plain(),
            }),
    {
        RenderConfig::sprite()
    }
}

impl RenderConfig {
    /// Set up a 2D camera and a sprite
    pub fn sprite_and_camera() -> (config: RenderConfig)
        ensures
            config == (RenderConfig::Sprite {
                spawn_camera: true,
                sprite_bundle: CustomSpriteBundle::plain(),
            }),
    {
        RenderConfig::Sprite {
            spawn_camera: true,
            sprite_bundle: CustomSpriteBundle { sprite: CustomSprite { flip_x: false, flip_y: false } },
        }
    }

    /// Set up the sprite.
    ///
    /// A camera also needs to be spawned to see the sprite.
    pub fn sprite() -> (config: RenderConfig)
        ensures
            config == (RenderConfig::Sprite {
                spawn_camera: false,
                sprite_bundle: CustomSpriteBundle::plain(),
            }),
    {
        RenderConfig::Sprite {
            spawn_camera: false,
            sprite_bundle: CustomSpriteBundle { sprite: CustomSprite { flip_x: false, flip_y: false } },
        }
    }
}

/// Helper type to allow easy [RenderConfig] conversions inside the
/// [PixelBufferBuilder].
///
/// It only wraps an `Option<RenderConfig>`.
///
/// From a [RenderConfig] value, it will wrap it in `Some`.
///
/// From [bool]:
/// - `true` is a "full" render setup
/// - `false` is no render at all
#[derive(Clone, Copy, Debug, PartialEq, Eq, Structural)]
pub struct RenderConfigBuilder(pub Option<RenderConfig>);

impl RenderConfigBuilder {
    /// The complete render setup: a sprite and a 2D camera.
    pub open spec fn full() -> RenderConfigBuilder {
        RenderConfigBuilder(
            Some(
                RenderConfig::Sprite {
                    spawn_camera: true,
                    sprite_bundle: CustomSpriteBundle::plain(),
                },
            ),
        )
    }
}

impl Default for RenderConfigBuilder {
    fn default() -> (builder: RenderConfigBuilder)
        ensures
            builder == RenderConfigBuilder::full(),
    {
        RenderConfigBuilder(Some(RenderConfig::sprite_and_camera()))
    }
}

impl From<bool> for RenderConfigBuilder {
    fn from(v: bool) -> (builder: RenderConfigBuilder) {
        RenderConfigBuilder(
            if v {
                Some(RenderConfig::sprite_and_camera())
            } else {
                None
            },
        )
    }
}

impl vstd::std_specs::convert::FromSpecImpl<bool> for RenderConfigBuilder {
    open spec fn obeys_from_spec() -> bool {
        true
    }

    open spec fn from_spec(v: bool) -> RenderConfigBuilder {
        if v {
            RenderConfigBuilder::full()
        } else {
            RenderConfigBuilder(None)
        }
    }
}

impl From<Option<RenderConfig>> for RenderConfigBuilder {
    fn from(v: Option<RenderConfig>) -> (builder: RenderConfigBuilder) {
        RenderConfigBuilder(v)
    }
}

impl vstd::std_specs::convert::FromSpecImpl<Option<RenderConfig>> for RenderConfigBuilder {
    open spec fn obeys_from_spec() -> bool {
        true
    }

    open spec fn from_spec(v: Option<RenderConfig>) -> RenderConfigBuilder {
        RenderConfigBuilder(v)
    }
}

impl From<RenderConfig> for RenderConfigBuilder {
    fn from(v: RenderConfig) -> (builder: RenderConfigBuilder) {
        RenderConfigBuilder(Some(v))
    }
}

impl vstd::std_specs::convert::FromSpecImpl<RenderConfig> for RenderConfigBuilder {
    open spec fn obeys_from_spec() -> bool {
        true
    }

    open spec fn from_spec(v: RenderConfig) -> RenderConfigBuilder {
        RenderConfigBuilder(Some(v))
    }
}

/// Helper type to create pixel buffers.
#[derive(Clone, Copy, Debug, PartialEq, Eq, Structural)]
pub struct PixelBufferBuilder {
    /// Custom size
    pub size: PixelBufferSize,
    /// Fill behaviour
    pub fill: Fill,
    /// Set up rendering
    pub render: Option<RenderConfig>,
}

impl Default for PixelBufferBuilder {
    fn default() -> (builder: PixelBufferBuilder)
        ensures
            builder == PixelBufferBuilder::initial(),
    {
        PixelBufferBuilder {
            size: PixelBufferSize::new(),
            fill: Fill::none(),
            render: Some(RenderConfig::sprite_and_camera()),
        }
    }
}

/// What has to be spawned for a pixel buffer.
#[derive(Debug)]
pub struct PixelBufferParts {
    /// The image to add to the image assets. The entity gets its handle.
    pub image: Image,
    /// Whether a 2D camera has to be spawned
    pub spawn_camera: bool,
    /// The sprite to attach to the entity, with the image as its texture,
    /// if the buffer is rendered
    pub sprite: Option<Sprite>,
    /// The pixel buffer component to attach to the entity
    pub pixel_buffer: PixelBuffer,
}

impl PixelBufferBuilder {
    /// The builder before any customisation: the default size, fill
    /// disabled, and a complete render setup.
    pub open spec fn initial() -> PixelBufferBuilder {
        PixelBufferBuilder {
            size: PixelBufferSize::initial(),
            fill: Fill::disabled(),
            render: RenderConfigBuilder::full().0,
        }
    }

    /// Whether a buffer can be created from the builder: the size has no
    /// zero axis and its image can be held, and if it is rendered its size
    /// on screen fits 32-bit components.
    pub open spec fn buildable(self) -> bool {
        &&& !self.size.size.has_zero_axis()
        &&& addressable(self.size.size)
        &&& self.render is Some ==> self.size.screen_fits()
    }

    /// Creates a new builder. All fields are initialized with their
    /// respective default value except render that defaults to a complete
    /// renderer setup with a 2D camera and a sprite.
    pub fn new() -> (builder: PixelBufferBuilder)
        ensures
            builder == PixelBufferBuilder::initial(),
    {
        PixelBufferBuilder {
            size: PixelBufferSize::new(),
            fill: Fill::none(),
            render: Some(RenderConfig::sprite_and_camera()),
        }
    }

    /// Use a custom size for the buffer. The size can be given in many
    /// ways, as it's exemplified in [PixelBufferSize].
    pub fn with_size<T: Into<PixelBufferSize>>(self, size: T) -> (builder: PixelBufferBuilder)
        ensures
            converts(size, builder.size),
            builder.fill == self.fill,
            builder.render == self.render,
    {
        let mut builder = self;
        builder.size = size.into();
        builder
    }

    /// Set the [Fill] mode.
    pub fn with_fill<T: Into<Fill>>(self, fill: T) -> (builder: PixelBufferBuilder)
        ensures
            converts(fill, builder.fill),
            builder.size == self.size,
            builder.render == self.render,
    {
        let mut builder = self;
        builder.fill = fill.into();
        builder
    }

    /// Set wether and how to render the pixel buffer.
    ///
    /// The type [RenderConfigBuilder] allows for some ergnomics to build
    /// the [RenderConfig].
    pub fn with_render<T: Into<RenderConfigBuilder>>(self, render: T) -> (builder:
        PixelBufferBuilder)
        ensures
            converts(render, RenderConfigBuilder(builder.render)),
            builder.size == self.size,
            builder.fill == self.fill,
    {
        let mut builder = self;
        let config: RenderConfigBuilder = render.into();
        builder.render = config.0;
        builder
    }

    /// Works out what has to be spawned for a pixel buffer with the
    /// builder's configuration.
    pub fn build(self) -> (parts: PixelBufferParts)
        requires
            self.buildable(),
        ensures
            creates(self.size, self.fill, self.render, parts),
    {
        create_pixel_buffer(self.size, self.fill, self.render)
    }
}

/// The sprite that a render configuration asks for, for a buffer of a given
/// size: its custom size is the size of the buffer on screen.
pub open spec fn sprite_for(size: PixelBufferSize, render: Option<RenderConfig>) -> Option<Sprite>
    recommends
        size.screen_fits(),
{
    match render {
        Some(RenderConfig::Sprite { spawn_camera, sprite_bundle }) => Some(
            Sprite {
                custom_size: Some(
                    crate::math::UVec2 {
                        x: size.screen_extent().0 as u32,
                        y: size.screen_extent().1 as u32,
                    },
                ),
                flip_x: sprite_bundle.sprite.flip_x,
                flip_y: sprite_bundle.sprite.flip_y,
            },
        ),
        None => None,
    }
}

/// Whether `parts` is what has to be spawned for a pixel buffer of the
/// given configuration: a blank image of the size of the buffer, with the
/// usages of a pixel buffer and the nearest sampler; a camera where the
/// render configuration asks for one; the sprite of the render
/// configuration; and the pixel buffer component.
pub open spec fn creates(
    size: PixelBufferSize,
    fill: Fill,
    render: Option<RenderConfig>,
    parts: PixelBufferParts,
) -> bool {
    &&& parts.image.wf()
    &&& parts.image.size == size.size
    &&& parts.image@ == blank(size.size)
    &&& parts.image.label is None
    &&& parts.image.usage == TextureUsages::required()
    &&& parts.image.sampler_descriptor == ImageSampler::Nearest
    &&& parts.spawn_camera == (render matches Some(
        RenderConfig::Sprite { spawn_camera: true, .. },
    ))
    &&& parts.sprite == sprite_for(size, render)
    &&& parts.pixel_buffer == (PixelBuffer { size, fill })
}

/// Works out what has to be spawned for a pixel buffer. The size must not
/// have a zero axis.
pub fn create_pixel_buffer(size: PixelBufferSize, fill: Fill, render: Option<RenderConfig>) -> (parts:
    PixelBufferParts)
    requires
        !size.size.has_zero_axis(),
        addressable(size.size),
        render is Some ==> size.screen_fits(),
    ensures
        creates(size, fill, render, parts),
{
    let image = create_image(CreateImageParams::from(size.size));

    let mut camera = false;
    let mut sprite: Option<Sprite> = None;
    if let Some(render) = render {
        match render {
            RenderConfig::Sprite { spawn_camera, sprite_bundle } => {
                // Spawn a 2D camera if needed
                camera = spawn_camera;

                // Add a sprite with the image as texture
                sprite =
                Some(
                    Sprite {
                        custom_size: Some(size.screen_size()),
                        flip_x: sprite_bundle.sprite.flip_x,
                        flip_y: sprite_bundle.sprite.flip_y,
                    },
                );
            },
        }
    }

    PixelBufferParts { image, spawn_camera: camera, sprite, pixel_buffer: PixelBuffer { size, fill } }
}

} // verus!
