//! The pixel buffer, its size and fill policy, and the three phases that
//! keep its size, its image and its sprite in step on every tick.

use vstd::prelude::*;
use crate::frame::converts;
use crate::image::{addressable, blank, blank_pixels, Image, ImageSampler, TextureUsages};
use crate::math::UVec2;

verus! {

/// Component defining a pixel buffer.
///
/// An image is also needed for most operations, but can be added later.
#[derive(Clone, Copy, Debug, PartialEq, Eq, Structural)]
pub struct PixelBuffer {
    /// Size of the pixel buffer
    pub size: PixelBufferSize,
    /// Fill mode
    pub fill: Fill,
}

/// Size of a pixel buffer.
#[derive(Clone, Copy, Debug, PartialEq, Eq, Structural)]
pub struct PixelBufferSize {
    /// Number of (editable) pixels in each dimension.
    pub size: UVec2,
    /// Number of physical pixels each editable pixel takes up in the screen.
    pub pixel_size: UVec2,
}

/// Fill behaviour of the pixel buffer, resizing it automatically
#[derive(Clone, Copy, Debug, PartialEq, Eq, Structural)]
pub struct Fill {
    /// What to fill
    pub kind: FillKind,
    /// Whether the sprite is stretched over the whole fill area
    pub stretch: bool,
    /// The size of the buffer is kept a multiple of this value
    pub multiple: u32,
}

/// What to fill
#[derive(Clone, Copy, Debug, PartialEq, Eq, Structural)]
pub enum FillKind {
    /// Fill disabled
    Disabled,
    /// Fill a window
    Window,
    /// Fill a custom size, in whole screen pixels
    Custom(UVec2),
}

impl Default for PixelBuffer {
    fn default() -> (pb: PixelBuffer)
        ensures
            pb.size == PixelBufferSize::initial(),
            pb.fill == Fill::disabled(),
    {
        PixelBuffer { size: PixelBufferSize::new(), fill: Fill::none() }
    }
}

impl Default for Fill {
    fn default() -> (fill: Fill)
        ensures
            fill == Fill::disabled(),
    {
        Fill { kind: FillKind::Disabled, stretch: false, multiple: 1 }
    }
}

impl Fill {
    /// The fill that does nothing: no area, no stretching, no constraint
    /// on the size.
    pub open spec fn disabled() -> Fill {
        Fill { kind: FillKind::Disabled, stretch: false, multiple: 1 }
    }

    /// Fill disabled
    pub fn none() -> (fill: Fill)
        ensures
            fill == Fill::disabled(),
    {
        Fill { kind: FillKind::Disabled, stretch: false, multiple: 1 }
    }

    /// Fill the primary window
    pub fn window() -> (fill: Fill)
        ensures
            fill == (Fill { kind: FillKind::Window, ..Fill::disabled() }),
    {
        Fill { kind: FillKind::Window, stretch: false, multiple: 1 }
    }

    /// Fill a custom size
    pub fn custom<T: Into<UVec2>>(s: T) -> (fill: Fill)
        ensures
            fill.kind is Custom,
            converts(s, fill.kind->Custom_0),
            fill.stretch == false,
            fill.multiple == 1,
    {
        Fill { kind: FillKind::Custom(s.into()), stretch: false, multiple: 1 }
    }

    /// Wether to stretch the rendering sprite to fill the area
    pub fn with_stretch(self, stretch: bool) -> (fill: Fill)
        ensures
            fill == (Fill { stretch, ..self }),
    {
        let mut fill = self;
        fill.stretch = stretch;
        fill
    }

    /// Keep the size of the buffer a multiple of a value.
    ///
    /// Usefull for compute shaders, whose workgroups cover the texture in
    /// blocks.
    pub fn with_scaling_multiple(self, multiple: u32) -> (fill: Fill)
        ensures
            fill == (Fill { multiple, ..self }),
    {
        let mut fill = self;
        fill.multiple = multiple;
        fill
    }
}

impl From<FillKind> for Fill {
    fn from(f: FillKind) -> (fill: Fill) {
        Fill { kind: f, stretch: false, multiple: 1 }
    }
}

impl vstd::std_specs::convert::FromSpecImpl<FillKind> for Fill {
    open spec fn obeys_from_spec() -> bool {
        true
    }

    open spec fn from_spec(f: FillKind) -> Fill {
        Fill { kind: f, ..Fill::disabled() }
    }
}

impl From<(u32, u32)> for PixelBufferSize {
    fn from(v: (u32, u32)) -> (size: PixelBufferSize) {
        PixelBufferSize { size: UVec2 { x: v.0, y: v.1 }, pixel_size: UVec2 { x: 1, y: 1 } }
    }
}

impl vstd::std_specs::convert::FromSpecImpl<(u32, u32)> for PixelBufferSize {
    open spec fn obeys_from_spec() -> bool {
        true
    }

    open spec fn from_spec(v: (u32, u32)) -> PixelBufferSize {
        PixelBufferSize { size: UVec2 { x: v.0, y: v.1 }, ..PixelBufferSize::initial() }
    }
}

impl From<((u32, u32), (u32, u32))> for PixelBufferSize {
    fn from(v: ((u32, u32), (u32, u32))) -> (size: PixelBufferSize) {
        let (size, pixel_size) = v;
        PixelBufferSize {
            size: UVec2 { x: size.0, y: size.1 },
            pixel_size: UVec2 { x: pixel_size.0, y: pixel_size.1 },
        }
    }
}

impl vstd::std_specs::convert::FromSpecImpl<((u32, u32), (u32, u32))> for PixelBufferSize {
    open spec fn obeys_from_spec() -> bool {
        true
    }

    open spec fn from_spec(v: ((u32, u32), (u32, u32))) -> PixelBufferSize {
        PixelBufferSize {
            size: UVec2 { x: v.0.0, y: v.0.1 },
            pixel_size: UVec2 { x: v.1.0, y: v.1.1 },
        }
    }
}

impl PixelBufferSize {
    /// The size a buffer has when none is given: `32x32` pixels, each
    /// `1x1` on screen.
    pub open spec fn initial() -> PixelBufferSize {
        PixelBufferSize { size: UVec2 { x: 32, y: 32 }, pixel_size: UVec2 { x: 1, y: 1 } }
    }

    /// New default size.
    ///
    /// - size: `32x32`
    /// - pixel_size: `1x1`
    pub fn new() -> (size: PixelBufferSize)
        ensures
            size == PixelBufferSize::initial(),
    {
        PixelBufferSize { size: UVec2 { x: 32, y: 32 }, pixel_size: UVec2 { x: 1, y: 1 } }
    }

    /// New with a custom size but default pixel_size
    pub fn size<T: Into<UVec2>>(size: T) -> (r: PixelBufferSize)
        ensures
            converts(size, r.size),
            r.pixel_size == PixelBufferSize::initial().pixel_size,
    {
        PixelBufferSize { size: size.into(), pixel_size: UVec2 { x: 1, y: 1 } }
    }

    /// New with a custom pixel_size but default size.
    ///
    /// Usefull combined with [Fill] as the size will be dynamically changed.
    pub fn pixel_size<T: Into<UVec2>>(pixel_size: T) -> (r: PixelBufferSize)
        ensures
            converts(pixel_size, r.pixel_size),
            r.size == PixelBufferSize::initial().size,
    {
        PixelBufferSize { size: UVec2 { x: 32, y: 32 }, pixel_size: pixel_size.into() }
    }

    /// Whether neither the size nor the pixel size has a zero axis.
    pub open spec fn is_valid(&self) -> bool {
        !self.size.has_zero_axis() && !self.pixel_size.has_zero_axis()
    }

    /// How many physical pixels are necessary to draw the buffer, as
    /// unbounded integers.
    pub open spec fn screen_extent(&self) -> (int, int) {
        (self.size.x * self.pixel_size.x, self.size.y * self.pixel_size.y)
    }

    /// Whether the screen size fits 32-bit components.
    pub open spec fn screen_fits(&self) -> bool {
        self.screen_extent().0 <= u32::MAX && self.screen_extent().1 <= u32::MAX
    }

    /// Returns how many physical pixels are necessary to draw the buffer.
    pub fn screen_size(&self) -> (screen: UVec2)
        requires
            self.screen_fits(),
        ensures
            screen.x == self.size.x * self.pixel_size.x,
            screen.y == self.size.y * self.pixel_size.y,
    {
        UVec2 { x: self.size.x * self.pixel_size.x, y: self.size.y * self.pixel_size.y }
    }

    /// The screen size, or nothing where it does not fit 32-bit components.
    pub fn checked_screen_size(&self) -> (screen: Option<UVec2>)
        ensures
            screen is Some <==> self.screen_fits(),
            screen matches Some(s) ==> s.x == self.size.x * self.pixel_size.x && s.y
                == self.size.y * self.pixel_size.y,
    {
        let width: u64 = UVec2 { x: self.size.x, y: self.pixel_size.x }.area();
        let height: u64 = UVec2 { x: self.size.y, y: self.pixel_size.y }.area();
        if width <= u32::MAX as u64 && height <= u32::MAX as u64 {
            Some(UVec2 { x: width as u32, y: height as u32 })
        } else {
            None
        }
    }
}

impl Default for PixelBufferSize {
    fn default() -> (size: PixelBufferSize)
        ensures
            size == PixelBufferSize::initial(),
    {
        PixelBufferSize::new()
    }
}

/// Parameters for [create_image].
pub struct CreateImageParams {
    /// Size of the image
    pub size: UVec2,
    /// Debug label
    pub label: Option<&'static str>,
    /// Texture usages
    ///
    /// Has to include the usages of [TextureUsages::pixel_buffer].
    pub usage: TextureUsages,
    /// Texture sampler
    ///
    /// For pixelated images the sensible sampler is [ImageSampler::nearest()].
    pub sampler_descriptor: ImageSampler,
}

impl Default for CreateImageParams {
    fn default() -> (params: CreateImageParams)
        ensures
            params.size == (UVec2 { x: 32, y: 32 }),
            params.label is None,
            params.usage == TextureUsages::required(),
            params.sampler_descriptor == ImageSampler::Nearest,
    {
        CreateImageParams {
            size: UVec2 { x: 32, y: 32 },
            label: None,
            usage: TextureUsages::pixel_buffer(),
            sampler_descriptor: ImageSampler::nearest(),
        }
    }
}

impl From<UVec2> for CreateImageParams {
    fn from(size: UVec2) -> (params: CreateImageParams) {
        CreateImageParams {
            size,
            label: None,
            usage: TextureUsages::pixel_buffer(),
            sampler_descriptor: ImageSampler::nearest(),
        }
    }
}

impl vstd::std_specs::convert::FromSpecImpl<UVec2> for CreateImageParams {
    open spec fn obeys_from_spec() -> bool {
        true
    }

    open spec fn from_spec(size: UVec2) -> CreateImageParams {
        CreateImageParams {
            size,
            label: None,
            usage: TextureUsages::required(),
            sampler_descriptor: ImageSampler::Nearest,
        }
    }
}

/// Creates a compatible [Image] with the pixel buffer.
///
/// Every pixel of the image is transparent.
///
/// The size has to be non-zero in both dimensions, and the usages have to
/// include those of [TextureUsages::pixel_buffer].
pub fn create_image(params: CreateImageParams) -> (image: Image)
    requires
        params.size.x != 0,
        params.size.y != 0,
        params.usage.includes(TextureUsages::required()),
        addressable(params.size),
    ensures
        image.wf(),
        image.size == params.size,
        image.label == params.label,
        image.usage == params.usage,
        image.sampler_descriptor == params.sampler_descriptor,
        image@ == blank(params.size),
{
    let CreateImageParams { size, label, usage, sampler_descriptor } = params;
    Image { label, size, usage, sampler_descriptor, data: blank_pixels(size) }
}

/// What the renderer draws for a pixel buffer: a textured quad.
#[derive(Clone, Copy, Debug, PartialEq, Eq, Structural)]
pub struct Sprite {
    /// Size of the quad on screen. `None` draws it at the size of its image.
    pub custom_size: Option<UVec2>,
    /// Flip the sprite along the X axis
    pub flip_x: bool,
    /// Flip the sprite along the Y axis
    pub flip_y: bool,
}

/// The area that a buffer has to fill: none when fill is disabled, the
/// size of the window when it fills the window and there is one, the custom
/// size otherwise.
pub open spec fn fill_area(pb: PixelBuffer, window: Option<UVec2>) -> Option<UVec2> {
    match pb.fill.kind {
        FillKind::Disabled => None,
        FillKind::Window => window,
        FillKind::Custom(custom_size) => Some(custom_size),
    }
}

/// How many pixels that take `pixel_size` on screen fit in `available`,
/// rounded down to a multiple of `multiple`.
pub open spec fn fitting(available: u32, pixel_size: u32, multiple: u32) -> int
    recommends
        pixel_size != 0,
        multiple != 0,
{
    ((available as int / pixel_size as int) / multiple as int) * multiple as int
}

/// The size of a buffer after the fill phase: the number of pixels that
/// fit in the fill area, each axis rounded down to a multiple of
/// `fill.multiple`. The size stays what it is when there is no fill area, or
/// when the pixel size has a zero axis or the multiple is zero, so that
/// nothing can be fitted.
pub open spec fn filled_size(pb: PixelBuffer, window: Option<UVec2>) -> UVec2 {
    match fill_area(pb, window) {
        Some(area) if !pb.size.pixel_size.has_zero_axis() && pb.fill.multiple != 0 => UVec2 {
            x: fitting(area.x, pb.size.pixel_size.x, pb.fill.multiple) as u32,
            y: fitting(area.y, pb.size.pixel_size.y, pb.fill.multiple) as u32,
        },
        _ => pb.size.size,
    }
}

/// The size that the resize phase gives the image of a buffer, if it gives
/// it one: the size of the buffer, unless that size or the pixel size has a
/// zero axis, or the image has that size already.
pub open spec fn resize_goal(pb: PixelBuffer, current: UVec2) -> Option<UVec2> {
    if !pb.size.is_valid() || pb.size.size == current {
        None
    } else {
        Some(pb.size.size)
    }
}

/// Whether the sprite of a buffer is stretched over a fill area.
pub open spec fn stretches(pb: PixelBuffer, window: Option<UVec2>) -> bool {
    pb.fill.stretch && fill_area(pb, window) is Some
}

/// The on-screen size that the sprite of a buffer should have: the fill
/// area where the sprite stretches over one, the screen size otherwise.
pub open spec fn sprite_goal(pb: PixelBuffer, window: Option<UVec2>) -> (int, int) {
    if stretches(pb, window) {
        (fill_area(pb, window).unwrap().x as int, fill_area(pb, window).unwrap().y as int)
    } else {
        pb.size.screen_extent()
    }
}

/// The area that a buffer has to fill, if any. `window` is the size of the
/// primary window, where there is one.
pub fn get_fill_area(pb: &PixelBuffer, window: Option<UVec2>) -> (area: Option<UVec2>)
    ensures
        area == fill_area(*pb, window),
{
    match pb.fill.kind {
        FillKind::Disabled => None,
        FillKind::Window => window,
        FillKind::Custom(custom_size) => Some(custom_size),
    }
}

/// Fill phase: changes the size of the pixel buffer to match the fill.
/// Returns whether the size changed.
pub fn fill(pb: &mut PixelBuffer, window: Option<UVec2>) -> (changed: bool)
    ensures
        final(pb).size.size == filled_size(*old(pb), window),
        final(pb).size.pixel_size == old(pb).size.pixel_size,
        final(pb).fill == old(pb).fill,
        changed == (final(pb).size.size != old(pb).size.size),
{
    if let Some(fill_area) = get_fill_area(pb, window) {
        let pixel_size = pb.size.pixel_size;
        let multiple = pb.fill.multiple;
        if pixel_size.x == 0 || pixel_size.y == 0 || multiple == 0 {
            return false;
        }
        let columns: u32 = fill_area.x / pixel_size.x;
        let rows: u32 = fill_area.y / pixel_size.y;
        proof {
            lemma_round_down(columns as int, multiple as int);
            lemma_round_down(rows as int, multiple as int);
        }
        // Truncate to the fill multiple
        let new_buffer_size = UVec2 {
            x: (columns / multiple) * multiple,
            y: (rows / multiple) * multiple,
        };
        if new_buffer_size != pb.size.size {
            pb.size.size = new_buffer_size;
            return true;
        }
    }
    false
}

/// Rounding down to a multiple gives a multiple that is at most the number
/// and less than one multiple below it.
pub proof fn lemma_round_down(n: int, multiple: int)
    requires
        0 <= n,
        0 < multiple,
    ensures
        0 <= (n / multiple) * multiple <= n,
        n - multiple < (n / multiple) * multiple,
        ((n / multiple) * multiple) % multiple == 0,
{
    vstd::arithmetic::div_mod::lemma_fundamental_div_mod(n, multiple);
    vstd::arithmetic::div_mod::lemma_mod_bound(n, multiple);
    vstd::arithmetic::div_mod::lemma_div_pos_is_pos(n, multiple);
    vstd::arithmetic::div_mod::lemma_mod_multiples_basic(n / multiple, multiple);
    assert((n / multiple) * multiple == multiple * (n / multiple)) by (nonlinear_arith);
    assert(0 <= (n / multiple) * multiple) by (nonlinear_arith)
        requires
            0 <= n / multiple,
            0 < multiple,
    ;
}

/// A buffer that was fitted into a fill area stays inside it: on each
/// axis its size is a multiple of `fill.multiple`, its size on screen does
/// not exceed the area, and one more multiple of pixels would.
pub proof fn lemma_filled_fits(pb: PixelBuffer, window: Option<UVec2>)
    requires
        fill_area(pb, window) is Some,
        !pb.size.pixel_size.has_zero_axis(),
        pb.fill.multiple != 0,
    ensures
        filled_size(pb, window).x % pb.fill.multiple == 0,
        filled_size(pb, window).y % pb.fill.multiple == 0,
        filled_size(pb, window).x * pb.size.pixel_size.x <= fill_area(pb, window).unwrap().x,
        filled_size(pb, window).y * pb.size.pixel_size.y <= fill_area(pb, window).unwrap().y,
        (filled_size(pb, window).x + pb.fill.multiple) * pb.size.pixel_size.x > fill_area(
            pb,
            window,
        ).unwrap().x,
        (filled_size(pb, window).y + pb.fill.multiple) * pb.size.pixel_size.y > fill_area(
            pb,
            window,
        ).unwrap().y,
        (PixelBufferSize {
            size: filled_size(pb, window),
            pixel_size: pb.size.pixel_size,
        }).screen_fits(),
{
    let area = fill_area(pb, window).unwrap();
    lemma_fitting(area.x as int, pb.size.pixel_size.x as int, pb.fill.multiple as int);
    lemma_fitting(area.y as int, pb.size.pixel_size.y as int, pb.fill.multiple as int);
}

/// The number of pixels fitted into a length: a multiple of `multiple`
/// that takes no more than the length, while one more multiple would.
pub proof fn lemma_fitting(available: int, pixel_size: int, multiple: int)
    requires
        0 <= available,
        0 < pixel_size,
        0 < multiple,
    ensures
        0 <= ((available / pixel_size) / multiple) * multiple <= available,
        (((available / pixel_size) / multiple) * multiple) % multiple == 0,
        ((available / pixel_size) / multiple) * multiple * pixel_size <= available,
        (((available / pixel_size) / multiple) * multiple + multiple) * pixel_size > available,
{
    let columns = available / pixel_size;
    let fitted = (columns / multiple) * multiple;
    vstd::arithmetic::div_mod::lemma_fundamental_div_mod(available, pixel_size);
    vstd::arithmetic::div_mod::lemma_mod_bound(available, pixel_size);
    vstd::arithmetic::div_mod::lemma_div_pos_is_pos(available, pixel_size);
    lemma_round_down(columns, multiple);
    assert(columns * pixel_size <= available) by (nonlinear_arith)
        requires
            available == pixel_size * columns + available % pixel_size,
            0 <= available % pixel_size,
    ;
    assert(fitted * pixel_size <= columns * pixel_size) by (nonlinear_arith)
        requires
            fitted <= columns,
            0 < pixel_size,
    ;
    assert((fitted + multiple) * pixel_size >= (columns + 1) * pixel_size) by (nonlinear_arith)
        requires
            fitted + multiple >= columns + 1,
            0 < pixel_size,
    ;
    assert((columns + 1) * pixel_size > available) by (nonlinear_arith)
        requires
            available == pixel_size * columns + available % pixel_size,
            available % pixel_size < pixel_size,
    ;
    assert(fitted <= available) by (nonlinear_arith)
        requires
            fitted * pixel_size <= available,
            0 <= fitted,
            1 <= pixel_size,
    ;
}

/// The decision of the resize phase: the size to give the image of a buffer
/// whose image has the size `current`, if it has to change.
pub fn resize_target(pb: &PixelBuffer, current: UVec2) -> (target: Option<UVec2>)
    ensures
        target == resize_goal(*pb, current),
{
    let size = pb.size;
    if size.size.x == 0 || size.size.y == 0 || size.pixel_size.x == 0 || size.pixel_size.y == 0 {
        return None;
    }
    if size.size != current {
        Some(size.size)
    } else {
        None
    }
}

/// Resize phase: keeps the size of the image in sync with the size in
/// [PixelBuffer]. A buffer with a zero axis is skipped. Returns whether the
/// image was resized; the image is blank then.
pub fn resize(pb: &PixelBuffer, image: &mut Image) -> (resized: bool)
    requires
        old(image).wf(),
        resize_goal(*pb, old(image).size) is Some ==> addressable(pb.size.size),
    ensures
        final(image).wf(),
        resized == resize_goal(*pb, old(image).size) is Some,
        resized ==> final(image).size == pb.size.size && final(image)@ == blank(pb.size.size),
        !resized ==> final(image).size == old(image).size && final(image)@ == old(image)@,
        final(image).label == old(image).label,
        final(image).usage == old(image).usage,
        final(image).sampler_descriptor == old(image).sampler_descriptor,
        resize_goal(*pb, final(image).size) is None,
{
    match resize_target(pb, image.size()) {
        Some(size) => {
            image.resize(size);
            true
        },
        None => false,
    }
}

/// Sprite-size phase: changes the custom size of the sprite to the fill
/// area where the sprite stretches over one, to the screen size of the
/// buffer otherwise. The sprite is written only where its size differs.
/// Returns whether it was written.
pub fn sprite_custom_size(pb: &PixelBuffer, window: Option<UVec2>, sprite: &mut Sprite) -> (changed:
    bool)
    requires
        !stretches(*pb, window) ==> pb.size.screen_fits(),
    ensures
        final(sprite).custom_size matches Some(size) && (size.x as int, size.y as int)
            == sprite_goal(*pb, window),
        final(sprite).flip_x == old(sprite).flip_x,
        final(sprite).flip_y == old(sprite).flip_y,
        changed == (final(sprite).custom_size != old(sprite).custom_size),
{
    let mut new_size: Option<UVec2> = None;
    // if the sprite needs to stretch
    if pb.fill.stretch {
        // set its size to the fill area
        new_size = get_fill_area(pb, window);
    }
    let new_size = match new_size {
        Some(area) => Some(area),
        None => Some(pb.size.screen_size()),
    };
    if new_size != sprite.custom_size {
        sprite.custom_size = new_size;
        true
    } else {
        false
    }
}

/// The buffer after the fill phase.
pub open spec fn filled(pb: PixelBuffer, window: Option<UVec2>) -> PixelBuffer {
    PixelBuffer {
        size: PixelBufferSize { size: filled_size(pb, window), pixel_size: pb.size.pixel_size },
        fill: pb.fill,
    }
}

/// What the three phases of a tick changed.
#[derive(Clone, Copy, Debug, PartialEq, Eq, Structural)]
pub struct PreUpdate {
    /// The fill phase changed the size of the buffer
    pub filled: bool,
    /// The resize phase resized the image
    pub resized: bool,
    /// The sprite-size phase changed the size of the sprite
    pub sprite_resized: bool,
}

/// The three phases of a tick for one buffer, in their fixed order: fill,
/// then resize, then sprite size. The image is resized to the size that the
/// fill phase has just given the buffer, and the sprite, if the buffer has
/// one, gets its size from that size too.
pub fn pre_update(
    pb: &mut PixelBuffer,
    image: &mut Image,
    sprite: &mut Option<Sprite>,
    window: Option<UVec2>,
) -> (changes: PreUpdate)
    requires
        old(image).wf(),
        resize_goal(filled(*old(pb), window), old(image).size) is Some ==> addressable(
            filled_size(*old(pb), window),
        ),
        *old(sprite) is Some && !stretches(*old(pb), window) ==> filled(
            *old(pb),
            window,
        ).size.screen_fits(),
    ensures
        *final(pb) == filled(*old(pb), window),
        changes.filled == (final(pb).size.size != old(pb).size.size),
        final(image).wf(),
        changes.resized == resize_goal(*final(pb), old(image).size) is Some,
        changes.resized ==> final(image).size == final(pb).size.size && final(image)@ == blank(
            final(pb).size.size,
        ),
        !changes.resized ==> final(image).size == old(image).size && final(image)@ == old(
            image,
        )@,
        resize_goal(*final(pb), final(image).size) is None,
        match (*old(sprite), *final(sprite)) {
            (None, None) => !changes.sprite_resized,
            (Some(before), Some(after)) => after.custom_size matches Some(size) && (
                size.x as int,
                size.y as int,
            ) == sprite_goal(*final(pb), window) && after.flip_x == before.flip_x && after.flip_y
                == before.flip_y && changes.sprite_resized == (after.custom_size
                != before.custom_size),
            _ => false,
        },
{
    let filled = fill(pb, window);
    let resized = resize(pb, image);
    let sprite_resized = match sprite {
        Some(sprite) => sprite_custom_size(pb, window, sprite),
        None => false,
    };
    PreUpdate { filled, resized, sprite_resized }
}

} // verus!
