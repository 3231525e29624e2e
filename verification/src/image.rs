//! The image behind a pixel buffer: a grid of RGBA texels with the usages
//! and the sampler it was allocated with.

use vstd::prelude::*;
use crate::math::UVec2;
use crate::pixel::Pixel;

verus! {

/// What a texture may be used for.
#[derive(Clone, Copy, Debug, PartialEq, Eq, Structural)]
pub struct TextureUsages {
    /// The texture can be the source of a copy.
    pub copy_src: bool,
    /// The texture can be the destination of a copy or a write.
    pub copy_dst: bool,
    /// The texture can be bound to be sampled in a shader.
    pub texture_binding: bool,
    /// The texture can be bound as a storage texture in a shader.
    pub storage_binding: bool,
    /// The texture can be the output of a render pass.
    pub render_attachment: bool,
}

impl TextureUsages {
    /// The usages a pixel buffer needs: being sampled, being written from
    /// the CPU and being read and written by a compute shader.
    pub fn pixel_buffer() -> (u: TextureUsages)
        ensures
            u == TextureUsages::required(),
    {
        TextureUsages {
            copy_src: false,
            copy_dst: true,
            texture_binding: true,
            storage_binding: true,
            render_attachment: false,
        }
    }

    /// The usages a pixel buffer needs.
    pub open spec fn required() -> TextureUsages {
        TextureUsages {
            copy_src: false,
            copy_dst: true,
            texture_binding: true,
            storage_binding: true,
            render_attachment: false,
        }
    }

    /// Whether every usage of `other` is also one of `self`.
    pub open spec fn includes(self, other: TextureUsages) -> bool {
        &&& other.copy_src ==> self.copy_src
        &&& other.copy_dst ==> self.copy_dst
        &&& other.texture_binding ==> self.texture_binding
        &&& other.storage_binding ==> self.storage_binding
        &&& other.render_attachment ==> self.render_attachment
    }

    /// Whether every usage of `other` is also one of `self`.
    pub fn contains(self, other: TextureUsages) -> (r: bool)
        ensures
            r == self.includes(other),
    {
        (!other.copy_src || self.copy_src) && (!other.copy_dst || self.copy_dst) && (
        !other.texture_binding || self.texture_binding) && (!other.storage_binding
            || self.storage_binding) && (!other.render_attachment || self.render_attachment)
    }
}

/// How an image is sampled when it is drawn.
#[derive(Clone, Copy, Debug, PartialEq, Eq, Structural)]
pub enum ImageSampler {
    /// Whatever the renderer uses by default
    Default,
    /// Nearest texel: pixels stay sharp when magnified
    Nearest,
    /// Linear interpolation between texels
    Linear,
}

impl ImageSampler {
    /// The sampler for pixelated images.
    pub fn nearest() -> (s: ImageSampler)
        ensures
            s == ImageSampler::Nearest,
    {
        ImageSampler::Nearest
    }
}

/// Whether a grid of this size can be held and addressed: its number of
/// cells fits the 32-bit index a frame computes and the length of a `Vec`.
pub open spec fn addressable(size: UVec2) -> bool {
    size.x * size.y <= u32::MAX && size.x * size.y <= usize::MAX
}

/// Whether a grid of this size can be held and addressed.
pub fn is_addressable(size: UVec2) -> (r: bool)
    ensures
        r == addressable(size),
{
    let cells: u64 = size.area();
    cells <= u32::MAX as u64 && cells <= usize::MAX as u64
}

/// A 2D image of 8-bit RGBA texels, stored row by row without padding.
#[derive(Debug)]
pub struct Image {
    /// Debug label
    pub label: Option<&'static str>,
    /// Width and height in texels
    pub size: UVec2,
    /// Usages the texture was allocated with
    pub usage: TextureUsages,
    /// Texture sampler
    pub sampler_descriptor: ImageSampler,
    /// The texels, row by row
    pub data: Vec<Pixel>,
}

impl Image {
    /// The texels of the image, row by row.
    pub open spec fn view(&self) -> Seq<Pixel> {
        self.data@
    }

    /// An image is well formed when it holds one texel per position.
    pub open spec fn wf(&self) -> bool {
        &&& self.data@.len() == self.size.x * self.size.y
        &&& addressable(self.size)
    }

    /// Width and height in texels.
    pub fn size(&self) -> (size: UVec2)
        ensures
            size == self.size,
    {
        self.size
    }

    /// Gives the image a new size. The texels are not kept: all of them are
    /// transparent afterwards.
    pub fn resize(&mut self, size: UVec2)
        requires
            addressable(size),
        ensures
            final(self).wf(),
            final(self).size == size,
            final(self)@ == blank(size),
            final(self).label == old(self).label,
            final(self).usage == old(self).usage,
            final(self).sampler_descriptor == old(self).sampler_descriptor,
    {
        self.size = size;
        self.data = blank_pixels(size);
    }
}

/// The texels of a cleared image of the given size: all transparent.
pub open spec fn blank(size: UVec2) -> Seq<Pixel> {
    Seq::new((size.x * size.y) as nat, |i: int| Pixel { r: 0, g: 0, b: 0, a: 0 })
}

/// Allocates the texels of a cleared image.
pub fn blank_pixels(size: UVec2) -> (data: Vec<Pixel>)
    requires
        addressable(size),
    ensures
        data@ == blank(size),
{
    let cells: u64 = size.area();
    let n: usize = cells as usize;
    let mut data: Vec<Pixel> = Vec::new();
    while data.len() < n
        invariant
            data@.len() <= n,
            forall|i: int| 0 <= i < data@.len() ==> data@[i] == (Pixel { r: 0, g: 0, b: 0, a: 0 }),
        decreases n - data@.len(),
    {
        data.push(Pixel::transparent());
    }
    data
}

/// The texels that the bytes of a texture stand for: four bytes for each
/// texel, red, green, blue and alpha, the texels row by row without
/// padding.
pub open spec fn texels(bytes: Seq<u8>) -> Seq<Pixel> {
    Seq::new(
        (bytes.len() / 4) as nat,
        |i: int|
            Pixel { r: bytes[4 * i], g: bytes[4 * i + 1], b: bytes[4 * i + 2], a: bytes[4 * i + 3] },
    )
}

/// The bytes of a texture that holds the given texels.
pub open spec fn texel_bytes(pixels: Seq<Pixel>) -> Seq<u8> {
    Seq::new(
        4 * pixels.len(),
        |k: int|
            if k % 4 == 0 {
                pixels[k / 4].r
            } else if k % 4 == 1 {
                pixels[k / 4].g
            } else if k % 4 == 2 {
                pixels[k / 4].b
            } else {
                pixels[k / 4].a
            },
    )
}

/// `bytemuck::try_cast_slice` from bytes to groups of four bytes: the same
/// memory seen as a slice of `[u8; 4]`. The cast succeeds when the number
/// of bytes is a multiple of four, and fails otherwise. The group at index
/// `i` holds the bytes from index `4 * i` on, in their order.
#[verifier::external_body]
fn quads(bytes: &[u8]) -> (groups: Option<&[[u8; 4]]>)
    ensures
        groups is Some <==> bytes@.len() % 4 == 0,
        groups is Some ==> groups.unwrap()@.len() * 4 == bytes@.len(),
        groups is Some ==> forall|k: int|
            0 <= k < bytes@.len() ==> groups.unwrap()@[k / 4][k % 4] == bytes@[k],
{
    bytemuck::try_cast_slice::<u8, [u8; 4]>(bytes).ok()
}

/// Reads the texels out of the bytes of a texture. There is no result
/// when the number of bytes is not a multiple of four.
pub fn pixels_from_bytes(bytes: &[u8]) -> (pixels: Option<Vec<Pixel>>)
    ensures
        pixels is Some <==> bytes@.len() % 4 == 0,
        pixels is Some ==> pixels.unwrap()@ == texels(bytes@),
{
    match quads(bytes) {
        None => None,
        Some(groups) => {
            let mut pixels: Vec<Pixel> = Vec::new();
            let mut i: usize = 0;
            while i < groups.len()
                invariant
                    i <= groups@.len(),
                    groups@.len() * 4 == bytes@.len(),
                    forall|k: int|
                        0 <= k < bytes@.len() ==> groups@[k / 4][k % 4] == bytes@[k],
                    pixels@.len() == i,
                    forall|j: int| 0 <= j < i ==> pixels@[j] == texels(bytes@)[j],
                decreases groups@.len() - i,
            {
                let group: [u8; 4] = groups[i];
                pixels.push(Pixel::from(group));
                i += 1;
            }
            Some(pixels)
        },
    }
}

/// Writes texels as the bytes of a texture.
pub fn pixels_to_bytes(pixels: &[Pixel]) -> (bytes: Vec<u8>)
    ensures
        bytes@ == texel_bytes(pixels@),
{
    let mut bytes: Vec<u8> = Vec::new();
    let mut i: usize = 0;
    while i < pixels.len()
        invariant
            i <= pixels@.len(),
            bytes@.len() == 4 * i,
            forall|k: int| 0 <= k < 4 * i ==> bytes@[k] == texel_bytes(pixels@)[k],
        decreases pixels@.len() - i,
    {
        let pixel = pixels[i];
        bytes.push(pixel.r);
        bytes.push(pixel.g);
        bytes.push(pixel.b);
        bytes.push(pixel.a);
        i += 1;
    }
    bytes
}

/// Texels written as bytes and read back are the same texels.
pub proof fn lemma_texels_round_trip(pixels: Seq<Pixel>)
    ensures
        texel_bytes(pixels).len() % 4 == 0,
        texels(texel_bytes(pixels)) == pixels,
{
}

/// Bytes read as texels and written back are the same bytes, where their
/// number is a multiple of four.
pub proof fn lemma_bytes_round_trip(bytes: Seq<u8>)
    requires
        bytes.len() % 4 == 0,
    ensures
        texel_bytes(texels(bytes)) == bytes,
{
}

} // verus!
