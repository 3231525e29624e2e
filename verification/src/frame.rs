//! Frames: bounds-checked editing of the pixels of an image.

use vstd::prelude::*;
use crate::image::Image;
use crate::math::UVec2;
use crate::pixel::Pixel;
use rayon::prelude::{IndexedParallelIterator, IntoParallelRefMutIterator, ParallelIterator};

verus! {

/// `From<T> for T` of std: converting a value to its own type returns the
/// value unchanged.
pub assume_specification<Unchanged>[ <Unchanged as core::convert::From<Unchanged>>::from ](
    given: Unchanged,
) -> (returned: Unchanged)
    ensures
        returned == given,
;

/// Whether `to` is a value that converting `from` gives.
pub open spec fn converts<T: Into<U>, U>(from: T, to: U) -> bool {
    call_ensures(<T as Into<U>>::into, (from,), to)
}

/// The position of the pixel stored at `index` in a row-major grid that is
/// `width` pixels wide. (0, 0) is the top left.
pub open spec fn position_of(index: int, width: u32) -> UVec2 {
    UVec2 { x: (index % (width as int)) as u32, y: (index / (width as int)) as u32 }
}

/// The index at which a row-major grid that is `width` pixels wide stores
/// the pixel at `position`.
pub open spec fn index_of(position: UVec2, width: u32) -> int {
    position.x + position.y * width
}

/// Whether `after` is a value that `f` gives for the pixel `before` at
/// `position`.
pub open spec fn paints<P: Into<Pixel>, F: Fn(UVec2, Pixel) -> P>(
    f: F,
    position: UVec2,
    before: Pixel,
    after: Pixel,
) -> bool {
    exists|p: P| #[trigger] f.ensures((position, before), p) && converts(p, after)
}

/// Whether `after` is what a grid `before`, `width` pixels wide, becomes
/// when `f` has been run on each of its pixels: same length, and at every
/// index a value that `f` gives for that position and the pixel that was
/// there before.
pub open spec fn painted<P: Into<Pixel>, F: Fn(UVec2, Pixel) -> P>(
    f: F,
    width: u32,
    before: Seq<Pixel>,
    after: Seq<Pixel>,
) -> bool {
    &&& after.len() == before.len()
    &&& forall|i: int|
        0 <= i < before.len() ==> paints(f, position_of(i, width), before[i], #[trigger] after[i])
}

/// Whether `after` is the grid `before` with the pixel at `index` replaced
/// by a value that converting `pixel` gives.
pub open spec fn stored<P: Into<Pixel>>(
    before: Seq<Pixel>,
    index: int,
    pixel: P,
    after: Seq<Pixel>,
) -> bool {
    exists|color: Pixel| #[trigger] converts(pixel, color) && after == before.update(index, color)
}

/// Whether `f` may be run on each pixel of a grid.
pub open spec fn paintable<P: Into<Pixel>, F: Fn(UVec2, Pixel) -> P>(
    f: F,
    width: u32,
    pixels: Seq<Pixel>,
) -> bool {
    forall|i: int|
        0 <= i < pixels.len() ==> f.requires((position_of(i, width), #[trigger] pixels[i]))
}

/// Error type for some methods of [Frame]
#[derive(Clone, Copy, Debug, PartialEq, Eq, Structural)]
#[non_exhaustive]
pub enum FrameError {
    /// The location is not inside the frame
    LocationOutOfBounds {
        /// wrong location
        location: UVec2,
        /// frame size
        size: UVec2,
    },
}

/// Result type for some methods of [Frame]
pub type FrameResult = Result<(), FrameError>;

/// Helper structure to edit a pixel buffer
pub struct Frame<'a> {
    /// Raw pixels of the frame, row by row
    pub pixels: &'a mut [Pixel],
    /// Size of the frame
    pub size: UVec2,
}

impl<'a> Frame<'a> {
    /// The pixels of the frame, row by row.
    pub open spec fn view(&self) -> Seq<Pixel> {
        self.pixels@
    }

    /// A frame is well formed when it holds one pixel per position and a
    /// 32-bit index reaches every pixel.
    pub open spec fn wf(&self) -> bool {
        &&& self.pixels@.len() == self.size.x * self.size.y
        &&& self.size.x * self.size.y <= u32::MAX
    }

    /// Whether `location` lies inside the frame.
    pub open spec fn contains(&self, location: UVec2) -> bool {
        location.x < self.size.x && location.y < self.size.y
    }

    /// Access the pixels directly
    pub fn raw(&self) -> (pixels: &[Pixel])
        ensures
            pixels@ == self@,
    {
        self.pixels
    }

    /// Access the pixels directly mutable
    pub fn raw_mut(&mut self) -> (pixels: &mut [Pixel])
        ensures
            pixels@ == old(self)@,
            final(self)@ == final(pixels)@,
            final(self).size == old(self).size,
            final(final(self).pixels)@ == final(old(self).pixels)@,
    {
        self.pixels
    }

    /// Gets the frame size
    pub fn size(&self) -> (size: UVec2)
        ensures
            size == self.size,
    {
        self.size
    }

    /// What a pixel becomes: the value `f` gives for its position and its
    /// current value.
    fn repaint<P: Into<Pixel>, F: Fn(UVec2, Pixel) -> P>(
        index: usize,
        pixel: Pixel,
        width: u32,
        f: &F,
    ) -> (after: Pixel)
        requires
            width > 0,
            index <= u32::MAX,
            f.requires((position_of(index as int, width), pixel)),
        ensures
            paints(*f, position_of(index as int, width), pixel, after),
    {
        let idx: u32 = index as u32;
        let pos = UVec2::new(idx % width, idx / width);
        let p = f(pos, pixel);
        p.into()
    }

    /// Runs a function once per pixel with 2 parameters:
    /// - The X and Y position, (0, 0) in the top left.
    /// - The current pixel value
    /// The returned value will be the new value for that pixel. The pixels
    /// are visited row by row.
    pub fn per_pixel<P: Into<Pixel>, F: Fn(UVec2, Pixel) -> P>(&mut self, f: F)
        requires
            old(self).wf(),
            paintable(f, old(self).size.x, old(self)@),
        ensures
            final(self).wf(),
            final(self).size == old(self).size,
            painted(f, old(self).size.x, old(self)@, final(self)@),
            final(final(self).pixels)@ == final(old(self).pixels)@,
    {
        let n = self.pixels.len();
        let width = self.size.x;
        assert(self.size.x == 0 ==> self.size.x * self.size.y == 0) by (nonlinear_arith);
        let mut i: usize = 0;
        while i < n
            invariant
                i <= n,
                n == old(self)@.len(),
                n <= u32::MAX,
                n > 0 ==> width > 0,
                width == old(self).size.x,
                self.size == old(self).size,
                self@.len() == n,
                final(self.pixels)@ == final(old(self).pixels)@,
                paintable(f, width, old(self)@),
                forall|j: int| i <= j < n ==> self@[j] == old(self)@[j],
                forall|j: int|
                    0 <= j < i ==> paints(
                        f,
                        position_of(j, width),
                        old(self)@[j],
                        #[trigger] self@[j],
                    ),
            decreases n - i,
        {
            let before = self.pixels[i];
            let after = Self::repaint(i, before, width, &f);
            self.pixels[i] = after;
            i += 1;
        }
    }

    /// Hands every pixel to rayon's `par_iter_mut().enumerate().for_each(..)`,
    /// which runs the closure once for each index of the slice, in no
    /// particular order, with an exclusive reference to the pixel at that
    /// index. The closure replaces the pixel by what `repaint` returns for
    /// it, so each pixel ends up as a value that `f` gives for its position
    /// and its previous value, and the length of the slice is kept.
    #[verifier::external_body]
    fn repaint_all_par<P: Into<Pixel>, F: Fn(UVec2, Pixel) -> P + Sync>(
        pixels: &mut [Pixel],
        width: u32,
        f: &F,
    )
        requires
            old(pixels)@.len() <= u32::MAX,
            old(pixels)@.len() > 0 ==> width > 0,
            paintable(*f, width, old(pixels)@),
        ensures
            painted(*f, width, old(pixels)@, final(pixels)@),
    {
        pixels.par_iter_mut().enumerate().for_each(
            |(index, pixel)|
                {
                    *pixel = Self::repaint(index, *pixel, width, f);
                },
        );
    }

    /// Same as [Frame::per_pixel] but the pixels are updated in parallel, in
    /// no particular order.
    pub fn per_pixel_par<P: Into<Pixel>, F: Fn(UVec2, Pixel) -> P + Sync>(&mut self, f: F)
        requires
            old(self).wf(),
            paintable(f, old(self).size.x, old(self)@),
        ensures
            final(self).wf(),
            final(self).size == old(self).size,
            painted(f, old(self).size.x, old(self)@, final(self)@),
            final(final(self).pixels)@ == final(old(self).pixels)@,
    {
        assert(self.size.x == 0 ==> self.size.x * self.size.y == 0) by (nonlinear_arith);
        Self::repaint_all_par(self.pixels, self.size.x, &f);
    }

    /// Sets a pixel in the frame. Fails, and changes nothing, when the
    /// location is outside the frame.
    pub fn set<L: Into<UVec2>, P: Into<Pixel>>(&mut self, location: L, pixel: P) -> (r:
        FrameResult)
        requires
            old(self).wf(),
        ensures
            final(self).wf(),
            final(self).size == old(self).size,
            final(final(self).pixels)@ == final(old(self).pixels)@,
            exists|at: UVec2| #[trigger]
                converts(location, at) && match r {
                    Ok(()) => old(self).contains(at) && stored(
                        old(self)@,
                        index_of(at, old(self).size.x),
                        pixel,
                        final(self)@,
                    ),
                    Err(e) => !old(self).contains(at) && final(self)@ == old(self)@ && e == (
                    FrameError::LocationOutOfBounds { location: at, size: old(self).size }),
                },
    {
        let at: UVec2 = location.into();
        assert(converts(location, at));
        match self.check_bounds(at) {
            Err(e) => Err(e),
            Ok(()) => {
                proof {
                    lemma_index_in_bounds(at, self.size);
                }
                let index: u32 = at.x + at.y * self.size.x;
                let color: Pixel = pixel.into();
                self.pixels[index as usize] = color;
                assert(converts(pixel, color));
                Ok(())
            },
        }
    }

    /// Whether a location lies inside the frame, as a result.
    fn check_bounds(&self, location: UVec2) -> (r: FrameResult)
        ensures
            r == (if self.contains(location) {
                Ok::<(), FrameError>(())
            } else {
                Err(FrameError::LocationOutOfBounds { location, size: self.size })
            }),
    {
        if location.x >= self.size.x || location.y >= self.size.y {
            Err(FrameError::LocationOutOfBounds { location, size: self.size })
        } else {
            Ok(())
        }
    }

    /// Builds a frame over the texels of an image.
    pub fn get(image: &'a mut Image) -> (frame: Self)
        requires
            old(image).wf(),
        ensures
            frame.wf(),
            frame.size == old(image).size,
            frame@ == old(image)@,
            final(image)@ == final(frame.pixels)@,
            final(image).size == old(image).size,
            final(image).label == old(image).label,
            final(image).usage == old(image).usage,
            final(image).sampler_descriptor == old(image).sampler_descriptor,
    {
        let size = image.size;
        Frame { pixels: image.data.as_mut_slice(), size }
    }

    /// Constructs a frame from raw parts. The length of the slice has to be
    /// the number of pixels of a grid of the given size.
    pub fn from_raw_parts(pixels: &'a mut [Pixel], size: UVec2) -> (frame: Self)
        requires
            old(pixels)@.len() == size.x * size.y,
            size.x * size.y <= u32::MAX,
        ensures
            frame.wf(),
            frame.size == size,
            frame@ == old(pixels)@,
            final(pixels)@ == final(frame.pixels)@,
    {
        Frame { pixels, size }
    }
}

impl Image {
    /// Get a frame to mutate the image
    pub fn frame(&mut self) -> (frame: Frame<'_>)
        requires
            old(self).wf(),
        ensures
            frame.wf(),
            frame.size == old(self).size,
            frame@ == old(self)@,
            final(self)@ == final(frame.pixels)@,
            final(self).size == old(self).size,
            final(self).label == old(self).label,
            final(self).usage == old(self).usage,
            final(self).sampler_descriptor == old(self).sampler_descriptor,
    {
        Frame::get(self)
    }
}

/// Painting every pixel with one colour is idempotent: where `f` gives
/// `color` whatever it is given, a grid painted with `f` holds `color`
/// everywhere, and painting it once more changes nothing.
pub proof fn lemma_paint_constant_idempotent<P: Into<Pixel>, F: Fn(UVec2, Pixel) -> P>(
    f: F,
    color: Pixel,
    width: u32,
    before: Seq<Pixel>,
    once: Seq<Pixel>,
    twice: Seq<Pixel>,
)
    requires
        forall|position: UVec2, pixel: Pixel, out: P, after: Pixel|
            f.ensures((position, pixel), out) && converts(out, after) ==> after == color,
        painted(f, width, before, once),
        painted(f, width, once, twice),
    ensures
        forall|i: int| 0 <= i < before.len() ==> once[i] == color,
        twice == once,
{
    assert forall|i: int| 0 <= i < before.len() implies once[i] == color && twice[i]
        == color by {
        assert(paints(f, position_of(i, width), before[i], once[i]));
        assert(paints(f, position_of(i, width), once[i], twice[i]));
    }
}

/// A pixel that was set can be read back: in a grid in which the pixel at
/// the index of a location inside it was replaced, that pixel is the new
/// one, and the pixel at every other location inside the grid is the old
/// one.
pub proof fn lemma_set_then_read(
    pixels: Seq<Pixel>,
    size: UVec2,
    location: UVec2,
    color: Pixel,
    other: UVec2,
)
    requires
        pixels.len() == size.x * size.y,
        location.x < size.x,
        location.y < size.y,
        other.x < size.x,
        other.y < size.y,
    ensures
        pixels.update(index_of(location, size.x), color)[index_of(location, size.x)] == color,
        other != location ==> pixels.update(index_of(location, size.x), color)[index_of(
            other,
            size.x,
        )] == pixels[index_of(other, size.x)],
{
    lemma_index_in_bounds(location, size);
    lemma_index_in_bounds(other, size);
}

/// A location inside a grid has its index inside the grid's array.
pub proof fn lemma_index_in_bounds(location: UVec2, size: UVec2)
    requires
        location.x < size.x,
        location.y < size.y,
    ensures
        0 <= location.y * size.x <= index_of(location, size.x) < size.x * size.y,
        position_of(index_of(location, size.x), size.x) == location,
{
    let w = size.x as int;
    let h = size.y as int;
    let x = location.x as int;
    let y = location.y as int;
    assert(0 <= y * w && x + y * w < w * h && (y + 1) * w == y * w + w) by (nonlinear_arith)
        requires
            0 <= x < w,
            0 <= y < h,
    ;
    vstd::arithmetic::div_mod::lemma_fundamental_div_mod_converse(x + y * w, w, y, x);
}

} // verus!
