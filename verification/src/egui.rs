//! Keeps the texture that an immediate-mode GUI draws for a pixel buffer,
//! and the size it reports for it, in step with the buffer.

use vstd::prelude::*;
use crate::math::UVec2;
use crate::pixel_buffer::{
    fill_area, get_fill_area, sprite_goal, stretches, Fill, FillKind, PixelBuffer,
    PixelBufferSize,
};

verus! {

/// Holds all the necesary information to draw a GUI image with the pixel
/// buffer.
#[derive(Clone, Copy, Debug, PartialEq, Eq, Structural)]
pub struct EguiTexture {
    /// GUI texture ID
    pub id: u64,
    /// Natural size of the texture, in GUI length units
    pub size: UVec2,
}

impl PixelBufferSize {
    /// Gets the size of the texture for the pixel buffer
    pub fn egui_texture_size(&self) -> (size: UVec2)
        requires
            self.screen_fits(),
        ensures
            size.x == self.size.x * self.pixel_size.x,
            size.y == self.size.y * self.pixel_size.y,
    {
        self.screen_size()
    }
}

impl Fill {
    /// Updates the fill to the area that a GUI panel has available. A
    /// report of an area with a zero axis is ignored. Returns whether the
    /// report was taken.
    pub fn update_egui(&mut self, evec2: UVec2) -> (taken: bool)
        ensures
            taken == !evec2.has_zero_axis(),
            final(self).kind == (if taken {
                FillKind::Custom(evec2)
            } else {
                old(self).kind
            }),
            final(self).stretch == old(self).stretch,
            final(self).multiple == old(self).multiple,
    {
        if evec2.x == 0 || evec2.y == 0 {
            false
        } else {
            self.kind = FillKind::Custom(evec2);
            true
        }
    }
}

/// The record of a buffer whose image was registered with the GUI under
/// the texture id `id`: its size is the screen size of the buffer.
pub fn register_egui(id: u64, pb: &PixelBuffer) -> (texture: EguiTexture)
    requires
        pb.size.screen_fits(),
    ensures
        texture.id == id,
        texture.size.x == pb.size.size.x * pb.size.pixel_size.x,
        texture.size.y == pb.size.size.y * pb.size.pixel_size.y,
{
    EguiTexture { id, size: pb.size.egui_texture_size() }
}

/// Brings the reported size of the texture up to date: the custom fill
/// area where the buffer stretches over one, the screen size of the buffer
/// otherwise. The window is not looked at.
pub fn update_egui_texture_size(pb: &PixelBuffer, texture: &mut EguiTexture)
    requires
        !stretches(*pb, None) ==> pb.size.screen_fits(),
    ensures
        final(texture).id == old(texture).id,
        (final(texture).size.x as int, final(texture).size.y as int) == sprite_goal(*pb, None),
{
    if pb.fill.stretch {
        if let Some(fill_area) = get_fill_area(pb, None) {
            texture.size = fill_area;
            return ;
        }
    }
    texture.size = pb.size.egui_texture_size();
}

} // verus!
