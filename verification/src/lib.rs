//! A library to manage and draw a bunch of pixels.
//!
//! A pixel buffer is a grid of RGBA pixels behind an image. Its size can
//! follow a fill policy, the image follows the size of the buffer, and a
//! sprite or a GUI texture follows both. A compute shader can be bound to
//! the image and dispatched every frame.
//!
//! ## Quick how to
//!
//! ### Create a pixel buffer
//! [PixelBufferBuilder](crate::builder::PixelBufferBuilder) works out the
//! image, the sprite and the component of a new pixel buffer.
//!
//! ### Modify a pixel buffer
//! The data of the pixels lives inside an [Image](crate::image::Image). To
//! edit it exists the [Frame](crate::frame::Frame) struct, which offers
//! methods to edit the [Pixel](crate::pixel::Pixel)s. There are no methods
//! to draw shapes, but with [Frame::raw_mut](crate::frame::Frame::raw_mut)
//! any drawing can be implemented.
//!
//! ### Keep it up to date
//! [pre_update](crate::pixel_buffer::pre_update) runs the three phases of a
//! tick: fill, resize and sprite size.

pub mod builder;
pub mod compute_shader;
pub mod egui;
pub mod frame;
pub mod handle_set;
pub mod image;
pub mod math;
pub mod pixel;
pub mod pixel_buffer;
pub mod prelude;
pub mod prepared;
