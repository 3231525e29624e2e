//! Common imports

pub use crate::builder::{create_pixel_buffer, PixelBufferBuilder, RenderConfig};
pub use crate::compute_shader::ComputeShader;
pub use crate::egui::EguiTexture;
pub use crate::frame::Frame;
pub use crate::image::Image;
pub use crate::math::UVec2;
pub use crate::pixel::Pixel;
pub use crate::pixel_buffer::{Fill, FillKind, PixelBuffer, PixelBufferSize};
