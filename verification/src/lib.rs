//! Plans the GPU resources that draw one image as a textured quad.
//!
//! From the texels of an image, or from what a decoder answered, `Texture`
//! works out what a device has to create: a two-dimensional sRGBA8 texture with the texels
//! written into it, a view, a sampler, the vertex and index buffers of the
//! quad, and a uniform buffer that holds a model transform, a bitmap
//! transform with its inverse, and the size of the image. Every buffer is
//! given with its bytes. Numbers that the shader reads as single precision
//! are kept as their bit patterns throughout.

pub mod encoding;
pub mod single;
pub mod texture;
pub mod transform;
pub mod vertex;

pub use texture::Texture;
pub use texture::TextureError;
pub use transform::TextureTransform;
pub use vertex::Vertex;
