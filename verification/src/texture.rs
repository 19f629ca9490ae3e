//! The plan of a textured quad: what has to be created on the GPU, and with
//! which contents, to draw one image.
//!
//! Nothing here talks to a device. A `Texture` describes the six resources
//! of one image (texture, view, sampler, vertex, index and uniform buffer)
//! and the write that fills the texture, all as plain values; the caller
//! creates them in that order with the contents as given.

use vstd::prelude::*;
use crate::encoding::halfwords_le;
use crate::encoding::words_le;
use crate::transform::dimension_words;
use crate::transform::identity_rows;
use crate::transform::matrix_rows;
use crate::transform::record_words;
use crate::transform::TextureTransform;
use crate::vertex::index_bytes;
use crate::vertex::quad_index_list;
use crate::vertex::quad_indices;
use crate::vertex::quad_vertices;
use crate::vertex::vertex_bytes;
use crate::vertex::quad_words;
use crate::vertex::QUAD_HEIGHT;
use crate::vertex::QUAD_WIDTH;

verus! {

/// An image as rows of texels from the top, four bytes to a texel: red,
/// green, blue and alpha.
#[derive(Debug, PartialEq, Eq)]
pub struct Bitmap {
    pub(crate) width: u32,
    pub(crate) height: u32,
    pub(crate) pixels: Vec<u8>,
}

impl Bitmap {
    /// There are four bytes for each texel.
    #[verifier::type_invariant]
    pub closed spec fn well_formed(self) -> bool {
        self.pixels@.len() == 4 * self.width * self.height
    }

    /// The number of texels in a row.
    pub closed spec fn spec_width(self) -> u32 {
        self.width
    }

    /// The number of rows.
    pub closed spec fn spec_height(self) -> u32 {
        self.height
    }

    /// The bytes of all texels, row after row.
    pub closed spec fn texels(self) -> Seq<u8> {
        self.pixels@
    }

    /// The image of `width` by `height` texels that `pixels` holds, if
    /// `pixels` has four bytes for each of them.
    pub fn new(width: u32, height: u32, pixels: Vec<u8>) -> (r: Option<Bitmap>)
        ensures
            r is Some <==> pixels@.len() == 4 * width * height,
            r matches Some(b) ==> b.spec_width() == width && b.spec_height() == height
                && b.texels() == pixels@,
    {
        proof {
            assert(width * height <= 0xFFFF_FFFF * 0xFFFF_FFFF) by (nonlinear_arith)
                requires
                    0 <= width <= 0xFFFF_FFFF,
                    0 <= height <= 0xFFFF_FFFF,
            ;
            assert(4 * width * height == 4 * (width * height)) by (nonlinear_arith);
        }
        let area: u64 = (width as u64) * (height as u64);
        if (pixels.len() as u128) == 4 * (area as u128) {
            Some(Bitmap { width, height, pixels })
        } else {
            None
        }
    }

    /// The number of texels in a row.
    pub fn width(&self) -> (r: u32)
        ensures
            r == self.spec_width(),
    {
        self.width
    }

    /// The number of rows.
    pub fn height(&self) -> (r: u32)
        ensures
            r == self.spec_height(),
    {
        self.height
    }

    /// The bytes of all texels, row after row, `4 * width * height` of them.
    pub fn pixels(&self) -> (r: &Vec<u8>)
        ensures
            r@ == self.texels(),
            r@.len() == 4 * self.spec_width() * self.spec_height(),
    {
        proof {
            use_type_invariant(self);
        }
        &self.pixels
    }
}

/// The size of a texture in texels.
#[derive(Clone, Copy, Debug, PartialEq, Eq)]
pub struct Extent3d {
    pub width: u32,
    pub height: u32,
    pub depth_or_array_layers: u32,
}

/// The number of dimensions of a texture.
#[derive(Clone, Copy, Debug, PartialEq, Eq)]
pub enum TextureDimension {
    D1,
    D2,
    D3,
}

/// The format of the texels of a texture.
#[derive(Clone, Copy, Debug, PartialEq, Eq)]
pub enum TextureFormat {
    /// Four 8-bit channels, red, green, blue and alpha, the colours
    /// sRGB-encoded.
    Rgba8UnormSrgb,
}

/// What a texture may be used for.
#[derive(Clone, Copy, Debug, PartialEq, Eq)]
pub struct TextureUsages {
    pub copy_src: bool,
    pub copy_dst: bool,
    pub texture_binding: bool,
    pub storage_binding: bool,
    pub render_attachment: bool,
}

/// What a buffer may be used for.
#[derive(Clone, Copy, Debug, PartialEq, Eq)]
pub struct BufferUsages {
    pub copy_src: bool,
    pub copy_dst: bool,
    pub index: bool,
    pub vertex: bool,
    pub uniform: bool,
    pub storage: bool,
}

/// The texture to create.
#[derive(Clone, Debug, PartialEq, Eq)]
pub struct TextureDescriptor {
    pub label: Option<String>,
    pub size: Extent3d,
    pub mip_level_count: u32,
    pub sample_count: u32,
    pub dimension: TextureDimension,
    pub format: TextureFormat,
    pub usage: TextureUsages,
    pub view_formats: Vec<TextureFormat>,
}

/// The part of a texture that is read or written.
#[derive(Clone, Copy, Debug, PartialEq, Eq)]
pub enum TextureAspect {
    All,
    StencilOnly,
    DepthOnly,
}

/// A corner of a region of a texture.
#[derive(Clone, Copy, Debug, PartialEq, Eq)]
pub struct Origin3d {
    pub x: u32,
    pub y: u32,
    pub z: u32,
}

/// How the texels lie in the bytes of an upload. A pitch of `None` stands
/// for a pitch of zero.
#[derive(Clone, Copy, Debug, PartialEq, Eq)]
pub struct ImageDataLayout {
    pub offset: u64,
    pub bytes_per_row: Option<u32>,
    pub rows_per_image: Option<u32>,
}

/// One write of texels into the texture.
#[derive(Clone, Debug, PartialEq, Eq)]
pub struct TextureWrite {
    pub mip_level: u32,
    pub origin: Origin3d,
    pub aspect: TextureAspect,
    pub data: Vec<u8>,
    pub layout: ImageDataLayout,
    pub size: Extent3d,
}

/// The shape under which a view shows a texture.
#[derive(Clone, Copy, Debug, PartialEq, Eq)]
pub enum TextureViewDimension {
    D1,
    D2,
    D2Array,
    Cube,
    CubeArray,
    D3,
}

/// The view to create over the texture. `None` leaves a choice to the
/// texture: its own format and shape, all mip levels or layers from the base
/// on.
#[derive(Clone, Copy, Debug, PartialEq, Eq)]
pub struct TextureViewDescriptor {
    pub format: Option<TextureFormat>,
    pub dimension: Option<TextureViewDimension>,
    pub aspect: TextureAspect,
    pub base_mip_level: u32,
    pub mip_level_count: Option<u32>,
    pub base_array_layer: u32,
    pub array_layer_count: Option<u32>,
}

/// How texture coordinates outside the unit square are treated.
#[derive(Clone, Copy, Debug, PartialEq, Eq)]
pub enum AddressMode {
    ClampToEdge,
    Repeat,
    MirrorRepeat,
}

/// How texels are combined into a sample.
#[derive(Clone, Copy, Debug, PartialEq, Eq)]
pub enum FilterMode {
    Nearest,
    Linear,
}

/// The sampler to create. What is not listed keeps the default of the GPU
/// interface.
#[derive(Clone, Copy, Debug, PartialEq, Eq)]
pub struct SamplerDescriptor {
    pub address_mode_u: AddressMode,
    pub address_mode_v: AddressMode,
    pub address_mode_w: AddressMode,
    pub mag_filter: FilterMode,
    pub min_filter: FilterMode,
    pub mipmap_filter: FilterMode,
}

/// A buffer to create with its first contents.
#[derive(Clone, Debug, PartialEq, Eq)]
pub struct BufferInit {
    pub label: String,
    pub contents: Vec<u8>,
    pub usage: BufferUsages,
}

/// The error of the image decoder.
#[verifier::external_type_specification]
#[verifier::external_body]
pub struct ExImageError(image::ImageError);

/// Why no texture could be planned.
#[derive(Debug)]
pub enum TextureError {
    /// The decoder did not give an image; this is its error.
    Decode(image::ImageError),
    /// The bitmap transform has no inverse.
    SingularTransform,
    /// A row of the image has more bytes than a row pitch can express.
    RowTooLong,
}

/// The usage of a texture that is sampled and filled by a copy.
pub open spec fn sampled_texture_usage() -> TextureUsages {
    TextureUsages {
        copy_src: false,
        copy_dst: true,
        texture_binding: true,
        storage_binding: false,
        render_attachment: false,
    }
}

/// The usage of a buffer with no use at all.
pub open spec fn no_buffer_usage() -> BufferUsages {
    BufferUsages {
        copy_src: false,
        copy_dst: false,
        index: false,
        vertex: false,
        uniform: false,
        storage: false,
    }
}

/// The pitch of rows of `width` texels that follow each other without
/// padding: four bytes per texel, and nothing for an empty row.
pub open spec fn row_pitch(width: u32) -> Option<u32> {
    if width == 0 {
        None
    } else {
        Some((4 * width) as u32)
    }
}

/// The number of rows of an image, and nothing for an image with no row.
pub open spec fn row_count(height: u32) -> Option<u32> {
    if height == 0 {
        None
    } else {
        Some(height)
    }
}

/// The view of the whole texture as it is.
pub open spec fn default_view() -> TextureViewDescriptor {
    TextureViewDescriptor {
        format: None,
        dimension: None,
        aspect: TextureAspect::All,
        base_mip_level: 0,
        mip_level_count: None,
        base_array_layer: 0,
        array_layer_count: None,
    }
}

/// The sampler that every texture gets: linear filtering at all three
/// stages, repetition along all three axes.
pub open spec fn default_sampler() -> SamplerDescriptor {
    SamplerDescriptor {
        address_mode_u: AddressMode::Repeat,
        address_mode_v: AddressMode::Repeat,
        address_mode_w: AddressMode::Repeat,
        mag_filter: FilterMode::Linear,
        min_filter: FilterMode::Linear,
        mipmap_filter: FilterMode::Linear,
    }
}

/// The resources of one image and their contents.
#[derive(Clone, Debug, PartialEq, Eq)]
pub struct Texture {
    pub texture: TextureDescriptor,
    pub write: TextureWrite,
    pub view: TextureViewDescriptor,
    pub sampler: SamplerDescriptor,
    pub vertex_buffer: BufferInit,
    pub index_buffer: BufferInit,
    pub uniform_buffer: BufferInit,
}

/// The label of a resource as a sequence of characters, if it has one.
pub open spec fn label_chars(label: Option<&str>) -> Option<Seq<char>> {
    match label {
        Some(s) => Some(s@),
        None => None,
    }
}

impl Texture {
    /// The texture is two-dimensional, of the size of the image, with one
    /// mip level and one sample, sRGBA8, sampled and filled by a copy.
    pub open spec fn texture_matches(self, width: u32, height: u32, label: Option<Seq<char>>) -> bool {
        &&& match self.texture.label {
            Some(s) => label == Some(s@),
            None => label is None,
        }
        &&& self.texture.size == (Extent3d { width, height, depth_or_array_layers: 1 })
        &&& self.texture.mip_level_count == 1
        &&& self.texture.sample_count == 1
        &&& self.texture.dimension == TextureDimension::D2
        &&& self.texture.format == TextureFormat::Rgba8UnormSrgb
        &&& self.texture.usage == sampled_texture_usage()
        &&& self.texture.view_formats@.len() == 0
    }

    /// The write fills the whole of mip level 0 from the texels, row after
    /// row without padding.
    pub open spec fn write_matches(self, width: u32, height: u32, texels: Seq<u8>) -> bool {
        &&& self.write.mip_level == 0
        &&& self.write.origin == (Origin3d { x: 0, y: 0, z: 0 })
        &&& self.write.aspect == TextureAspect::All
        &&& self.write.data@ == texels
        &&& self.write.layout == (ImageDataLayout {
            offset: 0,
            bytes_per_row: row_pitch(width),
            rows_per_image: row_count(height),
        })
        &&& self.write.size == (Extent3d { width, height, depth_or_array_layers: 1 })
    }

    /// The vertex and index buffers hold the quad of 640 by 360.
    pub open spec fn geometry_matches(self) -> bool {
        &&& self.vertex_buffer.label@ == "Vertex Buffer"@
        &&& self.vertex_buffer.usage == (BufferUsages { vertex: true, ..no_buffer_usage() })
        &&& self.vertex_buffer.contents@ == words_le(quad_words(QUAD_WIDTH, QUAD_HEIGHT))
        &&& self.index_buffer.label@ == "Index Buffer"@
        &&& self.index_buffer.usage == (BufferUsages { index: true, ..no_buffer_usage() })
        &&& self.index_buffer.contents@ == halfwords_le(quad_index_list())
    }

    /// The uniform buffer holds the record of the identity, the bitmap
    /// transform, its inverse and the size of the image, and can be written
    /// to again.
    pub open spec fn uniform_matches(
        self,
        width: u32,
        height: u32,
        bitmap_transform: [[u32; 4]; 4],
        inverse: [[u32; 4]; 4],
    ) -> bool {
        &&& self.uniform_buffer.label@ == "Texture transform uniform buffer"@
        &&& self.uniform_buffer.usage == (BufferUsages {
            uniform: true,
            copy_dst: true,
            ..no_buffer_usage()
        })
        &&& self.uniform_buffer.contents@ == words_le(
            record_words(
                identity_rows(),
                matrix_rows(bitmap_transform),
                matrix_rows(inverse),
                dimension_words(width, height),
            ),
        )
    }

    /// `self` is the plan for an image of `width` by `height` with these
    /// texels, under this label, sampled through `bitmap_transform` with
    /// inverse `inverse`.
    pub open spec fn describes(
        self,
        width: u32,
        height: u32,
        texels: Seq<u8>,
        label: Option<Seq<char>>,
        bitmap_transform: [[u32; 4]; 4],
        inverse: [[u32; 4]; 4],
    ) -> bool {
        &&& self.texture_matches(width, height, label)
        &&& self.write_matches(width, height, texels)
        &&& self.view == default_view()
        &&& self.sampler == default_sampler()
        &&& self.geometry_matches()
        &&& self.uniform_matches(width, height, bitmap_transform, inverse)
    }

    /// `r` is what planning gives for an image of `width` by `height` with
    /// these texels: `RowTooLong` where four times the width does not fit a
    /// row pitch, else `SingularTransform` where there is no inverse, else
    /// the plan.
    pub open spec fn is_outcome(
        r: Result<Texture, TextureError>,
        width: u32,
        height: u32,
        texels: Seq<u8>,
        label: Option<Seq<char>>,
        bitmap_transform: [[u32; 4]; 4],
        inverse: Option<[[u32; 4]; 4]>,
    ) -> bool {
        match r {
            Ok(t) => 4 * width <= u32::MAX && inverse is Some && t.describes(
                width,
                height,
                texels,
                label,
                bitmap_transform,
                inverse->0,
            ),
            Err(TextureError::RowTooLong) => 4 * width > u32::MAX,
            Err(TextureError::SingularTransform) => 4 * width <= u32::MAX && inverse is None,
            Err(TextureError::Decode(_)) => false,
        }
    }

    /// A plan passes the texels on as they are: as many bytes as the
    /// texture has texels times four, in rows of four bytes a texel with no
    /// padding between them, whatever the width, odd or even.
    pub proof fn lemma_rows_unpadded(
        self,
        img: Bitmap,
        label: Option<Seq<char>>,
        bitmap_transform: [[u32; 4]; 4],
        inverse: Option<[[u32; 4]; 4]>,
    )
        requires
            img.well_formed(),
            img.spec_width() > 0,
            Texture::is_outcome(
                Ok(self),
                img.spec_width(),
                img.spec_height(),
                img.texels(),
                label,
                bitmap_transform,
                inverse,
            ),
        ensures
            self.write.layout.bytes_per_row == Some((4 * img.spec_width()) as u32),
            4 * img.spec_width() <= u32::MAX,
            self.write.data@.len() == 4 * self.texture.size.width * self.texture.size.height,
            self.write.size == self.texture.size,
    {
    }

    /// Plans the resources of an image that a decoder was asked for, under
    /// `label`: `decoded` is what the decoder answered.
    ///
    /// Where the decoder failed, the result is `Decode` with the decoder's
    /// own error and nothing is planned. Where it gave an image, the result
    /// is what `from_image` returns for that image.
    pub fn from_decoded(
        decoded: Result<Bitmap, image::ImageError>,
        label: &str,
        bitmap_transform: [[u32; 4]; 4],
        inverse: Option<[[u32; 4]; 4]>,
    ) -> (r: Result<Texture, TextureError>)
        ensures
            match decoded {
                Ok(img) => Texture::is_outcome(
                    r,
                    img.spec_width(),
                    img.spec_height(),
                    img.texels(),
                    Some(label@),
                    bitmap_transform,
                    inverse,
                ),
                Err(e) => r == Err::<Texture, TextureError>(TextureError::Decode(e)),
            },
    {
        match decoded {
            Ok(img) => Texture::from_image(&img, Some(label), bitmap_transform, inverse),
            Err(e) => Err(TextureError::Decode(e)),
        }
    }

    /// Plans the resources of `img` under `label`. The image is sampled
    /// through `bitmap_transform`; `inverse` is the inverse of that matrix,
    /// or `None` where it has none.
    ///
    /// Fails with `RowTooLong` where four times the width does not fit a row
    /// pitch, else with `SingularTransform` where there is no inverse; a
    /// plan is returned in every other case.
    pub fn from_image(
        img: &Bitmap,
        label: Option<&str>,
        bitmap_transform: [[u32; 4]; 4],
        inverse: Option<[[u32; 4]; 4]>,
    ) -> (r: Result<Texture, TextureError>)
        ensures
            Texture::is_outcome(
                r,
                img.spec_width(),
                img.spec_height(),
                img.texels(),
                label_chars(label),
                bitmap_transform,
                inverse,
            ),
    {
        let width: u32 = img.width;
        let height: u32 = img.height;
        let bytes_per_row: Option<u32> = match width.checked_mul(4) {
            Some(0) => None,
            Some(pitch) => Some(pitch),
            None => { return Err(TextureError::RowTooLong); },
        };
        let rows_per_image: Option<u32> = if height == 0 {
            None
        } else {
            Some(height)
        };
        let size = Extent3d { width, height, depth_or_array_layers: 1 };
        let texture = TextureDescriptor {
            label: match label {
                Some(s) => Some(s.to_owned()),
                None => None,
            },
            size,
            mip_level_count: 1,
            sample_count: 1,
            dimension: TextureDimension::D2,
            format: TextureFormat::Rgba8UnormSrgb,
            usage: TextureUsages {
                copy_src: false,
                copy_dst: true,
                texture_binding: true,
                storage_binding: false,
                render_attachment: false,
            },
            view_formats: Vec::new(),
        };
        let write = TextureWrite {
            mip_level: 0,
            origin: Origin3d { x: 0, y: 0, z: 0 },
            aspect: TextureAspect::All,
            data: img.pixels.clone(),
            layout: ImageDataLayout { offset: 0, bytes_per_row, rows_per_image },
            size,
        };
        let view = TextureViewDescriptor {
            format: None,
            dimension: None,
            aspect: TextureAspect::All,
            base_mip_level: 0,
            mip_level_count: None,
            base_array_layer: 0,
            array_layer_count: None,
        };
        let sampler = SamplerDescriptor {
            address_mode_u: AddressMode::Repeat,
            address_mode_v: AddressMode::Repeat,
            address_mode_w: AddressMode::Repeat,
            mag_filter: FilterMode::Linear,
            min_filter: FilterMode::Linear,
            mipmap_filter: FilterMode::Linear,
        };
        let unused = BufferUsages {
            copy_src: false,
            copy_dst: false,
            index: false,
            vertex: false,
            uniform: false,
            storage: false,
        };
        let vertices = quad_vertices(QUAD_WIDTH, QUAD_HEIGHT);
        let vertex_buffer = BufferInit {
            label: "Vertex Buffer".to_owned(),
            contents: vertex_bytes(&vertices),
            usage: BufferUsages { vertex: true, ..unused },
        };
        let indices = quad_indices();
        let index_buffer = BufferInit {
            label: "Index Buffer".to_owned(),
            contents: index_bytes(&indices),
            usage: BufferUsages { index: true, ..unused },
        };
        let inverse_bitmap_transform: [[u32; 4]; 4] = match inverse {
            Some(m) => m,
            None => { return Err(TextureError::SingularTransform); },
        };
        let record = TextureTransform::new(
            bitmap_transform,
            inverse_bitmap_transform,
            width,
            height,
        );
        let uniform_buffer = BufferInit {
            label: "Texture transform uniform buffer".to_owned(),
            contents: record.to_bytes(),
            usage: BufferUsages { uniform: true, copy_dst: true, ..unused },
        };
        Ok(Texture { texture, write, view, sampler, vertex_buffer, index_buffer, uniform_buffer })
    }
}

} // verus!
