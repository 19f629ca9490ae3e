//! The uniform record that the shader reads: three 4×4 matrices and the
//! size of the image, 52 single-precision numbers in 208 bytes.

use vstd::prelude::*;
use vstd::endian::Endian;
use crate::encoding::lemma_words_in_concat;
use crate::encoding::words_le;
use crate::encoding::words_to_le_bytes;
use crate::single::nearest_single;
use crate::single::NEGATIVE_ZERO;
use crate::single::ONE;

verus! {

/// The number of 32-bit words in the uniform record.
pub const TRANSFORM_WORDS: usize = 52;

/// The number of bytes in the uniform record.
pub const TRANSFORM_BYTES: usize = 208;

/// The pattern of the sine of one degree.
pub const SIN_ONE_DEGREE: u32 = 0x3C8E_F859;

/// The pattern of the cosine of one degree.
pub const COS_ONE_DEGREE: u32 = 0x3F7F_F605;

/// The pattern of the negated cosine of one degree.
pub const NEGATIVE_COS_ONE_DEGREE: u32 = 0xBF7F_F605;

/// The four rows of a matrix.
pub open spec fn matrix_rows(m: [[u32; 4]; 4]) -> Seq<Seq<u32>> {
    Seq::new(4, |i: int| m@[i]@)
}

/// The sixteen entries of four rows of four, row by row.
pub open spec fn rows_words(rows: Seq<Seq<u32>>) -> Seq<u32> {
    Seq::new(16, |k: int| rows[k / 4][k % 4])
}

/// The sixteen entries of a matrix row by row.
pub open spec fn matrix_words(m: [[u32; 4]; 4]) -> Seq<u32> {
    rows_words(matrix_rows(m))
}

/// The 52 words of a uniform record in buffer order: the model transform,
/// the bitmap transform and its inverse, each row by row, then the size of
/// the image.
pub open spec fn record_words(
    transform: Seq<Seq<u32>>,
    bitmap_transform: Seq<Seq<u32>>,
    inverse: Seq<Seq<u32>>,
    dimension: Seq<u32>,
) -> Seq<u32> {
    rows_words(transform) + rows_words(bitmap_transform) + rows_words(inverse) + dimension
}

/// Where the fields of the record lie in the uniform buffer: the model
/// transform in bytes 0 to 64, the bitmap transform in bytes 64 to 128, its
/// inverse in bytes 128 to 192 and the size of the image in bytes 192 to
/// 208, each as its words in little-endian order.
pub proof fn lemma_record_layout(
    transform: Seq<Seq<u32>>,
    bitmap_transform: Seq<Seq<u32>>,
    inverse: Seq<Seq<u32>>,
    dimension: Seq<u32>,
)
    requires
        dimension.len() == 4,
    ensures
        ({
            let bytes = words_le(record_words(transform, bitmap_transform, inverse, dimension));
            &&& bytes.len() == TRANSFORM_BYTES
            &&& bytes.subrange(0, 64) == words_le(rows_words(transform))
            &&& bytes.subrange(64, 128) == words_le(rows_words(bitmap_transform))
            &&& bytes.subrange(128, 192) == words_le(rows_words(inverse))
            &&& bytes.subrange(192, 208) == words_le(dimension)
        }),
{
    let a = rows_words(transform);
    let b = rows_words(bitmap_transform);
    let c = rows_words(inverse);
    let bytes = words_le(record_words(transform, bitmap_transform, inverse, dimension));
    lemma_words_in_concat(Endian::Little, a + b + c, dimension);
    lemma_words_in_concat(Endian::Little, a + b, c);
    lemma_words_in_concat(Endian::Little, a, b);
    assert(bytes == words_le(a) + words_le(b) + words_le(c) + words_le(dimension));
    assert(bytes.subrange(0, 64) =~= words_le(a));
    assert(bytes.subrange(64, 128) =~= words_le(b));
    assert(bytes.subrange(128, 192) =~= words_le(c));
    assert(bytes.subrange(192, 208) =~= words_le(dimension));
}

/// The rows of the matrix that `identity` returns.
pub open spec fn identity_rows() -> Seq<Seq<u32>> {
    seq![
        seq![ONE, 0u32, 0u32, 0u32],
        seq![NEGATIVE_ZERO, ONE, 0u32, 0u32],
        seq![0u32, 0u32, ONE, 0u32],
        seq![0u32, 0u32, 0u32, ONE],
    ]
}

/// The rows of the matrix that `default_bitmap_transform` returns.
pub open spec fn default_bitmap_rows() -> Seq<Seq<u32>> {
    seq![
        seq![SIN_ONE_DEGREE, COS_ONE_DEGREE, 0u32, 0u32],
        seq![NEGATIVE_COS_ONE_DEGREE, SIN_ONE_DEGREE, 0u32, 0u32],
        seq![0u32, 0u32, ONE, 0u32],
        seq![0u32, 0u32, 0u32, ONE],
    ]
}

/// The identity matrix. The first entry of its second row is a zero with
/// the sign bit set, which compares equal to zero.
pub fn identity() -> (r: [[u32; 4]; 4])
    ensures
        matrix_rows(r) == identity_rows(),
{
    let r: [[u32; 4]; 4] = [
        [ONE, 0, 0, 0],
        [NEGATIVE_ZERO, ONE, 0, 0],
        [0, 0, ONE, 0],
        [0, 0, 0, ONE],
    ];
    proof {
        assert(r@[0]@ =~= identity_rows()[0]);
        assert(r@[1]@ =~= identity_rows()[1]);
        assert(r@[2]@ =~= identity_rows()[2]);
        assert(r@[3]@ =~= identity_rows()[3]);
        assert(matrix_rows(r) =~= identity_rows());
    }
    r
}

/// The transform from screen space into bitmap space that a texture starts
/// with: the sine of one degree on the diagonal of the upper left block and
/// the cosine off it.
pub fn default_bitmap_transform() -> (r: [[u32; 4]; 4])
    ensures
        matrix_rows(r) == default_bitmap_rows(),
{
    let r: [[u32; 4]; 4] = [
        [SIN_ONE_DEGREE, COS_ONE_DEGREE, 0, 0],
        [NEGATIVE_COS_ONE_DEGREE, SIN_ONE_DEGREE, 0, 0],
        [0, 0, ONE, 0],
        [0, 0, 0, ONE],
    ];
    proof {
        assert(r@[0]@ =~= default_bitmap_rows()[0]);
        assert(r@[1]@ =~= default_bitmap_rows()[1]);
        assert(r@[2]@ =~= default_bitmap_rows()[2]);
        assert(r@[3]@ =~= default_bitmap_rows()[3]);
        assert(matrix_rows(r) =~= default_bitmap_rows());
    }
    r
}

/// The uniform record, each number held as its single-precision pattern.
#[derive(Clone, Copy, Debug, PartialEq, Eq)]
pub struct TextureTransform {
    pub transform: [[u32; 4]; 4],
    pub bitmap_transform: [[u32; 4]; 4],
    pub inverse_bitmap_transform: [[u32; 4]; 4],
    pub image_dimension: [u32; 4],
}

/// The size of an image as the record holds it: width, height, zero, one.
pub open spec fn dimension_words(width: u32, height: u32) -> Seq<u32> {
    seq![nearest_single(width as nat), nearest_single(height as nat), 0u32, nearest_single(1)]
}

impl TextureTransform {
    /// The 52 words of the record in buffer order: the three matrices row
    /// by row, then the image size.
    pub open spec fn words(self) -> Seq<u32> {
        record_words(
            matrix_rows(self.transform),
            matrix_rows(self.bitmap_transform),
            matrix_rows(self.inverse_bitmap_transform),
            self.image_dimension@,
        )
    }

    /// The record of an image of `width` by `height` texels that is sampled
    /// through `bitmap_transform`, whose inverse is `inverse`. The model
    /// transform starts as the identity.
    pub fn new(
        bitmap_transform: [[u32; 4]; 4],
        inverse: [[u32; 4]; 4],
        width: u32,
        height: u32,
    ) -> (r: TextureTransform)
        ensures
            matrix_rows(r.transform) == identity_rows(),
            r.bitmap_transform == bitmap_transform,
            r.inverse_bitmap_transform == inverse,
            r.image_dimension@ == dimension_words(width, height),
    {
        let w: u32 = crate::single::from_u32(width);
        let h: u32 = crate::single::from_u32(height);
        let one: u32 = crate::single::from_u32(1);
        let r = TextureTransform {
            transform: identity(),
            bitmap_transform,
            inverse_bitmap_transform: inverse,
            image_dimension: [w, h, 0, one],
        };
        assert(r.image_dimension@ =~= dimension_words(width, height));
        r
    }

    /// The words of the record in buffer order.
    pub fn to_words(&self) -> (r: Vec<u32>)
        ensures
            r@ == self.words(),
            r@.len() == TRANSFORM_WORDS,
    {
        let mut r: Vec<u32> = Vec::new();
        push_matrix(&mut r, &self.transform);
        push_matrix(&mut r, &self.bitmap_transform);
        push_matrix(&mut r, &self.inverse_bitmap_transform);
        let mut j: usize = 0;
        while j < 4
            invariant
                j <= 4,
                r@ =~= matrix_words(self.transform) + matrix_words(self.bitmap_transform)
                    + matrix_words(self.inverse_bitmap_transform) + self.image_dimension@.take(
                    j as int,
                ),
            decreases 4 - j,
        {
            r.push(self.image_dimension[j]);
            j += 1;
        }
        assert(self.image_dimension@.take(4) =~= self.image_dimension@);
        r
    }

    /// The contents of the uniform buffer: the words of the record in
    /// little-endian order, with no padding between them.
    pub fn to_bytes(&self) -> (r: Vec<u8>)
        ensures
            r@ == words_le(self.words()),
            r@.len() == TRANSFORM_BYTES,
    {
        let words = self.to_words();
        words_to_le_bytes(&words)
    }
}

/// Appends the sixteen entries of `m` to `out`, row by row.
fn push_matrix(out: &mut Vec<u32>, m: &[[u32; 4]; 4])
    ensures
        final(out)@ == old(out)@ + matrix_words(*m),
{
    let ghost before = out@;
    let mut k: usize = 0;
    while k < 16
        invariant
            k <= 16,
            out@ =~= before + matrix_words(*m).take(k as int),
        decreases 16 - k,
    {
        let row: [u32; 4] = m[k / 4];
        out.push(row[k % 4]);
        k += 1;
    }
    assert(matrix_words(*m).take(16) =~= matrix_words(*m));
}

} // verus!
