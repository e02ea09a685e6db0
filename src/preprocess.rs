//! From image bytes to the model's input: decode to RGB, resize to the
//! model's side with a triangle filter, and lay the samples out as a
//! (1 x side x side x 3) tensor. Each tensor element stands for its 8-bit
//! sample divided by 255, a value in [0, 1].
use vstd::prelude::*;
use crate::error::ClassificationError;

verus! {

#[verifier::external_type_specification]
#[verifier::external_body]
pub struct ExImageError(image::ImageError);

/// Samples per pixel: red, green, blue.
pub const CHANNELS: usize = 3;

/// The side, in pixels, of the square image the model takes.
pub const MODEL_SIDE: u32 = 224;

/// The number of elements of an input tensor.
pub const TENSOR_LEN: usize = 150528;

/// The largest sample, which stands for intensity 1.0.
pub const SAMPLE_MAX: u8 = 255;

/// What decoding `bytes` as an image and converting it to 8-bit RGB gives:
/// width, height and the row-major samples, or `None` when the bytes are
/// not a decodable image.
pub uninterp spec fn rgb_decoding(bytes: Seq<u8>) -> Option<(u32, u32, Seq<u8>)>;

/// The row-major RGB samples of the image of `width` x `height` pixels held
/// in `samples` once resized to `new_width` x `new_height` by the triangle
/// filter.
pub uninterp spec fn triangle_resized(
    width: u32,
    height: u32,
    samples: Seq<u8>,
    new_width: u32,
    new_height: u32,
) -> Seq<u8>;

/// Relies on image::load_from_memory, which guesses the format from the
/// bytes and decodes them, followed by DynamicImage::to_rgb8 and the
/// dimensions and raw samples of the RGB buffer.
#[verifier::external_body]
fn decode_rgb8(bytes: &[u8]) -> (r: Result<(u32, u32, Vec<u8>), image::ImageError>)
    ensures
        r is Err <==> rgb_decoding(bytes@) is None,
        r matches Ok(d) ==> rgb_decoding(bytes@) == Some((d.0, d.1, d.2@)),
{
    match image::load_from_memory(bytes) {
        Ok(decoded) => {
            let rgb = decoded.to_rgb8();
            Ok((rgb.width(), rgb.height(), rgb.into_raw()))
        },
        Err(e) => Err(e),
    }
}

/// Relies on image::imageops::resize with FilterType::Triangle over an
/// RgbImage made by ImageBuffer::from_raw: the result has exactly the new
/// dimensions, and is a plain copy when they equal the old ones.
#[verifier::external_body]
fn resize_triangle(width: u32, height: u32, samples: Vec<u8>, new_width: u32, new_height: u32) -> (r: Vec<u8>)
    requires
        samples@.len() == width * height * 3,
        new_width * new_height * 3 <= usize::MAX,
    ensures
        r@ == triangle_resized(width, height, samples@, new_width, new_height),
        r@.len() == new_width * new_height * 3,
        new_width == width && new_height == height ==> r@ == samples@,
{
    let source = image::RgbImage::from_raw(width, height, samples).expect("samples fill the image");
    image::imageops::resize(&source, new_width, new_height, image::imageops::FilterType::Triangle).into_raw()
}

/// Whether `(y, x, c)` names an element of a square image of the model's side.
pub open spec fn in_tensor(y: int, x: int, c: int) -> bool {
    0 <= y < MODEL_SIDE && 0 <= x < MODEL_SIDE && 0 <= c < CHANNELS
}

/// The row-major position of sample `c` of pixel `(x, y)` in an image
/// `width` pixels wide.
pub open spec fn sample_index(width: int, y: int, x: int, c: int) -> int {
    (y * width + x) * 3 + c
}

proof fn lemma_sample_index_bounds(width: int, height: int, y: int, x: int, c: int)
    requires
        0 <= y < height,
        0 <= x < width,
        0 <= c < 3,
    ensures
        0 <= sample_index(width, y, x, c) < width * height * 3,
{
    assert(0 <= (y * width + x) * 3 + c < width * height * 3) by (nonlinear_arith)
        requires
            0 <= y < height,
            0 <= x < width,
            0 <= c < 3,
    ;
}

/// The input tensor of shape (1, side, side, 3): element `(0, y, x, c)` is
/// sample `c` of pixel column `x`, row `y` of the resized image.
pub struct InputTensor {
    pub samples: Vec<u8>,
}

impl InputTensor {
    pub open spec fn wf(&self) -> bool {
        self.samples@.len() == TENSOR_LEN
    }

    /// Element `(0, y, x, c)`, as its 8-bit sample.
    pub open spec fn element(&self, y: int, x: int, c: int) -> u8 {
        self.samples@[sample_index(MODEL_SIDE as int, y, x, c)]
    }

    /// The tensor's shape: batch, height, width, channels.
    pub fn shape(&self) -> (r: (usize, usize, usize, usize))
        ensures
            r == (1usize, MODEL_SIDE as usize, MODEL_SIDE as usize, CHANNELS),
            self.wf() ==> r.0 * r.1 * r.2 * r.3 == self.samples@.len(),
    {
        assert(1 * 224 * 224 * 3 == TENSOR_LEN) by (nonlinear_arith);
        (1, MODEL_SIDE as usize, MODEL_SIDE as usize, CHANNELS)
    }

    /// The 8-bit sample of element `(0, y, x, c)`.
    pub fn sample_at(&self, y: usize, x: usize, c: usize) -> (r: u8)
        requires
            self.wf(),
            in_tensor(y as int, x as int, c as int),
        ensures
            r == self.element(y as int, x as int, c as int),
    {
        proof { lemma_sample_index_bounds(MODEL_SIDE as int, MODEL_SIDE as int, y as int, x as int, c as int); }
        self.samples[(y * (MODEL_SIDE as usize) + x) * 3 + c]
    }
}

/// Every position of the shape (1, side, side, 3) names an element of a
/// well-formed tensor, and every element, its sample over `SAMPLE_MAX`,
/// lies in [0, 1].
pub proof fn lemma_tensor_shape_and_range(t: &InputTensor, y: int, x: int, c: int)
    requires
        t.wf(),
        in_tensor(y, x, c),
    ensures
        0 <= sample_index(MODEL_SIDE as int, y, x, c) < t.samples@.len(),
        0 <= t.element(y, x, c) <= SAMPLE_MAX,
{
    lemma_sample_index_bounds(MODEL_SIDE as int, MODEL_SIDE as int, y, x, c);
}

/// What preprocessing gives for `bytes`: the resized samples, or `None`
/// when the bytes are no image.
pub open spec fn preprocessed(bytes: Seq<u8>) -> Option<Seq<u8>> {
    match rgb_decoding(bytes) {
        None => None,
        Some(d) => if d.2.len() == d.0 * d.1 * 3 {
            Some(triangle_resized(d.0, d.1, d.2, MODEL_SIDE, MODEL_SIDE))
        } else {
            None
        },
    }
}

/// Decodes `bytes`, resizes the image to the model's side whatever its
/// aspect ratio, and lays it out as the model's input. Bytes that are not
/// a decodable image give an `ImageError`, and nothing else fails.
pub fn preprocess(bytes: &[u8]) -> (r: Result<InputTensor, ClassificationError>)
    ensures
        r is Err <==> preprocessed(bytes@) is None,
        r matches Err(e) ==> e is ImageError,
        r matches Ok(t) ==> t.wf() && preprocessed(bytes@) == Some(t.samples@),
{
    let (width, height, samples) = match decode_rgb8(bytes) {
        Ok(d) => d,
        Err(e) => {
            return Err(ClassificationError::ImageError(e.to_string()));
        },
    };
    assert((width as u128) * (height as u128) * 3 <= u128::MAX) by (nonlinear_arith)
        requires
            width <= u32::MAX,
            height <= u32::MAX,
    ;
    if samples.len() as u128 != (width as u128) * (height as u128) * 3 {
        return Err(ClassificationError::ImageError(String::from_str("decoded samples do not fill the image")));
    }
    let resized = resize_triangle(width, height, samples, MODEL_SIDE, MODEL_SIDE);
    Ok(InputTensor { samples: resized })
}

} // verus!
