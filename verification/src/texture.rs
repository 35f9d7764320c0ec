//! Textures: immutable decoded rasters with texel lookup.
//!
//! A texture wraps a gamma-encoded, row-major byte raster — three bytes
//! per texel in red, green, blue order — and decodes texels to linear
//! colors through the gamma codec.  Continuous sampling blends texels in
//! binary64 arithmetic, which the verifier does not accept, so that
//! blending lives with the callers; the coordinate clamping, the index
//! arithmetic and the texel decoding it is built from are verified here.

use vstd::prelude::*;
use vstd::pervasive::unreached;
use vstd::string::StringExecFns;
use crate::codec::{linear_bits, decode_byte};
use crate::color::Color;
use crate::fbits::{lt_bits, cast_u32_bits, f64_lt, f64_cast_u32, POS_ZERO, POS_ONE};

verus! {

/// The opaque decode failure of the external raster decoder.
#[verifier::external_type_specification]
#[verifier::external_body]
pub struct ExImageError(image::ImageError);

/// The error a failed texture load reports, propagated unmodified from
/// the external decoder.
pub type LoadError = image::ImageError;

/// Relies on the `Display` rendering of `image::ImageError` for the
/// short text of a decode failure.
#[verifier::external_body]
fn error_text(err: &LoadError) -> String {
    format!("{}", err)
}

/// The rendering of a decode failure's text: exactly the fixed prefix
/// `error #` followed by the given text.
pub fn describe_load_error(t: &str) -> (r: String)
    ensures
        r@ == "error #"@ + t@,
{
    let mut s = String::from_str("error #");
    s.append(t);
    s
}

/// Renders a decode failure as a short human-readable string: the
/// prefix `error #` followed by the decoder error's own rendering,
/// which `describe_load_error` fixes exactly over the rendered text.
pub fn error_description(err: LoadError) -> (r: String)
    ensures
        r@.len() >= 7,
        r@.subrange(0, 7) == "error #"@,
{
    let t = error_text(&err);
    let r = describe_load_error(t.as_str());
    proof {
        reveal_strlit("error #");
        assert(r@.subrange(0, 7) =~= "error #"@);
    }
    r
}

/// Relies on `image::open` to decode the file at `path`, and on
/// `DynamicImage::to_rgb8` with `ImageBuffer::into_raw` for the raw
/// samples: the decoded RGB buffer holds exactly width * height * 3
/// one-byte samples, row-major.
#[verifier::external_body]
fn decode_rgb(path: &str) -> (r: Result<(u32, u32, Vec<u8>), LoadError>)
    ensures
        r matches Ok(t) ==> t.2@.len() == 3 * (t.0 as int) * (t.1 as int),
{
    match image::open(path) {
        Ok(im) => {
            let rgb = im.to_rgb8();
            let (w, h) = (rgb.width(), rgb.height());
            Ok((w, h, rgb.into_raw()))
        }
        Err(e) => Err(e),
    }
}

/// A texture stored in memory: width, height and the gamma-encoded
/// raster.  Immutable after construction.
pub struct Texture {
    width: u32,
    height: u32,
    data: Vec<u8>,
}

proof fn lemma_row_major_bound(x: int, y: int, w: int, h: int)
    requires
        0 <= x < w,
        0 <= y < h,
    ensures
        0 <= x + y * w,
        0 <= y * w,
        3 * (x + y * w) + 2 < 3 * w * h,
{
    assert(0 <= y * w && 3 * (x + y * w) + 2 < 3 * w * h) by (nonlinear_arith)
        requires
            0 <= x < w,
            0 <= y < h,
    ;
}

impl Texture {
    /// The stored width, in texels.
    pub closed spec fn spec_width(self) -> u32 {
        self.width
    }

    /// The stored height, in texels.
    pub closed spec fn spec_height(self) -> u32 {
        self.height
    }

    /// The stored raster bytes.
    pub closed spec fn spec_data(self) -> Seq<u8> {
        self.data@
    }

    /// The texture invariant: the raster holds exactly width * height
    /// texels of three bytes each, so that every in-range lookup
    /// addresses a valid offset.
    pub open spec fn wf(self) -> bool {
        self.spec_data().len() == 3 * (self.spec_width() as int) * (self.spec_height() as int)
    }

    /// The linear color stored at texel (x, y): the three bytes at the
    /// row-major offset, each decoded through the forward gamma table.
    pub open spec fn texel_spec(self, x: int, y: int) -> Color {
        Color {
            r: linear_bits(self.spec_data()[3 * (x + y * (self.spec_width() as int))] as int),
            g: linear_bits(self.spec_data()[3 * (x + y * (self.spec_width() as int)) + 1] as int),
            b: linear_bits(self.spec_data()[3 * (x + y * (self.spec_width() as int)) + 2] as int),
        }
    }

    /// The width, in texels.
    pub fn width(&self) -> (w: u32)
        ensures
            w == self.spec_width(),
    {
        self.width
    }

    /// The height, in texels.
    pub fn height(&self) -> (h: u32)
        ensures
            h == self.spec_height(),
    {
        self.height
    }

    /// Wraps a raw gamma-encoded raster.  Succeeds exactly when the
    /// buffer length agrees with width * height * 3.
    pub fn from_raw(width: u32, height: u32, data: Vec<u8>) -> (r: Option<Texture>)
        ensures
            match r {
                Some(t) => t.spec_width() == width && t.spec_height() == height
                    && t.spec_data() == data@ && t.wf(),
                None => data@.len() != 3 * (width as int) * (height as int),
            },
    {
        proof {
            assert(3 * (width as int) * (height as int) <= 3 * 0xFFFF_FFFF * 0xFFFF_FFFF)
                by (nonlinear_arith)
                requires
                    0 <= width as int <= 0xFFFF_FFFF,
                    0 <= height as int <= 0xFFFF_FFFF,
            ;
        }
        let need: u128 = 3u128 * (width as u128) * (height as u128);
        if data.len() as u128 == need {
            Some(Texture { width, height, data })
        } else {
            None
        }
    }

    /// Loads a texture from a file through the external decoder,
    /// assuming the source is gamma-encoded with 8 bits per channel.
    /// A decode failure is returned unmodified.  The success arm goes
    /// through `from_raw`, whose contract certifies that the texture
    /// keeps the decoder's width, height and bytes exactly; its check
    /// cannot fail here, by the decoder's length guarantee.
    pub fn load(path: &str) -> (r: Result<Texture, LoadError>)
        ensures
            r matches Ok(t) ==> t.wf(),
    {
        match decode_rgb(path) {
            Ok((w, h, data)) => match Texture::from_raw(w, h, data) {
                Some(t) => Ok(t),
                None => unreached(),
            },
            Err(e) => Err(e),
        }
    }

    /// The color at a texel position, decoded to linear.  Both
    /// coordinates are bounded by the texture's dimensions; bounds are
    /// the caller's obligation, always computable from the immutable
    /// width and height.
    pub fn at(&self, x: u32, y: u32) -> (c: Color)
        requires
            self.wf(),
            x < self.spec_width(),
            y < self.spec_height(),
        ensures
            c == self.texel_spec(x as int, y as int),
    {
        proof {
            lemma_row_major_bound(
                x as int,
                y as int,
                self.spec_width() as int,
                self.spec_height() as int,
            );
        }
        let n = self.data.len();
        assert(3 * (x as int + y as int * (self.spec_width() as int)) + 2 < n as int);
        let idx: usize = 3 * ((x as usize) + (y as usize) * (self.width as usize));
        Color {
            r: decode_byte(self.data[idx]),
            g: decode_byte(self.data[idx + 1]),
            b: decode_byte(self.data[idx + 2]),
        }
    }
}

/// A continuous coordinate clamped into [0, 1]: a value that compares
/// below zero becomes zero, one that 1.0 compares below becomes 1.0, and
/// any other — a not-a-number value included — passes through.
pub open spec fn clamp01_spec(x: u64) -> u64 {
    if lt_bits(x, POS_ZERO) {
        POS_ZERO
    } else if lt_bits(POS_ONE, x) {
        POS_ONE
    } else {
        x
    }
}

/// Clamps a continuous sampling coordinate into [0, 1], on the bits.
pub fn clamp01(x: u64) -> (r: u64)
    ensures
        r == clamp01_spec(x),
{
    if f64_lt(x, POS_ZERO) {
        POS_ZERO
    } else if f64_lt(POS_ONE, x) {
        POS_ONE
    } else {
        x
    }
}

/// Law: clamping into [0, 1] is idempotent, so sampling at an already
/// clamped coordinate addresses the same texels as sampling at the
/// unclamped one.
pub proof fn lemma_clamp01_idempotent(x: u64)
    ensures
        clamp01_spec(clamp01_spec(x)) == clamp01_spec(x),
{
    crate::fbits::lemma_zero_one_classify();
}

/// The two texel indices of one axis for a scaled continuous coordinate:
/// the truncation of the coordinate, and its successor clamped to the
/// last index — at the border the neighbor replicates the edge texel
/// instead of extrapolating.
pub fn axis_indices(scaled: u64, dim: u32) -> (r: (u32, u32))
    requires
        dim >= 1,
    ensures
        r.0 == cast_u32_bits(scaled),
        r.1 == if r.0 >= dim - 1 {
            (dim - 1) as u32
        } else {
            (r.0 + 1) as u32
        },
{
    let i0 = f64_cast_u32(scaled);
    let i1 = if i0 >= dim - 1 {
        dim - 1
    } else {
        i0 + 1
    };
    (i0, i1)
}


/// Law: out-of-range coordinates clamp to the range ends — a coordinate
/// that compares below zero samples as zero does, and one that 1.0
/// compares below samples as 1.0 does.
pub proof fn lemma_clamp01_saturates(x: u64)
    ensures
        lt_bits(x, POS_ZERO) ==> clamp01_spec(x) == clamp01_spec(POS_ZERO),
        lt_bits(POS_ONE, x) ==> clamp01_spec(x) == clamp01_spec(POS_ONE),
{
    crate::fbits::lemma_zero_one_classify();
}

} // verus!
