//! The in-memory light quantity: a three-channel linear color.
//!
//! Channels are linear light intensities carried as the bit patterns of
//! binary64 values.  A channel is normally in [0, 1] but is deliberately
//! unconstrained: intermediate results of lighting arithmetic may be
//! negative or exceed 1, and only the export operations clamp.  The
//! componentwise arithmetic itself needs the floating-point unit and
//! lives with the callers; everything here — decoding, gamma re-encoding
//! and clamped byte export — is integer code on the bit patterns.

use vstd::prelude::*;
use crate::codec::{linear_bits, decode_byte, encode_linear, encode_linear_spec};
use crate::fbits::{lt_bits, ge_bits, cast_u8_bits, f64_lt, f64_ge, f64_cast_u8, POS_ZERO, POS_255};

verus! {

/// A color that can be transformed into RGB bytes.  Each field holds the
/// bit pattern of one binary64 linear channel.  Equality of two colors is
/// identity of the three bit patterns.
#[derive(Clone, Copy, Debug, PartialEq, Eq, Structural)]
pub struct Color {
    /// The red channel.
    pub r: u64,
    /// The green channel.
    pub g: u64,
    /// The blue channel.
    pub b: u64,
}

/// The byte a scaled channel exports to: a channel value already
/// multiplied by 255, clamped to [0, 255] and truncated toward zero.
/// Values below zero clamp to 0; values at or above 255 clamp to 255; a
/// not-a-number value truncates to 0.
pub open spec fn clamp_scaled_spec(x: u64) -> u8 {
    if lt_bits(x, POS_ZERO) {
        0u8
    } else if ge_bits(x, POS_255) {
        255u8
    } else {
        cast_u8_bits(x)
    }
}

impl Color {
    /// Creates a color from three linear channels, given as binary64 bit
    /// patterns.  A raw passthrough: no clamping, no validation.
    pub fn from_rgb(r: u64, g: u64, b: u64) -> (c: Color)
        ensures
            c == (Color { r, g, b }),
    {
        Color { r, g, b }
    }

    /// Creates a color from three gamma-encoded bytes, decoding each
    /// channel independently through the forward gamma table.
    pub fn from_srgb(r: u8, g: u8, b: u8) -> (c: Color)
        ensures
            c.r == linear_bits(r as int),
            c.g == linear_bits(g as int),
            c.b == linear_bits(b as int),
    {
        Color { r: decode_byte(r), g: decode_byte(g), b: decode_byte(b) }
    }

    /// Re-encodes the three channels through the gamma codec and writes
    /// them at pixel position `i` of a caller-owned row buffer, in blue,
    /// green, red order.  The buffer must hold at least `i + 1` pixels;
    /// no byte outside the pixel's three is touched.
    pub fn write_bgr(&self, buf: &mut Vec<u8>, i: usize)
        requires
            3 * (i as int + 1) <= old(buf)@.len(),
        ensures
            final(buf)@.len() == old(buf)@.len(),
            final(buf)@[3 * i as int] == encode_linear_spec(self.b),
            final(buf)@[3 * i as int + 1] == encode_linear_spec(self.g),
            final(buf)@[3 * i as int + 2] == encode_linear_spec(self.r),
            forall|j: int|
                0 <= j < old(buf)@.len() && !(3 * i as int <= j < 3 * i as int + 3)
                    ==> final(buf)@[j] == old(buf)@[j],
    {
        let n = buf.len();
        assert(3 * (i as int) + 3 <= n as int);
        buf[i * 3] = encode_linear(self.b);
        buf[i * 3 + 1] = encode_linear(self.g);
        buf[i * 3 + 2] = encode_linear(self.r);
    }
}

/// The clamped byte export of one channel.  The caller multiplies the
/// channel by 255 in binary64 arithmetic and hands the product's bit
/// pattern; the classification and the truncation toward zero happen
/// here, on the bits.
pub fn clamp_scaled_byte(x: u64) -> (r: u8)
    ensures
        r == clamp_scaled_spec(x),
{
    if f64_lt(x, POS_ZERO) {
        0
    } else if f64_ge(x, POS_255) {
        255
    } else {
        f64_cast_u8(x)
    }
}

/// The three clamped export bytes of a color's scaled channels, in red,
/// green, blue order.
pub open spec fn rgb_bytes_spec(r: u64, g: u64, b: u64) -> Seq<u8> {
    seq![clamp_scaled_spec(r), clamp_scaled_spec(g), clamp_scaled_spec(b)]
}

/// The same three export bytes in blue, green, red order.
pub open spec fn bgr_bytes_spec(r: u64, g: u64, b: u64) -> Seq<u8> {
    seq![clamp_scaled_spec(b), clamp_scaled_spec(g), clamp_scaled_spec(r)]
}

/// Law: the BGR export of a color is exactly the reversal of its RGB
/// export.
pub proof fn lemma_bgr_reverses_rgb(r: u64, g: u64, b: u64)
    ensures
        bgr_bytes_spec(r, g, b) =~= rgb_bytes_spec(r, g, b).reverse(),
{
}

/// The clamped byte export of three scaled channels, in red, green,
/// blue order.  The caller hands each channel already multiplied by 255.
pub fn rgb_bytes(r: u64, g: u64, b: u64) -> (out: [u8; 3])
    ensures
        out@ == rgb_bytes_spec(r, g, b),
{
    let out: [u8; 3] = [clamp_scaled_byte(r), clamp_scaled_byte(g), clamp_scaled_byte(b)];
    proof {
        assert(out@ =~= rgb_bytes_spec(r, g, b));
    }
    out
}

/// The clamped byte export of three scaled channels, in blue, green,
/// red order: the RGB export reversed.
pub fn bgr_bytes(r: u64, g: u64, b: u64) -> (out: [u8; 3])
    ensures
        out@ == bgr_bytes_spec(r, g, b),
        out@ == rgb_bytes_spec(r, g, b).reverse(),
{
    let out: [u8; 3] = [clamp_scaled_byte(b), clamp_scaled_byte(g), clamp_scaled_byte(r)];
    proof {
        assert(out@ =~= bgr_bytes_spec(r, g, b));
        lemma_bgr_reverses_rgb(r, g, b);
    }
    out
}

} // verus!
