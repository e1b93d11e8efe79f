//! The exposure buffer: per-pixel radiance sums and sample counts, and
//! the gamma-corrected read-out to display bytes.
//!
//! The inverse-gamma power `x^e` for `e` in `(0, 1)` is computed through
//! the binary fraction of `e`: sixteen iterated square roots of `x`,
//! multiplied where the corresponding bit of `e` is set.

use vstd::prelude::*;
use crate::fx::{
    Fx, FX_ONE, fx_mul, fx_mul_spec, fx_div_int, fx_div_int_spec, fx_sqrt, spec_fx_sqrt,
};
use crate::vec3::{V3, Vec3, v3_add};

verus! {

/// The scalar for 255, the top of the display range.
pub const FX_255: i64 = 1095216660480;

/// The image's size in pixels.
#[derive(Clone, Copy)]
pub struct SensorDimensions {
    pub width: usize,
    pub height: usize,
}

/// A pixel coordinate.
#[derive(Clone, Copy, PartialEq, Eq, Structural, Debug)]
pub struct Pixel {
    pub x: usize,
    pub y: usize,
}

/// A display color: one byte per channel.
#[derive(Clone, Copy, PartialEq, Eq, Structural, Debug)]
pub struct Color8 {
    pub x: u8,
    pub y: u8,
    pub z: u8,
}

impl SensorDimensions {
    /// The pixel of a raster index, wrapping around the image.
    pub fn pixel_for_index(&self, index: usize) -> (p: Pixel)
        requires
            0 < self.width * self.height <= usize::MAX,
        ensures
            p.x == ((index as int) % (self.width * self.height)) % (self.width as int),
            p.y == ((index as int) % (self.width * self.height)) / (self.width as int),
            p.x < self.width,
            p.y < self.height,
    {
        proof {
            assert(self.width > 0 && self.height > 0) by (nonlinear_arith)
                requires
                    self.width * self.height > 0,
                    self.width >= 0,
                    self.height >= 0,
            ;
        }
        let wrapped = index % (self.width * self.height);
        let p = Pixel { x: wrapped % self.width, y: wrapped / self.width };
        proof {
            let w = self.width as int;
            let h = self.height as int;
            let wr = wrapped as int;
            assert(wr < w * h);
            assert(wr / w < h) by (nonlinear_arith)
                requires
                    w > 0,
                    h > 0,
                    0 <= wr < w * h,
            ;
        }
        p
    }

    /// The raster index of a pixel.
    pub fn index_for_pixel(&self, pixel: Pixel) -> (r: usize)
        requires
            pixel.x + pixel.y * self.width <= usize::MAX,
        ensures
            r == pixel.x + pixel.y * self.width,
    {
        proof {
            assert(pixel.y * self.width >= 0) by (nonlinear_arith)
                requires
                    pixel.y >= 0,
                    self.width >= 0,
            ;
        }
        pixel.x + pixel.y * self.width
    }
}

/// Two to the power `n`.
pub open spec fn spec_pow2(n: int) -> int
    decreases n,
{
    if n <= 0 {
        1
    } else {
        2 * spec_pow2(n - 1)
    }
}

/// `x` put through `j` square roots: `x^(1/2^j)`.
pub open spec fn spec_sqrt_iter(x: int, j: int) -> int
    decreases j,
{
    if j <= 0 {
        x
    } else {
        spec_fx_sqrt(spec_sqrt_iter(x, j - 1))
    }
}

/// The product of the iterated roots of `x` selected by the low sixteen
/// bits of `k`, after `j` of the sixteen steps.
pub open spec fn spec_pow_acc(x: int, k: int, j: int) -> int
    decreases j,
{
    if j <= 0 {
        FX_ONE as int
    } else {
        let prev = spec_pow_acc(x, k, j - 1);
        let sj = spec_sqrt_iter(x, j);
        if (k / spec_pow2(16 - j)) % 2 == 1 {
            fx_mul_spec(prev, sj)
        } else {
            prev
        }
    }
}

/// `x^e` for a unit-range exponent: the input is clamped into `[0, 1]`
/// and raised through the top sixteen bits of the exponent's fraction.
pub open spec fn spec_pow_frac(x: int, e: int) -> int {
    let xc = if x < 0 {
        0
    } else if x > FX_ONE {
        FX_ONE as int
    } else {
        x
    };
    if e >= FX_ONE {
        xc
    } else if e <= 0 {
        FX_ONE as int
    } else {
        spec_pow_acc(xc, e / 65536, 16)
    }
}

/// One display channel: the accumulated radiance averaged over the
/// samples, brought into the display's unit range, gamma-corrected, and
/// scaled to a byte.
#[verifier::opaque]
pub open spec fn spec_channel_byte(sum: int, count: int, rg: int) -> int {
    let avg = fx_div_int_spec(sum, count);
    let norm = fx_div_int_spec(avg, 255);
    let p = spec_pow_frac(norm, rg);
    fx_mul_spec(p, FX_255 as int) / (FX_ONE as int)
}

/// Powers of two are positive.
proof fn lemma_pow2_pos(n: int)
    ensures
        spec_pow2(n) >= 1,
    decreases n,
{
    if n > 0 {
        lemma_pow2_pos(n - 1);
    }
}

/// The square root of a unit-range scalar stays in the unit range.
proof fn lemma_sqrt_unit(x: int)
    requires
        0 <= x <= FX_ONE,
    ensures
        0 <= spec_fx_sqrt(x) <= FX_ONE,
{
    if x > 0 {
        crate::fx::lemma_isqrt_bounds(x * (FX_ONE as int));
        let r = crate::fx::spec_isqrt(x * (FX_ONE as int));
        assert(x * (FX_ONE as int) <= (FX_ONE as int) * (FX_ONE as int)) by (nonlinear_arith)
            requires
                0 <= x <= FX_ONE,
        ;
        assert(r <= FX_ONE) by (nonlinear_arith)
            requires
                r >= 0,
                r * r <= (FX_ONE as int) * (FX_ONE as int),
        ;
    }
}

/// `x^e` stays in the unit range.
pub proof fn lemma_pow_frac_unit(x: int, e: int)
    ensures
        0 <= spec_pow_frac(x, e) <= FX_ONE,
{
    let xc = if x < 0 {
        0int
    } else if x > FX_ONE {
        FX_ONE as int
    } else {
        x
    };
    if e >= FX_ONE || e <= 0 {
    } else {
        lemma_pow_acc_unit(xc, e / 65536, 16);
    }
}

/// Each accumulation step of the power stays in the unit range.
proof fn lemma_pow_acc_unit(x: int, k: int, j: int)
    requires
        0 <= x <= FX_ONE,
    ensures
        0 <= spec_pow_acc(x, k, j) <= FX_ONE,
        0 <= spec_sqrt_iter(x, j) <= FX_ONE,
    decreases j,
{
    if j <= 0 {
    } else {
        lemma_pow_acc_unit(x, k, j - 1);
        lemma_sqrt_unit(spec_sqrt_iter(x, j - 1));
        if (k / spec_pow2(16 - j)) % 2 == 1 {
            crate::material::lemma_fx_mul_unit(spec_pow_acc(x, k, j - 1), spec_sqrt_iter(x, j));
        }
    }
}

/// Raise a unit-range scalar to a unit-range exponent.
pub fn fx_pow_frac(x: Fx, e: Fx) -> (r: Fx)
    ensures
        r as int == spec_pow_frac(x as int, e as int),
        0 <= r <= FX_ONE,
{
    let xc: Fx = if x < 0 {
        0
    } else if x > FX_ONE {
        FX_ONE
    } else {
        x
    };
    proof {
        lemma_pow_frac_unit(x as int, e as int);
    }
    if e >= FX_ONE {
        return xc;
    }
    if e <= 0 {
        return FX_ONE;
    }
    let k: u64 = (e as u64) / 65536;
    let mut acc: Fx = FX_ONE;
    let mut s: Fx = xc;
    let mut mask: u64 = 32768;
    let mut j: usize = 0;
    proof {
        reveal_with_fuel(spec_pow2, 17);
        assert(spec_pow2(15) == 32768);
    }
    while j < 16
        invariant
            0 <= j <= 16,
            0 <= xc <= FX_ONE,
            k == (e as int) / 65536,
            0 < e < FX_ONE,
            acc as int == spec_pow_acc(xc as int, k as int, j as int),
            s as int == spec_sqrt_iter(xc as int, j as int),
            j < 16 ==> mask as int == spec_pow2(15 - j),
        decreases 16 - j,
    {
        proof {
            lemma_pow2_pos(15 - j as int);
        }
        s = fx_sqrt(s);
        let bit = (k / mask) % 2;
        proof {
            assert(spec_pow2(16 - (j + 1 as int)) == spec_pow2(15 - j as int));
        }
        if bit == 1 {
            acc = fx_mul(acc, s);
        }
        if j < 15 {
            mask = mask / 2;
            proof {
                assert(2 * spec_pow2(15 - (j + 1 as int)) == spec_pow2(15 - j as int));
            }
        }
        j = j + 1;
    }
    proof {
        lemma_pow_acc_unit(xc as int, k as int, 16);
    }
    acc
}

/// The model of one pixel: its radiance sum and its sample count.
pub ghost struct PixelV {
    pub color: V3,
    pub count: int,
}

/// One pixel's accumulated state.
#[derive(Clone, Copy)]
struct PixelInfo {
    color: Vec3,
    sensor: u32,
}

/// The model of the exposure buffer.
pub ghost struct SensorV {
    pub pixels: Seq<PixelV>,
    pub reciprocal_gamma: int,
}

/// The exposure buffer: one radiance sum and sample count per pixel.
pub struct Sensor {
    pixels: Vec<PixelInfo>,
    reciprocal_gamma: Fx,
}

impl View for Sensor {
    type V = SensorV;

    closed spec fn view(&self) -> SensorV {
        SensorV {
            pixels: self.pixels@.map_values(
                |p: PixelInfo| PixelV { color: p.color@, count: p.sensor as int },
            ),
            reciprocal_gamma: self.reciprocal_gamma as int,
        }
    }
}

impl Sensor {
    /// A cleared buffer of one entry per pixel.
    pub fn new(dimensions: SensorDimensions, reciprocal_gamma: Fx) -> (s: Sensor)
        requires
            dimensions.width * dimensions.height <= usize::MAX,
        ensures
            s@.reciprocal_gamma == reciprocal_gamma as int,
            s@.pixels.len() == dimensions.width * dimensions.height,
            forall|i: int|
                0 <= i < s@.pixels.len() ==> #[trigger] s@.pixels[i] == (PixelV {
                    color: V3 { x: 0, y: 0, z: 0 },
                    count: 0,
                }),
    {
        let n = dimensions.width * dimensions.height;
        let mut pixels: Vec<PixelInfo> = Vec::new();
        let mut i: usize = 0;
        while i < n
            invariant
                i <= n,
                pixels@.len() == i,
                forall|j: int|
                    0 <= j < i ==> #[trigger] pixels@[j].color@ == (V3 { x: 0, y: 0, z: 0 })
                        && pixels@[j].sensor == 0,
            decreases n - i,
        {
            pixels.push(PixelInfo { color: Vec3::zeros(), sensor: 0 });
            i = i + 1;
        }
        Sensor { pixels, reciprocal_gamma }
    }

    /// How many pixels the buffer holds.
    pub fn len(&self) -> (r: usize)
        ensures
            r == self@.pixels.len(),
    {
        self.pixels.len()
    }

    /// Add one radiance sample to a pixel: the sum grows by the sample
    /// and the count by one, the count saturating at its type's top.
    pub fn add_sample(&mut self, position: usize, sample: Vec3)
        requires
            position < old(self)@.pixels.len(),
        ensures
            final(self)@.pixels.len() == old(self)@.pixels.len(),
            final(self)@.reciprocal_gamma == old(self)@.reciprocal_gamma,
            final(self)@.pixels[position as int].color == v3_add(
                old(self)@.pixels[position as int].color,
                sample@,
            ),
            final(self)@.pixels[position as int].count == if old(
                self,
            )@.pixels[position as int].count < u32::MAX {
                old(self)@.pixels[position as int].count + 1
            } else {
                old(self)@.pixels[position as int].count
            },
            forall|i: int|
                0 <= i < old(self)@.pixels.len() && i != position ==> final(self)@.pixels[i]
                    == #[trigger] old(self)@.pixels[i],
            crate::material::v3_non_negative(sample@) ==> {
                &&& final(self)@.pixels[position as int].color.x >= old(
                    self,
                )@.pixels[position as int].color.x
                &&& final(self)@.pixels[position as int].color.y >= old(
                    self,
                )@.pixels[position as int].color.y
                &&& final(self)@.pixels[position as int].color.z >= old(
                    self,
                )@.pixels[position as int].color.z
            },
    {
        let old_pixel = self.pixels[position];
        let new_count: u32 = if old_pixel.sensor < u32::MAX {
            old_pixel.sensor + 1
        } else {
            old_pixel.sensor
        };
        let new_pixel = PixelInfo { color: old_pixel.color.add(&sample), sensor: new_count };
        self.pixels[position] = new_pixel;
    }

    /// The display color of a pixel: the average radiance per channel,
    /// gamma-corrected and scaled to bytes; black while unsampled.
    pub fn color_at(&self, position: usize) -> (r: Color8)
        requires
            position < self@.pixels.len(),
        ensures
            ({
                let p = self@.pixels[position as int];
                let rg = self@.reciprocal_gamma;
                if p.count == 0 {
                    r == (Color8 { x: 0, y: 0, z: 0 })
                } else {
                    &&& r.x as int == spec_channel_byte(p.color.x, p.count, rg)
                    &&& r.y as int == spec_channel_byte(p.color.y, p.count, rg)
                    &&& r.z as int == spec_channel_byte(p.color.z, p.count, rg)
                }
            }),
    {
        let pixel = self.pixels[position];
        if pixel.sensor == 0 {
            return Color8 { x: 0, y: 0, z: 0 };
        }
        let count = pixel.sensor as i64;
        let rg = self.reciprocal_gamma;
        Color8 {
            x: channel_byte(pixel.color.x, count, rg),
            y: channel_byte(pixel.color.y, count, rg),
            z: channel_byte(pixel.color.z, count, rg),
        }
    }
}

/// One channel's display byte.
fn channel_byte(sum: Fx, count: i64, rg: Fx) -> (r: u8)
    requires
        count > 0,
    ensures
        r as int == spec_channel_byte(sum as int, count as int, rg as int),
{
    proof {
        reveal(spec_channel_byte);
    }
    let avg = fx_div_int(sum, count);
    let norm = fx_div_int(avg, 255);
    let p = fx_pow_frac(norm, rg);
    let scaled = fx_mul(p, FX_255);
    proof {
        crate::material::lemma_fx_mul_unit(FX_255 as int, p as int);
        assert(fx_mul_spec(p as int, FX_255 as int) == fx_mul_spec(FX_255 as int, p as int)) by {
            assert((p as int) * (FX_255 as int) == (FX_255 as int) * (p as int))
                by (nonlinear_arith);
        }
    }
    (scaled as u64 / FX_ONE as u64) as u8
}


/// The raster round trip: a pixel's index is its wrapped raster index,
/// so the cursor advances one pixel per sample and wraps at the image's
/// end.
pub proof fn lemma_raster_roundtrip(width: int, height: int, index: int)
    requires
        0 < width,
        0 < height,
        0 <= index,
    ensures
        ({
            let wrapped = index % (width * height);
            (wrapped % width) + (wrapped / width) * width == wrapped
        }),
{
    let wrapped = index % (width * height);
    assert(width * height > 0) by (nonlinear_arith)
        requires
            width > 0,
            height > 0,
    ;
    assert((wrapped % width) + (wrapped / width) * width == wrapped) by (nonlinear_arith)
        requires
            width > 0,
    ;
}

} // verus!
