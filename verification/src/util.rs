//! Vectors and rays, and the bytes that store a color.

use vstd::prelude::*;
use vstd::arithmetic::power2::{lemma2_to64, lemma2_to64_rest};
use crate::scalar::{lemma_whole_part, Scalar, HIDDEN_BIT};

verus! {

/// The bit pattern of 1e-8: a component below it, in absolute value, counts as zero.
pub const NEAR_ZERO_BITS: u64 = 0x3e45_798e_e230_8c3a;

/// The bit pattern of 0.999: the brightest that a channel is stored as, so that
/// its 256-fold stays below 256.
pub const CHANNEL_CEILING_BITS: u64 = 0x3fef_f7ce_d916_872b;

/// Three doubles: a point, a direction, or a linear RGB color.
#[derive(Clone, Copy, Debug, PartialEq, Eq, Structural)]
pub struct Vec3 {
    pub x: Scalar,
    pub y: Scalar,
    pub z: Scalar,
}

/// A linear RGB color: red in `x`, green in `y`, blue in `z`.
pub type Color = Vec3;

/// A point in space.
pub type Point3 = Vec3;

impl Vec3 {
    /// The vector with each component's sign bit flipped.
    pub open spec fn neg_spec(self) -> Vec3 {
        Vec3 { x: self.x.neg_spec(), y: self.y.neg_spec(), z: self.z.neg_spec() }
    }

    /// Every component is smaller than 1e-8 in absolute value.
    pub open spec fn near_zero_spec(self) -> bool {
        let s = Scalar { bits: NEAR_ZERO_BITS };
        &&& self.x.abs_spec().lt_spec(s)
        &&& self.y.abs_spec().lt_spec(s)
        &&& self.z.abs_spec().lt_spec(s)
    }

    /// The vector of the three components.
    pub fn new(x: Scalar, y: Scalar, z: Scalar) -> (v: Vec3)
        ensures
            v == (Vec3 { x, y, z }),
    {
        Vec3 { x, y, z }
    }

    /// The opposite vector.
    pub fn neg(self) -> (v: Vec3)
        ensures
            v == self.neg_spec(),
    {
        Vec3 { x: self.x.neg(), y: self.y.neg(), z: self.z.neg() }
    }
}

/// Whether the vector is so close to zero in every component that it gives no direction.
pub fn near_zero(vec: &Vec3) -> (r: bool)
    ensures
        r == vec.near_zero_spec(),
{
    let s = Scalar::from_bits(NEAR_ZERO_BITS);
    vec.x.abs().lt(s) && vec.y.abs().lt(s) && vec.z.abs().lt(s)
}

/// The byte that stores a color channel, given the square root of the
/// channel's light (the gamma correction): the root is kept within 0 and
/// 0.999, and the byte is the whole part of its 256-fold. NaN gives 0.
pub open spec fn channel_byte_spec(root: Scalar) -> u8 {
    if root.is_nan_spec() {
        0
    } else {
        root.clamp_spec(Scalar { bits: 0 }, Scalar { bits: CHANNEL_CEILING_BITS }).whole_part(
            8,
        ) as u8
    }
}

/// The byte that stores a color channel whose light has the square root `root`.
pub fn channel_byte(root: Scalar) -> (byte: u8)
    ensures
        byte == channel_byte_spec(root),
{
    if root.is_nan() {
        return 0;
    }
    let clamped = root.clamp(Scalar::zero(), Scalar::from_bits(CHANNEL_CEILING_BITS));
    proof {
        lemma_whole_part(clamped, 8);
        lemma2_to64();
    }
    let whole: u64 = clamped.whole(8);
    whole as u8
}

/// The bytes that store the channels of a picture, in the order of the
/// channels, given the square root of each channel's light.
pub fn channel_bytes(roots: &[Scalar]) -> (bytes: Vec<u8>)
    ensures
        bytes@.len() == roots@.len(),
        forall|i: int| 0 <= i < roots@.len() ==> bytes@[i] == channel_byte_spec(#[trigger] roots@[i]),
{
    let mut bytes: Vec<u8> = Vec::new();
    let mut i: usize = 0;
    while i < roots.len()
        invariant
            i <= roots@.len(),
            bytes@.len() == i,
            forall|k: int| 0 <= k < i ==> bytes@[k] == channel_byte_spec(#[trigger] roots@[k]),
        decreases roots@.len() - i,
    {
        bytes.push(channel_byte(roots[i]));
        i += 1;
    }
    bytes
}

/// The pixels of a picture without transparency: each takes its red, green
/// and blue from four channels in a row, of which the fourth is passed over,
/// and is fully opaque. Channels that do not fill a pixel are left out.
pub fn opaque_pixels(roots: &[Scalar]) -> (pixels: Vec<[u8; 4]>)
    ensures
        pixels@.len() == roots@.len() / 4,
        forall|i: int|
            0 <= i < pixels@.len() ==> (#[trigger] pixels@[i])@ == seq![
                channel_byte_spec(roots@[4 * i]),
                channel_byte_spec(roots@[4 * i + 1]),
                channel_byte_spec(roots@[4 * i + 2]),
                255u8,
            ],
{
    let mut pixels: Vec<[u8; 4]> = Vec::new();
    let count: usize = roots.len() / 4;
    let mut i: usize = 0;
    while i < count
        invariant
            i <= count,
            count == roots@.len() / 4,
            pixels@.len() == i,
            forall|k: int|
                0 <= k < i ==> (#[trigger] pixels@[k])@ == seq![
                    channel_byte_spec(roots@[4 * k]),
                    channel_byte_spec(roots@[4 * k + 1]),
                    channel_byte_spec(roots@[4 * k + 2]),
                    255u8,
                ],
        decreases count - i,
    {
        let pixel: [u8; 4] = [
            channel_byte(roots[4 * i]),
            channel_byte(roots[4 * i + 1]),
            channel_byte(roots[4 * i + 2]),
            255,
        ];
        pixels.push(pixel);
        i += 1;
    }
    pixels
}

/// Black and everything below it is stored as 0, and 0.999 and everything
/// above it as 255.
pub proof fn lemma_channel_byte_ends(root: Scalar)
    ensures
        root.le_spec(Scalar { bits: 0 }) ==> channel_byte_spec(root) == 0,
        (Scalar { bits: CHANNEL_CEILING_BITS }).le_spec(root) ==> channel_byte_spec(root) == 255,
{
    let floor = Scalar { bits: 0 };
    let ceiling = Scalar { bits: CHANNEL_CEILING_BITS };
    if !root.is_nan_spec() {
        lemma_whole_part(root.clamp_spec(floor, ceiling), 8);
        lemma2_to64_rest();
        assert(CHANNEL_CEILING_BITS as int / (HIDDEN_BIT as int) == 1022);
        assert((HIDDEN_BIT + CHANNEL_CEILING_BITS as int % (HIDDEN_BIT as int)) / 0x2000_0000_0000
            == 255);
    }
}

/// A ray: the points `orig + t * dir`. The direction need not have length 1.
#[derive(Clone, Copy, Debug, PartialEq, Eq, Structural)]
pub struct Ray {
    pub orig: Point3,
    pub dir: Vec3,
}

impl Ray {
    /// The ray from `orig` along `dir`.
    pub fn new(orig: Point3, dir: Vec3) -> (ray: Ray)
        ensures
            ray == (Ray { orig, dir }),
    {
        Ray { orig, dir }
    }

    /// Where the ray starts.
    pub fn origin(&self) -> (p: Point3)
        ensures
            p == self.orig,
    {
        self.orig
    }

    /// Where the ray points.
    pub fn direction(&self) -> (v: Vec3)
        ensures
            v == self.dir,
    {
        self.dir
    }
}

} // verus!
