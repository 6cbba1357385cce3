//! The built-in asset catalogue and the bitmap operations of the asset
//! binder. Built-in channel bitmaps are generated deterministically, so the
//! bytes a name stands for are pinned exactly; decoding of on-disk images
//! stays with the host.

use vstd::prelude::*;

verus! {

/// Side length, in pixels, of the built-in noise bitmap.
pub const NOISE_SIDE: usize = 64;

/// Number of bytes of the built-in noise bitmap (RGBA8, row-major).
pub const NOISE_BYTES: usize = 16384;

/// Seed of the noise generator.
pub const NOISE_SEED: u32 = 2654435769;

/// One step of the linear congruential generator behind the noise bitmap.
pub open spec fn spec_noise_step(s: u32) -> u32 {
    (((s as int) * 1664525 + 1013904223) % 0x1_0000_0000) as u32
}

/// Generator state after `k` steps from the seed.
pub open spec fn spec_noise_state(k: nat) -> u32
    decreases k,
{
    if k == 0 {
        NOISE_SEED
    } else {
        spec_noise_step(spec_noise_state((k - 1) as nat))
    }
}

/// The bytes of the built-in noise bitmap: one generator byte each.
pub open spec fn spec_noise_bytes() -> Seq<u8> {
    Seq::new(NOISE_BYTES as nat, |i: int| (spec_noise_state(i as nat) % 256) as u8)
}

/// One exec step of the generator.
fn noise_step(s: u32) -> (r: u32)
    ensures
        r == spec_noise_step(s),
{
    let v: u64 = s as u64 * 1664525u64 + 1013904223u64;
    (v % 0x1_0000_0000u64) as u32
}

/// The built-in noise bitmap, RGBA8 and row-major at `NOISE_SIDE` pixels a
/// side.
pub fn rgba_noise_small() -> (r: Vec<u8>)
    ensures
        r@ == spec_noise_bytes(),
{
    let mut v: Vec<u8> = Vec::new();
    let mut state: u32 = NOISE_SEED;
    let mut i: usize = 0;
    while i < NOISE_BYTES
        invariant
            i <= NOISE_BYTES,
            v@.len() == i,
            state == spec_noise_state(i as nat),
            forall|k: int| 0 <= k < i ==> v@[k] == (spec_noise_state(k as nat) % 256) as u8,
        decreases NOISE_BYTES - i,
    {
        v.push((state % 256) as u8);
        state = noise_step(state);
        i = i + 1;
    }
    proof {
        assert(v@ =~= spec_noise_bytes());
    }
    v
}

/// Flip a row-major RGBA8 bitmap vertically: row `r` of the result is row
/// `height - 1 - r` of the input.
pub fn flip_rows(data: &Vec<u8>, width: usize, height: usize) -> (r: Vec<u8>)
    requires
        data@.len() == width * height * 4,
    ensures
        r@.len() == data@.len(),
        forall|row: int, k: int|
            0 <= row < height && 0 <= k < width * 4 ==> #[trigger] r@[row * (width * 4) + k]
                == data@[(height - 1 - row) * (width * 4) + k],
{
    let len = data.len();
    if height == 0 {
        return Vec::new();
    }
    proof {
        assert(width * 4 <= width * height * 4) by (nonlinear_arith)
            requires height >= 1, width >= 0;
    }
    let stride = width * 4;
    let mut v: Vec<u8> = Vec::new();
    let mut row: usize = 0;
    while row < height
        invariant
            row <= height,
            stride == width * 4,
            data@.len() == width * height * 4,
            data@.len() == len,
            v@.len() == row * stride,
            forall|rr: int, k: int|
                0 <= rr < row && 0 <= k < stride ==> #[trigger] v@[rr * (width * 4) + k]
                    == data@[(height - 1 - rr) * (width * 4) + k],
        decreases height - row,
    {
        proof {
            assert((row + 1) * stride <= height * stride) by (nonlinear_arith)
                requires row + 1 <= height, stride >= 0;
            assert(height * stride == width * height * 4) by (nonlinear_arith)
                requires stride == width * 4;
            assert((height - 1 - row) * stride + stride <= height * stride) by (nonlinear_arith)
                requires 0 <= row < height, stride >= 0;
        }
        let src_row = height - 1 - row;
        let mut k: usize = 0;
        while k < stride
            invariant
                k <= stride,
                row < height,
                src_row == height - 1 - row,
                stride == width * 4,
                data@.len() == width * height * 4,
                data@.len() == len,
                (row + 1) * stride <= data@.len(),
                src_row * stride + stride <= data@.len(),
                v@.len() == row * stride + k,
                forall|rr: int, kk: int|
                    0 <= rr < row && 0 <= kk < stride ==> #[trigger] v@[rr * (width * 4) + kk]
                        == data@[(height - 1 - rr) * (width * 4) + kk],
                forall|kk: int|
                    0 <= kk < k ==> #[trigger] v@[row * (width * 4) + kk]
                        == data@[(height - 1 - row) * (width * 4) + kk],
            decreases stride - k,
        {
            proof {
                assert(row * stride + k < (row + 1) * stride) by (nonlinear_arith)
                    requires k < stride, row >= 0;
            }
            let b = data[src_row * stride + k];
            v.push(b);
            k = k + 1;
            proof {
                assert forall|rr: int, kk: int|
                    0 <= rr < row && 0 <= kk < stride implies #[trigger] v@[rr * (width * 4) + kk]
                        == data@[(height - 1 - rr) * (width * 4) + kk] by {
                    assert(rr * (width * 4) + kk < row * (width * 4)) by (nonlinear_arith)
                        requires 0 <= rr, rr < row, 0 <= kk, kk < width * 4;
                }
            }
        }
        row = row + 1;
        proof {
            assert(v@.len() == row * stride) by (nonlinear_arith)
                requires v@.len() == (row - 1) * stride + stride;
        }
    }
    proof {
        assert(v@.len() == height * stride);
        assert(height * stride == width * height * 4) by (nonlinear_arith)
            requires stride == width * 4;
    }
    v
}

} // verus!
