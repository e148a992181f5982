//! What a bitmap must measure before the graphics device is asked for it.

use vstd::prelude::*;

verus! {

/// Whether an extent has any pixel to draw.
pub open spec fn is_drawable(width: int, height: int) -> bool {
    width > 0 && height > 0
}

/// The dimensions a bitmap can be made at, or `None`: a client rectangle has no
/// area while its window is minimised.
pub fn drawable_extent(width: i32, height: i32) -> (r: Option<(i32, i32)>)
    ensures
        r == (if width > 0 && height > 0 {
            Some((width, height))
        } else {
            None
        }),
        r is Some == is_drawable(width as int, height as int),
{
    if width > 0 && height > 0 {
        Some((width, height))
    } else {
        None
    }
}

/// The bytes of a square bitmap of four-byte pixels.
pub open spec fn colour_length(size: nat) -> nat {
    size * size * 4
}

/// The bytes of one row of a one-bit mask: one bit a pixel, padded to a whole
/// number of 16-bit words.
pub open spec fn mask_stride(size: nat) -> nat {
    (size + 15) / 16 * 2
}

/// The bytes of a square one-bit mask.
pub open spec fn mask_length(size: nat) -> nat {
    mask_stride(size) * size
}

/// Whether `bgra` is exactly the pixels of a bitmap `size` pixels square.
pub fn holds_colours(size: u32, bgra: &[u8]) -> (r: bool)
    ensures
        r == (bgra@.len() == colour_length(size as nat)),
{
    let side = size as u128;
    proof {
        assert(size * size <= 0xffff_fffe_0000_0001) by (nonlinear_arith)
            requires
                0 <= size <= 0xffff_ffff,
        ;
    }
    bgra.len() as u128 == side * side * 4
}

/// Whether `bits` is exactly the rows of a mask `size` pixels square. A buffer
/// even one row short would be read past its end.
pub fn holds_mask(size: u32, bits: &[u8]) -> (r: bool)
    ensures
        r == (bits@.len() == mask_length(size as nat)),
{
    let side = size as u128;
    let stride: u128 = (side + 15) / 16 * 2;
    proof {
        assert(stride * side <= 0x2000_0002 * 0xffff_ffff) by (nonlinear_arith)
            requires
                0 <= stride <= 0x2000_0002,
                0 <= side <= 0xffff_ffff,
        ;
    }
    bits.len() as u128 == stride * side
}

/// A mask row holds every pixel of its row, in the fewest whole words that can.
pub proof fn a_mask_row_holds_its_pixels(size: nat)
    ensures
        mask_stride(size) % 2 == 0,
        mask_stride(size) * 8 >= size,
        mask_stride(size) * 8 < size + 16,
{
}

/// A bitmap takes four bytes for each of its pixels: growing its side by one
/// adds a row, a column and a corner of them.
pub proof fn a_pixel_takes_four_bytes(size: nat)
    ensures
        colour_length(0) == 0,
        colour_length(size + 1) == colour_length(size) + 4 * (2 * size + 1),
{
    assert((size + 1) * (size + 1) == size * size + 2 * size + 1) by (nonlinear_arith);
    assert(0nat * 0nat == 0nat);
}

/// A mask takes one bit for each of its pixels, each of its rows filled up to
/// sixteen.
pub proof fn a_mask_takes_a_bit_for_each_pixel(size: nat)
    ensures
        mask_length(size) == mask_stride(size) * size,
        8 * mask_length(size) >= size * size,
        size > 0 ==> 8 * mask_length(size) < size * (size + 16),
{
    let stride = mask_stride(size);
    assert(8 * (stride * size) >= size * size) by (nonlinear_arith)
        requires
            8 * stride >= size,
    ;
    if size > 0 {
        assert(8 * (stride * size) < size * (size + 16)) by (nonlinear_arith)
            requires
                8 * stride < size + 16,
                size > 0,
        ;
    }
}

/// An extent can be drawn exactly when it has at least a pixel each way.
pub proof fn a_single_pixel_can_be_drawn(width: int, height: int)
    ensures
        width >= 1 && height >= 1 ==> is_drawable(width, height),
        width < 1 || height < 1 ==> !is_drawable(width, height),
{
}

} // verus!
