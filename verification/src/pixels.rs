//! Conversion of a screen capture from Windows' BGRA byte order to the RGBA
//! order that the PNG encoder takes.

use vstd::prelude::*;

verus! {

/// Number of bytes of `len` that belong to whole four-byte pixels.
pub open spec fn whole_pixel_bytes(len: int) -> int {
    len - len % 4
}

/// Byte `i` of `src` once blue and red are exchanged in every whole pixel:
/// the first and third byte of each complete group of four trade places,
/// every other byte (green, alpha, a trailing partial pixel) stays.
pub open spec fn swapped_byte(src: Seq<u8>, i: int) -> u8 {
    if i < whole_pixel_bytes(src.len() as int) && i % 4 == 0 {
        src[i + 2]
    } else if i < whole_pixel_bytes(src.len() as int) && i % 4 == 2 {
        src[i - 2]
    } else {
        src[i]
    }
}

/// `src` with red and blue exchanged in every whole pixel.
pub open spec fn red_blue_swapped(src: Seq<u8>) -> Seq<u8> {
    Seq::new(src.len(), |i: int| swapped_byte(src, i))
}

/// Turns BGRA pixels into RGBA pixels (and back: the exchange is its own
/// inverse). A trailing group of fewer than four bytes is copied unchanged.
pub fn bgra_to_rgba(pixels: &[u8]) -> (rgba: Vec<u8>)
    ensures
        rgba@ == red_blue_swapped(pixels@),
{
    let n = pixels.len();
    let whole = n - n % 4;
    let mut out: Vec<u8> = Vec::with_capacity(n);
    let mut i: usize = 0;
    while i < n
        invariant
            n == pixels@.len(),
            whole == whole_pixel_bytes(n as int),
            i <= n,
            out@.len() == i,
            forall|j: int| 0 <= j < i ==> out@[j] == swapped_byte(pixels@, j),
        decreases n - i,
    {
        let byte = if i < whole && i % 4 == 0 {
            pixels[i + 2]
        } else if i < whole && i % 4 == 2 {
            pixels[i - 2]
        } else {
            pixels[i]
        };
        out.push(byte);
        i += 1;
    }
    assert(out@ =~= red_blue_swapped(pixels@));
    out
}

/// Exchanging red and blue keeps the length, and doing it twice gives back
/// the bytes one started with.
pub proof fn lemma_swap_is_involution(src: Seq<u8>)
    ensures
        red_blue_swapped(src).len() == src.len(),
        red_blue_swapped(red_blue_swapped(src)) == src,
{
    let once = red_blue_swapped(src);
    assert(red_blue_swapped(once) =~= src);
}

/// Exchanging red and blue leaves green, alpha and any trailing partial
/// pixel untouched, and moves each pixel's red and blue into each other's place.
pub proof fn lemma_swap_moves_only_red_and_blue(src: Seq<u8>, p: int)
    requires
        0 <= p,
        4 * p + 4 <= src.len(),
    ensures
        red_blue_swapped(src)[4 * p] == src[4 * p + 2],
        red_blue_swapped(src)[4 * p + 1] == src[4 * p + 1],
        red_blue_swapped(src)[4 * p + 2] == src[4 * p],
        red_blue_swapped(src)[4 * p + 3] == src[4 * p + 3],
        forall|i: int|
            whole_pixel_bytes(src.len() as int) <= i < src.len() ==> red_blue_swapped(src)[i]
                == src[i],
{
}

} // verus!
