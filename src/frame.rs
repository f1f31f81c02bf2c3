//! Frame normalisation: captured frames come in the capture layer's channel
//! order (first and third channels swapped relative to RGBA); the quantiser
//! wants RGBA without padding.
use vstd::prelude::*;

verus! {

/// Where byte `i` of a normalised buffer is taken from in the raw buffer:
/// the first and third channel of each pixel trade places.
pub open spec fn source_index(i: int) -> int {
    if i % 4 == 0 {
        i + 2
    } else if i % 4 == 2 {
        i - 2
    } else {
        i
    }
}

/// The first `pixels` pixels of `raw`, with channels 0 and 2 swapped.
pub open spec fn swapped_channels(raw: Seq<u8>, pixels: nat) -> Seq<u8> {
    Seq::new(pixels * 4, |i: int| raw[source_index(i)])
}

/// Turns a frame of `width * height` pixels into RGBA order: for each pixel
/// `(c0, c1, c2, c3)` the result holds `(c2, c1, c0, c3)`. Bytes past the
/// last pixel are ignored.
pub fn swap_color_channels(buffer: &[u8], width: usize, height: usize) -> (r: Vec<u8>)
    requires
        width * height * 4 <= buffer@.len(),
    ensures
        r@ == swapped_channels(buffer@, (width * height) as nat),
        r@.len() == width * height * 4,
{
    let len: usize = buffer.len();
    assert(width * height <= len) by (nonlinear_arith)
        requires
            width * height * 4 <= len,
    ;
    let pixels: usize = width * height;
    let mut swapped_buffer: Vec<u8> = Vec::with_capacity(pixels * 4);
    let mut p: usize = 0;
    while p < pixels
        invariant
            pixels * 4 <= buffer@.len(),
            len == buffer@.len(),
            p <= pixels,
            swapped_buffer@ == swapped_channels(buffer@, p as nat),
        decreases pixels - p,
    {
        let i: usize = p * 4;
        swapped_buffer.push(buffer[i + 2]);
        swapped_buffer.push(buffer[i + 1]);
        swapped_buffer.push(buffer[i]);
        swapped_buffer.push(buffer[i + 3]);
        p = p + 1;
        assert(swapped_buffer@ =~= swapped_channels(buffer@, p as nat)) by {
            assert forall|j: int| 0 <= j < p * 4 implies #[trigger] swapped_buffer@[j]
                == buffer@[source_index(j)] by {
                if j >= i {
                    assert(j % 4 == j - i);
                }
            }
        }
    }
    swapped_buffer
}

/// Swapping the channels twice gives back the pixels that were swapped: the
/// normaliser is its own inverse on the covered part of the buffer.
pub proof fn lemma_swap_twice_restores(raw: Seq<u8>, pixels: nat)
    requires
        pixels * 4 <= raw.len(),
    ensures
        swapped_channels(swapped_channels(raw, pixels), pixels) == raw.subrange(
            0,
            (pixels * 4) as int,
        ),
{
    let once = swapped_channels(raw, pixels);
    assert(swapped_channels(once, pixels) =~= raw.subrange(0, (pixels * 4) as int)) by {
        assert forall|j: int| 0 <= j < pixels * 4 implies source_index(#[trigger] source_index(j))
            == j && 0 <= source_index(j) < pixels * 4 by {
            assert(j - j % 4 + 4 <= pixels * 4);
        }
    }
}

} // verus!
