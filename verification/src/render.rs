//! The frame renderer: fills a pixel buffer with a constant dimming colour,
//! black at a fixed alpha.

use vstd::prelude::*;
use crate::pool::PixelBuffer;

verus! {

/// The byte at flat offset `i` of a rendered frame. Pixels are laid out
/// blue, green, red, alpha, so every fourth byte carries the dimming alpha
/// and all others are zero.
pub open spec fn frame_byte(alpha: u8, i: int) -> u8 {
    if i % 4 == 3 {
        alpha
    } else {
        0u8
    }
}

/// The full byte content of a rendered `width` by `height` frame.
pub open spec fn frame_bytes(width: int, height: int, alpha: u8) -> Seq<u8> {
    Seq::new((4 * width * height) as nat, |i: int| frame_byte(alpha, i))
}

/// Fill the buffer with the dimming colour: every pixel black with the
/// given alpha. Rendering is a pure function of the buffer's dimensions
/// and the alpha.
pub fn render(buffer: &mut PixelBuffer, alpha: u8)
    requires
        old(buffer).wf(),
    ensures
        final(buffer).wf(),
        final(buffer).width == old(buffer).width,
        final(buffer).height == old(buffer).height,
        final(buffer).stride == old(buffer).stride,
        final(buffer).data@ == frame_bytes(
            old(buffer).width as int,
            old(buffer).height as int,
            alpha,
        ),
{
    let len: usize = buffer.data.len();
    let mut i: usize = 0;
    while i < len
        invariant
            i <= len,
            buffer.width == old(buffer).width,
            buffer.height == old(buffer).height,
            buffer.stride == old(buffer).stride,
            buffer.data@.len() == len,
            len == old(buffer).data@.len(),
            forall|j: int| 0 <= j < i ==> buffer.data@[j] == frame_byte(alpha, j),
        decreases len - i,
    {
        if i % 4 == 3 {
            buffer.data.set(i, alpha);
        } else {
            buffer.data.set(i, 0u8);
        }
        i = i + 1;
    }
    proof {
        let w: int = buffer.width as int;
        let h: int = buffer.height as int;
        let st: int = buffer.stride as int;
        assert(h * st == 4 * w * h) by (nonlinear_arith)
            requires st == 4 * w;
        assert(buffer.data@ =~= frame_bytes(
            old(buffer).width as int,
            old(buffer).height as int,
            alpha,
        ));
    }
}

/// Pixel `p` of the flat byte sequence `s` reads blue 0, green 0, red 0,
/// alpha `alpha`, in that byte order.
pub open spec fn pixel_is_dim(s: Seq<u8>, alpha: u8, p: int) -> bool {
    &&& s[4 * p] == 0u8
    &&& s[4 * p + 1] == 0u8
    &&& s[4 * p + 2] == 0u8
    &&& s[4 * p + 3] == alpha
}

/// Dimming-colour law: a rendered frame holds exactly `width * height`
/// pixels, and each one is black at the dimming alpha.
pub proof fn lemma_frame_pixels(width: int, height: int, alpha: u8)
    requires
        0 <= width,
        0 <= height,
    ensures
        frame_bytes(width, height, alpha).len() == 4 * width * height,
        forall|p: int| 0 <= p < width * height
            ==> #[trigger] pixel_is_dim(frame_bytes(width, height, alpha), alpha, p),
{
    assert(0 <= 4 * width * height) by (nonlinear_arith)
        requires 0 <= width, 0 <= height;
    assert forall|p: int| 0 <= p < width * height implies
        #[trigger] pixel_is_dim(frame_bytes(width, height, alpha), alpha, p) by {
        assert(4 * p + 3 < 4 * width * height) by (nonlinear_arith)
            requires p < width * height;
        assert((4 * p) % 4 == 0) by (nonlinear_arith);
        assert((4 * p + 1) % 4 == 1) by (nonlinear_arith);
        assert((4 * p + 2) % 4 == 2) by (nonlinear_arith);
        assert((4 * p + 3) % 4 == 3) by (nonlinear_arith);
    }
}

} // verus!
