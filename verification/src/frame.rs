//! Assembling a frame from the chip's stream of pixel fragments.
//!
//! In raw-data-grab mode every read of the grab register brings one
//! fragment. Its top two bits say what it is: `01` brings the upper six bits
//! of the pixel under assembly in its own low six bits, `10` brings the
//! pixel's lower two bits in its bits 3 and 2 and completes the pixel. A
//! fragment with any other tag carries nothing.

use vstd::prelude::*;

verus! {

/// Number of pixels along one side of a frame.
pub const FRAME_SIDE: usize = 35;

/// Number of pixels, and bytes, in a frame: 35 rows of 35, row after row.
pub const FRAME_SIZE: usize = 1225;

/// The bits of a fragment that hold its tag.
pub const TAG_MASK: u8 = 0b1100_0000;

/// Tag of a fragment that brings the upper six bits of a pixel.
pub const TAG_UPPER: u8 = 0b0100_0000;

/// Tag of a fragment that brings the lower two bits of a pixel.
pub const TAG_LOWER: u8 = 0b1000_0000;

/// The pixel after a fragment has been merged into it. An upper fragment
/// replaces the upper six bits and keeps the lower two; a lower fragment
/// replaces the lower two and keeps the upper six; any other leaves the pixel
/// as it is.
pub open spec fn merged(pixel: u8, fragment: u8) -> u8 {
    if (fragment & TAG_MASK) == TAG_UPPER {
        (pixel & 0b0000_0011) | (fragment << 2)
    } else if (fragment & TAG_MASK) == TAG_LOWER {
        (pixel & 0b1111_1100) | ((fragment & 0b0000_1100) >> 2)
    } else {
        pixel
    }
}

/// Whether the fragment completes the pixel under assembly.
pub open spec fn completes(fragment: u8) -> bool {
    (fragment & TAG_MASK) == TAG_LOWER
}

/// The pixel that an upper and a lower fragment make together.
pub open spec fn pixel_of(upper: u8, lower: u8) -> u8 {
    (upper << 2) | ((lower & 0b0000_1100) >> 2)
}

/// A frame under assembly: the pixels so far and how many are complete.
pub struct Canvas {
    pub pixels: Seq<u8>,
    pub filled: nat,
}

impl Canvas {
    /// A frame of which nothing has arrived yet: every pixel zero.
    pub open spec fn blank() -> Canvas {
        Canvas { pixels: Seq::new(FRAME_SIZE as nat, |i: int| 0u8), filled: 0 }
    }

    /// Whether every pixel is complete.
    pub open spec fn full(self) -> bool {
        self.filled >= self.pixels.len()
    }

    /// The canvas after one more fragment. The fragment is merged into the
    /// first incomplete pixel; a lower fragment then completes that pixel. A
    /// full canvas takes nothing.
    pub open spec fn absorb(self, fragment: u8) -> Canvas {
        if self.full() {
            self
        } else {
            Canvas {
                pixels: self.pixels.update(
                    self.filled as int,
                    merged(self.pixels[self.filled as int], fragment),
                ),
                filled: if completes(fragment) {
                    self.filled + 1
                } else {
                    self.filled
                },
            }
        }
    }

    /// The canvas after a stream of fragments, taken in order.
    pub open spec fn absorb_all(self, stream: Seq<u8>) -> Canvas
        decreases stream.len(),
    {
        if stream.len() == 0 {
            self
        } else {
            self.absorb(stream[0]).absorb_all(stream.drop_first())
        }
    }

    /// Whether the stream fills the canvas and not more: its last fragment
    /// completes the last pixel, and the canvas is not full before.
    pub open spec fn filled_by(self, stream: Seq<u8>) -> bool
        decreases stream.len(),
    {
        &&& stream.len() > 0
        &&& !self.full()
        &&& if stream.len() == 1 {
            self.absorb(stream[0]).full()
        } else {
            self.absorb(stream[0]).filled_by(stream.drop_first())
        }
    }
}

/// The stream that sends pixel after pixel, each as its upper fragment
/// followed by its lower one.
pub open spec fn interleaved(uppers: Seq<u8>, lowers: Seq<u8>) -> Seq<u8> {
    Seq::new(
        2 * uppers.len(),
        |k: int|
            if k % 2 == 0 {
                uppers[k / 2]
            } else {
                lowers[k / 2]
            },
    )
}

/// Whether every byte of `fragments` carries the tag `tag`.
pub open spec fn all_tagged(fragments: Seq<u8>, tag: u8) -> bool {
    forall|i: int| 0 <= i < fragments.len() ==> (#[trigger] fragments[i] & TAG_MASK) == tag
}

/// Computes [`merged`].
pub fn merge_fragment(pixel: u8, fragment: u8) -> (result: u8)
    ensures
        result == merged(pixel, fragment),
{
    if (fragment & TAG_MASK) == TAG_UPPER {
        (pixel & 0b0000_0011) | (fragment << 2)
    } else if (fragment & TAG_MASK) == TAG_LOWER {
        (pixel & 0b1111_1100) | ((fragment & 0b0000_1100) >> 2)
    } else {
        pixel
    }
}

/// Tests [`completes`].
pub fn completes_pixel(fragment: u8) -> (done: bool)
    ensures
        done == completes(fragment),
{
    (fragment & TAG_MASK) == TAG_LOWER
}

/// An upper fragment followed by a lower one makes [`pixel_of`] the two,
/// whatever the pixel held before.
pub proof fn lemma_pair_makes_pixel(pixel: u8, upper: u8, lower: u8)
    requires
        (upper & TAG_MASK) == TAG_UPPER,
        (lower & TAG_MASK) == TAG_LOWER,
    ensures
        merged(merged(pixel, upper), lower) == pixel_of(upper, lower),
        !completes(upper),
        completes(lower),
{
    assert((upper & 0xC0) == 0x40 && (lower & 0xC0) == 0x80 ==> ((((pixel & 0b0000_0011) | (upper
        << 2)) & 0b1111_1100) | ((lower & 0b0000_1100) >> 2)) == ((upper << 2) | ((lower
        & 0b0000_1100) >> 2))) by (bit_vector);
}

/// Every pixel value can be sent: the upper fragment carries its upper six
/// bits, the lower fragment its lower two.
pub proof fn lemma_fragments_of_pixel(pixel: u8)
    ensures
        ((0x40u8 | (pixel >> 2)) & TAG_MASK) == TAG_UPPER,
        ((0x80u8 | ((pixel & 0b11) << 2)) & TAG_MASK) == TAG_LOWER,
        pixel_of(0x40u8 | (pixel >> 2), 0x80u8 | ((pixel & 0b11) << 2)) == pixel,
{
    assert(((0x40u8 | (pixel >> 2)) & 0xC0) == 0x40) by (bit_vector);
    assert(((0x80u8 | ((pixel & 0b11) << 2)) & 0xC0) == 0x80) by (bit_vector);
    assert((((0x40u8 | (pixel >> 2)) << 2) | (((0x80u8 | ((pixel & 0b11) << 2)) & 0b0000_1100)
        >> 2)) == pixel) by (bit_vector);
}

/// A fragment that is neither upper nor lower changes nothing.
pub proof fn lemma_untagged_fragment(canvas: Canvas, fragment: u8)
    requires
        canvas.filled <= canvas.pixels.len(),
        (fragment & TAG_MASK) != TAG_UPPER,
        (fragment & TAG_MASK) != TAG_LOWER,
    ensures
        canvas.absorb(fragment) == canvas,
{
    if !canvas.full() {
        assert(canvas.absorb(fragment).pixels =~= canvas.pixels);
    }
}

/// A canvas with `canvas.filled` pixels complete takes the pairs of
/// fragments for all the pixels that are left: the pairs fill it and not
/// more, the complete pixels stay, and each of the others becomes what its
/// pair makes.
pub proof fn lemma_pairs_fill(canvas: Canvas, uppers: Seq<u8>, lowers: Seq<u8>)
    requires
        canvas.filled < canvas.pixels.len(),
        uppers.len() == canvas.pixels.len() - canvas.filled,
        lowers.len() == uppers.len(),
        all_tagged(uppers, TAG_UPPER),
        all_tagged(lowers, TAG_LOWER),
    ensures
        canvas.filled_by(interleaved(uppers, lowers)),
        canvas.absorb_all(interleaved(uppers, lowers)) == (Canvas {
            pixels: Seq::new(
                canvas.pixels.len(),
                |j: int|
                    if j < canvas.filled {
                        canvas.pixels[j]
                    } else {
                        pixel_of(uppers[j - canvas.filled], lowers[j - canvas.filled])
                    },
            ),
            filled: canvas.pixels.len(),
        }),
    decreases uppers.len(),
{
    let stream = interleaved(uppers, lowers);
    let at = canvas.filled as int;
    let upper = uppers[0];
    let lower = lowers[0];
    assert(stream[0] == upper);
    assert(stream[1] == lower);
    assert((uppers[0] & TAG_MASK) == TAG_UPPER);
    assert((lowers[0] & TAG_MASK) == TAG_LOWER);
    lemma_pair_makes_pixel(canvas.pixels[at], upper, lower);
    let half = canvas.absorb(upper);
    let next = half.absorb(lower);
    assert(half.filled == canvas.filled);
    assert(next.filled == canvas.filled + 1);
    assert(next.pixels =~= canvas.pixels.update(at, pixel_of(upper, lower)));
    let rest = stream.drop_first();
    assert(rest[0] == lower);
    assert(canvas.absorb_all(stream) == half.absorb_all(rest));
    assert(half.absorb_all(rest) == next.absorb_all(rest.drop_first()));
    let wanted = Canvas {
        pixels: Seq::new(
            canvas.pixels.len(),
            |j: int|
                if j < canvas.filled {
                    canvas.pixels[j]
                } else {
                    pixel_of(uppers[j - canvas.filled], lowers[j - canvas.filled])
                },
        ),
        filled: canvas.pixels.len(),
    };
    if uppers.len() == 1 {
        assert(rest.drop_first() =~= Seq::<u8>::empty());
        assert(next.pixels =~= wanted.pixels);
        assert(rest.len() == 1);
        assert(next.full());
        assert(half.filled_by(rest));
        assert(canvas.filled_by(stream));
    } else {
        let later_uppers = uppers.drop_first();
        let later_lowers = lowers.drop_first();
        assert(rest.drop_first() =~= interleaved(later_uppers, later_lowers)) by {
            assert forall|k: int| 0 <= k < 2 * later_uppers.len() implies rest.drop_first()[k]
                == interleaved(later_uppers, later_lowers)[k] by {
                assert(rest.drop_first()[k] == stream[k + 2]);
                assert((k + 2) % 2 == k % 2);
                assert((k + 2) / 2 == k / 2 + 1);
            }
        }
        assert forall|i: int| 0 <= i < later_uppers.len() implies (#[trigger] later_uppers[i]
            & TAG_MASK) == TAG_UPPER by {
            assert((uppers[i + 1] & TAG_MASK) == TAG_UPPER);
        }
        assert forall|i: int| 0 <= i < later_lowers.len() implies (#[trigger] later_lowers[i]
            & TAG_MASK) == TAG_LOWER by {
            assert((lowers[i + 1] & TAG_MASK) == TAG_LOWER);
        }
        lemma_pairs_fill(next, later_uppers, later_lowers);
        assert(next.absorb_all(rest.drop_first()).pixels =~= wanted.pixels);
        assert(rest.len() > 1);
        assert(next.filled_by(rest.drop_first()));
        assert(half.filled_by(rest));
        assert(canvas.filled_by(stream));
    }
}

/// A stream that alternates upper and lower fragments, one pair for each
/// pixel of a frame, fills a blank canvas and not more, and makes each pixel
/// what its pair makes.
pub proof fn lemma_alternating_stream(uppers: Seq<u8>, lowers: Seq<u8>)
    requires
        uppers.len() == FRAME_SIZE,
        lowers.len() == FRAME_SIZE,
        all_tagged(uppers, TAG_UPPER),
        all_tagged(lowers, TAG_LOWER),
    ensures
        Canvas::blank().filled_by(interleaved(uppers, lowers)),
        Canvas::blank().absorb_all(interleaved(uppers, lowers)) == (Canvas {
            pixels: Seq::new(FRAME_SIZE as nat, |j: int| pixel_of(uppers[j], lowers[j])),
            filled: FRAME_SIZE as nat,
        }),
{
    lemma_pairs_fill(Canvas::blank(), uppers, lowers);
    assert(Canvas::blank().absorb_all(interleaved(uppers, lowers)).pixels =~= Seq::new(
        FRAME_SIZE as nat,
        |j: int| pixel_of(uppers[j], lowers[j]),
    ));
}

} // verus!
