//! The transparency scan: clears the alpha byte of every pixel that has
//! exactly the target color.

use crate::domain::color::Color;
use vstd::prelude::*;

verus! {

/// Whether pixel `k` of an RGBA buffer has exactly the channels of `target`.
/// The alpha byte of the pixel plays no part.
pub open spec fn pixel_matches(pixels: Seq<u8>, k: int, target: Color) -> bool {
    &&& pixels[4 * k] == target.r()
    &&& pixels[4 * k + 1] == target.g()
    &&& pixels[4 * k + 2] == target.b()
}

/// The buffer after the scan: the alpha byte of every matching pixel is 0,
/// every other byte is as it was.
pub open spec fn cleared(pixels: Seq<u8>, target: Color) -> Seq<u8> {
    Seq::new(
        pixels.len(),
        |i: int|
            if i % 4 == 3 && pixel_matches(pixels, i / 4, target) {
                0u8
            } else {
                pixels[i]
            },
    )
}

/// How many of the first `n` pixels match `target`. A matching pixel counts
/// whatever its alpha byte holds, so one that is already transparent counts too.
pub open spec fn matching_pixels(pixels: Seq<u8>, target: Color, n: nat) -> nat
    decreases n,
{
    if n == 0 {
        0
    } else {
        matching_pixels(pixels, target, (n - 1) as nat) + if pixel_matches(
            pixels,
            n - 1,
            target,
        ) {
            1nat
        } else {
            0nat
        }
    }
}

/// The number of matching pixels in a whole buffer.
pub open spec fn matches_in(pixels: Seq<u8>, target: Color) -> nat {
    matching_pixels(pixels, target, pixels.len() / 4)
}

/// The count depends on the color bytes of the counted pixels only: two
/// buffers that agree on them have the same number of matching pixels.
pub proof fn lemma_matching_pixels_ignores_alpha(
    before: Seq<u8>,
    after: Seq<u8>,
    target: Color,
    n: nat,
)
    requires
        forall|k: int|
            0 <= k < n ==> (#[trigger] pixel_matches(after, k, target) == pixel_matches(
                before,
                k,
                target,
            )),
    ensures
        matching_pixels(after, target, n) == matching_pixels(before, target, n),
    decreases n,
{
    if n > 0 {
        lemma_matching_pixels_ignores_alpha(before, after, target, (n - 1) as nat);
    }
}

/// Where no pixel matches, the count is zero, and the other way round.
pub proof fn lemma_no_match_iff_zero(pixels: Seq<u8>, target: Color, n: nat)
    ensures
        matching_pixels(pixels, target, n) == 0 <==> forall|k: int|
            0 <= k < n ==> !#[trigger] pixel_matches(pixels, k, target),
    decreases n,
{
    if n > 0 {
        lemma_no_match_iff_zero(pixels, target, (n - 1) as nat);
    }
}

/// Scanning is idempotent: a second scan with the same target color leaves
/// the scanned buffer as it is, byte for byte. The pixels that matched before
/// the first scan are the ones that match after it, so both scans report the
/// same count.
pub proof fn lemma_scan_is_idempotent(pixels: Seq<u8>, target: Color)
    ensures
        cleared(cleared(pixels, target), target) == cleared(pixels, target),
        matches_in(cleared(pixels, target), target) == matches_in(pixels, target),
{
    let once = cleared(pixels, target);
    assert forall|k: int| 0 <= k < pixels.len() / 4 implies (#[trigger] pixel_matches(
        once,
        k,
        target,
    ) == pixel_matches(pixels, k, target)) by {
        assert((4 * k) % 4 == 0 && (4 * k + 1) % 4 == 1 && (4 * k + 2) % 4 == 2);
    }
    lemma_matching_pixels_ignores_alpha(pixels, once, target, pixels.len() / 4);
    assert forall|i: int| 0 <= i < once.len() implies cleared(once, target)[i] == once[i] by {
        if i % 4 == 3 {
            assert(0 <= i / 4 < pixels.len() / 4);
        }
    }
    assert(cleared(once, target) =~= once);
}

/// A buffer in which no pixel matches the target color comes out of the scan
/// as it went in, byte for byte. A second scan then yields the same buffer
/// once more, and counts zero pixels as the first did.
pub proof fn lemma_scan_without_match_changes_nothing(pixels: Seq<u8>, target: Color)
    requires
        matches_in(pixels, target) == 0,
    ensures
        cleared(pixels, target) == pixels,
        cleared(cleared(pixels, target), target) == cleared(pixels, target),
        matches_in(cleared(pixels, target), target) == 0,
{
    lemma_no_match_iff_zero(pixels, target, pixels.len() / 4);
    assert forall|i: int| 0 <= i < pixels.len() implies cleared(pixels, target)[i]
        == pixels[i] by {
        if i % 4 == 3 {
            assert(0 <= i / 4 < pixels.len() / 4);
            assert(!pixel_matches(pixels, i / 4, target));
        }
    }
    assert(cleared(pixels, target) =~= pixels);
}

/// Replaces pixels matching the target color with full transparency.
///
/// The buffer holds 4 bytes per pixel: red, green, blue, alpha. For every
/// pixel whose first three bytes equal the channels of `target`, the alpha
/// byte becomes 0; no other byte changes. Returns the number of matching
/// pixels.
///
/// A buffer whose length is not a multiple of 4 is not an RGBA buffer and is
/// not accepted.
pub fn make_transparent(pixels: &mut [u8], target: &Color) -> (count: usize)
    requires
        old(pixels).len() % 4 == 0,
    ensures
        final(pixels)@ == cleared(old(pixels)@, *target),
        count == matches_in(old(pixels)@, *target),
        final(pixels).len() == old(pixels).len(),
        forall|i: int|
            0 <= i < old(pixels).len() && i % 4 != 3 ==> final(pixels)@[i] == old(pixels)@[i],
        forall|k: int|
            0 <= k < old(pixels).len() / 4 && !pixel_matches(old(pixels)@, k, *target)
                ==> #[trigger] final(pixels)@[4 * k + 3] == old(pixels)@[4 * k + 3],
        forall|k: int|
            0 <= k < old(pixels).len() / 4 && pixel_matches(old(pixels)@, k, *target)
                ==> #[trigger] final(pixels)@[4 * k + 3] == 0,
{
    let len: usize = pixels.len();
    let mut count: usize = 0;
    let mut i: usize = 0;
    while i < len
        invariant
            len == old(pixels).len(),
            pixels.len() == len,
            len % 4 == 0,
            i % 4 == 0,
            i <= len,
            count == matching_pixels(old(pixels)@, *target, (i / 4) as nat),
            count <= i / 4,
            forall|j: int| 0 <= j < i ==> pixels@[j] == cleared(old(pixels)@, *target)[j],
            forall|j: int| i <= j < len ==> pixels@[j] == old(pixels)@[j],
        decreases len - i,
    {
        let pixel_color = Color::new(pixels[i], pixels[i + 1], pixels[i + 2]);
        if pixel_color.matches(target) {
            pixels[i + 3] = 0;
            count += 1;
        }
        i += 4;
    }
    assert(pixels@ =~= cleared(old(pixels)@, *target));
    count
}

/// Scans a buffer that may or may not be an RGBA buffer.
///
/// A buffer made of whole pixels is scanned as [`make_transparent`] does,
/// and the number of matching pixels is returned. Any other buffer is
/// refused at once: it is neither cut nor padded, no byte of it changes, and
/// `None` is returned.
pub fn try_make_transparent(pixels: &mut [u8], target: &Color) -> (count: Option<usize>)
    ensures
        old(pixels).len() % 4 == 0 ==> count is Some && count->0 == matches_in(
            old(pixels)@,
            *target,
        ) && final(pixels)@ == cleared(old(pixels)@, *target),
        old(pixels).len() % 4 != 0 ==> count is None && final(pixels)@ == old(pixels)@,
{
    if pixels.len() % 4 == 0 {
        Some(make_transparent(pixels, target))
    } else {
        None
    }
}

} // verus!
