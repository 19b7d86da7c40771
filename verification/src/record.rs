//! The size a window is captured at: video encoders want even sizes.

use vstd::prelude::*;

verus! {

/// A size in pixels.
#[derive(Debug, Clone, Copy, PartialEq, Eq, Structural)]
pub struct SizeInt32 {
    pub width: i32,
    pub height: i32,
}

/// `n` rounded up to the next even number.
pub open spec fn round_up_even(n: int) -> int {
    if n % 2 == 0 { n } else { n + 1 }
}

/// The size a capture item is recorded at: each side rounded up to an
/// even number of pixels.
pub fn get_capture_item_size(size: SizeInt32) -> (r: SizeInt32)
    requires
        size.width < i32::MAX,
        size.height < i32::MAX,
    ensures
        r.width == round_up_even(size.width as int),
        r.height == round_up_even(size.height as int),
{
    SizeInt32 {
        width: if size.width % 2 == 0 { size.width } else { size.width + 1 },
        height: if size.height % 2 == 0 { size.height } else { size.height + 1 },
    }
}

/// Rounding up to an even number gives the least even number that is not
/// smaller: the result is even, at least `n`, and at most one more than `n`;
/// an even `n` stays.
pub proof fn lemma_round_up_even(n: int)
    ensures
        round_up_even(n) % 2 == 0,
        n <= round_up_even(n) <= n + 1,
        n % 2 == 0 ==> round_up_even(n) == n,
{
}

} // verus!
