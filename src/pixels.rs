//! Conversion of captured camera frames to packed RGB.
use vstd::prelude::*;

verus! {

/// The RGB buffer for a `width` by `height` frame whose captured pixels are
/// `bgra`, four bytes each in blue, green, red, alpha order: each whole
/// captured pixel gives its red, green and blue bytes, alpha is dropped, and
/// the rest of the buffer stays zero.
pub open spec fn rgb_of(bgra: Seq<u8>, width: nat, height: nat) -> Seq<u8> {
    let n = bgra.len() / 4;
    Seq::new(
        width * height * 3,
        |k: int|
            if k / 3 < n {
                bgra[(k / 3) * 4 + (2 - k % 3)]
            } else {
                0u8
            },
    )
}

/// Converts a captured BGRA frame to packed RGB, as `rgb_of` states.
pub fn bgra_to_rgb(bgra: &Vec<u8>, width: u32, height: u32) -> (r: Vec<u8>)
    requires
        bgra@.len() / 4 <= width as nat * height as nat,
        width as nat * height as nat * 3 <= usize::MAX,
    ensures
        r@ == rgb_of(bgra@, width as nat, height as nat),
{
    let total: usize = (width as usize) * (height as usize) * 3;
    let mut buffer: Vec<u8> = Vec::new();
    let mut k: usize = 0;
    while k < total
        invariant
            total == width as nat * height as nat * 3,
            k <= total,
            buffer@.len() == k,
            forall|i: int| 0 <= i < k ==> buffer@[i] == 0,
        decreases total - k,
    {
        buffer.push(0);
        k = k + 1;
    }
    let len: usize = bgra.len();
    let n: usize = len / 4;
    let mut j: usize = 0;
    while j < n
        invariant
            len == bgra@.len(),
            n == bgra@.len() / 4,
            n <= width as nat * height as nat,
            total == width as nat * height as nat * 3,
            j <= n,
            buffer@.len() == total,
            forall|i: int|
                0 <= i < total ==> #[trigger] buffer@[i] == if i / 3 < j {
                    bgra@[(i / 3) * 4 + (2 - i % 3)]
                } else {
                    0u8
                },
        decreases n - j,
    {
        assert(j * 4 + 3 < bgra@.len()) by (nonlinear_arith)
            requires
                j < n,
                n == bgra@.len() / 4,
        ;
        buffer.set(j * 3, bgra[j * 4 + 2]);
        buffer.set(j * 3 + 1, bgra[j * 4 + 1]);
        buffer.set(j * 3 + 2, bgra[j * 4]);
        j = j + 1;
    }
    assert(buffer@ =~= rgb_of(bgra@, width as nat, height as nat));
    buffer
}

} // verus!
