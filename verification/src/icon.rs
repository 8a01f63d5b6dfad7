//! The built-in tray icon, drawn when no icon file can be loaded: a glass
//! disc of radius 14 centred on the 32×32 image, with a deep blue opaque
//! rim beyond radius 11 and a half-transparent light blue inside.
//!
//! Distances are compared squared and in half-pixel units, so that the
//! centre (15.5, 15.5) and both radii are whole numbers and the
//! classification of every pixel is exact.
use vstd::prelude::*;

verus! {

/// Width and height of the icon in pixels.
pub const ICON_SIZE: usize = 32;

/// Bytes per RGBA pixel.
pub const BYTES_PER_PIXEL: usize = 4;

/// Squared distance of pixel `(x, y)` from the icon centre, in quarter
/// pixels squared: `(2x - 31)² + (2y - 31)²`.
pub open spec fn doubled_distance_squared(x: int, y: int) -> int {
    (2 * x - 31) * (2 * x - 31) + (2 * y - 31) * (2 * y - 31)
}

/// Channel `k` (R, G, B, A) of pixel `(x, y)`: inside radius 14 (`4·14²`),
/// the rim beyond radius 11 (`4·11²`) is `(0, 120, 215, 255)` and the inner
/// disc `(0, 150, 255, 128)`; outside the disc the pixel is fully transparent.
pub open spec fn glass_channel(x: int, y: int, k: int) -> u8 {
    let d = doubled_distance_squared(x, y);
    if d < 784 {
        if d > 484 {
            if k == 0 {
                0
            } else if k == 1 {
                120
            } else if k == 2 {
                215
            } else {
                255
            }
        } else {
            if k == 0 {
                0
            } else if k == 1 {
                150
            } else if k == 2 {
                255
            } else {
                128
            }
        }
    } else {
        0
    }
}

/// The icon image: rows from top to bottom, pixels left to right, four
/// bytes (R, G, B, A) per pixel.
pub open spec fn glass_icon() -> Seq<u8> {
    Seq::new(
        4096,
        |i: int| glass_channel((i / 4) % 32, (i / 4) / 32, i % 4),
    )
}

proof fn lemma_byte_position(p: int, k: int)
    requires
        0 <= p < 1024,
        0 <= k < 4,
    ensures
        (4 * p + k) / 4 == p,
        (4 * p + k) % 4 == k,
{
    assert((4 * p + k) / 4 == p && (4 * p + k) % 4 == k) by (nonlinear_arith)
        requires
            0 <= p,
            0 <= k < 4,
    ;
}

/// Draws the built-in glass icon as 32×32 RGBA bytes.
pub fn fallback_icon_rgba() -> (r: Vec<u8>)
    ensures
        r@ == glass_icon(),
        r@.len() == ICON_SIZE * ICON_SIZE * BYTES_PER_PIXEL,
{
    let mut rgba: Vec<u8> = Vec::new();
    let mut p: usize = 0;
    while p < 1024
        invariant
            p <= 1024,
            rgba@.len() == 4 * p,
            forall|i: int| 0 <= i < 4 * p ==> #[trigger] rgba@[i] == glass_icon()[i],
        decreases 1024 - p,
    {
        let x: i32 = (p % 32) as i32;
        let y: i32 = (p / 32) as i32;
        let dx: i32 = 2 * x - 31;
        let dy: i32 = 2 * y - 31;
        assert(0 <= dx * dx <= 961 && 0 <= dy * dy <= 961) by (nonlinear_arith)
            requires
                -31 <= dx <= 31,
                -31 <= dy <= 31,
        ;
        let d: i32 = dx * dx + dy * dy;
        let px: [u8; 4] = if d < 784 {
            if d > 484 {
                [0, 120, 215, 255]
            } else {
                [0, 150, 255, 128]
            }
        } else {
            [0, 0, 0, 0]
        };
        let ghost before = rgba@;
        let mut k: usize = 0;
        while k < 4
            invariant
                p < 1024,
                k <= 4,
                x == (p as int) % 32,
                y == (p as int) / 32,
                d == doubled_distance_squared(x as int, y as int),
                forall|j: int| 0 <= j < 4 ==> #[trigger] px@[j] == glass_channel(x as int, y as int, j),
                rgba@.len() == 4 * p + k,
                forall|i: int| 0 <= i < 4 * p + k ==> #[trigger] rgba@[i] == glass_icon()[i],
            decreases 4 - k,
        {
            proof {
                lemma_byte_position(p as int, k as int);
            }
            rgba.push(px[k]);
            k = k + 1;
        }
        p = p + 1;
    }
    assert(rgba@ =~= glass_icon());
    rgba
}

/// The glass disc is round and centred: the image is unchanged by mirroring
/// left-right, top-bottom or across the diagonal; its pixels are fully
/// transparent, half-transparent (alpha 128) or opaque (alpha 255), and an
/// opaque pixel lies farther from the centre than a half-transparent one.
pub proof fn law_icon_is_a_centred_disc(x: int, y: int, k: int, x2: int, y2: int)
    requires
        0 <= x < 32,
        0 <= y < 32,
        0 <= k < 4,
        0 <= x2 < 32,
        0 <= y2 < 32,
    ensures
        glass_channel(x, y, k) == glass_channel(31 - x, y, k),
        glass_channel(x, y, k) == glass_channel(x, 31 - y, k),
        glass_channel(x, y, k) == glass_channel(y, x, k),
        glass_channel(x, y, 3) == 0 || glass_channel(x, y, 3) == 128 || glass_channel(x, y, 3)
            == 255,
        glass_channel(x, y, 3) == 0 ==> glass_channel(x, y, 0) == 0 && glass_channel(x, y, 1) == 0
            && glass_channel(x, y, 2) == 0,
        glass_channel(x, y, 3) == 255 && glass_channel(x2, y2, 3) == 128
            ==> doubled_distance_squared(x2, y2) < doubled_distance_squared(x, y),
{
    assert((2 * (31 - x) - 31) * (2 * (31 - x) - 31) == (2 * x - 31) * (2 * x - 31))
        by (nonlinear_arith);
    assert((2 * (31 - y) - 31) * (2 * (31 - y) - 31) == (2 * y - 31) * (2 * y - 31))
        by (nonlinear_arith);
}

} // verus!
