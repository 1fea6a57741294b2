//! The tray menu's events and its icon.
use vstd::prelude::*;

verus! {

/// A choice from the tray menu.
#[derive(Debug, Clone, Copy, PartialEq, Eq, Structural)]
pub enum TrayEvent {
    ToggleMode,
    Capture,
    OpenConfig,
    Quit,
}

/// Side of the square tray icon, in pixels.
pub const ICON_SIZE: u32 = 16;

/// Pixel `(x, y)` of the icon lies in the disc of radius 6 around the
/// icon's centre `(8, 8)`.
pub open spec fn in_icon_disc(x: int, y: int) -> bool {
    (x - 8) * (x - 8) + (y - 8) * (y - 8) <= 36
}

/// The icon's RGBA samples: `#4a9eff`, opaque, inside the disc; transparent
/// black elsewhere.
pub open spec fn icon_sample(i: int) -> u8 {
    let p = i / 4;
    let x = p % 16;
    let y = p / 16;
    if in_icon_disc(x, y) {
        let c = i % 4;
        if c == 0 {
            0x4a
        } else if c == 1 {
            0x9e
        } else {
            0xff
        }
    } else {
        0
    }
}

/// The tray icon: a 16x16 blue disc on a transparent background, as RGBA
/// rows. (A pixel is in the disc when its distance to the centre is at
/// most 6; squared distances are whole numbers, so the test is exact.)
pub fn create_default_icon() -> (r: Vec<u8>)
    ensures
        r@.len() == 16 * 16 * 4,
        forall|i: int| 0 <= i < r@.len() ==> #[trigger] r@[i] == icon_sample(i),
{
    let size: u32 = ICON_SIZE;
    let mut rgba: Vec<u8> = Vec::new();
    let mut y: u32 = 0;
    while y < size
        invariant
            size == 16,
            y <= size,
            rgba@.len() == y * 64,
            forall|i: int| 0 <= i < rgba@.len() ==> #[trigger] rgba@[i] == icon_sample(i),
        decreases size - y,
    {
        let mut x: u32 = 0;
        while x < size
            invariant
                size == 16,
                y < size,
                x <= size,
                rgba@.len() == y * 64 + x * 4,
                forall|i: int| 0 <= i < rgba@.len() ==> #[trigger] rgba@[i] == icon_sample(i),
            decreases size - x,
        {
            let dx: i32 = x as i32 - 8;
            let dy: i32 = y as i32 - 8;
            assert(0 <= dx * dx <= 64 && 0 <= dy * dy <= 64) by (nonlinear_arith)
                requires
                    -8 <= dx < 8,
                    -8 <= dy < 8,
            ;
            let inside = dx * dx + dy * dy <= 36;
            let base = rgba.len();
            let ghost before = rgba@;
            if inside {
                rgba.push(0x4a);
                rgba.push(0x9e);
                rgba.push(0xff);
                rgba.push(0xff);
            } else {
                rgba.push(0);
                rgba.push(0);
                rgba.push(0);
                rgba.push(0);
            }
            proof {
                let p = y * 16 + x;
                assert(base == p * 4);
                assert(p % 16 == x && p / 16 == y) by (nonlinear_arith)
                    requires
                        p == y * 16 + x,
                        x < 16,
                ;
                assert(inside == in_icon_disc(x as int, y as int));
                assert forall|i: int| 0 <= i < rgba@.len() implies #[trigger] rgba@[i] == icon_sample(i) by {
                    if i < base {
                        assert(rgba@[i] == before[i]);
                    } else {
                        let c = i - base;
                        assert(i / 4 == p && i % 4 == c) by (nonlinear_arith)
                            requires
                                i == p * 4 + c,
                                0 <= c < 4,
                        ;
                    }
                }
            }
            x += 1;
        }
        y += 1;
    }
    rgba
}

} // verus!
