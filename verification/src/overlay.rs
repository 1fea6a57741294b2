//! Placement of the floating result window next to the selection.
use vstd::prelude::*;
use crate::selector::Region;

verus! {

/// What the one-shot overlay shows, and the region it belongs to.
#[derive(Debug, Clone)]
pub struct OverlayResult {
    pub translated_text: String,
    pub region_x: i32,
    pub region_y: i32,
    pub region_width: u32,
    pub region_height: u32,
}

impl OverlayResult {
    /// The overlay for `translated_text` next to `region`.
    pub fn new(translated_text: String, region: Region) -> (r: Self)
        ensures
            r.translated_text == translated_text,
            r.region_x == region.x,
            r.region_y == region.y,
            r.region_width == region.width,
            r.region_height == region.height,
    {
        OverlayResult {
            translated_text,
            region_x: region.x,
            region_y: region.y,
            region_width: region.width,
            region_height: region.height,
        }
    }
}

/// Height of the one-shot overlay.
pub const ONESHOT_OVERLAY_HEIGHT: u32 = 250;

/// Height of the live overlay.
pub const LIVE_OVERLAY_HEIGHT: u32 = 300;

/// Gap between the selection and the overlay.
pub const OVERLAY_GAP: u32 = 5;

/// Narrowest overlay.
pub const MIN_OVERLAY_WIDTH: u32 = 200;

/// Monitor height assumed when it is not known.
pub const DEFAULT_MONITOR_HEIGHT: u32 = 1080;

/// Where the overlay goes: at the region's left edge (not left of the
/// screen), below the region when it fits on the monitor, else above it
/// (not above the screen).
pub open spec fn spec_overlay_position(
    region_x: i32,
    region_y: i32,
    region_height: u32,
    overlay_height: u32,
    gap: u32,
    monitor_height: Option<u32>,
) -> (int, int) {
    let mh = match monitor_height {
        Some(h) => h as int,
        None => DEFAULT_MONITOR_HEIGHT as int,
    };
    let below = region_y + region_height + gap;
    let y = if below + overlay_height <= mh {
        below
    } else {
        let above = region_y - overlay_height - gap;
        if above > 0 {
            above
        } else {
            0
        }
    };
    (if region_x > 0 {
        region_x as int
    } else {
        0
    }, y)
}

/// Where the overlay goes, in words: its left edge is the region's left
/// edge (0 when the region starts left of the screen), whichever side it
/// goes to; it goes `gap` pixels below the region exactly when it then
/// ends on the monitor (of height `monitor_height`, 1080 when unknown);
/// otherwise it ends `gap` pixels above the region, or starts at the
/// screen's top edge when that leaves no room.
pub proof fn lemma_overlay_placement(
    region_x: i32,
    region_y: i32,
    region_height: u32,
    overlay_height: u32,
    gap: u32,
    monitor_height: Option<u32>,
)
    ensures
        ({
            let (x, y) = spec_overlay_position(region_x, region_y, region_height, overlay_height, gap, monitor_height);
            let mh: int = match monitor_height {
                Some(h) => h as int,
                None => 1080,
            };
            let fits_below = region_y + region_height + gap + overlay_height <= mh;
            &&& region_x >= 0 ==> x == region_x
            &&& region_x < 0 ==> x == 0
            &&& fits_below ==> y == region_y + region_height + gap
            &&& !fits_below ==> y >= 0 && y + overlay_height + gap <= region_y || y == 0
            &&& !fits_below && region_y - overlay_height - gap >= 0 ==> y + overlay_height + gap == region_y
        }),
{
}

/// Executable `spec_overlay_position`, in pixels (the region's width does
/// not matter).
pub fn compute_overlay_position(
    region_x: i32,
    region_y: i32,
    _region_width: u32,
    region_height: u32,
    overlay_height: u32,
    gap: u32,
    monitor_height: Option<u32>,
) -> (r: (i64, i64))
    ensures
        (r.0 as int, r.1 as int) == spec_overlay_position(
            region_x,
            region_y,
            region_height,
            overlay_height,
            gap,
            monitor_height,
        ),
{
    let mh: i64 = match monitor_height {
        Some(h) => h as i64,
        None => DEFAULT_MONITOR_HEIGHT as i64,
    };
    let below: i64 = region_y as i64 + region_height as i64 + gap as i64;
    let y: i64 = if below + overlay_height as i64 <= mh {
        below
    } else {
        let above: i64 = region_y as i64 - overlay_height as i64 - gap as i64;
        if above > 0 {
            above
        } else {
            0
        }
    };
    let x: i64 = if region_x > 0 {
        region_x as i64
    } else {
        0
    };
    (x, y)
}

/// Width of the overlay: the region's width, at least `MIN_OVERLAY_WIDTH`.
pub fn overlay_width(region_width: u32) -> (r: u32)
    ensures
        r == if region_width > MIN_OVERLAY_WIDTH {
            region_width
        } else {
            MIN_OVERLAY_WIDTH
        },
{
    if region_width > MIN_OVERLAY_WIDTH {
        region_width
    } else {
        MIN_OVERLAY_WIDTH
    }
}

/// The overlay never covers the region: it lies wholly below it, or wholly
/// above it, or (when the region is too close to the top for that) at the
/// top of the screen; and it never starts left of or above the screen.
pub proof fn lemma_overlay_beside_region(
    region_x: i32,
    region_y: i32,
    region_height: u32,
    overlay_height: u32,
    gap: u32,
    monitor_height: Option<u32>,
)
    ensures
        ({
            let (x, y) = spec_overlay_position(
                region_x,
                region_y,
                region_height,
                overlay_height,
                gap,
                monitor_height,
            );
            &&& x >= 0
            &&& y >= 0 || y == region_y + region_height + gap
            &&& (y >= region_y + region_height + gap || y + overlay_height + gap <= region_y || y == 0)
        }),
{
}

/// When the overlay fits below the region on the monitor, it goes there,
/// and then it ends on the monitor.
pub proof fn lemma_overlay_below_when_room(
    region_x: i32,
    region_y: i32,
    region_height: u32,
    overlay_height: u32,
    gap: u32,
    mh: u32,
)
    requires
        region_y + region_height + gap + overlay_height <= mh,
    ensures
        spec_overlay_position(region_x, region_y, region_height, overlay_height, gap, Some(mh)).1
            == region_y + region_height + gap,
        spec_overlay_position(region_x, region_y, region_height, overlay_height, gap, Some(mh)).1
            + overlay_height <= mh,
{
}

} // verus!
