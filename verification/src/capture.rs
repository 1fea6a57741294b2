//! Which monitor a capture is taken from, and where the region lies on it.
use vstd::prelude::*;
use crate::diff::RgbaFrame;
use crate::text::format_decimal;

verus! {

/// A monitor's area in screen coordinates.
#[derive(Debug, Clone, Copy, PartialEq, Eq, Structural)]
pub struct MonitorRect {
    pub x: i32,
    pub y: i32,
    pub width: u32,
    pub height: u32,
}

/// `v` as a signed 32-bit value (`v as i32`: values above `i32::MAX` wrap).
pub open spec fn as_i32(v: u32) -> int {
    if v <= i32::MAX {
        v as int
    } else {
        v - 0x1_0000_0000
    }
}

/// `(x, y)` lies on the monitor (its size taken as signed 32-bit values).
pub open spec fn monitor_contains(m: MonitorRect, x: i32, y: i32) -> bool {
    x >= m.x && y >= m.y && x < m.x + as_i32(m.width) && y < m.y + as_i32(m.height)
}

/// The monitor's far edges fit the signed 32-bit coordinates they are
/// computed in.
pub open spec fn monitor_fits(m: MonitorRect) -> bool {
    i32::MIN <= m.x + as_i32(m.width) <= i32::MAX && i32::MIN <= m.y + as_i32(m.height) <= i32::MAX
}

/// A monitor holds a point exactly when the point lies inside its
/// rectangle on both axes: from its left edge up to (not including) its
/// right edge, and from its top edge up to (not including) its bottom
/// edge, for monitors whose sizes fit the signed 32-bit coordinates. So a
/// point beside, above or below a monitor is never taken to be on it.
pub proof fn lemma_monitor_holds_points_inside(m: MonitorRect, x: i32, y: i32)
    requires
        m.width <= i32::MAX,
        m.height <= i32::MAX,
    ensures
        monitor_contains(m, x, y) <==> (m.x <= x < m.x + m.width && m.y <= y < m.y + m.height),
        y >= m.y + m.height ==> !monitor_contains(m, x, y),
        x >= m.x + m.width ==> !monitor_contains(m, x, y),
{
}

/// The first monitor that holds `(x, y)`; else the first monitor; `None`
/// when there is no monitor.
pub fn pick_monitor(monitors: &Vec<MonitorRect>, x: i32, y: i32) -> (r: Option<usize>)
    requires
        forall|i: int| 0 <= i < monitors@.len() ==> monitor_fits(#[trigger] monitors@[i]),
    ensures
        match r {
            Some(i) => i < monitors@.len() && ((monitor_contains(monitors@[i as int], x, y) && forall|
                j: int,
            | 0 <= j < i ==> !monitor_contains(#[trigger] monitors@[j], x, y)) || (i == 0 && forall|
                j: int,
            | 0 <= j < monitors@.len() ==> !monitor_contains(#[trigger] monitors@[j], x, y))),
            None => monitors@.len() == 0,
        },
        match r {
            Some(i) => (i < monitors@.len() && monitors@[i as int].width <= i32::MAX
                && monitors@[i as int].height <= i32::MAX && (exists|j: int|
                0 <= j < monitors@.len() && #[trigger] monitor_contains(monitors@[j], x, y))) ==> ({
                let m = monitors@[i as int];
                m.x <= x < m.x + m.width && m.y <= y < m.y + m.height
            }),
            None => true,
        },
{
    let mut i: usize = 0;
    while i < monitors.len()
        invariant
            i <= monitors@.len(),
            forall|k: int| 0 <= k < monitors@.len() ==> monitor_fits(#[trigger] monitors@[k]),
            forall|j: int| 0 <= j < i ==> !monitor_contains(#[trigger] monitors@[j], x, y),
        decreases monitors.len() - i,
    {
        let m = monitors[i];
        let mw: i32 = if m.width <= 0x7fff_ffff { m.width as i32 } else { (m.width as i64 - 0x1_0000_0000) as i32 };
        let mh: i32 = if m.height <= 0x7fff_ffff { m.height as i32 } else { (m.height as i64 - 0x1_0000_0000) as i32 };
        if x >= m.x && y >= m.y && x < m.x + mw && y < m.y + mh {
            proof {
                if m.width <= i32::MAX && m.height <= i32::MAX {
                    lemma_monitor_holds_points_inside(m, x, y);
                }
            }
            return Some(i);
        }
        i += 1;
    }
    if monitors.len() > 0 {
        Some(0)
    } else {
        None
    }
}

/// The region's origin relative to a monitor at `(mon_x, mon_y)`, negative
/// offsets clamped to 0.
pub fn monitor_relative(x: i32, y: i32, mon_x: i32, mon_y: i32) -> (r: (u32, u32))
    requires
        i32::MIN <= x - mon_x <= i32::MAX,
        i32::MIN <= y - mon_y <= i32::MAX,
    ensures
        r.0 == if x - mon_x > 0 {
            x - mon_x
        } else {
            0
        },
        r.1 == if y - mon_y > 0 {
            y - mon_y
        } else {
            0
        },
{
    let dx = x - mon_x;
    let dy = y - mon_y;
    let rx: u32 = if dx > 0 { dx as u32 } else { 0 };
    let ry: u32 = if dy > 0 { dy as u32 } else { 0 };
    (rx, ry)
}


/// The part of a `fw x fh` image that a cut-out at `(x, y)` of `w x h`
/// covers, clipped to the image, as `(x, y, width, height)`.
pub open spec fn crop_box(fw: u32, fh: u32, x: u32, y: u32, w: u32, h: u32) -> (int, int, int, int) {
    let cx = if x < fw { x as int } else { fw as int };
    let cy = if y < fh { y as int } else { fh as int };
    let cw = if w < fw - cx { w as int } else { fw - cx };
    let ch = if h < fh - cy { h as int } else { fh - cy };
    (cx, cy, cw, ch)
}

/// `r` is the cut-out of `f` at `(x, y)` of `w x h`, clipped to `f`.
pub open spec fn is_crop_of(r: RgbaFrame, f: RgbaFrame, x: u32, y: u32, w: u32, h: u32) -> bool {
    let (cx, cy, cw, ch) = crop_box(f.width, f.height, x, y, w, h);
    &&& r.wf()
    &&& r.width == cw
    &&& r.height == ch
    &&& forall|i: int, j: int, c: int|
        0 <= i < cw && 0 <= j < ch && 0 <= c < 4 ==> #[trigger] r.data@[(j * cw + i) * 4 + c]
            == f.data@[((cy + j) * f.width + cx + i) * 4 + c]
}

/// `image::imageops::crop_imm(..).to_image()` on an RGBA image: the
/// cut-out clipped to the image. The contract states the clipping and the
/// pixel copy that the source performs.
#[verifier::external_body]
fn crop_frame(frame: &RgbaFrame, x: u32, y: u32, w: u32, h: u32) -> (r: RgbaFrame)
    requires
        frame.wf(),
    ensures
        is_crop_of(r, *frame, x, y, w, h),
{
    let img = image::RgbaImage::from_raw(frame.width, frame.height, frame.data.clone()).unwrap();
    let out = image::imageops::crop_imm(&img, x, y, w, h).to_image();
    RgbaFrame { width: out.width(), height: out.height(), data: out.into_raw() }
}

/// Why a region could not be captured.
#[derive(Debug, Clone, Copy, PartialEq, Eq, Structural)]
pub enum CaptureError {
    /// No monitor is attached.
    NoMonitor,
    /// The region lies outside the captured monitor image.
    EmptyCrop { rel_x: u32, rel_y: u32, width: u32, height: u32, monitor_width: u32, monitor_height: u32 },
}

impl CaptureError {
    /// Human-readable description.
    pub fn message(&self) -> (r: String)
        ensures
            match *self {
                CaptureError::NoMonitor => r@ == "No monitor found"@,
                CaptureError::EmptyCrop { rel_x, rel_y, width, height, monitor_width, monitor_height } => r@
                    == "Crop resulted in empty image: rel ("@ + crate::text::decimal(rel_x as nat) + ", "@
                    + crate::text::decimal(rel_y as nat) + ") "@ + crate::text::decimal(width as nat) + "x"@
                    + crate::text::decimal(height as nat) + " on "@ + crate::text::decimal(
                    monitor_width as nat,
                ) + "x"@ + crate::text::decimal(monitor_height as nat) + " monitor"@,
            },
    {
        match *self {
            CaptureError::NoMonitor => String::from_str("No monitor found"),
            CaptureError::EmptyCrop { rel_x, rel_y, width, height, monitor_width, monitor_height } => {
                let mut m = String::from_str("Crop resulted in empty image: rel (");
                m.append(format_decimal(rel_x as u64).as_str());
                m.append(", ");
                m.append(format_decimal(rel_y as u64).as_str());
                m.append(") ");
                m.append(format_decimal(width as u64).as_str());
                m.append("x");
                m.append(format_decimal(height as u64).as_str());
                m.append(" on ");
                m.append(format_decimal(monitor_width as u64).as_str());
                m.append("x");
                m.append(format_decimal(monitor_height as u64).as_str());
                m.append(" monitor");
                m
            },
        }
    }
}

/// The selected region out of a capture of the monitor at `(mon_x, mon_y)`:
/// the cut-out at the region's monitor-relative origin (negative offsets
/// clamped to 0), clipped to the capture; an error when nothing is left.
pub fn crop_to_region(
    monitor: &RgbaFrame,
    mon_x: i32,
    mon_y: i32,
    x: i32,
    y: i32,
    width: u32,
    height: u32,
) -> (r: Result<RgbaFrame, CaptureError>)
    requires
        monitor.wf(),
        i32::MIN <= x - mon_x <= i32::MAX,
        i32::MIN <= y - mon_y <= i32::MAX,
    ensures
        ({
            let rx = if x - mon_x > 0 { (x - mon_x) as u32 } else { 0u32 };
            let ry = if y - mon_y > 0 { (y - mon_y) as u32 } else { 0u32 };
            let b = crop_box(monitor.width, monitor.height, rx, ry, width, height);
            if b.2 > 0 && b.3 > 0 {
                r matches Ok(c) && is_crop_of(c, *monitor, rx, ry, width, height)
            } else {
                r == Err::<RgbaFrame, CaptureError>(
                    CaptureError::EmptyCrop {
                        rel_x: rx,
                        rel_y: ry,
                        width,
                        height,
                        monitor_width: monitor.width,
                        monitor_height: monitor.height,
                    },
                )
            }
        }),
{
    let (rx, ry) = monitor_relative(x, y, mon_x, mon_y);
    let cropped = crop_frame(monitor, rx, ry, width, height);
    if cropped.width == 0 || cropped.height == 0 {
        Err(
            CaptureError::EmptyCrop {
                rel_x: rx,
                rel_y: ry,
                width,
                height,
                monitor_width: monitor.width,
                monitor_height: monitor.height,
            },
        )
    } else {
        Ok(cropped)
    }
}

} // verus!
