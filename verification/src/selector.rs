//! Region selection over a dimmed screenshot: the rectangle arithmetic and
//! the decisions of the selection session. The window system performs the
//! drawing operations that the session asks for and feeds back its events.
use vstd::prelude::*;
use crate::text::{string_push, decimal};

verus! {

/// A selected screen region, in screen pixels.
#[derive(Debug, Clone, Copy, PartialEq, Eq, Structural)]
pub struct Region {
    pub x: i32,
    pub y: i32,
    pub width: u32,
    pub height: u32,
}

/// Where the drag started and where the pointer is now.
#[derive(Debug, Clone, Copy, PartialEq, Eq, Structural)]
pub struct SelectionState {
    pub start_x: i16,
    pub start_y: i16,
    pub current_x: i16,
    pub current_y: i16,
    pub dragging: bool,
}

/// The smaller of `a` and `b`.
pub open spec fn min_int(a: int, b: int) -> int {
    if a <= b {
        a
    } else {
        b
    }
}

/// The larger of `a` and `b`.
pub open spec fn max_int(a: int, b: int) -> int {
    if a >= b {
        a
    } else {
        b
    }
}

/// The screen sizes for which all of the session's 16-bit coordinates stay
/// in range: the size label is drawn 4 pixels right of a selection's left
/// edge, and up to 14 pixels below its bottom edge.
pub open spec fn screen_fits(sw: u16, sh: u16) -> bool {
    sw <= 32764 && sh <= 32753
}

/// `v` as a 16-bit signed value (`v as i16`: values above `i16::MAX` wrap).
pub open spec fn as_i16(v: u16) -> int {
    if v <= 32767 {
        v as int
    } else {
        v - 65536
    }
}

/// The corners of the selection clipped to `[0, max_w] x [0, max_h]`, as
/// `(x, y, x2, y2)`.
pub open spec fn clipped_corners(s: SelectionState, max_w: u16, max_h: u16) -> (int, int, int, int) {
    let x = max_int(min_int(s.start_x as int, s.current_x as int), 0);
    let y = max_int(min_int(s.start_y as int, s.current_y as int), 0);
    let x2 = min_int(max_int(s.start_x as int, s.current_x as int), as_i16(max_w));
    let y2 = min_int(max_int(s.start_y as int, s.current_y as int), as_i16(max_h));
    (x, y, x2, y2)
}

/// The rectangle spanned by the two corners, clipped to `[0, max_w] x
/// [0, max_h]`, as `(x, y, width, height)`.
pub open spec fn spec_normalized(s: SelectionState, max_w: u16, max_h: u16) -> (int, int, int, int) {
    let (x, y, x2, y2) = clipped_corners(s, max_w, max_h);
    (x, y, max_int(x2 - x, 0), max_int(y2 - y, 0))
}

/// The 16-bit differences `x2 - x` and `y2 - y` do not overflow (they can
/// only when a screen size exceeds `i16::MAX`).
pub open spec fn normalized_in_range(s: SelectionState, max_w: u16, max_h: u16) -> bool {
    let (x, y, x2, y2) = clipped_corners(s, max_w, max_h);
    x2 - x >= -32768 && y2 - y >= -32768
}

impl SelectionState {
    /// The selected rectangle, clipped to the screen.
    pub fn normalized(&self, max_w: u16, max_h: u16) -> (r: (i16, i16, u16, u16))
        requires
            normalized_in_range(*self, max_w, max_h),
        ensures
            (r.0 as int, r.1 as int, r.2 as int, r.3 as int) == spec_normalized(*self, max_w, max_h),
    {
        let mw: i16 = if max_w <= 32767 { max_w as i16 } else { (max_w as i32 - 65536) as i16 };
        let mh: i16 = if max_h <= 32767 { max_h as i16 } else { (max_h as i32 - 65536) as i16 };
        let lo_x = if self.start_x < self.current_x { self.start_x } else { self.current_x };
        let hi_x = if self.start_x < self.current_x { self.current_x } else { self.start_x };
        let lo_y = if self.start_y < self.current_y { self.start_y } else { self.current_y };
        let hi_y = if self.start_y < self.current_y { self.current_y } else { self.start_y };
        let x = if lo_x < 0 { 0 } else { lo_x };
        let y = if lo_y < 0 { 0 } else { lo_y };
        let x2 = if hi_x < mw { hi_x } else { mw };
        let y2 = if hi_y < mh { hi_y } else { mh };
        let w: u16 = if x2 - x > 0 { (x2 - x) as u16 } else { 0 };
        let h: u16 = if y2 - y > 0 { (y2 - y) as u16 } else { 0 };
        (x, y, w, h)
    }
}

/// `v` clamped to the pixel range `[0, size - 1]` (with `size` taken as a
/// 16-bit signed value).
pub open spec fn spec_clamp(v: i16, size: u16) -> int {
    min_int(max_int(v as int, 0), as_i16(size) - 1)
}

/// A pointer coordinate clamped to the screen.
pub fn clamp_to_screen(v: i16, size: u16) -> (r: i16)
    requires
        size != 32768,
    ensures
        r as int == spec_clamp(v, size),
{
    let m = if v < 0 { 0 } else { v };
    let s16: i16 = if size <= 32767 { size as i16 } else { (size as i32 - 65536) as i16 };
    let top = s16 - 1;
    if m < top {
        m
    } else {
        top
    }
}

/// `v` cast to 16 bits (`v as i16`) for `v` in `[-32768, 98303]`.
pub open spec fn wrap_i16(v: int) -> int {
    if v > 32767 {
        v - 65536
    } else {
        v
    }
}

/// The width in pixels kept free for a size label (`"{w}x{h}"`, at most
/// eleven characters of the X server's default font).
pub const LABEL_WIDTH: u16 = 80;

/// The corners of the area to repaint around an outline, as
/// `(ex, ey, ex2, ey2)`: the outline padded by its border, and wide enough
/// to hold the size label drawn 4 pixels right of its left edge.
pub open spec fn dirty_corners(ox: i16, oy: i16, ow: u16, oh: u16, sw: u16, sh: u16) -> (int, int, int, int) {
    let ex = max_int(ox - 3, 0);
    let ey = max_int(oy - 20, 0);
    let ex2 = wrap_i16(min_int(max_int(ox + ow + 3, ox + 4 + LABEL_WIDTH), sw as int));
    let ey2 = wrap_i16(min_int(oy + oh + 20, sh as int));
    (ex, ey, ex2, ey2)
}

/// The area to repaint when a selection outline at `(ox, oy, ow, oh)` is
/// erased: the outline padded by the border (3 pixels) and the size label
/// (20 pixels above and below, and `LABEL_WIDTH` pixels from the label's
/// left edge), clipped to the screen; `None` when that leaves nothing.
pub open spec fn spec_dirty_rect(ox: i16, oy: i16, ow: u16, oh: u16, sw: u16, sh: u16) -> Option<
    (int, int, int, int),
> {
    let (ex, ey, ex2, ey2) = dirty_corners(ox, oy, ow, oh, sw, sh);
    let ew = max_int(ex2 - ex, 0);
    let eh = max_int(ey2 - ey, 0);
    if ew > 0 && eh > 0 {
        Some((ex, ey, ew, eh))
    } else {
        None
    }
}

/// Executable `spec_dirty_rect`. Its 16-bit arithmetic must not overflow.
pub fn dirty_rect(ox: i16, oy: i16, ow: u16, oh: u16, sw: u16, sh: u16) -> (r: Option<(i16, i16, u16, u16)>)
    requires
        ox >= -32765,
        oy >= -32748,
        ({
            let (ex, ey, ex2, ey2) = dirty_corners(ox, oy, ow, oh, sw, sh);
            ex2 - ex >= -32768 && ey2 - ey >= -32768
        }),
    ensures
        match r {
            Some(t) => spec_dirty_rect(ox, oy, ow, oh, sw, sh) == Some(
                (t.0 as int, t.1 as int, t.2 as int, t.3 as int),
            ),
            None => spec_dirty_rect(ox, oy, ow, oh, sw, sh) is None,
        },
{
    let ex: i16 = if ox - 3 > 0 { ox - 3 } else { 0 };
    let ey: i16 = if oy - 20 > 0 { oy - 20 } else { 0 };
    let box_x2: i32 = ox as i32 + ow as i32 + 3;
    let label_x2: i32 = ox as i32 + 4 + LABEL_WIDTH as i32;
    let rx2: i32 = if box_x2 < label_x2 { label_x2 } else { box_x2 };
    let ry2: i32 = oy as i32 + oh as i32 + 20;
    let cx2: i32 = if rx2 < sw as i32 { rx2 } else { sw as i32 };
    let cy2: i32 = if ry2 < sh as i32 { ry2 } else { sh as i32 };
    let ex2: i16 = if cx2 > 32767 { (cx2 - 65536) as i16 } else { cx2 as i16 };
    let ey2: i16 = if cy2 > 32767 { (cy2 - 65536) as i16 } else { cy2 as i16 };
    let ew: u16 = if ex2 - ex > 0 { (ex2 - ex) as u16 } else { 0 };
    let eh: u16 = if ey2 - ey > 0 { (ey2 - ey) as u16 } else { 0 };
    if ew > 0 && eh > 0 {
        Some((ex, ey, ew, eh))
    } else {
        None
    }
}

/// The pixels a drawn outline at `(ox, oy, ow, oh)` touches with its 2-pixel
/// border, as a half-open box `(x1, y1, x2, y2)`.
pub open spec fn outline_box(ox: i16, oy: i16, ow: u16, oh: u16) -> (int, int, int, int) {
    (ox - 2, oy - 2, ox + ow + 3, oy + oh + 3)
}

/// The pixels its size label may cover, as a half-open box: `LABEL_WIDTH`
/// pixels from the label's origin, from 14 pixels above its baseline to 2
/// below.
pub open spec fn label_box(ox: i16, oy: i16, oh: u16) -> (int, int, int, int) {
    let (lx, ly) = spec_label_origin(ox, oy, oh);
    (lx, ly - 14, lx + LABEL_WIDTH, ly + 2)
}

/// `(px, py)` lies in the half-open box `b`.
pub open spec fn in_box(px: int, py: int, b: (int, int, int, int)) -> bool {
    b.0 <= px < b.2 && b.1 <= py < b.3
}

/// Erasing an outline drawn on the screen repaints every on-screen pixel
/// of its border and of its size label: the repainted area covers both.
pub proof fn lemma_dirty_rect_covers_outline_and_label(
    ox: i16,
    oy: i16,
    ow: u16,
    oh: u16,
    sw: u16,
    sh: u16,
    px: int,
    py: int,
)
    requires
        screen_fits(sw, sh),
        0 <= ox,
        0 <= oy,
        ox + ow <= sw,
        oy + oh <= sh,
        0 <= px < sw,
        0 <= py < sh,
        in_box(px, py, outline_box(ox, oy, ow, oh)) || in_box(px, py, label_box(ox, oy, oh)),
    ensures
        spec_dirty_rect(ox, oy, ow, oh, sw, sh) matches Some(d) && d.0 <= px < d.0 + d.2 && d.1 <= py
            < d.1 + d.3,
{
}

/// Where the size label of an outline at `(rx, ry)` of height `rh` goes:
/// 4 pixels right of its left edge, above it, or below it when there is
/// no room above.
pub open spec fn spec_label_origin(rx: i16, ry: i16, rh: u16) -> (int, int) {
    (rx + 4, if ry < 18 {
        ry + as_i16(rh) + 14
    } else {
        ry - 4
    })
}

/// Executable `spec_label_origin`.
pub fn label_origin(rx: i16, ry: i16, rh: u16) -> (r: (i16, i16))
    requires
        rx + 4 <= 32767,
        ry < 18 ==> -32768 <= ry + as_i16(rh) && ry + as_i16(rh) + 14 <= 32767,
    ensures
        (r.0 as int, r.1 as int) == spec_label_origin(rx, ry, rh),
{
    let lx = rx + 4;
    let ly = if ry < 18 {
        let h16: i16 = if rh <= 32767 { rh as i16 } else { (rh as i32 - 65536) as i16 };
        ry + h16 + 14
    } else {
        ry - 4
    };
    (lx, ly)
}

/// The size label of an outline: `"{width}x{height}"`.
pub fn size_label(w: u16, h: u16) -> (r: String)
    ensures
        r@ == decimal(w as nat) + seq!['x'] + decimal(h as nat),
{
    let mut r = crate::text::format_decimal(w as u64);
    string_push(&mut r, 'x');
    let hs = crate::text::format_decimal(h as u64);
    r.append(hs.as_str());
    r
}

/// A drawing request of the selection session.
#[derive(Debug, Clone, Copy, PartialEq, Eq, Structural)]
pub enum DrawOp {
    /// Copy the undimmed screenshot over the rectangle.
    RevealUndimmed { x: i16, y: i16, width: u16, height: u16 },
    /// XOR-draw the outline of the rectangle and its size label at
    /// `(label_x, label_y)`.
    Outline { x: i16, y: i16, width: u16, height: u16, label_x: i16, label_y: i16 },
    /// XOR-draw (or, at the same place again, erase) the crosshair through `(x, y)`.
    Crosshair { x: i16, y: i16 },
    /// Repaint the dimmed screenshot over the rectangle.
    RestoreDimmed { x: i16, y: i16, width: u16, height: u16 },
}

/// An event of the selection window. Queued pointer motions are coalesced
/// into the last one before they are handed over.
#[derive(Debug, Clone, Copy, PartialEq, Eq, Structural)]
pub enum SelectorEvent {
    Expose,
    KeyPress { keycode: u8 },
    ButtonPress { button: u8, x: i16, y: i16 },
    Motion { x: i16, y: i16 },
    ButtonRelease { button: u8, x: i16, y: i16 },
    Other,
}

/// What the session decided after an event.
#[derive(Debug, Clone, Copy, PartialEq, Eq, Structural)]
pub enum SelectorOutcome {
    /// Keep waiting for events.
    Pending,
    /// Escape was pressed: no region.
    Cancelled,
    /// A region larger than 2x2 pixels was dragged out.
    Selected(Region),
}

/// X11 key code of Escape.
pub const ESCAPE_KEYCODE: u8 = 9;

/// The pointer button that drags a selection.
pub const LEFT_BUTTON: u8 = 1;

/// `r` lies inside a screen of `sw x sh` pixels.
pub open spec fn region_on_screen(r: Region, sw: u16, sh: u16) -> bool {
    &&& 0 <= r.x
    &&& 0 <= r.y
    &&& r.x + r.width <= sw
    &&& r.y + r.height <= sh
}

/// The clipped selection lies inside the screen, whatever the pointer
/// positions: a non-empty width or height never reaches past the screen's
/// edge.
pub proof fn lemma_normalized_on_screen(s: SelectionState, sw: u16, sh: u16)
    requires
        sw <= 32767,
        sh <= 32767,
    ensures
        ({
            let n = spec_normalized(s, sw, sh);
            &&& 0 <= n.0 && 0 <= n.1 && 0 <= n.2 && 0 <= n.3
            &&& n.2 > 0 ==> n.0 + n.2 <= sw
            &&& n.3 > 0 ==> n.1 + n.3 <= sh
        }),
{
}

/// The selection does not depend on the direction of the drag: swapping
/// the two corners gives the same rectangle.
pub proof fn lemma_normalized_symmetric(s: SelectionState, sw: u16, sh: u16)
    ensures
        spec_normalized(
            SelectionState {
                start_x: s.current_x,
                start_y: s.current_y,
                current_x: s.start_x,
                current_y: s.start_y,
                ..s
            },
            sw,
            sh,
        ) == spec_normalized(s, sw, sh),
{
}

/// A clamped coordinate is a pixel of the screen.
pub proof fn lemma_clamp_on_screen(v: i16, size: u16)
    requires
        1 <= size <= 32767,
    ensures
        0 <= spec_clamp(v, size) < size,
        0 <= v < size ==> spec_clamp(v, size) == v,
{
}

/// The state of one selection session.
#[derive(Debug, Clone, Copy)]
pub struct SelectorSession {
    pub state: SelectionState,
    /// Where the crosshair is drawn, if it is.
    pub prev_cross: Option<(i16, i16)>,
    /// Which selection is drawn, if one is.
    pub prev_sel: Option<(i16, i16, u16, u16)>,
    pub screen_w: u16,
    pub screen_h: u16,
}

/// The outline request for a rectangle.
pub open spec fn outline_op(r: (i16, i16, u16, u16)) -> DrawOp {
    let (lx, ly) = spec_label_origin(r.0, r.1, r.3);
    DrawOp::Outline { x: r.0, y: r.1, width: r.2, height: r.3, label_x: lx as i16, label_y: ly as i16 }
}

/// The reveal request for a rectangle.
pub open spec fn reveal_op(r: (i16, i16, u16, u16)) -> DrawOp {
    DrawOp::RevealUndimmed { x: r.0, y: r.1, width: r.2, height: r.3 }
}

/// The requests that erase the outline `o` (if it leaves a dirty area).
pub open spec fn erase_ops(o: (i16, i16, u16, u16), sw: u16, sh: u16) -> Seq<DrawOp> {
    match spec_dirty_rect(o.0, o.1, o.2, o.3, sw, sh) {
        Some(d) => seq![DrawOp::RestoreDimmed { x: d.0 as i16, y: d.1 as i16, width: d.2 as u16, height: d.3 as u16 }],
        None => Seq::empty(),
    }
}

/// The requests that erase the crosshair `c`, if one is drawn.
pub open spec fn cross_erase_ops(c: Option<(i16, i16)>) -> Seq<DrawOp> {
    match c {
        Some(p) => seq![DrawOp::Crosshair { x: p.0, y: p.1 }],
        None => Seq::empty(),
    }
}

/// The normalized selection of a state, with its machine types.
pub open spec fn sel_rect(s: SelectionState, sw: u16, sh: u16) -> (i16, i16, u16, u16) {
    let n = spec_normalized(s, sw, sh);
    (n.0 as i16, n.1 as i16, n.2 as u16, n.3 as u16)
}

impl SelectorSession {
    /// The screen fits and any drawn selection lies inside it.
    pub open spec fn wf(&self) -> bool {
        &&& screen_fits(self.screen_w, self.screen_h)
        &&& match self.prev_sel {
            Some(r) => 0 <= r.0 && 0 <= r.1 && r.0 + r.2 <= self.screen_w && r.1 + r.3
                <= self.screen_h,
            None => true,
        }
    }

    /// A session over a screen of `sw x sh` pixels, with nothing drawn.
    pub fn new(sw: u16, sh: u16) -> (r: Self)
        requires
            screen_fits(sw, sh),
        ensures
            r.wf(),
            r.screen_w == sw,
            r.screen_h == sh,
            r.prev_cross is None,
            r.prev_sel is None,
            r.state == (SelectionState {
                start_x: 0,
                start_y: 0,
                current_x: 0,
                current_y: 0,
                dragging: false,
            }),
    {
        SelectorSession {
            state: SelectionState { start_x: 0, start_y: 0, current_x: 0, current_y: 0, dragging: false },
            prev_cross: None,
            prev_sel: None,
            screen_w: sw,
            screen_h: sh,
        }
    }

    fn outline(&self, r: (i16, i16, u16, u16)) -> (op: DrawOp)
        requires
            self.wf(),
            0 <= r.0,
            0 <= r.1,
            r.0 + r.2 <= self.screen_w,
            r.1 + r.3 <= self.screen_h,
            r.2 > 0,
        ensures
            op == outline_op(r),
    {
        let (lx, ly) = label_origin(r.0, r.1, r.3);
        DrawOp::Outline { x: r.0, y: r.1, width: r.2, height: r.3, label_x: lx, label_y: ly }
    }

    /// Handles one event: returns the drawing requests, in order, and
    /// whether the session is over.
    pub fn handle_event(&mut self, ev: SelectorEvent) -> (res: (Vec<DrawOp>, SelectorOutcome))
        requires
            old(self).wf(),
        ensures
            final(self).wf(),
            final(self).screen_w == old(self).screen_w,
            final(self).screen_h == old(self).screen_h,
            res.1 matches SelectorOutcome::Selected(r) ==> region_on_screen(
                r,
                old(self).screen_w,
                old(self).screen_h,
            ) && r.width > 2 && r.height > 2,
            ({
                let s = *old(self);
                let f = *final(self);
                let sw = s.screen_w;
                let sh = s.screen_h;
                let ops = res.0@;
                let out = res.1;
                match ev {
                    SelectorEvent::Expose => {
                        &&& f == s
                        &&& out == SelectorOutcome::Pending
                        &&& ops == match s.prev_sel {
                            Some(r) => if r.2 > 0 && r.3 > 0 {
                                seq![reveal_op(r), outline_op(r)]
                            } else {
                                Seq::empty()
                            },
                            None => cross_erase_ops(s.prev_cross),
                        }
                    },
                    SelectorEvent::KeyPress { keycode } => {
                        &&& f == s
                        &&& ops.len() == 0
                        &&& out == if keycode == ESCAPE_KEYCODE {
                            SelectorOutcome::Cancelled
                        } else {
                            SelectorOutcome::Pending
                        }
                    },
                    SelectorEvent::ButtonPress { button, x, y } => {
                        &&& out == SelectorOutcome::Pending
                        &&& if button == LEFT_BUTTON {
                            let mx = spec_clamp(x, sw) as i16;
                            let my = spec_clamp(y, sh) as i16;
                            &&& f == SelectorSession {
                                state: SelectionState {
                                    start_x: mx,
                                    start_y: my,
                                    current_x: mx,
                                    current_y: my,
                                    dragging: true,
                                },
                                prev_cross: None,
                                ..s
                            }
                            &&& ops == cross_erase_ops(s.prev_cross)
                        } else {
                            f == s && ops.len() == 0
                        }
                    },
                    SelectorEvent::Motion { x, y } => {
                        let mx = spec_clamp(x, sw) as i16;
                        let my = spec_clamp(y, sh) as i16;
                        &&& out == SelectorOutcome::Pending
                        &&& if s.state.dragging {
                            let st = SelectionState { current_x: mx, current_y: my, ..s.state };
                            let r = sel_rect(st, sw, sh);
                            let erase = match s.prev_sel {
                                Some(o) => erase_ops(o, sw, sh),
                                None => Seq::empty(),
                            };
                            &&& f.state == st
                            &&& f.prev_cross == s.prev_cross
                            &&& if r.2 > 0 && r.3 > 0 {
                                f.prev_sel == Some(r) && ops == erase + seq![
                                    reveal_op(r),
                                    outline_op(r),
                                ]
                            } else {
                                f.prev_sel is None && ops == erase
                            }
                        } else {
                            &&& f == SelectorSession { prev_cross: Some((mx, my)), ..s }
                            &&& ops == cross_erase_ops(s.prev_cross) + seq![
                                DrawOp::Crosshair { x: mx, y: my },
                            ]
                        }
                    },
                    SelectorEvent::ButtonRelease { button, x, y } => {
                        &&& ops.len() == 0
                        &&& if button == LEFT_BUTTON && s.state.dragging {
                            let st = SelectionState {
                                current_x: spec_clamp(x, sw) as i16,
                                current_y: spec_clamp(y, sh) as i16,
                                dragging: false,
                                ..s.state
                            };
                            let r = sel_rect(st, sw, sh);
                            &&& f == SelectorSession { state: st, ..s }
                            &&& out == if r.2 > 2 && r.3 > 2 {
                                SelectorOutcome::Selected(
                                    Region {
                                        x: r.0 as i32,
                                        y: r.1 as i32,
                                        width: r.2 as u32,
                                        height: r.3 as u32,
                                    },
                                )
                            } else {
                                SelectorOutcome::Pending
                            }
                        } else {
                            f == s && out == SelectorOutcome::Pending
                        }
                    },
                    SelectorEvent::Other => f == s && ops.len() == 0 && out
                        == SelectorOutcome::Pending,
                }
            }),
    {
        let sw = self.screen_w;
        let sh = self.screen_h;
        let mut ops: Vec<DrawOp> = Vec::new();
        match ev {
            SelectorEvent::Expose => {
                match self.prev_sel {
                    Some(r) => {
                        if r.2 > 0 && r.3 > 0 {
                            ops.push(DrawOp::RevealUndimmed { x: r.0, y: r.1, width: r.2, height: r.3 });
                            let o = self.outline(r);
                            ops.push(o);
                        }
                    },
                    None => {
                        if let Some(c) = self.prev_cross {
                            ops.push(DrawOp::Crosshair { x: c.0, y: c.1 });
                        }
                    },
                }
                proof {
                    assert(ops@ =~= match self.prev_sel {
                        Some(r) => if r.2 > 0 && r.3 > 0 {
                            seq![reveal_op(r), outline_op(r)]
                        } else {
                            Seq::empty()
                        },
                        None => cross_erase_ops(self.prev_cross),
                    });
                }
                (ops, SelectorOutcome::Pending)
            },
            SelectorEvent::KeyPress { keycode } => {
                if keycode == ESCAPE_KEYCODE {
                    (ops, SelectorOutcome::Cancelled)
                } else {
                    (ops, SelectorOutcome::Pending)
                }
            },
            SelectorEvent::ButtonPress { button, x, y } => {
                if button == LEFT_BUTTON {
                    if let Some(c) = self.prev_cross {
                        ops.push(DrawOp::Crosshair { x: c.0, y: c.1 });
                    }
                    self.prev_cross = None;
                    let mx = clamp_to_screen(x, sw);
                    let my = clamp_to_screen(y, sh);
                    self.state = SelectionState {
                        start_x: mx,
                        start_y: my,
                        current_x: mx,
                        current_y: my,
                        dragging: true,
                    };
                    proof {
                        assert(ops@ =~= cross_erase_ops(old(self).prev_cross));
                    }
                }
                (ops, SelectorOutcome::Pending)
            },
            SelectorEvent::Motion { x, y } => {
                let mx = clamp_to_screen(x, sw);
                let my = clamp_to_screen(y, sh);
                if self.state.dragging {
                    self.state.current_x = mx;
                    self.state.current_y = my;
                    let r = self.state.normalized(sw, sh);
                    if let Some(o) = self.prev_sel {
                        if let Some(d) = dirty_rect(o.0, o.1, o.2, o.3, sw, sh) {
                            ops.push(DrawOp::RestoreDimmed { x: d.0, y: d.1, width: d.2, height: d.3 });
                        }
                    }
                    let ghost erase = ops@;
                    self.prev_sel = None;
                    if r.2 > 0 && r.3 > 0 {
                        ops.push(DrawOp::RevealUndimmed { x: r.0, y: r.1, width: r.2, height: r.3 });
                        let op = self.outline(r);
                        ops.push(op);
                        self.prev_sel = Some(r);
                        proof {
                            assert(ops@ =~= erase + seq![reveal_op(r), outline_op(r)]);
                        }
                    }
                    proof {
                        assert(erase =~= match old(self).prev_sel {
                            Some(o) => erase_ops(o, sw, sh),
                            None => Seq::empty(),
                        });
                    }
                } else {
                    if let Some(c) = self.prev_cross {
                        ops.push(DrawOp::Crosshair { x: c.0, y: c.1 });
                    }
                    ops.push(DrawOp::Crosshair { x: mx, y: my });
                    self.prev_cross = Some((mx, my));
                    proof {
                        assert(ops@ =~= cross_erase_ops(old(self).prev_cross) + seq![
                            DrawOp::Crosshair { x: mx, y: my },
                        ]);
                    }
                }
                (ops, SelectorOutcome::Pending)
            },
            SelectorEvent::ButtonRelease { button, x, y } => {
                if button == LEFT_BUTTON && self.state.dragging {
                    self.state.current_x = clamp_to_screen(x, sw);
                    self.state.current_y = clamp_to_screen(y, sh);
                    self.state.dragging = false;
                    let r = self.state.normalized(sw, sh);
                    if r.2 > 2 && r.3 > 2 {
                        return (
                            ops,
                            SelectorOutcome::Selected(
                                Region { x: r.0 as i32, y: r.1 as i32, width: r.2 as u32, height: r.3 as u32 },
                            ),
                        );
                    }
                }
                (ops, SelectorOutcome::Pending)
            },
            SelectorEvent::Other => (ops, SelectorOutcome::Pending),
        }
    }
}


/// The dimmed value of a colour sample: `v * 120 / 255`.
pub open spec fn dim_sample(v: u8) -> int {
    v * 120 / 255
}

/// The screenshot as shown behind the selection: red, green and blue of
/// every pixel scaled by 120/255, alpha kept.
pub fn dim_pixels(rgba: &Vec<u8>) -> (r: Vec<u8>)
    requires
        rgba@.len() % 4 == 0,
    ensures
        r@.len() == rgba@.len(),
        forall|i: int|
            0 <= i < rgba@.len() ==> #[trigger] r@[i] == if i % 4 == 3 {
                rgba@[i] as int
            } else {
                dim_sample(rgba@[i])
            },
{
    let mut r: Vec<u8> = Vec::new();
    let mut i: usize = 0;
    while i < rgba.len()
        invariant
            i <= rgba@.len(),
            r@.len() == i,
            forall|k: int|
                0 <= k < i ==> #[trigger] r@[k] == if k % 4 == 3 {
                    rgba@[k] as int
                } else {
                    dim_sample(rgba@[k])
                },
        decreases rgba.len() - i,
    {
        let v = rgba[i];
        if i % 4 == 3 {
            r.push(v);
        } else {
            let d: u16 = (v as u16) * 120 / 255;
            r.push(d as u8);
        }
        i += 1;
    }
    r
}

/// The sample order X11 pixmaps take: blue, green, red, alpha.
pub open spec fn swap_red_blue(rgba: Seq<u8>) -> Seq<u8> {
    Seq::new(
        rgba.len(),
        |i: int|
            if i % 4 == 0 {
                rgba[i + 2]
            } else if i % 4 == 2 {
                rgba[i - 2]
            } else {
                rgba[i]
            },
    )
}

/// RGBA samples reordered as BGRA.
pub fn rgba_to_bgra(rgba: &Vec<u8>) -> (r: Vec<u8>)
    requires
        rgba@.len() % 4 == 0,
    ensures
        r@ == swap_red_blue(rgba@),
{
    let mut r: Vec<u8> = Vec::new();
    let mut p: usize = 0;
    let n = rgba.len();
    while p < n
        invariant
            n == rgba@.len(),
            n % 4 == 0,
            p % 4 == 0,
            p <= n,
            r@ == swap_red_blue(rgba@).take(p as int),
        decreases n - p,
    {
        r.push(rgba[p + 2]);
        r.push(rgba[p + 1]);
        r.push(rgba[p]);
        r.push(rgba[p + 3]);
        proof {
            assert(r@ =~= swap_red_blue(rgba@).take(p + 4));
        }
        p += 4;
    }
    assert(swap_red_blue(rgba@).take(n as int) =~= swap_red_blue(rgba@));
    r
}

/// Swapping red and blue twice gives back the samples.
pub proof fn lemma_swap_red_blue_involutive(rgba: Seq<u8>)
    requires
        rgba.len() % 4 == 0,
    ensures
        swap_red_blue(swap_red_blue(rgba)) == rgba,
{
    assert(swap_red_blue(swap_red_blue(rgba)) =~= rgba);
}

/// Rows uploaded per request.
pub const MAX_UPLOAD_ROWS: u16 = 8192;

/// One upload request: `rows` rows from row `y`, held by the bytes
/// `start..end` of the BGRA buffer.
#[derive(Debug, Clone, Copy, PartialEq, Eq, Structural)]
pub struct UploadBand {
    pub y: u16,
    pub rows: u16,
    pub start: usize,
    pub end: usize,
}

/// The `k`-th upload band of a `sw x sh` image.
pub open spec fn band_at(sw: u16, sh: u16, k: int) -> (int, int, int, int) {
    let y = k * MAX_UPLOAD_ROWS;
    let rows = min_int(MAX_UPLOAD_ROWS as int, sh - y);
    let start = y * (sw * 4);
    (y, rows, start, start + rows * (sw * 4))
}

/// Splits the upload of a `sw x sh` image whose BGRA buffer holds `len`
/// bytes into bands of at most `MAX_UPLOAD_ROWS` rows, top to bottom,
/// stopping at the first band that the buffer does not hold.
pub fn upload_bands(sw: u16, sh: u16, len: usize) -> (r: Vec<UploadBand>)
    requires
        sw * sh * 4 <= usize::MAX,
    ensures
        forall|k: int|
            0 <= k < r@.len() ==> {
                let b = band_at(sw, sh, k);
                &&& (#[trigger] r@[k]).y == b.0
                &&& r@[k].rows == b.1
                &&& r@[k].start == b.2
                &&& r@[k].end == b.3
                &&& b.3 <= len
            },
        r@.len() * MAX_UPLOAD_ROWS >= sh || band_at(sw, sh, r@.len() as int).3 > len,
        (r@.len() - 1) * MAX_UPLOAD_ROWS < sh,
{
    let bpr: usize = (sw as usize) * 4;
    let mut r: Vec<UploadBand> = Vec::new();
    let mut y: u16 = 0;
    while y < sh
        invariant
            bpr == sw * 4,
            sw * sh * 4 <= usize::MAX,
            y == min_int(r@.len() * MAX_UPLOAD_ROWS, sh as int),
            (r@.len() - 1) * MAX_UPLOAD_ROWS < sh,
            forall|k: int|
                0 <= k < r@.len() ==> {
                    let b = band_at(sw, sh, k);
                    &&& (#[trigger] r@[k]).y == b.0
                    &&& r@[k].rows == b.1
                    &&& r@[k].start == b.2
                    &&& r@[k].end == b.3
                    &&& b.3 <= len
                },
        decreases sh - y,
    {
        let rows: u16 = if MAX_UPLOAD_ROWS < sh - y { MAX_UPLOAD_ROWS } else { sh - y };
        proof {
            assert(y * (sw * 4) + rows * (sw * 4) <= sh * (sw * 4)) by (nonlinear_arith)
                requires
                    y + rows <= sh,
            ;
            assert(sh * (sw * 4) == sw * sh * 4) by (nonlinear_arith);
        }
        let start: usize = (y as usize) * bpr;
        let end: usize = start + (rows as usize) * bpr;
        if end > len {
            return r;
        }
        let ghost old_r = r@;
        r.push(UploadBand { y, rows, start, end });
        proof {
            let b = band_at(sw, sh, old_r.len() as int);
            assert(b.0 == y);
            assert(r@[old_r.len() as int] == UploadBand { y, rows, start, end });
            assert forall|k: int| 0 <= k < old_r.len() implies r@[k] == old_r[k] by {}
        }
        y = y + rows;
    }
    r
}

} // verus!
