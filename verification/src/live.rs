//! Decisions of live mode: a region is captured at every tick; only a
//! capture that differs from the last kept one is read by OCR; a text is
//! translated once it has been read the same way several times in a row,
//! and only if it is not the text translated last.
use vstd::prelude::*;
use crate::diff::{images_differ, frames_differ, ChangeRatio, RgbaFrame};
use crate::text::opt_view;

verus! {

/// Number of consecutive identical OCR reads before a text is translated.
pub const STABLE_READS_REQUIRED: u32 = 2;

/// Per-sample difference that live mode ignores.
pub const DIFF_THRESHOLD: u8 = 10;

/// Fraction of pixels (1 in 100) that must change before live mode reads
/// the region again.
pub open spec fn live_change_ratio() -> ChangeRatio {
    ChangeRatio { numerator: 1, denominator: 100 }
}

/// The text-reading part of the monitor's state, as a mathematical value.
pub struct TextState {
    pub last_ocr_text: Option<Seq<char>>,
    pub stable_count: u32,
    pub last_translated_text: Option<Seq<char>>,
}

/// What a finished OCR read does to the state, and the text it hands to
/// translation, if any. `None` stands for a failed read, which changes
/// nothing; an empty text forgets the pending one.
pub open spec fn step_text(s: TextState, ocr: Option<Seq<char>>) -> (TextState, Option<Seq<char>>) {
    match ocr {
        None => (s, None),
        Some(t) => if t.len() == 0 {
            (TextState { last_ocr_text: None, stable_count: 0, ..s }, None)
        } else {
            let count: u32 = if s.last_ocr_text == Some(t) {
                if s.stable_count < u32::MAX {
                    (s.stable_count + 1) as u32
                } else {
                    s.stable_count
                }
            } else {
                1
            };
            let n = TextState { last_ocr_text: Some(t), stable_count: count, ..s };
            if count >= STABLE_READS_REQUIRED && s.last_translated_text != Some(t) {
                (n, Some(t))
            } else {
                (n, None)
            }
        },
    }
}

/// Whether a capture differs from the kept one (always, when none is kept).
pub open spec fn frame_changed(prev: Option<RgbaFrame>, frame: RgbaFrame) -> bool {
    match prev {
        Some(p) => frames_differ(p, frame, DIFF_THRESHOLD, live_change_ratio()),
        None => true,
    }
}

/// The whole state of a session as a value: the kept capture and the
/// text-reading state.
pub struct MonitorState {
    pub prev_frame: Option<RgbaFrame>,
    pub text: TextState,
}

/// One tick of live mode: the region is captured as `frame`; when that
/// capture is read, `ocr` is what OCR gave. Returns the next state and the
/// text handed to translation, if any (no translation recorded).
pub open spec fn step_tick(m: MonitorState, frame: RgbaFrame, ocr: Option<Seq<char>>) -> (
    MonitorState,
    Option<Seq<char>>,
) {
    if frame_changed(m.prev_frame, frame) {
        let (t, out) = step_text(m.text, ocr);
        (MonitorState { prev_frame: Some(frame), text: t }, out)
    } else {
        (m, None)
    }
}

/// The state of a live monitoring session.
#[derive(Debug)]
pub struct LiveMonitor {
    pub prev_frame: Option<RgbaFrame>,
    pub last_ocr_text: Option<String>,
    pub stable_count: u32,
    pub last_translated_text: Option<String>,
}

impl LiveMonitor {
    /// The text-reading state.
    pub open spec fn text_state(&self) -> TextState {
        TextState {
            last_ocr_text: opt_view(self.last_ocr_text),
            stable_count: self.stable_count,
            last_translated_text: opt_view(self.last_translated_text),
        }
    }

    /// A pending text exists exactly when some read was counted, and the
    /// frame kept for comparison is well formed.
    pub open spec fn wf(&self) -> bool {
        &&& (self.last_ocr_text is None <==> self.stable_count == 0)
        &&& match self.prev_frame {
            Some(f) => f.wf(),
            None => true,
        }
    }

    /// A session that has seen nothing yet.
    pub fn new() -> (r: Self)
        ensures
            r.wf(),
            r.prev_frame is None,
            r.text_state() == (TextState {
                last_ocr_text: None,
                stable_count: 0,
                last_translated_text: None,
            }),
    {
        LiveMonitor { prev_frame: None, last_ocr_text: None, stable_count: 0, last_translated_text: None }
    }

    /// The whole state as a value.
    pub open spec fn state(&self) -> MonitorState {
        MonitorState { prev_frame: self.prev_frame, text: self.text_state() }
    }

    /// A new capture of the region. Returns whether it differs from the
    /// last kept capture (always, for the first one); only then is it kept
    /// and read by OCR. The pixel count is needed only to compare captures
    /// of the same size whose samples differ.
    pub fn observe_frame(&mut self, frame: RgbaFrame) -> (changed: bool)
        requires
            old(self).wf(),
            frame.wf(),
            old(self).prev_frame matches Some(p) && p.width == frame.width && p.height
                == frame.height && p.data@ != frame.data@ ==> frame.width * frame.height
                <= u32::MAX,
        ensures
            final(self).wf(),
            changed == frame_changed(old(self).prev_frame, frame),
            changed ==> final(self).prev_frame == Some(frame),
            !changed ==> final(self).prev_frame == old(self).prev_frame,
            final(self).text_state() == old(self).text_state(),
            final(self).last_ocr_text == old(self).last_ocr_text,
    {
        let changed = match &self.prev_frame {
            Some(prev) => images_differ(
                prev,
                &frame,
                DIFF_THRESHOLD,
                ChangeRatio { numerator: 1, denominator: 100 },
            ),
            None => true,
        };
        if changed {
            self.prev_frame = Some(frame);
        }
        changed
    }

    /// The result of an OCR read (`None` when it failed). Returns the text
    /// to translate now, if any.
    pub fn observe_text(&mut self, ocr: Option<String>) -> (r: Option<String>)
        requires
            old(self).wf(),
        ensures
            final(self).wf(),
            final(self).text_state() == step_text(old(self).text_state(), opt_view(ocr)).0,
            opt_view(r) == step_text(old(self).text_state(), opt_view(ocr)).1,
            final(self).prev_frame == old(self).prev_frame,
    {
        match ocr {
            None => {
                assert(step_text(self.text_state(), None) == (self.text_state(), None::<Seq<char>>));
                None
            },
            Some(text) => {
                if text.as_str().is_empty() {
                    self.last_ocr_text = None;
                    self.stable_count = 0;
                    return None;
                }
                let same = match &self.last_ocr_text {
                    Some(last) => *last == text,
                    None => false,
                };
                if same {
                    if self.stable_count < u32::MAX {
                        self.stable_count = self.stable_count + 1;
                    }
                } else {
                    self.last_ocr_text = Some(text.clone());
                    self.stable_count = 1;
                }
                let translated_same = match &self.last_translated_text {
                    Some(last) => *last == text,
                    None => false,
                };
                if self.stable_count >= STABLE_READS_REQUIRED && !translated_same {
                    Some(text)
                } else {
                    None
                }
            },
        }
    }

    /// A translation of `text` was shown.
    pub fn record_translation(&mut self, text: String)
        ensures
            final(self).last_translated_text == Some(text),
            final(self).prev_frame == old(self).prev_frame,
            final(self).last_ocr_text == old(self).last_ocr_text,
            final(self).stable_count == old(self).stable_count,
            old(self).wf() ==> final(self).wf(),
    {
        self.last_translated_text = Some(text);
    }
}

/// A text read for the first time (or after another text) is never
/// translated at once: it must be read again first.
pub proof fn lemma_new_text_waits(s: TextState, t: Seq<char>)
    requires
        s.last_ocr_text != Some(t),
    ensures
        step_text(s, Some(t)).1 is None,
{
}

/// The text translated last is not translated again while it stays on
/// screen.
pub proof fn lemma_no_repeat_translation(s: TextState, t: Seq<char>)
    requires
        s.last_translated_text == Some(t),
    ensures
        step_text(s, Some(t)).1 is None,
{
}

/// A text that is not the last translated one, read twice in a row, is
/// handed to translation at the second read.
pub proof fn lemma_stable_text_translated(s: TextState, t: Seq<char>)
    requires
        t.len() > 0,
        s.last_translated_text != Some(t),
    ensures
        step_text(step_text(s, Some(t)).0, Some(t)).1 == Some(t),
{
}

/// A failed read changes nothing; an empty read forgets the pending text,
/// so that the next text must again be read twice.
pub proof fn lemma_failed_and_empty_reads(s: TextState, t: Seq<char>)
    requires
        t.len() > 0,
    ensures
        step_text(s, None) == (s, None::<Seq<char>>),
        step_text(step_text(s, Some(Seq::<char>::empty())).0, Some(t)).1 is None,
{
}

/// The state after a series of OCR reads, with no translation recorded in
/// between.
pub open spec fn after_reads(s: TextState, reads: Seq<Option<Seq<char>>>) -> TextState
    decreases reads.len(),
{
    if reads.len() == 0 {
        s
    } else {
        step_text(after_reads(s, reads.drop_last()), reads.last()).0
    }
}

/// Until a new translation is recorded, the text translated last is never
/// offered again, whatever is read in between.
pub proof fn lemma_translated_text_never_repeats(
    s: TextState,
    reads: Seq<Option<Seq<char>>>,
    t: Seq<char>,
)
    requires
        s.last_translated_text == Some(t),
    ensures
        after_reads(s, reads).last_translated_text == Some(t),
        step_text(after_reads(s, reads), Some(t)).1 is None,
    decreases reads.len(),
{
    if reads.len() > 0 {
        lemma_translated_text_never_repeats(s, reads.drop_last(), t);
    }
}

/// A capture that does not differ from the kept one is not read: the tick
/// changes nothing and hands nothing on.
pub proof fn lemma_unchanged_capture_not_read(m: MonitorState, f: RgbaFrame, ocr: Option<Seq<char>>)
    requires
        !frame_changed(m.prev_frame, f),
    ensures
        step_tick(m, f, ocr) == (m, None::<Seq<char>>),
{
}

/// In particular a region that stays as it was kept is never read again:
/// its text is not translated a second time.
pub proof fn lemma_still_region_settled(m: MonitorState, f: RgbaFrame, ocr: Option<Seq<char>>)
    requires
        m.prev_frame == Some(f),
    ensures
        step_tick(m, f, ocr) == (m, None::<Seq<char>>),
{
    crate::diff::lemma_differ_basics(f, f, DIFF_THRESHOLD, live_change_ratio());
}

/// Two successive captures that each differ from the one kept before them
/// and read the same non-empty text `t` hand `t` to translation at the
/// second, unless `t` is the text translated last.
pub proof fn lemma_text_stable_across_changes(
    m: MonitorState,
    f1: RgbaFrame,
    f2: RgbaFrame,
    t: Seq<char>,
)
    requires
        t.len() > 0,
        m.text.last_translated_text != Some(t),
        frame_changed(m.prev_frame, f1),
        frame_changed(Some(f1), f2),
    ensures
        step_tick(step_tick(m, f1, Some(t)).0, f2, Some(t)).1 == Some(t),
{
}

/// Whatever is handed to translation was the text of the read.
pub proof fn lemma_handed_text_is_read(s: TextState, ocr: Option<Seq<char>>)
    ensures
        step_text(s, ocr).1 is Some ==> ocr == step_text(s, ocr).1 && step_text(s, ocr).0.last_ocr_text
            == ocr,
{
}

} // verus!
