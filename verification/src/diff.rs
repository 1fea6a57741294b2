//! Change detection between two captures of the same screen region.
use vstd::prelude::*;

verus! {

/// An image as 8-bit RGBA samples, row by row, four bytes per pixel.
#[derive(Debug, Clone)]
pub struct RgbaFrame {
    pub width: u32,
    pub height: u32,
    pub data: Vec<u8>,
}

impl RgbaFrame {
    /// The samples are exactly those of `width * height` pixels.
    pub open spec fn wf(&self) -> bool {
        self.data@.len() == self.width * self.height * 4
    }

    /// Number of pixels.
    pub open spec fn pixels(&self) -> int {
        self.width * self.height
    }

    /// A frame of the given size over `data`; `None` when `data` does not
    /// hold exactly `width * height` RGBA pixels.
    pub fn from_raw(width: u32, height: u32, data: Vec<u8>) -> (r: Option<RgbaFrame>)
        ensures
            data@.len() == width * height * 4 ==> r == Some(RgbaFrame { width, height, data }),
            data@.len() != width * height * 4 ==> r is None,
    {
        let w: u64 = width as u64;
        let h: u64 = height as u64;
        proof {
            lemma_u32_product_fits(w, h);
        }
        let n: u64 = w * h;
        let len = data.len();
        if n > usize::MAX as u64 / 4 {
            return None;
        }
        if data.len() == (n as usize) * 4 {
            Some(RgbaFrame { width, height, data })
        } else {
            None
        }
    }
}

/// The fraction of pixels that must change, as `numerator / denominator`.
#[derive(Debug, Clone, Copy, PartialEq, Eq, Structural)]
pub struct ChangeRatio {
    pub numerator: u32,
    pub denominator: u32,
}

/// `|x - y|`.
pub open spec fn abs_diff(x: u8, y: u8) -> int {
    if x >= y {
        x - y
    } else {
        y - x
    }
}

/// Pixel `p` differs by more than `threshold` in its red, green or blue
/// sample (alpha is not compared).
pub open spec fn pixel_changed(a: Seq<u8>, b: Seq<u8>, p: int, threshold: u8) -> bool {
    ||| abs_diff(a[4 * p], b[4 * p]) > threshold
    ||| abs_diff(a[4 * p + 1], b[4 * p + 1]) > threshold
    ||| abs_diff(a[4 * p + 2], b[4 * p + 2]) > threshold
}

/// How many of the first `n` pixels changed.
pub open spec fn count_changed(a: Seq<u8>, b: Seq<u8>, n: int, threshold: u8) -> nat
    decreases n,
{
    if n <= 0 {
        0
    } else {
        count_changed(a, b, n - 1, threshold) + if pixel_changed(a, b, n - 1, threshold) {
            1nat
        } else {
            0nat
        }
    }
}

/// `ceil(total * ratio)`: the number of changed pixels that counts as a change.
pub open spec fn required_changes(total: int, ratio: ChangeRatio) -> int {
    (total * ratio.numerator + ratio.denominator - 1) / (ratio.denominator as int)
}

/// Whether two frames count as different: sizes differ; or the samples
/// differ and at least `ceil(pixels * ratio)` pixels changed by more than
/// `threshold` in some colour sample.
pub open spec fn frames_differ(a: RgbaFrame, b: RgbaFrame, threshold: u8, ratio: ChangeRatio) -> bool {
    if a.width != b.width || a.height != b.height {
        true
    } else if a.data@ == b.data@ {
        false
    } else {
        count_changed(a.data@, b.data@, a.pixels(), threshold) >= required_changes(a.pixels(), ratio)
    }
}

proof fn lemma_count_monotone(a: Seq<u8>, b: Seq<u8>, m: int, n: int, threshold: u8)
    requires
        m <= n,
    ensures
        count_changed(a, b, m, threshold) <= count_changed(a, b, n, threshold),
    decreases n - m,
{
    if m < n {
        lemma_count_monotone(a, b, m, n - 1, threshold);
    }
}

/// No pixel of two equal sample sequences changes.
pub proof fn lemma_count_equal_zero(a: Seq<u8>, n: int, threshold: u8)
    requires
        n <= a.len() / 4,
    ensures
        count_changed(a, a, n, threshold) == 0,
    decreases n,
{
    if n > 0 {
        lemma_count_equal_zero(a, n - 1, threshold);
    }
}

proof fn lemma_u32_product_fits(x: u64, y: u64)
    requires
        x <= 0xffff_ffff,
        y <= 0xffff_ffff,
    ensures
        x * y <= 0xffff_fffe_0000_0001,
{
    assert(x * y <= 0xffff_ffff * 0xffff_ffff) by (nonlinear_arith)
        requires
            x <= 0xffff_ffff,
            y <= 0xffff_ffff,
    ;
}

/// Comparing is symmetric: `a` differs from `b` exactly when `b` differs
/// from `a`.
pub proof fn lemma_differ_symmetric(a: RgbaFrame, b: RgbaFrame, threshold: u8, ratio: ChangeRatio)
    ensures
        frames_differ(a, b, threshold, ratio) == frames_differ(b, a, threshold, ratio),
{
    if a.width == b.width && a.height == b.height && a.data@ != b.data@ {
        lemma_count_symmetric(a.data@, b.data@, a.pixels(), threshold);
    }
}

proof fn lemma_count_symmetric(a: Seq<u8>, b: Seq<u8>, n: int, threshold: u8)
    ensures
        count_changed(a, b, n, threshold) == count_changed(b, a, n, threshold),
    decreases n,
{
    if n > 0 {
        lemma_count_symmetric(a, b, n - 1, threshold);
    }
}

/// A frame never differs from itself, and frames of different sizes
/// always differ.
pub proof fn lemma_differ_basics(a: RgbaFrame, b: RgbaFrame, threshold: u8, ratio: ChangeRatio)
    ensures
        !frames_differ(a, a, threshold, ratio),
        (a.width != b.width || a.height != b.height) ==> frames_differ(a, b, threshold, ratio),
{
}

proof fn lemma_count_threshold_monotone(a: Seq<u8>, b: Seq<u8>, n: int, t1: u8, t2: u8)
    requires
        t1 <= t2,
    ensures
        count_changed(a, b, n, t2) <= count_changed(a, b, n, t1),
    decreases n,
{
    if n > 0 {
        lemma_count_threshold_monotone(a, b, n - 1, t1, t2);
    }
}

/// A larger tolerance never turns "unchanged" into "changed".
pub proof fn lemma_differ_threshold_monotone(
    a: RgbaFrame,
    b: RgbaFrame,
    t1: u8,
    t2: u8,
    ratio: ChangeRatio,
)
    requires
        t1 <= t2,
        frames_differ(a, b, t2, ratio),
    ensures
        frames_differ(a, b, t1, ratio),
{
    if a.width == b.width && a.height == b.height && a.data@ != b.data@ {
        lemma_count_threshold_monotone(a.data@, b.data@, a.pixels(), t1, t2);
    }
}

/// `ceil(x / d)`, written `(x + d - 1) / d`, is the least `q` with `x <= q * d`.
proof fn lemma_ceil_div(x: int, d: int)
    requires
        x >= 0,
        d > 0,
    ensures
        x <= ((x + d - 1) / d) * d,
        ((x + d - 1) / d - 1) * d < x,
{
    let q = (x + d - 1) / d;
    let r = (x + d - 1) % d;
    vstd::arithmetic::div_mod::lemma_fundamental_div_mod(x + d - 1, d);
    assert(0 <= r < d) by {
        vstd::arithmetic::div_mod::lemma_mod_bound(x + d - 1, d);
    }
    assert(x + d - 1 == d * q + r);
    assert(q * d == d * q) by (nonlinear_arith);
    assert((q - 1) * d == q * d - d) by (nonlinear_arith);
}

/// A larger fraction never asks for fewer changed pixels.
proof fn lemma_required_changes_monotone(total: int, r1: ChangeRatio, r2: ChangeRatio)
    requires
        total >= 0,
        r1.denominator > 0,
        r2.denominator > 0,
        r1.numerator * r2.denominator <= r2.numerator * r1.denominator,
    ensures
        required_changes(total, r1) <= required_changes(total, r2),
{
    let n1 = r1.numerator as int;
    let d1 = r1.denominator as int;
    let n2 = r2.numerator as int;
    let d2 = r2.denominator as int;
    let x1 = total * n1;
    let x2 = total * n2;
    assert(x1 >= 0 && x2 >= 0) by (nonlinear_arith)
        requires
            total >= 0,
            n1 >= 0,
            n2 >= 0,
            x1 == total * n1,
            x2 == total * n2,
    ;
    lemma_ceil_div(x1, d1);
    lemma_ceil_div(x2, d2);
    let k1 = (x1 + d1 - 1) / d1;
    let k2 = (x2 + d2 - 1) / d2;
    assert(required_changes(total, r1) == k1);
    assert(required_changes(total, r2) == k2);
    // k2 * d1 covers total * n1: k2 * d1 * d2 >= x2 * d1 = total * n2 * d1 >= total * n1 * d2
    assert(x1 <= k2 * d1) by (nonlinear_arith)
        requires
            x2 <= k2 * d2,
            x1 == total * n1,
            x2 == total * n2,
            total >= 0,
            d1 > 0,
            d2 > 0,
            n1 * d2 <= n2 * d1,
    {
        assert(x2 * d1 <= k2 * d2 * d1);
        assert(total * (n1 * d2) <= total * (n2 * d1));
        assert(x1 * d2 <= k2 * d1 * d2);
    }
    assert(k1 <= k2) by (nonlinear_arith)
        requires
            (k1 - 1) * d1 < x1,
            x1 <= k2 * d1,
            d1 > 0,
    ;
}

/// Change detection is monotone in both tolerances: with a larger (or
/// equal) per-sample threshold and a larger (or equal) fraction of pixels
/// required, a pair of frames that counts as changed also counts as changed
/// under the smaller ones.
pub proof fn lemma_differ_monotone(
    a: RgbaFrame,
    b: RgbaFrame,
    t1: u8,
    t2: u8,
    r1: ChangeRatio,
    r2: ChangeRatio,
)
    requires
        t1 <= t2,
        r1.denominator > 0,
        r2.denominator > 0,
        r1.numerator * r2.denominator <= r2.numerator * r1.denominator,
        frames_differ(a, b, t2, r2),
    ensures
        frames_differ(a, b, t1, r1),
{
    if a.width == b.width && a.height == b.height && a.data@ != b.data@ {
        lemma_count_threshold_monotone(a.data@, b.data@, a.pixels(), t1, t2);
        assert(a.pixels() >= 0) by (nonlinear_arith)
            requires
                a.pixels() == a.width * a.height,
                a.width >= 0,
                a.height >= 0,
        ;
        lemma_required_changes_monotone(a.pixels(), r1, r2);
    }
}

/// Sample `k` of `a` and of `b` are more than `threshold` apart.
pub open spec fn sample_moved(a: Seq<u8>, b: Seq<u8>, k: int, threshold: u8) -> bool {
    a[k] - b[k] > threshold || b[k] - a[k] > threshold
}

proof fn lemma_count_all_changed(a: Seq<u8>, b: Seq<u8>, n: int, threshold: u8)
    requires
        n >= 0,
        forall|p: int|
            0 <= p < n ==> sample_moved(a, b, #[trigger] (4 * p), threshold) || sample_moved(
                a,
                b,
                4 * p + 1,
                threshold,
            ) || sample_moved(a, b, 4 * p + 2, threshold),
    ensures
        count_changed(a, b, n, threshold) == n,
    decreases n,
{
    if n > 0 {
        lemma_count_all_changed(a, b, n - 1, threshold);
        let p = n - 1;
        assert(sample_moved(a, b, 4 * p, threshold) || sample_moved(a, b, 4 * p + 1, threshold)
            || sample_moved(a, b, 4 * p + 2, threshold));
    }
}

/// Every colour sample counts: two captures of the same size in which each
/// pixel has its red, its green or its blue sample moved by more than the
/// threshold differ, for any required fraction of at most one.
pub proof fn lemma_every_pixel_moved_differs(a: RgbaFrame, b: RgbaFrame, threshold: u8, ratio: ChangeRatio)
    requires
        a.wf(),
        b.wf(),
        a.width == b.width,
        a.height == b.height,
        a.pixels() > 0,
        ratio.denominator > 0,
        ratio.numerator <= ratio.denominator,
        forall|p: int|
            0 <= p < a.pixels() ==> sample_moved(a.data@, b.data@, #[trigger] (4 * p), threshold)
                || sample_moved(a.data@, b.data@, 4 * p + 1, threshold) || sample_moved(
                a.data@,
                b.data@,
                4 * p + 2,
                threshold,
            ),
    ensures
        frames_differ(a, b, threshold, ratio),
{
    let n = a.pixels();
    lemma_count_all_changed(a.data@, b.data@, n, threshold);
    let p0: int = 0;
    assert(sample_moved(a.data@, b.data@, 4 * p0, threshold) || sample_moved(a.data@, b.data@, 4 * p0 + 1, threshold)
        || sample_moved(a.data@, b.data@, 4 * p0 + 2, threshold));
    assert(a.data@ != b.data@) by {
        if a.data@ == b.data@ {
            assert(a.data@[0] == b.data@[0] && a.data@[1] == b.data@[1] && a.data@[2] == b.data@[2]);
        }
    }
    let num = ratio.numerator as int;
    let den = ratio.denominator as int;
    assert(n * num + den - 1 < (n + 1) * den) by (nonlinear_arith)
        requires
            n > 0,
            0 <= num <= den,
            den > 0,
    ;
    assert(n * num + den - 1 >= 0) by (nonlinear_arith)
        requires
            n > 0,
            num >= 0,
            den > 0,
    ;
    assert((n * num + den - 1) / den <= n) by (nonlinear_arith)
        requires
            0 <= n * num + den - 1 < (n + 1) * den,
            den > 0,
    ;
}

proof fn lemma_count_none_changed(a: Seq<u8>, b: Seq<u8>, n: int, threshold: u8)
    requires
        forall|p: int|
            0 <= p < n ==> !sample_moved(a, b, #[trigger] (4 * p), threshold) && !sample_moved(
                a,
                b,
                4 * p + 1,
                threshold,
            ) && !sample_moved(a, b, 4 * p + 2, threshold),
    ensures
        count_changed(a, b, n, threshold) == 0,
    decreases n,
{
    if n > 0 {
        lemma_count_none_changed(a, b, n - 1, threshold);
        let p = n - 1;
        assert(!sample_moved(a, b, 4 * p, threshold) && !sample_moved(a, b, 4 * p + 1, threshold)
            && !sample_moved(a, b, 4 * p + 2, threshold));
    }
}

/// Changes within the threshold, and changes of the alpha sample, never
/// count: two captures of the same size in which no red, green or blue
/// sample moved by more than the threshold do not differ, for any
/// required fraction above zero.
pub proof fn lemma_changes_within_threshold_ignored(a: RgbaFrame, b: RgbaFrame, threshold: u8, ratio: ChangeRatio)
    requires
        a.wf(),
        b.wf(),
        a.width == b.width,
        a.height == b.height,
        ratio.numerator > 0,
        ratio.denominator > 0,
        forall|p: int|
            0 <= p < a.pixels() ==> !sample_moved(a.data@, b.data@, #[trigger] (4 * p), threshold)
                && !sample_moved(a.data@, b.data@, 4 * p + 1, threshold) && !sample_moved(
                a.data@,
                b.data@,
                4 * p + 2,
                threshold,
            ),
    ensures
        !frames_differ(a, b, threshold, ratio),
{
    let n = a.pixels();
    if a.data@ != b.data@ {
        lemma_count_none_changed(a.data@, b.data@, n, threshold);
        if n > 0 {
            let num = ratio.numerator as int;
            let den = ratio.denominator as int;
            assert((n * num + den - 1) / den >= 1) by (nonlinear_arith)
                requires
                    n > 0,
                    num > 0,
                    den > 0,
            {
                assert(n * num >= 1);
            }
        } else {
            assert(n == 0) by (nonlinear_arith)
                requires
                    n == a.width * a.height,
                    a.width >= 0,
                    a.height >= 0,
                    !(n > 0),
            ;
            assert(a.data@ =~= b.data@);
        }
    }
}

/// With a zero ratio, any change of the samples counts (the tolerance then
/// does not matter).
pub proof fn lemma_zero_ratio_detects_any_change(a: RgbaFrame, b: RgbaFrame, threshold: u8, d: u32)
    requires
        d > 0,
        a.width == b.width,
        a.height == b.height,
    ensures
        frames_differ(a, b, threshold, ChangeRatio { numerator: 0, denominator: d }) == (a.data@
            != b.data@),
{
    let r = ChangeRatio { numerator: 0, denominator: d };
    assert(required_changes(a.pixels(), r) == (d - 1) / (d as int));
    assert((d - 1) / (d as int) == 0) by (nonlinear_arith)
        requires
            d > 0,
    ;
}

fn u8_abs_diff(x: u8, y: u8) -> (r: u8)
    ensures
        r == abs_diff(x, y),
{
    if x >= y {
        x - y
    } else {
        y - x
    }
}

fn same_samples(a: &Vec<u8>, b: &Vec<u8>) -> (r: bool)
    ensures
        r == (a@ == b@),
{
    if a.len() != b.len() {
        return false;
    }
    let mut i: usize = 0;
    while i < a.len()
        invariant
            a.len() == b.len(),
            i <= a.len(),
            forall|k: int| 0 <= k < i ==> a@[k] == b@[k],
        decreases a.len() - i,
    {
        if a[i] != b[i] {
            return false;
        }
        i += 1;
    }
    assert(a@ =~= b@);
    true
}

/// Compares two frames and tells whether they differ beyond the tolerance:
/// `threshold` is the largest per-sample difference that is ignored, and
/// `change_ratio` the fraction of pixels that must change.
pub fn images_differ(a: &RgbaFrame, b: &RgbaFrame, threshold: u8, change_ratio: ChangeRatio) -> (r: bool)
    requires
        a.wf(),
        b.wf(),
        change_ratio.denominator > 0,
        a.width == b.width && a.height == b.height && a.data@ != b.data@ ==> a.width * a.height
            <= u32::MAX,
    ensures
        r == frames_differ(*a, *b, threshold, change_ratio),
{
    if a.width != b.width || a.height != b.height {
        return true;
    }
    if same_samples(&a.data, &b.data) {
        return false;
    }
    let total: u32 = a.width * a.height;
    let t64: u64 = total as u64;
    let num: u64 = change_ratio.numerator as u64;
    let den: u64 = change_ratio.denominator as u64;
    proof {
        lemma_u32_product_fits(t64, num);
    }
    let required: u64 = (t64 * num + den - 1) / den;
    let dlen = a.data.len();
    let mut changed: u64 = 0;
    let mut p: usize = 0;
    let n: usize = total as usize;
    assert(a.data@.len() == 4 * n);
    while p < n
        invariant
            a.wf(),
            b.wf(),
            n == a.pixels(),
            a.data@.len() == 4 * n,
            b.data@.len() == 4 * n,
            4 * n <= usize::MAX,
            p <= n,
            changed == count_changed(a.data@, b.data@, p as int, threshold),
            changed <= p,
            required == required_changes(a.pixels(), change_ratio),
        decreases n - p,
    {
        let i = 4 * p;
        let d0 = u8_abs_diff(a.data[i], b.data[i]);
        let d1 = u8_abs_diff(a.data[i + 1], b.data[i + 1]);
        let d2 = u8_abs_diff(a.data[i + 2], b.data[i + 2]);
        if d0 > threshold || d1 > threshold || d2 > threshold {
            changed += 1;
            if changed >= required {
                proof {
                    lemma_count_monotone(a.data@, b.data@, p + 1, n as int, threshold);
                }
                return true;
            }
        }
        p += 1;
    }
    changed >= required
}

} // verus!
