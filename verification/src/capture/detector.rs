//! Change detection: the exact fraction of pixels that differ between two
//! frames. A pure computation; what to do with the fraction is decided by
//! the stream that asks for it.

use crate::frame::{lemma_row_inside, RawFrame, RawFrameView};
use vstd::prelude::*;

verus! {

/// A fraction `num / den` with `num <= den` and `den >= 1`.
pub struct Fraction {
    pub num: nat,
    pub den: nat,
}

/// The share of a frame's pixels that changed, kept exact as a count of
/// changed pixels out of a total.
#[derive(Debug, Clone, Copy)]
pub struct ChangeRatio {
    changed: u64,
    total: u64,
}

impl View for ChangeRatio {
    type V = Fraction;

    closed spec fn view(&self) -> Fraction {
        Fraction { num: self.changed as nat, den: self.total as nat }
    }
}

/// Pixel `x` of two rows differs in at least one of its four channels.
pub open spec fn pixel_differs(a: Seq<u8>, b: Seq<u8>, x: int) -> bool {
    ||| a[4 * x] != b[4 * x]
    ||| a[4 * x + 1] != b[4 * x + 1]
    ||| a[4 * x + 2] != b[4 * x + 2]
    ||| a[4 * x + 3] != b[4 * x + 3]
}

/// How many of the first `upto` pixels of two rows differ.
pub open spec fn row_mismatches(a: Seq<u8>, b: Seq<u8>, upto: nat) -> nat
    decreases upto,
{
    if upto == 0 {
        0
    } else {
        row_mismatches(a, b, (upto - 1) as nat) + if pixel_differs(a, b, upto - 1) {
            1nat
        } else {
            0nat
        }
    }
}

/// How many pixels differ in the first `upto` rows of two pictures that are
/// `width` pixels wide.
pub open spec fn mismatches(a: Seq<Seq<u8>>, b: Seq<Seq<u8>>, width: nat, upto: nat) -> nat
    decreases upto,
{
    if upto == 0 {
        0
    } else {
        mismatches(a, b, width, (upto - 1) as nat) + row_mismatches(
            a[upto - 1],
            b[upto - 1],
            width,
        )
    }
}

/// The change ratio of `current` against `previous`: one when there is no
/// previous frame or the sizes differ, zero for a picture without pixels,
/// else the differing pixels out of all pixels.
pub open spec fn ratio_of(current: RawFrameView, previous: Option<RawFrameView>) -> Fraction {
    match previous {
        None => Fraction { num: 1, den: 1 },
        Some(last) => if current.width != last.width || current.height != last.height {
            Fraction { num: 1, den: 1 }
        } else if current.width * current.height == 0 {
            Fraction { num: 0, den: 1 }
        } else {
            Fraction {
                num: mismatches(current.rows, last.rows, current.width, current.height),
                den: current.width * current.height,
            }
        },
    }
}

/// No more pixels of a row can differ than were looked at.
pub proof fn lemma_row_mismatches_bound(a: Seq<u8>, b: Seq<u8>, upto: nat)
    ensures
        row_mismatches(a, b, upto) <= upto,
    decreases upto,
{
    if upto > 0 {
        lemma_row_mismatches_bound(a, b, (upto - 1) as nat);
    }
}

/// No more pixels can differ than the rows looked at hold.
pub proof fn lemma_mismatches_bound(a: Seq<Seq<u8>>, b: Seq<Seq<u8>>, width: nat, upto: nat)
    ensures
        mismatches(a, b, width, upto) <= upto * width,
    decreases upto,
{
    if upto > 0 {
        lemma_mismatches_bound(a, b, width, (upto - 1) as nat);
        lemma_row_mismatches_bound(a[upto - 1], b[upto - 1], width);
        assert(upto * width == (upto - 1) * width + width) by (nonlinear_arith);
    } else {
        assert(0 * width == 0) by (nonlinear_arith);
    }
}

/// Two rows that agree on their first `upto` pixels have no mismatch there.
pub proof fn lemma_equal_rows_match(a: Seq<u8>, b: Seq<u8>, upto: nat)
    requires
        forall|x: int| 0 <= x < upto ==> !pixel_differs(a, b, x),
    ensures
        row_mismatches(a, b, upto) == 0,
    decreases upto,
{
    if upto > 0 {
        lemma_equal_rows_match(a, b, (upto - 1) as nat);
    }
}

/// Two rows that differ at pixel `at` and nowhere else among their first
/// `upto` pixels have exactly one mismatch there.
pub proof fn lemma_row_single_mismatch(a: Seq<u8>, b: Seq<u8>, upto: nat, at: int)
    requires
        0 <= at < upto,
        pixel_differs(a, b, at),
        forall|x: int| 0 <= x < upto && x != at ==> !pixel_differs(a, b, x),
    ensures
        row_mismatches(a, b, upto) == 1,
    decreases upto,
{
    if at == upto - 1 {
        lemma_equal_rows_match(a, b, (upto - 1) as nat);
    } else {
        lemma_row_single_mismatch(a, b, (upto - 1) as nat, at);
    }
}

/// Pictures whose first `upto` rows have no differing pixel have no
/// mismatch there.
pub proof fn lemma_equal_pictures_match(
    a: Seq<Seq<u8>>,
    b: Seq<Seq<u8>>,
    width: nat,
    upto: nat,
)
    requires
        forall|x: int, y: int| 0 <= x < width && 0 <= y < upto ==> !pixel_differs(a[y], b[y], x),
    ensures
        mismatches(a, b, width, upto) == 0,
    decreases upto,
{
    if upto > 0 {
        lemma_equal_pictures_match(a, b, width, (upto - 1) as nat);
        lemma_equal_rows_match(a[upto - 1], b[upto - 1], width);
    }
}

/// A frame compared with an identical frame has change ratio zero.
pub proof fn lemma_identical_frames_ratio_zero(current: RawFrameView, previous: RawFrameView)
    requires
        current == previous,
    ensures
        ratio_of(current, Some(previous)).num == 0,
        ratio_of(current, Some(previous)).den >= 1,
{
    lemma_equal_pictures_match(current.rows, previous.rows, current.width, current.height);
}

/// Two frames of one size that differ at the single pixel `(x, y)` have
/// change ratio `1 / (width * height)`.
pub proof fn lemma_single_pixel_ratio(
    current: RawFrameView,
    previous: RawFrameView,
    x: int,
    y: int,
)
    requires
        current.width == previous.width,
        current.height == previous.height,
        0 <= x < current.width,
        0 <= y < current.height,
        pixel_differs(current.rows[y], previous.rows[y], x),
        forall|i: int, j: int|
            0 <= i < current.width && 0 <= j < current.height && !(i == x && j == y)
                ==> !pixel_differs(current.rows[j], previous.rows[j], i),
    ensures
        ratio_of(current, Some(previous)) == (Fraction {
            num: 1,
            den: current.width * current.height,
        }),
{
    lemma_single_pixel_count(current.rows, previous.rows, current.width, current.height, x, y);
    assert(current.width * current.height != 0) by (nonlinear_arith)
        requires
            current.width > 0,
            current.height > 0,
    ;
}

/// Among the first `upto` rows, with `y` one of them, a single differing
/// pixel counts as one mismatch.
proof fn lemma_single_pixel_count(
    a: Seq<Seq<u8>>,
    b: Seq<Seq<u8>>,
    width: nat,
    upto: nat,
    x: int,
    y: int,
)
    requires
        0 <= x < width,
        0 <= y < upto,
        pixel_differs(a[y], b[y], x),
        forall|i: int, j: int|
            0 <= i < width && 0 <= j < upto && !(i == x && j == y) ==> !pixel_differs(
                a[j],
                b[j],
                i,
            ),
    ensures
        mismatches(a, b, width, upto) == 1,
    decreases upto,
{
    if y == upto - 1 {
        lemma_equal_pictures_match(a, b, width, (upto - 1) as nat);
        lemma_row_single_mismatch(a[y], b[y], width, x);
    } else {
        lemma_single_pixel_count(a, b, width, (upto - 1) as nat, x, y);
        lemma_equal_rows_match(a[upto - 1], b[upto - 1], width);
    }
}

/// Frames of different sizes have change ratio one, whatever they show.
pub proof fn lemma_different_sizes_ratio_one(current: RawFrameView, previous: RawFrameView)
    requires
        current.width != previous.width || current.height != previous.height,
    ensures
        ratio_of(current, Some(previous)) == (Fraction { num: 1, den: 1 }),
{
}

/// The first frame ever seen has change ratio one.
pub proof fn lemma_first_frame_ratio_one(current: RawFrameView)
    ensures
        ratio_of(current, None) == (Fraction { num: 1, den: 1 }),
{
}

/// The product of two 32-bit sizes fits 64 bits.
proof fn lemma_area_fits(width: u32, height: u32)
    ensures
        width * height <= u64::MAX,
{
    assert(width * height <= 0xffff_ffff * 0xffff_ffff) by (nonlinear_arith)
        requires
            0 <= width <= 0xffff_ffff,
            0 <= height <= 0xffff_ffff,
    ;
}

/// Counts the differing pixels among the `width` pixels that start at
/// `a_base` in `a` and at `b_base` in `b`.
fn count_row(a: &Vec<u8>, a_base: usize, b: &Vec<u8>, b_base: usize, width: u32) -> (n: u64)
    requires
        a_base + 4 * width <= a.len(),
        b_base + 4 * width <= b.len(),
    ensures
        n == row_mismatches(
            a@.subrange(a_base as int, a_base + 4 * width),
            b@.subrange(b_base as int, b_base + 4 * width),
            width as nat,
        ),
        n <= width,
{
    let ghost row_a = a@.subrange(a_base as int, a_base + 4 * width);
    let ghost row_b = b@.subrange(b_base as int, b_base + 4 * width);
    let mut n: u64 = 0;
    let mut x: u32 = 0;
    while x < width
        invariant
            x <= width,
            a_base + 4 * width <= a.len(),
            b_base + 4 * width <= b.len(),
            row_a == a@.subrange(a_base as int, a_base + 4 * width),
            row_b == b@.subrange(b_base as int, b_base + 4 * width),
            n == row_mismatches(row_a, row_b, x as nat),
            n <= x,
        decreases width - x,
    {
        let i: usize = a_base + 4 * (x as usize);
        let j: usize = b_base + 4 * (x as usize);
        let differs = a[i] != b[j] || a[i + 1] != b[j + 1] || a[i + 2] != b[j + 2] || a[i + 3]
            != b[j + 3];
        assert(differs == pixel_differs(row_a, row_b, x as int));
        if differs {
            n = n + 1;
        }
        x = x + 1;
    }
    n
}

impl ChangeRatio {
    /// The count of changed pixels.
    pub fn changed(&self) -> (n: u64)
        ensures
            n == self@.num,
    {
        self.changed
    }

    /// The count of pixels compared; at least one.
    pub fn total(&self) -> (n: u64)
        ensures
            n == self@.den,
    {
        self.total
    }

    /// Whether the ratio is strictly greater than `num / den`.
    pub fn exceeds(&self, num: u64, den: u64) -> (over: bool)
        ensures
            over == (self@.num * den > num * self@.den),
    {
        assert(self.changed * den <= 0xffff_ffff_ffff_ffff * 0xffff_ffff_ffff_ffff)
            by (nonlinear_arith)
            requires
                0 <= self.changed <= 0xffff_ffff_ffff_ffff,
                0 <= den <= 0xffff_ffff_ffff_ffff,
        ;
        assert(num * self.total <= 0xffff_ffff_ffff_ffff * 0xffff_ffff_ffff_ffff)
            by (nonlinear_arith)
            requires
                0 <= self.total <= 0xffff_ffff_ffff_ffff,
                0 <= num <= 0xffff_ffff_ffff_ffff,
        ;
        (self.changed as u128) * (den as u128) > (num as u128) * (self.total as u128)
    }
}

/// Compares `current` with the frame before it, pixel by pixel and all four
/// channels of each, and gives the fraction of pixels that differ. Without
/// a previous frame, or with one of another size, the fraction is one.
pub fn changed_ratio(current: &RawFrame, previous: Option<&RawFrame>) -> (ratio: ChangeRatio)
    requires
        current.wf(),
        previous matches Some(last) ==> last.wf(),
    ensures
        ratio@ == ratio_of(
            current@,
            match previous {
                Some(last) => Some(last@),
                None => None,
            },
        ),
        ratio@.num <= ratio@.den,
        ratio@.den >= 1,
{
    match previous {
        None => ChangeRatio { changed: 1, total: 1 },
        Some(last) => calculate_frame_diff(current, last),
    }
}

/// Compares two frames pixel by pixel: one when their sizes differ, else
/// the fraction of pixels that differ in any channel.
pub fn calculate_frame_diff(current: &RawFrame, last: &RawFrame) -> (ratio: ChangeRatio)
    requires
        current.wf(),
        last.wf(),
    ensures
        ratio@ == ratio_of(current@, Some(last@)),
        ratio@.num <= ratio@.den,
        ratio@.den >= 1,
{
    let width: u32 = current.width();
    let height: u32 = current.height();
    if width != last.width() || height != last.height() {
        return ChangeRatio { changed: 1, total: 1 };
    }
    proof {
        lemma_area_fits(width, height);
        current.lemma_view();
        last.lemma_view();
    }
    let total: u64 = (width as u64) * (height as u64);
    if total == 0 {
        return ChangeRatio { changed: 0, total: 1 };
    }
    let a = current.data();
    let b = last.data();
    let a_stride: usize = current.stride();
    let b_stride: usize = last.stride();
    let ghost rows_a = current@.rows;
    let ghost rows_b = last@.rows;
    let mut changed: u64 = 0;
    let mut a_base: usize = 0;
    let mut b_base: usize = 0;
    let mut y: u32 = 0;
    while y < height
        invariant
            y <= height,
            4 * width <= a_stride,
            4 * width <= b_stride,
            a.len() == a_stride * height,
            b.len() == b_stride * height,
            a_base == y * a_stride,
            b_base == y * b_stride,
            rows_a == crate::frame::rows_of(a@, width as nat, height as nat, a_stride as nat),
            rows_b == crate::frame::rows_of(b@, width as nat, height as nat, b_stride as nat),
            changed == mismatches(rows_a, rows_b, width as nat, y as nat),
            changed <= y * width,
            width * height <= u64::MAX,
        decreases height - y,
    {
        proof {
            lemma_row_inside(y as int, height as int, a_stride as int);
            lemma_row_inside(y as int, height as int, b_stride as int);
            assert((y + 1) * width == y * width + width) by (nonlinear_arith);
            assert((y + 1) * width <= height * width) by (nonlinear_arith)
                requires
                    y + 1 <= height,
                    0 <= width,
            ;
            assert(height * width == width * height) by (nonlinear_arith);
        }
        let n: u64 = count_row(a, a_base, b, b_base, width);
        changed = changed + n;
        a_base = a_base + a_stride;
        b_base = b_base + b_stride;
        y = y + 1;
    }
    proof {
        lemma_mismatches_bound(rows_a, rows_b, width as nat, height as nat);
        assert(height * width == width * height) by (nonlinear_arith);
    }
    ChangeRatio { changed, total }
}

} // verus!
