//! The heads-up display: seven-segment score digits and a crude text
//! placeholder, both computed as lists of rectangles (in pixels) for a
//! renderer to fill or outline.

use vstd::prelude::*;
use vstd::string::StrSliceExecFns;

use crate::config::POS_LIMIT;
use crate::geometry::{Rect, RectModel};

verus! {

/// Machine bound on the length of a text line the display lays out.
pub const TEXT_LIMIT: usize = 100_000;

/// Which of the seven segments — top, top-right, bottom-right, bottom,
/// bottom-left, top-left, middle, in that order — light up for a
/// decimal digit; anything above nine lights none.
pub open spec fn digit_segments(d: int) -> Seq<bool> {
    if d == 0 {
        seq![true, true, true, true, true, true, false]
    } else if d == 1 {
        seq![false, true, true, false, false, false, false]
    } else if d == 2 {
        seq![true, true, false, true, true, false, true]
    } else if d == 3 {
        seq![true, true, true, true, false, false, true]
    } else if d == 4 {
        seq![false, true, true, false, false, true, true]
    } else if d == 5 {
        seq![true, false, true, true, false, true, true]
    } else if d == 6 {
        seq![true, false, true, true, true, true, true]
    } else if d == 7 {
        seq![true, true, true, false, false, false, false]
    } else if d == 8 {
        seq![true, true, true, true, true, true, true]
    } else if d == 9 {
        seq![true, true, true, true, false, true, true]
    } else {
        seq![false, false, false, false, false, false, false]
    }
}

/// The filled rectangles of the seven-segment digit for `score`'s last
/// decimal digit, centered horizontally on `center_x`, in segment
/// order.
pub open spec fn score_rects(score: int, center_x: int) -> Seq<RectModel> {
    let segs = digit_segments(score % 10);
    let x = center_x - 20;
    let y = 50int;
    let r0 = if segs[0] {
        Seq::empty().push(RectModel { x: x + 5, y: y, w: 30, h: 5 })
    } else {
        Seq::empty()
    };
    let r1 = if segs[1] {
        r0.push(RectModel { x: x + 35, y: y + 5, w: 5, h: 25 })
    } else {
        r0
    };
    let r2 = if segs[2] {
        r1.push(RectModel { x: x + 35, y: y + 30, w: 5, h: 25 })
    } else {
        r1
    };
    let r3 = if segs[3] {
        r2.push(RectModel { x: x + 5, y: y + 55, w: 30, h: 5 })
    } else {
        r2
    };
    let r4 = if segs[4] {
        r3.push(RectModel { x: x, y: y + 30, w: 5, h: 25 })
    } else {
        r3
    };
    let r5 = if segs[5] {
        r4.push(RectModel { x: x, y: y + 5, w: 5, h: 25 })
    } else {
        r4
    };
    let r6 = if segs[6] {
        r5.push(RectModel { x: x + 5, y: y + 28, w: 30, h: 5 })
    } else {
        r5
    };
    r6
}

/// One outline rectangle per character of a line of text laid out
/// left to right from `(x, y)`.
pub open spec fn text_rects(n: int, x: int, y: int) -> Seq<RectModel> {
    Seq::new(n as nat, |i: int| RectModel { x: x + 8 * i, y: y, w: 6, h: 12 })
}

/// The lit segments of the seven-segment display for a decimal digit.
pub fn get_digit_segments(digit: u32) -> (segments: [bool; 7])
    ensures
        segments@ == digit_segments(digit as int),
{
    let segments: [bool; 7] = match digit {
        0 => [true, true, true, true, true, true, false],
        1 => [false, true, true, false, false, false, false],
        2 => [true, true, false, true, true, false, true],
        3 => [true, true, true, true, false, false, true],
        4 => [false, true, true, false, false, true, true],
        5 => [true, false, true, true, false, true, true],
        6 => [true, false, true, true, true, true, true],
        7 => [true, true, true, false, false, false, false],
        8 => [true, true, true, true, true, true, true],
        9 => [true, true, true, true, false, true, true],
        _ => [false, false, false, false, false, false, false],
    };
    proof {
        assert(segments@ =~= digit_segments(digit as int));
    }
    segments
}

/// The rectangles a renderer should fill to show `score`'s last digit
/// as a seven-segment figure centered on `center_x`.
pub fn draw_score(score: u32, center_x: i64) -> (rects: Vec<Rect>)
    requires
        -POS_LIMIT <= center_x <= POS_LIMIT,
    ensures
        rects@.map_values(|r: Rect| r@) == score_rects(score as int, center_x as int),
{
    let segments = get_digit_segments(score % 10);
    let x = center_x - 20;
    let y: i64 = 50;
    let mut rects: Vec<Rect> = Vec::new();
    if segments[0] {
        rects.push(Rect { x: x + 5, y, w: 30, h: 5 });
    }
    if segments[1] {
        rects.push(Rect { x: x + 35, y: y + 5, w: 5, h: 25 });
    }
    if segments[2] {
        rects.push(Rect { x: x + 35, y: y + 30, w: 5, h: 25 });
    }
    if segments[3] {
        rects.push(Rect { x: x + 5, y: y + 55, w: 30, h: 5 });
    }
    if segments[4] {
        rects.push(Rect { x, y: y + 30, w: 5, h: 25 });
    }
    if segments[5] {
        rects.push(Rect { x, y: y + 5, w: 5, h: 25 });
    }
    if segments[6] {
        rects.push(Rect { x: x + 5, y: y + 28, w: 30, h: 5 });
    }
    proof {
        assert(rects@.map_values(|r: Rect| r@) =~= score_rects(score as int, center_x as int));
    }
    rects
}

/// The rectangles a renderer should outline as a crude stand-in for a
/// line of text starting at `(x, y)`: one box per character.
pub fn draw_text_simple(text: &str, x: i64, y: i64) -> (rects: Vec<Rect>)
    requires
        -POS_LIMIT <= x <= POS_LIMIT,
        -POS_LIMIT <= y <= POS_LIMIT,
        text@.len() <= TEXT_LIMIT,
    ensures
        rects@.map_values(|r: Rect| r@) == text_rects(text@.len() as int, x as int, y as int),
{
    let n = text.unicode_len();
    let mut rects: Vec<Rect> = Vec::new();
    let mut i: usize = 0;
    while i < n
        invariant
            i <= n,
            n == text@.len(),
            n <= TEXT_LIMIT,
            -POS_LIMIT <= x <= POS_LIMIT,
            -POS_LIMIT <= y <= POS_LIMIT,
            rects@.map_values(|r: Rect| r@) == text_rects(i as int, x as int, y as int),
        decreases n - i,
    {
        let ghost before = rects@.map_values(|r: Rect| r@);
        rects.push(Rect { x: x + (i as i64) * 8, y, w: 6, h: 12 });
        proof {
            assert(rects@.map_values(|r: Rect| r@) =~= before.push(
                RectModel { x: x as int + 8 * (i as int), y: y as int, w: 6, h: 12 },
            ));
            assert(rects@.map_values(|r: Rect| r@) =~= text_rects(
                i as int + 1,
                x as int,
                y as int,
            ));
        }
        i = i + 1;
    }
    rects
}

} // verus!
