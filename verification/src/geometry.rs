//! Screen rectangles and the fixed 3-column selection layout, with the
//! hit-testing rule that an earlier slot always wins over a later one.
use vstd::prelude::*;

verus! {

use crate::VISIBLE_SLOTS;

/// Width of one selection box, in pixels.
pub const BOX_WIDTH: u32 = 267;

/// Height of one selection box, in pixels.
pub const BOX_HEIGHT: u32 = 400;

/// Shared y-offset of the selection boxes.
pub const BOX_TOP: i32 = 143;

/// An axis-aligned screen rectangle.
#[derive(Clone, Copy, Debug, PartialEq, Eq, Structural)]
pub struct Rect {
    pub x: i32,
    pub y: i32,
    pub w: u32,
    pub h: u32,
}

impl Rect {
    /// The point (px, py) lies inside this rectangle (left and top edges
    /// inclusive, right and bottom edges exclusive).
    pub open spec fn spec_contains(self, px: int, py: int) -> bool {
        &&& self.x <= px < self.x + self.w
        &&& self.y <= py < self.y + self.h
    }

    /// Tests whether a point lies inside the rectangle.
    pub fn contains_point(&self, px: i32, py: i32) -> (r: bool)
        ensures
            r == self.spec_contains(px as int, py as int),
    {
        px >= self.x && (px as i64) < (self.x as i64) + (self.w as i64) && py >= self.y && (
        py as i64) < (self.y as i64) + (self.h as i64)
    }
}

/// The x-offset of display column `idx` (0, 1 or 2).
pub open spec fn spec_column_x(idx: int) -> int {
    if idx == 0 {
        30
    } else if idx == 1 {
        357
    } else {
        684
    }
}

/// The screen rectangle of display slot `idx`, or `None` beyond the last
/// visible slot.
pub open spec fn spec_game_box_rect(idx: int) -> Option<Rect> {
    if 0 <= idx < crate::VISIBLE_SLOTS {
        Some(
            Rect {
                x: spec_column_x(idx) as i32,
                y: BOX_TOP,
                w: BOX_WIDTH,
                h: BOX_HEIGHT,
            },
        )
    } else {
        Option::None
    }
}

/// Computes the screen rectangle of display slot `idx`.
pub fn game_box_rect(idx: usize) -> (r: Option<Rect>)
    ensures
        r == spec_game_box_rect(idx as int),
{
    if idx >= VISIBLE_SLOTS {
        return Option::None;
    }
    let x: i32 = if idx == 0 {
        30
    } else if idx == 1 {
        357
    } else {
        684
    };
    Some(Rect { x, y: BOX_TOP, w: BOX_WIDTH, h: BOX_HEIGHT })
}

/// Returns the first rectangle in `rects` that contains the point, checking
/// index 0 first, so overlapping regions resolve to the lowest index.
pub fn first_hit(rects: &Vec<Rect>, px: i32, py: i32) -> (r: Option<usize>)
    ensures
        match r {
            Some(i) => {
                &&& i < rects@.len()
                &&& rects@[i as int].spec_contains(px as int, py as int)
                &&& forall|j: int|
                    0 <= j < i ==> !rects@[j].spec_contains(px as int, py as int)
            },
            Option::None => forall|j: int|
                0 <= j < rects@.len() ==> !rects@[j].spec_contains(px as int, py as int),
        },
{
    let mut i: usize = 0;
    while i < rects.len()
        invariant
            i <= rects@.len(),
            forall|j: int| 0 <= j < i ==> !rects@[j].spec_contains(px as int, py as int),
        decreases rects@.len() - i,
    {
        if rects[i].contains_point(px, py) {
            return Some(i);
        }
        i += 1;
    }
    Option::None
}

/// The slot index the pointer rests on, if any: the lowest `idx` below both
/// `count` and the visible-slot limit whose box contains the point.
pub open spec fn spec_hit_test(px: int, py: int, count: int) -> Option<int> {
    spec_hit_from(px, py, count, 0)
}

/// Helper for `spec_hit_test`: the lowest hit at index `idx` or above.
pub open spec fn spec_hit_from(px: int, py: int, count: int, idx: int) -> Option<int>
    decreases crate::VISIBLE_SLOTS - idx,
{
    if idx < count && 0 <= idx < crate::VISIBLE_SLOTS {
        if spec_game_box_rect(idx)->Some_0.spec_contains(px, py) {
            Some(idx)
        } else {
            spec_hit_from(px, py, count, idx + 1)
        }
    } else {
        Option::None
    }
}

/// A successful hit always names an entry that exists and is visible.
pub proof fn lemma_hit_test_in_range(px: int, py: int, count: int)
    ensures
        match spec_hit_test(px, py, count) {
            Some(i) => 0 <= i < count && i < VISIBLE_SLOTS,
            Option::None => true,
        },
{
    lemma_hit_from_in_range(px, py, count, 0);
}

/// Helper for [`lemma_hit_test_in_range`], for any starting index.
proof fn lemma_hit_from_in_range(px: int, py: int, count: int, idx: int)
    requires
        idx >= 0,
    ensures
        match spec_hit_from(px, py, count, idx) {
            Some(i) => idx <= i < count && i < VISIBLE_SLOTS,
            Option::None => true,
        },
    decreases crate::VISIBLE_SLOTS - idx,
{
    if idx < count && idx < VISIBLE_SLOTS {
        if !spec_game_box_rect(idx)->Some_0.spec_contains(px, py) {
            lemma_hit_from_in_range(px, py, count, idx + 1);
        }
    }
}

/// Hit-tests the pointer against the boxes of the first
/// `min(count, VISIBLE_SLOTS)` entries, lowest index first.
pub fn hit_test(px: i32, py: i32, count: usize) -> (r: Option<usize>)
    ensures
        r matches Some(i) ==> Some(i as int) == spec_hit_test(px as int, py as int, count as int),
        r is None ==> spec_hit_test(px as int, py as int, count as int) is None,
{
    let limit: usize = if count < VISIBLE_SLOTS {
        count
    } else {
        VISIBLE_SLOTS
    };
    let mut i: usize = 0;
    while i < limit
        invariant
            i <= limit,
            limit == if count < VISIBLE_SLOTS {
                count as int
            } else {
                VISIBLE_SLOTS as int
            },
            spec_hit_test(px as int, py as int, count as int) == spec_hit_from(
                px as int,
                py as int,
                count as int,
                i as int,
            ),
        decreases limit - i,
    {
        let rect = game_box_rect(i);
        match rect {
            Some(rc) => {
                if rc.contains_point(px, py) {
                    return Some(i);
                }
            },
            Option::None => {},
        }
        i += 1;
    }
    Option::None
}

} // verus!
