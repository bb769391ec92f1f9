//! Widget helpers: button colors, the grayscale-to-color interpolation of
//! cover artwork, and text centering.
use vstd::prelude::*;
use crate::geometry::Rect;
use crate::selection::BLEND_ONE;

verus! {

/// Gray level every color channel starts from when an entry is fully
/// desaturated.
pub const GRAY_INTENSITY: u32 = 128;

/// An RGB color.
#[derive(Clone, Copy, Debug, PartialEq, Eq, Structural)]
pub struct ColorRgb {
    pub r: u8,
    pub g: u8,
    pub b: u8,
}

/// The value of one color channel under a blend: the gray level
/// interpolated toward full intensity by `blend / BLEND_ONE`.
pub open spec fn spec_blend_channel(blend: int) -> int {
    GRAY_INTENSITY + (255 - GRAY_INTENSITY) * blend / (BLEND_ONE as int)
}

/// Computes the color-modulation channel for a cover image: fully gray at
/// blend 0, full color at blend [`BLEND_ONE`].
pub fn blend_channel(blend: u32) -> (c: u8)
    requires
        blend <= BLEND_ONE,
    ensures
        c as int == spec_blend_channel(blend as int),
{
    proof {
        vstd::arithmetic::div_mod::lemma_div_pos_is_pos(127 * (blend as int), 10000);
        vstd::arithmetic::div_mod::lemma_div_is_ordered(127 * (blend as int), 1270000, 10000);
        assert(1270000int / 10000 == 127);
    }
    let scaled: u32 = (255 - GRAY_INTENSITY) * blend / BLEND_ONE;
    (GRAY_INTENSITY + scaled) as u8
}

/// The coordinate that centers a span of length `inner` inside a span of
/// length `outer` starting at `base` (rounding toward `base`'s side).
pub open spec fn spec_centered_coord(base: int, outer: int, inner: int) -> int {
    if inner <= outer {
        base + (outer - inner) / 2
    } else {
        base - (inner - outer) / 2
    }
}

/// Computes one centered coordinate.
fn centered_coord(base: i32, outer: u32, inner: u32) -> (r: i32)
    requires
        i32::MIN <= spec_centered_coord(base as int, outer as int, inner as int) <= i32::MAX,
    ensures
        r as int == spec_centered_coord(base as int, outer as int, inner as int),
{
    if inner <= outer {
        let v: i64 = base as i64 + ((outer - inner) / 2) as i64;
        v as i32
    } else {
        let v: i64 = base as i64 - ((inner - outer) / 2) as i64;
        v as i32
    }
}

/// The rectangle of size `inner_w` by `inner_h` centered inside `outer`
/// (as text is centered on a button or a label on a box).
pub fn centered_rect(outer: Rect, inner_w: u32, inner_h: u32) -> (r: Rect)
    requires
        i32::MIN <= spec_centered_coord(outer.x as int, outer.w as int, inner_w as int)
            <= i32::MAX,
        i32::MIN <= spec_centered_coord(outer.y as int, outer.h as int, inner_h as int)
            <= i32::MAX,
    ensures
        r.x as int == spec_centered_coord(outer.x as int, outer.w as int, inner_w as int),
        r.y as int == spec_centered_coord(outer.y as int, outer.h as int, inner_h as int),
        r.w == inner_w,
        r.h == inner_h,
{
    let x = centered_coord(outer.x, outer.w, inner_w);
    let y = centered_coord(outer.y, outer.h, inner_h);
    Rect { x, y, w: inner_w, h: inner_h }
}

/// A clickable labelled button.
pub struct UIButton {
    pub rect: Rect,
    pub label: String,
    pub normal_color: ColorRgb,
    pub hover_color: ColorRgb,
    pub pressed_color: ColorRgb,
}

impl UIButton {
    /// Makes a button at the given rectangle with the fixed color scheme.
    pub fn new(x: i32, y: i32, width: u32, height: u32, label: &str) -> (r: UIButton)
        ensures
            r.rect == (Rect { x, y, w: width, h: height }),
            r.label@ == label@,
            r.normal_color == (ColorRgb { r: 100, g: 100, b: 150 }),
            r.hover_color == (ColorRgb { r: 150, g: 150, b: 200 }),
            r.pressed_color == (ColorRgb { r: 200, g: 200, b: 250 }),
    {
        UIButton {
            rect: Rect { x, y, w: width, h: height },
            label: label.to_owned(),
            normal_color: ColorRgb { r: 100, g: 100, b: 150 },
            hover_color: ColorRgb { r: 150, g: 150, b: 200 },
            pressed_color: ColorRgb { r: 200, g: 200, b: 250 },
        }
    }

    /// Whether the pointer rests on the button.
    pub fn is_hovered(&self, mouse_x: i32, mouse_y: i32) -> (r: bool)
        ensures
            r == self.rect.spec_contains(mouse_x as int, mouse_y as int),
    {
        self.rect.contains_point(mouse_x, mouse_y)
    }

    /// The fill color to draw the button with: the pressed color when the
    /// pointer rests on it with the button held, the hover color when the
    /// pointer merely rests on it, the normal color otherwise.
    pub fn fill_color(&self, mouse_x: i32, mouse_y: i32, pressed: bool) -> (c: ColorRgb)
        ensures
            c == if self.rect.spec_contains(mouse_x as int, mouse_y as int) {
                if pressed {
                    self.pressed_color
                } else {
                    self.hover_color
                }
            } else {
                self.normal_color
            },
    {
        if pressed && self.is_hovered(mouse_x, mouse_y) {
            self.pressed_color
        } else if self.is_hovered(mouse_x, mouse_y) {
            self.hover_color
        } else {
            self.normal_color
        }
    }
}

} // verus!
