use vstd::prelude::*;

verus! {

/// A rectangle of terminal cells.
#[derive(Debug, Clone, Copy, PartialEq, Eq, Structural)]
pub struct Area {
    pub x: u16,
    pub y: u16,
    pub width: u16,
    pub height: u16,
}

/// Width of the choice dialog, in cells.
pub const DIALOG_WIDTH: u16 = 40;

/// What the choice dialog shows: a title, its choices and the selected one.
#[derive(Debug, Clone)]
pub struct DialogProperties<'a> {
    pub title: &'a str,
    pub options: Vec<&'a str>,
    pub selected_index: usize,
}

/// `a - b`, or zero when `b` is larger.
pub open spec fn sat_sub(a: int, b: int) -> int {
    if a >= b {
        a - b
    } else {
        0
    }
}

/// Where the choice dialog for `option_count` choices is drawn inside `area`:
/// `DIALOG_WIDTH` cells wide, four rows taller than its choices, centred.
pub fn dialog_area(area: Area, option_count: usize) -> (r: Area)
    requires
        option_count + 4 <= u16::MAX,
        area.x + sat_sub(area.width as int, DIALOG_WIDTH as int) / 2 <= u16::MAX,
        area.y + sat_sub(area.height as int, option_count + 4) / 2 <= u16::MAX,
    ensures
        r.width == DIALOG_WIDTH,
        r.height == option_count + 4,
        r.x == area.x + sat_sub(area.width as int, DIALOG_WIDTH as int) / 2,
        r.y == area.y + sat_sub(area.height as int, option_count + 4) / 2,
{
    let height: u16 = option_count as u16 + 4;
    let width: u16 = DIALOG_WIDTH;
    let free_width: u16 = if area.width >= width {
        area.width - width
    } else {
        0
    };
    let free_height: u16 = if area.height >= height {
        area.height - height
    } else {
        0
    };
    Area { x: area.x + free_width / 2, y: area.y + free_height / 2, width, height }
}

/// Where a modal window is drawn inside `area`: twenty cells narrower and ten
/// rows shorter than the area, at most 60 by 20, centred.
pub fn modal_area(area: Area) -> (r: Area)
    requires
        area.x + area.width <= u16::MAX,
        area.y + area.height <= u16::MAX,
    ensures
        r.width == vstd::math::min(sat_sub(area.width as int, 20), 60),
        r.height == vstd::math::min(sat_sub(area.height as int, 10), 20),
        r.x == area.x + (area.width - r.width) / 2,
        r.y == area.y + (area.height - r.height) / 2,
        r.x + r.width <= area.x + area.width,
        r.y + r.height <= area.y + area.height,
{
    let narrower: u16 = if area.width >= 20 {
        area.width - 20
    } else {
        0
    };
    let shorter: u16 = if area.height >= 10 {
        area.height - 10
    } else {
        0
    };
    let width: u16 = if narrower < 60 {
        narrower
    } else {
        60
    };
    let height: u16 = if shorter < 20 {
        shorter
    } else {
        20
    };
    Area { x: area.x + (area.width - width) / 2, y: area.y + (area.height - height) / 2, width, height }
}

} // verus!
