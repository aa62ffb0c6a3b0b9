//! What a touch screen of news does with a click and how far it scrolls:
//! decisions only, the drawing is done elsewhere.
use vstd::prelude::*;
use vstd::string::*;

verus! {

/// How many items one page shows.
pub const PAGE: usize = 3;
/// Left edge of the button column.
pub const BUTTONS_X: i32 = 740;
/// Top of the "up" button, and of the whole button area.
pub const UP_Y: i32 = 300;
/// Top of the "down" button.
pub const DOWN_Y: i32 = 360;
/// Top of the "reload" button.
pub const RELOAD_Y: i32 = 420;
/// Top of the "back" button of the description page.
pub const BACK_Y: i32 = 410;
/// Height of one item's row on a page.
pub const ROW_HEIGHT: i32 = 160;
/// Longest description shown in full, in characters.
pub const DESC_LIMIT: usize = 1000;
/// Screen height, in pixels.
pub const SCREEN_HEIGHT: u32 = 480;
/// Width of a title on the list page, in pixels.
pub const TITLE_WIDTH: u32 = 650;
/// How much narrower the last title of a page is, to leave room for the buttons.
pub const BUTTON_MARGIN: u32 = 60;

/// What a click asks for.
#[derive(Debug, Clone, Copy, PartialEq, Eq, Structural)]
pub enum Click {
    ScrollUp,
    ScrollDown,
    Reload,
    /// Leave the description page.
    Back,
    /// Show the description of the item at this index.
    Select(usize),
    Nothing,
}

/// The first item shown after scrolling up from `index`.
pub open spec fn scrolled_up(index: int) -> int {
    if index > 0 {
        index - 1
    } else {
        index
    }
}

/// The first item shown after scrolling down from `index` in a list of `len`.
pub open spec fn scrolled_down(index: int, len: int) -> int {
    if index + PAGE < len {
        index + 1
    } else {
        index
    }
}

/// The page row that a click at height `y` falls in.
pub open spec fn row_at(y: int) -> int {
    if y < 1 {
        0
    } else {
        (y - 1) / (ROW_HEIGHT as int)
    }
}

/// What a click at `(x, y)` asks for, given whether a description is shown,
/// which item the page starts at and how many items there are.
pub open spec fn click_of(x: int, y: int, showing_desc: bool, index: int, len: int) -> Click {
    if x >= BUTTONS_X && y >= UP_Y {
        if showing_desc {
            if y >= BACK_Y {
                Click::Back
            } else {
                Click::Nothing
            }
        } else if y < DOWN_Y {
            Click::ScrollUp
        } else if y < RELOAD_Y {
            Click::ScrollDown
        } else {
            Click::Reload
        }
    } else if index + row_at(y) < len {
        Click::Select((index + row_at(y)) as usize)
    } else {
        Click::Nothing
    }
}

/// The description as the description page shows it: cut to
/// `DESC_LIMIT - 3` characters and an ellipsis when it is longer than
/// `DESC_LIMIT`.
pub open spec fn shown_description(d: Seq<char>) -> Seq<char> {
    if d.len() > DESC_LIMIT {
        d.subrange(0, DESC_LIMIT - 3) + "..."@
    } else {
        d
    }
}

/// The first item shown after scrolling up.
pub fn scroll_up(index: usize) -> (r: usize)
    ensures
        r == scrolled_up(index as int),
{
    if index > 0 {
        index - 1
    } else {
        index
    }
}

/// The first item shown after scrolling down; the last page stays full.
pub fn scroll_down(index: usize, len: usize) -> (r: usize)
    ensures
        r == scrolled_down(index as int, len as int),
{
    if len >= PAGE && index < len - PAGE {
        index + 1
    } else {
        index
    }
}

/// What a click at `(x, y)` asks for.
pub fn click_action(x: i32, y: i32, showing_desc: bool, index: usize, len: usize) -> (r: Click)
    ensures
        r == click_of(x as int, y as int, showing_desc, index as int, len as int),
{
    if x >= BUTTONS_X && y >= UP_Y {
        if showing_desc {
            if y >= BACK_Y {
                Click::Back
            } else {
                Click::Nothing
            }
        } else if y < DOWN_Y {
            Click::ScrollUp
        } else if y < RELOAD_Y {
            Click::ScrollDown
        } else {
            Click::Reload
        }
    } else {
        let row: usize = if y < 1 {
            0
        } else {
            ((y - 1) / ROW_HEIGHT) as usize
        };
        if index < len && row < len - index {
            Click::Select(index + row)
        } else {
            Click::Nothing
        }
    }
}

/// The description as the description page shows it; the cut falls
/// between characters.
pub fn truncate_description(d: &str) -> (r: String)
    ensures
        r@ == shown_description(d@),
{
    let len = d.unicode_len();
    if len > DESC_LIMIT {
        let mut s = String::from_str(d.substring_char(0, DESC_LIMIT - 3));
        s.append("...");
        s
    } else {
        String::from_str(d)
    }
}

/// Top of the `row`-th item of a page.
pub fn row_top(row: usize) -> (r: i32)
    requires
        row < PAGE,
    ensures
        r == row * ROW_HEIGHT + 10,
{
    row as i32 * ROW_HEIGHT + 10
}

/// Width of the `row`-th title of a page; the last one leaves room for the
/// buttons.
pub fn title_width(row: usize) -> (r: u32)
    ensures
        r == if row + 1 == PAGE { (TITLE_WIDTH - BUTTON_MARGIN) as u32 } else { TITLE_WIDTH },
{
    if row == PAGE - 1 {
        TITLE_WIDTH - BUTTON_MARGIN
    } else {
        TITLE_WIDTH
    }
}

/// Height of a title on the list page: one line under 63 bytes, else two.
pub fn list_title_height(title: &str) -> (r: u32)
    ensures
        r == if title.len() < 63 { 45u32 } else { 90u32 },
{
    if title.len() < 63 {
        45
    } else {
        90
    }
}

/// Height of the title on the description page: one line under 65 bytes,
/// else two.
pub fn page_title_height(title: &str) -> (r: u32)
    ensures
        r == if title.len() < 65 { 50u32 } else { 100u32 },
{
    if title.len() < 65 {
        50
    } else {
        100
    }
}

/// Height of the description on its page: short ones, under 200 bytes,
/// take less room.
pub fn description_height(desc: &str) -> (r: u32)
    ensures
        r == if desc.len() < 200 { SCREEN_HEIGHT / 2 - 130 } else { SCREEN_HEIGHT - 160 },
{
    if desc.len() < 200 {
        SCREEN_HEIGHT / 2 - 130
    } else {
        SCREEN_HEIGHT - 160
    }
}

} // verus!
