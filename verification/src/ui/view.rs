//! Values that the widgets display, computed from the interface state.

use vstd::prelude::*;

verus! {

/// The mark drawn in a check box.
pub fn check_mark(checked: bool) -> (r: &'static str)
    ensures
        r@ == if checked {
            "[x]"@
        } else {
            "[ ]"@
        },
{
    if checked {
        "[x]"
    } else {
        "[ ]"
    }
}

/// The first line to show in the log view so that the newest lines are
/// visible: the number of lines that do not fit in `height` rows, as the
/// view's 16-bit scroll offset (wrapping modulo 2^16).
pub fn log_scroll_offset(num_lines: usize, height: u16) -> (r: u16)
    ensures
        r as int == (if num_lines > height {
            num_lines - height
        } else {
            0
        }) % 65536,
{
    let h = height as usize;
    let hidden = if num_lines > h {
        num_lines - h
    } else {
        0
    };
    (hidden % 65536) as u16
}

} // verus!
