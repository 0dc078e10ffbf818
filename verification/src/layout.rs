//! Layout decisions of the overlays and the Playing view: which rows of a
//! list a short overlay shows and which panels a width leaves room for.

use vstd::prelude::*;

use crate::text::{decimal_digits, push_decimal};

verus! {

/// Lines of the settings overlay outside its row list: tabs, two blanks and hints.
pub const SETTINGS_CHROME_ROWS: u16 = 4;

/// Rows the settings list shows in an area `height` rows tall: what the
/// border and chrome leave, but at least three and at most every row.
pub open spec fn window_capacity(height: u16, count: usize) -> int {
    let free = if height >= 2 + SETTINGS_CHROME_ROWS {
        height - (2 + SETTINGS_CHROME_ROWS)
    } else {
        0
    };
    if free < 3 {
        3
    } else if free > count {
        count as int
    } else {
        free
    }
}

/// First shown row: the window ends at the selection when it must scroll,
/// and never runs past the last row.
pub open spec fn window_start(selected: usize, capacity: int, count: usize) -> int {
    let trailing = if selected >= capacity - 1 {
        selected - (capacity - 1)
    } else {
        0
    };
    if trailing < count - capacity {
        trailing
    } else {
        count - capacity
    }
}

/// The window of settings rows to show, as first row and row count.
pub fn settings_window(height: u16, selected: usize, count: usize) -> (window: (usize, usize))
    requires
        3 <= count <= u16::MAX,
    ensures
        window.1 == window_capacity(height, count),
        window.0 == window_start(selected, window.1 as int, count),
        3 <= window.1 <= count,
        window.0 + window.1 <= count,
        selected < count ==> window.0 <= selected < window.0 + window.1,
{
    let free = height.saturating_sub(2 + SETTINGS_CHROME_ROWS);
    let capacity: usize = if free < 3 {
        3
    } else if free as usize > count {
        count
    } else {
        free as usize
    };
    let trailing = selected.saturating_sub(capacity - 1);
    let start = if trailing < count - capacity {
        trailing
    } else {
        count - capacity
    };
    (start, capacity)
}

/// Screen-width classes of the responsive layout, narrowest first.
#[derive(PartialEq, Eq, Structural, Clone, Copy, Debug)]
pub enum Breakpoint {
    Narrow,
    Regular,
    Wide,
    UltraWide,
}

/// Whether the Playing hero shows artwork and the metadata panel.
pub fn hero_panels(breakpoint: Breakpoint) -> (panels: (bool, bool))
    ensures
        panels.0 == (breakpoint != Breakpoint::Narrow),
        panels.1 == (breakpoint == Breakpoint::Wide || breakpoint == Breakpoint::UltraWide),
        panels.1 ==> panels.0,
{
    let show_art = breakpoint != Breakpoint::Narrow;
    let show_metadata = breakpoint == Breakpoint::Wide || breakpoint == Breakpoint::UltraWide;
    (show_art, show_metadata)
}

/// Label of an audio channel count.
pub open spec fn channels_label(channels: u32) -> Seq<char> {
    if channels == 1 {
        "Mono"@
    } else if channels == 2 {
        "Stereo"@
    } else {
        decimal_digits(channels as nat) + "ch"@
    }
}

/// Describe an audio channel count.
pub fn audio_channels_label(channels: u32) -> (label: String)
    ensures
        label@ == channels_label(channels),
{
    proof {
        reveal_strlit("Mono");
        reveal_strlit("Stereo");
        reveal_strlit("ch");
    }
    if channels == 1 {
        String::from_str("Mono")
    } else if channels == 2 {
        String::from_str("Stereo")
    } else {
        let mut label = String::new();
        push_decimal(&mut label, channels as u64);
        assert(label@ == Seq::<char>::empty() + decimal_digits(channels as nat));
        label.append("ch");
        label
    }
}

} // verus!
