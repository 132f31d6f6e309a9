//! The layout of the heads-up display: what is shown, where and how large.
//! Lengths are in pixels unless they are named percent.

use vstd::prelude::*;

verus! {

/// The font of every text of the display.
pub const FONT: &'static str = "QuattrocentoSans-Bold.ttf";

/// The colours of the display.
#[derive(Clone, Copy, Debug, PartialEq, Eq, Structural)]
pub enum UiColor {
    Clear,
    Red,
    Blue,
    Black,
    White,
}

/// A piece of text.
#[derive(Clone, Copy, Debug)]
pub struct UiText {
    pub text: &'static str,
    pub font: &'static str,
    pub font_size: u32,
    pub color: UiColor,
}

/// A square slot of the item bar, with the count shown in it, if any.
#[derive(Clone, Copy, Debug)]
pub struct UiSlot {
    /// Width and height of the slot.
    pub size: u32,
    pub margin_left: u32,
    pub margin_right: u32,
    pub color: UiColor,
    /// The count in the slot's corner.
    pub label: Option<UiText>,
    /// How far the count stands from the slot's right and bottom edges.
    pub label_margin: u32,
}

/// The item bar: a row of slots, centred, across the screen.
#[derive(Debug)]
pub struct UiBar {
    /// Distance from the bottom of the screen, in percent of its height.
    pub bottom_percent: u32,
    /// Width of the bar, in percent of the screen's width.
    pub width_percent: u32,
    pub color: UiColor,
    pub slots: Vec<UiSlot>,
}

/// The gas readout: a text anchored to the bottom left of the screen.
#[derive(Clone, Copy, Debug)]
pub struct UiReadout {
    pub bottom: u32,
    pub left: u32,
    pub text: UiText,
}

/// The slot of the item bar at place `i`: a red slot that shows the count
/// "10", then a blue slot that shows none.
pub open spec fn bar_slot(i: int) -> UiSlot {
    UiSlot {
        size: 50,
        margin_left: 10,
        margin_right: 10,
        color: if i == 0 {
            UiColor::Red
        } else {
            UiColor::Blue
        },
        label: if i == 0 {
            Some(UiText { text: "10", font: FONT, font_size: 16, color: UiColor::Black })
        } else {
            None
        },
        label_margin: if i == 0 {
            3
        } else {
            0
        },
    }
}

/// The item bar: a clear bar over the whole width of the screen, one percent
/// above its bottom, with two slots.
pub fn ui_setup() -> (bar: UiBar)
    ensures
        bar.bottom_percent == 1,
        bar.width_percent == 100,
        bar.color == UiColor::Clear,
        bar.slots@.len() == 2,
        forall|i: int| 0 <= i < 2 ==> #[trigger] bar.slots@[i] == bar_slot(i),
{
    let mut slots: Vec<UiSlot> = Vec::new();
    slots.push(
        UiSlot {
            size: 50,
            margin_left: 10,
            margin_right: 10,
            color: UiColor::Red,
            label: Some(UiText { text: "10", font: FONT, font_size: 16, color: UiColor::Black }),
            label_margin: 3,
        },
    );
    slots.push(
        UiSlot {
            size: 50,
            margin_left: 10,
            margin_right: 10,
            color: UiColor::Blue,
            label: None,
            label_margin: 0,
        },
    );
    UiBar { bottom_percent: 1, width_percent: 100, color: UiColor::Clear, slots }
}

/// The gas readout as it is before the first reading: a white greeting,
/// 5 above the bottom and 15 from the left of the screen.
pub fn setup_gas_ui() -> (readout: UiReadout)
    ensures
        readout == (UiReadout {
            bottom: 5,
            left: 15,
            text: UiText { text: "hello bevy!", font: FONT, font_size: 36, color: UiColor::White },
        }),
{
    UiReadout {
        bottom: 5,
        left: 15,
        text: UiText { text: "hello bevy!", font: FONT, font_size: 36, color: UiColor::White },
    }
}

} // verus!
