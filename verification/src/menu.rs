//! Menu presentation decisions: which visual a button shows for its
//! interaction and focus state, and the rotation through the loading-screen
//! tips. The colors themselves belong to the rendering layer; the choice
//! between them is decided here.
use vstd::prelude::*;

verus! {

/// How the pointer currently relates to a button.
#[derive(Clone, Copy, Debug, PartialEq, Eq, Structural)]
pub enum ButtonInteraction {
    Pressed,
    Hovered,
    Idle,
}

/// The visual a button shows; the rendering layer maps each to its color.
#[derive(Clone, Copy, Debug, PartialEq, Eq, Structural)]
pub enum ButtonVisual {
    Pressed,
    FocusedHovered,
    Hovered,
    Focused,
    Normal,
}

/// The visual a button owes its interaction and focus state: pressing wins
/// outright; otherwise focus brightens both the hovered and the resting
/// look.
pub open spec fn button_visual_spec(interaction: ButtonInteraction, focused: bool) -> ButtonVisual {
    match interaction {
        ButtonInteraction::Pressed => ButtonVisual::Pressed,
        ButtonInteraction::Hovered => if focused {
            ButtonVisual::FocusedHovered
        } else {
            ButtonVisual::Hovered
        },
        ButtonInteraction::Idle => if focused {
            ButtonVisual::Focused
        } else {
            ButtonVisual::Normal
        },
    }
}

/// Decide a button's visual from its interaction and focus state.
pub fn button_visual(interaction: ButtonInteraction, focused: bool) -> (r: ButtonVisual)
    ensures
        r == button_visual_spec(interaction, focused),
{
    match interaction {
        ButtonInteraction::Pressed => ButtonVisual::Pressed,
        ButtonInteraction::Hovered => if focused {
            ButtonVisual::FocusedHovered
        } else {
            ButtonVisual::Hovered
        },
        ButtonInteraction::Idle => if focused {
            ButtonVisual::Focused
        } else {
            ButtonVisual::Normal
        },
    }
}

/// Rotates through the menu's tips: each call hands out the current tip's
/// index and moves on, wrapping back to the first after the last.
#[derive(Clone, Copy, Debug, PartialEq, Eq, Structural)]
pub struct TipIndex {
    pub index: usize,
}

impl Default for TipIndex {
    /// Start at the first tip.
    fn default() -> (r: Self)
        ensures
            r.index == 0,
    {
        TipIndex { index: 0 }
    }
}

impl TipIndex {
    /// The tip to show now, advancing the rotation over `tip_count` tips.
    pub fn next(&mut self, tip_count: usize) -> (shown: usize)
        requires
            tip_count >= 1,
            old(self).index < tip_count,
        ensures
            shown == old(self).index,
            final(self).index == if old(self).index + 1 < tip_count {
                old(self).index + 1
            } else {
                0int
            },
            final(self).index < tip_count,
    {
        let shown = self.index;
        self.index = self.index + 1;
        if self.index > tip_count - 1 {
            self.index = 0;
        }
        shown
    }
}

} // verus!
