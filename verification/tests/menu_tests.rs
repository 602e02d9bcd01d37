use combine_racers::menu::{button_visual, ButtonInteraction, ButtonVisual, TipIndex};

#[test]
fn pressing_wins_over_focus() {
    assert_eq!(
        button_visual(ButtonInteraction::Pressed, true),
        ButtonVisual::Pressed
    );
    assert_eq!(
        button_visual(ButtonInteraction::Pressed, false),
        ButtonVisual::Pressed
    );
}

#[test]
fn focus_brightens_hovered_and_resting_buttons() {
    assert_eq!(
        button_visual(ButtonInteraction::Hovered, true),
        ButtonVisual::FocusedHovered
    );
    assert_eq!(
        button_visual(ButtonInteraction::Hovered, false),
        ButtonVisual::Hovered
    );
    assert_eq!(
        button_visual(ButtonInteraction::Idle, true),
        ButtonVisual::Focused
    );
    assert_eq!(
        button_visual(ButtonInteraction::Idle, false),
        ButtonVisual::Normal
    );
}

#[test]
fn tips_rotate_and_wrap() {
    let mut tips = TipIndex::default();
    assert_eq!(tips.next(3), 0);
    assert_eq!(tips.next(3), 1);
    assert_eq!(tips.next(3), 2);
    assert_eq!(tips.next(3), 0, "the rotation wraps to the first tip");
    let mut single = TipIndex::default();
    assert_eq!(single.next(1), 0);
    assert_eq!(single.next(1), 0);
}
