use combine_racers::trick::Trick;
use combine_racers::trick_text::get_trick_text;

fn trick(front: u32, back: u32, fakie: bool) -> Trick {
    Trick {
        front_flips: front,
        back_flips: back,
        fakie,
    }
}

#[test]
fn single_flips() {
    assert_eq!(get_trick_text(&trick(1, 0, false)).as_str(), "Front Flip!");
    assert_eq!(get_trick_text(&trick(0, 1, false)).as_str(), "Back Flip!");
}

#[test]
fn fakie_prefix() {
    assert_eq!(get_trick_text(&trick(1, 0, true)).as_str(), "Fakie Front Flip!");
    assert_eq!(get_trick_text(&trick(0, 1, true)).as_str(), "Fakie Back Flip!");
}

#[test]
fn multiplier_words() {
    assert_eq!(get_trick_text(&trick(2, 0, false)).as_str(), "Double Front Flip!");
    assert_eq!(get_trick_text(&trick(3, 0, false)).as_str(), "Triple Front Flip!");
    assert_eq!(get_trick_text(&trick(0, 4, false)).as_str(), "Quad Back Flip!");
    assert_eq!(get_trick_text(&trick(0, 5, false)).as_str(), "Mega Back Flip!");
    assert_eq!(get_trick_text(&trick(17, 0, false)).as_str(), "Mega Front Flip!");
}

#[test]
fn both_directions_make_two_lines() {
    assert_eq!(
        get_trick_text(&trick(1, 2, false)).as_str(),
        "Front Flip!\nDouble Back Flip!"
    );
    assert_eq!(
        get_trick_text(&trick(2, 1, true)).as_str(),
        "Fakie Double Front Flip!\nFakie Back Flip!"
    );
}

#[test]
fn no_flips_no_text() {
    assert_eq!(get_trick_text(&trick(0, 0, false)).as_str(), "");
    assert_eq!(get_trick_text(&trick(0, 0, true)).as_str(), "");
}
