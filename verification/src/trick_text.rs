//! The announcement text shown when a trick lands.
use vstd::prelude::*;
use vstd::string::StringExecFns;

use crate::trick::Trick;

verus! {

/// The multiplier word (with its trailing space) for a flip count: nothing
/// for a single flip, then "Double", "Triple", "Quad", and "Mega" for
/// anything beyond.
pub open spec fn multiplier_text(n: u32) -> Seq<char> {
    if n == 2 {
        "Double "@
    } else if n == 3 {
        "Triple "@
    } else if n == 4 {
        "Quad "@
    } else if n >= 5 {
        "Mega "@
    } else {
        Seq::<char>::empty()
    }
}

/// One announcement line: an optional "Fakie", the multiplier word, and
/// the flip label.
pub open spec fn flip_line(fakie: bool, n: u32, label: Seq<char>) -> Seq<char> {
    (if fakie {
        "Fakie "@
    } else {
        Seq::<char>::empty()
    }) + multiplier_text(n) + label
}

/// The whole announcement: a line for the front flips and a line for the
/// back flips, whichever are present, joined by a newline; empty when the
/// trick holds no flips at all.
pub open spec fn trick_text_spec(t: Trick) -> Seq<char> {
    if t.front_flips > 0 && t.back_flips > 0 {
        flip_line(t.fakie, t.front_flips, "Front Flip!"@) + "\n"@ + flip_line(
            t.fakie,
            t.back_flips,
            "Back Flip!"@,
        )
    } else if t.front_flips > 0 {
        flip_line(t.fakie, t.front_flips, "Front Flip!"@)
    } else if t.back_flips > 0 {
        flip_line(t.fakie, t.back_flips, "Back Flip!"@)
    } else {
        Seq::<char>::empty()
    }
}

/// The multiplier word for a flip count, when the count earns one.
fn multiplier_word(n: u32) -> (r: Option<&'static str>)
    ensures
        match r {
            Some(w) => w@ == multiplier_text(n),
            None => multiplier_text(n) == Seq::<char>::empty(),
        },
{
    if n == 2 {
        Some("Double ")
    } else if n == 3 {
        Some("Triple ")
    } else if n == 4 {
        Some("Quad ")
    } else if n >= 5 {
        Some("Mega ")
    } else {
        None
    }
}

/// Build the announcement text for a landed trick.
pub fn get_trick_text(trick: &Trick) -> (r: String)
    ensures
        r@ == trick_text_spec(*trick),
{
    let mut s = String::new();
    if trick.front_flips > 0 {
        if trick.fakie {
            s.append("Fakie ");
        }
        if let Some(word) = multiplier_word(trick.front_flips) {
            s.append(word);
        }
        s.append("Front Flip!");
    }
    if trick.back_flips > 0 {
        if trick.front_flips > 0 {
            s.append("\n");
        }
        if trick.fakie {
            s.append("Fakie ");
        }
        if let Some(word) = multiplier_word(trick.back_flips) {
            s.append(word);
        }
        s.append("Back Flip!");
    }
    proof {
        assert(s@ =~= trick_text_spec(*trick));
    }
    s
}

} // verus!
