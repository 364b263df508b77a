//! The spinner's pure half: the clock-face frames and the substitution
//! of the current frame into a status line. Timing and terminal output
//! stay with the surrounding tool.

use vstd::prelude::*;

use crate::text::{chars_to_string, replace_all, replace_all_vec, str_to_chars};

verus! {

/// The clock-face glyph for a frame index, cycling through twelve.
pub open spec fn frame_spec(i: nat) -> Seq<char> {
    let k = i % 12;
    if k == 0 {
        "\u{1f550}"@
    } else if k == 1 {
        "\u{1f551}"@
    } else if k == 2 {
        "\u{1f552}"@
    } else if k == 3 {
        "\u{1f553}"@
    } else if k == 4 {
        "\u{1f554}"@
    } else if k == 5 {
        "\u{1f555}"@
    } else if k == 6 {
        "\u{1f556}"@
    } else if k == 7 {
        "\u{1f557}"@
    } else if k == 8 {
        "\u{1f558}"@
    } else if k == 9 {
        "\u{1f559}"@
    } else if k == 10 {
        "\u{1f55a}"@
    } else {
        "\u{1f55b}"@
    }
}

/// The clock-face glyph for a frame index.
pub fn frame_glyph(index: usize) -> (r: String)
    ensures
        r@ == frame_spec(index as nat),
{
    let k: usize = index % 12;
    if k == 0 {
        "\u{1f550}".to_owned()
    } else if k == 1 {
        "\u{1f551}".to_owned()
    } else if k == 2 {
        "\u{1f552}".to_owned()
    } else if k == 3 {
        "\u{1f553}".to_owned()
    } else if k == 4 {
        "\u{1f554}".to_owned()
    } else if k == 5 {
        "\u{1f555}".to_owned()
    } else if k == 6 {
        "\u{1f556}".to_owned()
    } else if k == 7 {
        "\u{1f557}".to_owned()
    } else if k == 8 {
        "\u{1f558}".to_owned()
    } else if k == 9 {
        "\u{1f559}".to_owned()
    } else if k == 10 {
        "\u{1f55a}".to_owned()
    } else {
        "\u{1f55b}".to_owned()
    }
}

/// `line` with every `[ ]` marker replaced by the frame's glyph.
pub open spec fn loading_str_spec(line: Seq<char>, frame_index: nat) -> Seq<char> {
    replace_all(line, seq!['[', ' ', ']'], frame_spec(frame_index))
}

/// Substitute the current spinner frame into a status line.
pub fn loading_str(line: &str, frame_index: usize) -> (r: String)
    ensures
        r@ == loading_str_spec(line@, frame_index as nat),
{
    let chars: Vec<char> = str_to_chars(line);
    let pat: Vec<char> = vec!['[', ' ', ']'];
    assert(pat@ =~= seq!['[', ' ', ']']);
    let glyph: String = frame_glyph(frame_index);
    let rep: Vec<char> = str_to_chars(glyph.as_str());
    let out: Vec<char> = replace_all_vec(&chars, &pat, &rep);
    chars_to_string(&out)
}

} // verus!
