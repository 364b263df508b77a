//! Gitmoji substitution: every non-overlapping `:code:` span, scanned
//! left to right, is replaced by its emoji glyph when the code is in the
//! fixed table; unknown codes are left untouched, colons included.

use vstd::prelude::*;

use crate::text::{chars_eq_str, chars_to_string, push_all, str_to_chars, subvec};

verus! {

/// A character that may appear in a gitmoji code: lowercase ASCII
/// letters, digits, and underscore.
pub open spec fn is_code_char(c: char) -> bool {
    ||| ('a' as u32) <= (c as u32) && (c as u32) <= ('z' as u32)
    ||| ('0' as u32) <= (c as u32) && (c as u32) <= ('9' as u32)
    ||| c == '_'
}

/// Executable code-character test, equal to `is_code_char`.
pub fn code_char(c: char) -> (r: bool)
    ensures
        r == is_code_char(c),
{
    (c >= 'a' && c <= 'z') || (c >= '0' && c <= '9') || c == '_'
}

/// The length of the run of code characters in `s` starting at `i`.
pub open spec fn code_run(s: Seq<char>, i: int) -> nat
    decreases s.len() - i,
{
    if 0 <= i < s.len() && is_code_char(s[i]) {
        1 + code_run(s, i + 1)
    } else {
        0
    }
}

/// The tail of `s` from `i` with every matched `:code:` span replaced:
/// at each position a span is matched greedily; a span whose code is in
/// the table becomes its glyph, any other span is copied unchanged, and
/// scanning resumes after the span either way.
pub open spec fn gm_replace_from(s: Seq<char>, i: int) -> Seq<char>
    decreases s.len() - i,
{
    if i < 0 || i >= s.len() {
        Seq::empty()
    } else if s[i] == ':' {
        let k = code_run(s, i + 1) as int;
        if k >= 1 && i + k + 1 < s.len() && s[i + k + 1] == ':' {
            let code = s.subrange(i + 1, i + 1 + k);
            match emoji_of(code) {
                Some(e) => e + gm_replace_from(s, i + k + 2),
                None => s.subrange(i, i + k + 2) + gm_replace_from(s, i + k + 2),
            }
        } else {
            seq![s[i]] + gm_replace_from(s, i + 1)
        }
    } else {
        seq![s[i]] + gm_replace_from(s, i + 1)
    }
}

/// `s` with every matched `:code:` span replaced by its glyph.
pub open spec fn gm_replace(s: Seq<char>) -> Seq<char> {
    gm_replace_from(s, 0)
}

/// First quarter of the gitmoji table.
pub open spec fn emoji_group_a(code: Seq<char>) -> Option<Seq<char>> {
    if code == "art"@ {
        Some("🎨"@)
    } else if code == "zap"@ {
        Some("⚡️"@)
    } else if code == "fire"@ {
        Some("🔥"@)
    } else if code == "bug"@ {
        Some("🐛"@)
    } else if code == "ambulance"@ {
        Some("🚑"@)
    } else if code == "sparkles"@ {
        Some("✨"@)
    } else if code == "memo"@ {
        Some("📝"@)
    } else if code == "rocket"@ {
        Some("🚀"@)
    } else if code == "lipstick"@ {
        Some("💄"@)
    } else if code == "tada"@ {
        Some("🎉"@)
    } else if code == "white_check_mark"@ {
        Some("✅"@)
    } else if code == "lock"@ {
        Some("🔒"@)
    } else if code == "closed_lock_with_key"@ {
        Some("🔐"@)
    } else if code == "bookmark"@ {
        Some("🔖"@)
    } else if code == "rotating_light"@ {
        Some("🚨"@)
    } else if code == "construction"@ {
        Some("🚧"@)
    } else if code == "green_heart"@ {
        Some("💚"@)
    } else if code == "arrow_down"@ {
        Some("⬇️"@)
    } else if code == "arrow_up"@ {
        Some("⬆️"@)
    } else {
        None
    }
}

/// Second quarter of the gitmoji table.
pub open spec fn emoji_group_b(code: Seq<char>) -> Option<Seq<char>> {
    if code == "pushpin"@ {
        Some("📌"@)
    } else if code == "construction_worker"@ {
        Some("👷"@)
    } else if code == "chart_with_upwards_trend"@ {
        Some("📈"@)
    } else if code == "recycle"@ {
        Some("♻️"@)
    } else if code == "heavy_plus_sign"@ {
        Some("➕"@)
    } else if code == "heavy_minus_sign"@ {
        Some("➖"@)
    } else if code == "wrench"@ {
        Some("🔧"@)
    } else if code == "hammer"@ {
        Some("🔨"@)
    } else if code == "globe_with_meridians"@ {
        Some("🌐"@)
    } else if code == "pencil2"@ {
        Some("✏️"@)
    } else if code == "pencil"@ {
        Some("✏️"@)
    } else if code == "poop"@ {
        Some("💩"@)
    } else if code == "rewind"@ {
        Some("⏪"@)
    } else if code == "twisted_rightwards_arrows"@ {
        Some("🔀"@)
    } else if code == "package"@ {
        Some("📦"@)
    } else if code == "alien"@ {
        Some("👽"@)
    } else if code == "truck"@ {
        Some("🚚"@)
    } else if code == "page_facing_up"@ {
        Some("📄"@)
    } else if code == "boom"@ {
        Some("💥"@)
    } else {
        None
    }
}

/// Third quarter of the gitmoji table.
pub open spec fn emoji_group_c(code: Seq<char>) -> Option<Seq<char>> {
    if code == "bento"@ {
        Some("🍱"@)
    } else if code == "wheelchair"@ {
        Some("♿️"@)
    } else if code == "bulb"@ {
        Some("💡"@)
    } else if code == "beers"@ {
        Some("🍻"@)
    } else if code == "speech_balloon"@ {
        Some("💬"@)
    } else if code == "card_file_box"@ {
        Some("🗃️"@)
    } else if code == "loud_sound"@ {
        Some("🔊"@)
    } else if code == "mute"@ {
        Some("🔇"@)
    } else if code == "busts_in_silhouette"@ {
        Some("👥"@)
    } else if code == "children_crossing"@ {
        Some("🚸"@)
    } else if code == "building_construction"@ {
        Some("🏗️"@)
    } else if code == "iphone"@ {
        Some("📱"@)
    } else if code == "clown_face"@ {
        Some("🤡"@)
    } else if code == "egg"@ {
        Some("🥚"@)
    } else if code == "see_no_evil"@ {
        Some("🙈"@)
    } else if code == "camera_flash"@ {
        Some("📸"@)
    } else if code == "alembic"@ {
        Some("⚗️"@)
    } else if code == "mag"@ {
        Some("🔍"@)
    } else if code == "label"@ {
        Some("🏷️"@)
    } else {
        None
    }
}

/// Last quarter of the gitmoji table.
pub open spec fn emoji_group_d(code: Seq<char>) -> Option<Seq<char>> {
    if code == "seedling"@ {
        Some("🌱"@)
    } else if code == "triangular_flag_on_post"@ {
        Some("🚩"@)
    } else if code == "goal_net"@ {
        Some("🥅"@)
    } else if code == "dizzy"@ {
        Some("💫"@)
    } else if code == "wastebasket"@ {
        Some("🗑️"@)
    } else if code == "passport_control"@ {
        Some("🛂"@)
    } else if code == "adhesive_bandage"@ {
        Some("🩹"@)
    } else if code == "monocle_face"@ {
        Some("🧐"@)
    } else if code == "coffin"@ {
        Some("⚰️"@)
    } else if code == "test_tube"@ {
        Some("🧪"@)
    } else if code == "necktie"@ {
        Some("👔"@)
    } else if code == "stethoscope"@ {
        Some("🩺"@)
    } else if code == "bricks"@ {
        Some("🧱"@)
    } else if code == "technologist"@ {
        Some("🧑‍💻"@)
    } else if code == "money_with_wings"@ {
        Some("💸"@)
    } else if code == "thread"@ {
        Some("🧵"@)
    } else if code == "safety_vest"@ {
        Some("🦺"@)
    } else {
        None
    }
}

/// The glyph for a gitmoji code, if the code is in the table.
pub open spec fn emoji_of(code: Seq<char>) -> Option<Seq<char>> {
    match emoji_group_a(code) {
        Some(e) => Some(e),
        None => match emoji_group_b(code) {
            Some(e) => Some(e),
            None => match emoji_group_c(code) {
                Some(e) => Some(e),
                None => emoji_group_d(code),
            },
        },
    }
}

fn lookup_group_a(code: &Vec<char>) -> (r: Option<String>)
    ensures
        (match r {
            Some(e) => emoji_group_a(code@) == Some(e@),
            None => emoji_group_a(code@) is None,
        }),
{
    if chars_eq_str(code, "art") {
        Some("🎨".to_owned())
    } else if chars_eq_str(code, "zap") {
        Some("⚡️".to_owned())
    } else if chars_eq_str(code, "fire") {
        Some("🔥".to_owned())
    } else if chars_eq_str(code, "bug") {
        Some("🐛".to_owned())
    } else if chars_eq_str(code, "ambulance") {
        Some("🚑".to_owned())
    } else if chars_eq_str(code, "sparkles") {
        Some("✨".to_owned())
    } else if chars_eq_str(code, "memo") {
        Some("📝".to_owned())
    } else if chars_eq_str(code, "rocket") {
        Some("🚀".to_owned())
    } else if chars_eq_str(code, "lipstick") {
        Some("💄".to_owned())
    } else if chars_eq_str(code, "tada") {
        Some("🎉".to_owned())
    } else if chars_eq_str(code, "white_check_mark") {
        Some("✅".to_owned())
    } else if chars_eq_str(code, "lock") {
        Some("🔒".to_owned())
    } else if chars_eq_str(code, "closed_lock_with_key") {
        Some("🔐".to_owned())
    } else if chars_eq_str(code, "bookmark") {
        Some("🔖".to_owned())
    } else if chars_eq_str(code, "rotating_light") {
        Some("🚨".to_owned())
    } else if chars_eq_str(code, "construction") {
        Some("🚧".to_owned())
    } else if chars_eq_str(code, "green_heart") {
        Some("💚".to_owned())
    } else if chars_eq_str(code, "arrow_down") {
        Some("⬇️".to_owned())
    } else if chars_eq_str(code, "arrow_up") {
        Some("⬆️".to_owned())
    } else {
        None
    }
}

fn lookup_group_b(code: &Vec<char>) -> (r: Option<String>)
    ensures
        (match r {
            Some(e) => emoji_group_b(code@) == Some(e@),
            None => emoji_group_b(code@) is None,
        }),
{
    if chars_eq_str(code, "pushpin") {
        Some("📌".to_owned())
    } else if chars_eq_str(code, "construction_worker") {
        Some("👷".to_owned())
    } else if chars_eq_str(code, "chart_with_upwards_trend") {
        Some("📈".to_owned())
    } else if chars_eq_str(code, "recycle") {
        Some("♻️".to_owned())
    } else if chars_eq_str(code, "heavy_plus_sign") {
        Some("➕".to_owned())
    } else if chars_eq_str(code, "heavy_minus_sign") {
        Some("➖".to_owned())
    } else if chars_eq_str(code, "wrench") {
        Some("🔧".to_owned())
    } else if chars_eq_str(code, "hammer") {
        Some("🔨".to_owned())
    } else if chars_eq_str(code, "globe_with_meridians") {
        Some("🌐".to_owned())
    } else if chars_eq_str(code, "pencil2") {
        Some("✏️".to_owned())
    } else if chars_eq_str(code, "pencil") {
        Some("✏️".to_owned())
    } else if chars_eq_str(code, "poop") {
        Some("💩".to_owned())
    } else if chars_eq_str(code, "rewind") {
        Some("⏪".to_owned())
    } else if chars_eq_str(code, "twisted_rightwards_arrows") {
        Some("🔀".to_owned())
    } else if chars_eq_str(code, "package") {
        Some("📦".to_owned())
    } else if chars_eq_str(code, "alien") {
        Some("👽".to_owned())
    } else if chars_eq_str(code, "truck") {
        Some("🚚".to_owned())
    } else if chars_eq_str(code, "page_facing_up") {
        Some("📄".to_owned())
    } else if chars_eq_str(code, "boom") {
        Some("💥".to_owned())
    } else {
        None
    }
}

fn lookup_group_c(code: &Vec<char>) -> (r: Option<String>)
    ensures
        (match r {
            Some(e) => emoji_group_c(code@) == Some(e@),
            None => emoji_group_c(code@) is None,
        }),
{
    if chars_eq_str(code, "bento") {
        Some("🍱".to_owned())
    } else if chars_eq_str(code, "wheelchair") {
        Some("♿️".to_owned())
    } else if chars_eq_str(code, "bulb") {
        Some("💡".to_owned())
    } else if chars_eq_str(code, "beers") {
        Some("🍻".to_owned())
    } else if chars_eq_str(code, "speech_balloon") {
        Some("💬".to_owned())
    } else if chars_eq_str(code, "card_file_box") {
        Some("🗃️".to_owned())
    } else if chars_eq_str(code, "loud_sound") {
        Some("🔊".to_owned())
    } else if chars_eq_str(code, "mute") {
        Some("🔇".to_owned())
    } else if chars_eq_str(code, "busts_in_silhouette") {
        Some("👥".to_owned())
    } else if chars_eq_str(code, "children_crossing") {
        Some("🚸".to_owned())
    } else if chars_eq_str(code, "building_construction") {
        Some("🏗️".to_owned())
    } else if chars_eq_str(code, "iphone") {
        Some("📱".to_owned())
    } else if chars_eq_str(code, "clown_face") {
        Some("🤡".to_owned())
    } else if chars_eq_str(code, "egg") {
        Some("🥚".to_owned())
    } else if chars_eq_str(code, "see_no_evil") {
        Some("🙈".to_owned())
    } else if chars_eq_str(code, "camera_flash") {
        Some("📸".to_owned())
    } else if chars_eq_str(code, "alembic") {
        Some("⚗️".to_owned())
    } else if chars_eq_str(code, "mag") {
        Some("🔍".to_owned())
    } else if chars_eq_str(code, "label") {
        Some("🏷️".to_owned())
    } else {
        None
    }
}

fn lookup_group_d(code: &Vec<char>) -> (r: Option<String>)
    ensures
        (match r {
            Some(e) => emoji_group_d(code@) == Some(e@),
            None => emoji_group_d(code@) is None,
        }),
{
    if chars_eq_str(code, "seedling") {
        Some("🌱".to_owned())
    } else if chars_eq_str(code, "triangular_flag_on_post") {
        Some("🚩".to_owned())
    } else if chars_eq_str(code, "goal_net") {
        Some("🥅".to_owned())
    } else if chars_eq_str(code, "dizzy") {
        Some("💫".to_owned())
    } else if chars_eq_str(code, "wastebasket") {
        Some("🗑️".to_owned())
    } else if chars_eq_str(code, "passport_control") {
        Some("🛂".to_owned())
    } else if chars_eq_str(code, "adhesive_bandage") {
        Some("🩹".to_owned())
    } else if chars_eq_str(code, "monocle_face") {
        Some("🧐".to_owned())
    } else if chars_eq_str(code, "coffin") {
        Some("⚰️".to_owned())
    } else if chars_eq_str(code, "test_tube") {
        Some("🧪".to_owned())
    } else if chars_eq_str(code, "necktie") {
        Some("👔".to_owned())
    } else if chars_eq_str(code, "stethoscope") {
        Some("🩺".to_owned())
    } else if chars_eq_str(code, "bricks") {
        Some("🧱".to_owned())
    } else if chars_eq_str(code, "technologist") {
        Some("🧑‍💻".to_owned())
    } else if chars_eq_str(code, "money_with_wings") {
        Some("💸".to_owned())
    } else if chars_eq_str(code, "thread") {
        Some("🧵".to_owned())
    } else if chars_eq_str(code, "safety_vest") {
        Some("🦺".to_owned())
    } else {
        None
    }
}

/// The glyph for a gitmoji code, if the code is in the table.
pub fn lookup_emoji(code: &Vec<char>) -> (r: Option<String>)
    ensures
        (match r {
            Some(e) => emoji_of(code@) == Some(e@),
            None => emoji_of(code@) is None,
        }),
{
    match lookup_group_a(code) {
        Some(e) => Some(e),
        None => match lookup_group_b(code) {
            Some(e) => Some(e),
            None => match lookup_group_c(code) {
                Some(e) => Some(e),
                None => lookup_group_d(code),
            },
        },
    }
}

/// `gm_replace` over a character vector.
pub fn gm_replace_chars(s: &Vec<char>) -> (out: Vec<char>)
    ensures
        out@ == gm_replace(s@),
{
    let mut out: Vec<char> = Vec::new();
    let mut i: usize = 0;
    while i < s.len()
        invariant
            i <= s@.len(),
            gm_replace(s@) == out@ + gm_replace_from(s@, i as int),
        decreases s@.len() - i,
    {
        let ghost pre = out@;
        if s[i] == ':' {
            let mut j: usize = i + 1;
            while j < s.len() && code_char(s[j])
                invariant
                    i + 1 <= j <= s@.len(),
                    code_run(s@, i + 1) == j - i - 1 + code_run(s@, j as int),
                decreases s@.len() - j,
            {
                j = j + 1;
            }
            assert(code_run(s@, j as int) == 0);
            let k: usize = j - i - 1;
            assert(code_run(s@, i + 1 as int) == k);
            if k >= 1 && j < s.len() && s[j] == ':' {
                let code: Vec<char> = subvec(s, i + 1, j);
                assert(code@ == s@.subrange(i + 1 as int, i + 1 + k as int));
                match lookup_emoji(&code) {
                    Some(e) => {
                        let glyph: Vec<char> = str_to_chars(e.as_str());
                        push_all(&mut out, &glyph);
                        proof {
                            assert(gm_replace_from(s@, i as int) == glyph@ + gm_replace_from(
                                s@,
                                i + k + 2 as int,
                            ));
                            assert(pre + (glyph@ + gm_replace_from(s@, i + k + 2 as int)) =~= (pre
                                + glyph@) + gm_replace_from(s@, i + k + 2 as int));
                        }
                    },
                    None => {
                        let span: Vec<char> = subvec(s, i, j + 1);
                        push_all(&mut out, &span);
                        proof {
                            assert(span@ == s@.subrange(i as int, i + k + 2 as int));
                            assert(gm_replace_from(s@, i as int) == span@ + gm_replace_from(
                                s@,
                                i + k + 2 as int,
                            ));
                            assert(pre + (span@ + gm_replace_from(s@, i + k + 2 as int)) =~= (pre
                                + span@) + gm_replace_from(s@, i + k + 2 as int));
                        }
                    },
                }
                i = j + 1;
            } else {
                out.push(':');
                proof {
                    assert(gm_replace_from(s@, i as int) == seq![s@[i as int]] + gm_replace_from(
                        s@,
                        i + 1 as int,
                    ));
                    assert(pre + (seq![s@[i as int]] + gm_replace_from(s@, i + 1 as int)) =~= pre.push(
                        ':',
                    ) + gm_replace_from(s@, i + 1 as int));
                }
                i = i + 1;
            }
        } else {
            let c: char = s[i];
            out.push(c);
            proof {
                assert(gm_replace_from(s@, i as int) == seq![s@[i as int]] + gm_replace_from(
                    s@,
                    i + 1 as int,
                ));
                assert(pre + (seq![s@[i as int]] + gm_replace_from(s@, i + 1 as int)) =~= pre.push(
                    c,
                ) + gm_replace_from(s@, i + 1 as int));
            }
            i = i + 1;
        }
    }
    assert(gm_replace_from(s@, s@.len() as int) =~= Seq::<char>::empty());
    assert(out@ + Seq::<char>::empty() =~= out@);
    out
}

/// Replace every matched `:code:` span in `message` by its emoji glyph;
/// spans whose code is not in the table pass through unchanged.
pub fn replace_gitmoji_with_emoji(message: &str) -> (r: String)
    ensures
        r@ == gm_replace(message@),
{
    let s: Vec<char> = str_to_chars(message);
    let out: Vec<char> = gm_replace_chars(&s);
    chars_to_string(&out)
}

} // verus!
