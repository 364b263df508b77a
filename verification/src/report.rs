//! The display side of repository reporting: one diff line styled by
//! its origin, one status entry styled by its code, the post-commit
//! confirmation line, and the change-count summary with a verified
//! decimal rendering.

use vstd::prelude::*;

use crate::render::{green_code, green_vec, reset_code, reset_vec, styled, yellow_code, yellow_vec};
use crate::text::{chars_to_string, push_all, replace_all, replace_all_vec, str_to_chars, trim,
    trim_vec};

verus! {

/// The escape that paints removals (red).
pub open spec fn red_code() -> Seq<char> {
    seq!['\u{1b}', '[', '3', '1', 'm']
}

/// The escape that paints renames (blue).
pub open spec fn deep_blue_code() -> Seq<char> {
    seq!['\u{1b}', '[', '3', '4', 'm']
}

/// The escape that paints hunk headers (bright blue).
pub open spec fn bright_blue_code() -> Seq<char> {
    seq!['\u{1b}', '[', '9', '4', 'm']
}

/// The escape that paints file headers (bold).
pub open spec fn bold_code() -> Seq<char> {
    seq!['\u{1b}', '[', '1', 'm']
}

fn red_vec() -> (r: Vec<char>)
    ensures
        r@ == red_code(),
{
    let r: Vec<char> = vec!['\u{1b}', '[', '3', '1', 'm'];
    assert(r@ =~= red_code());
    r
}

fn deep_blue_vec() -> (r: Vec<char>)
    ensures
        r@ == deep_blue_code(),
{
    let r: Vec<char> = vec!['\u{1b}', '[', '3', '4', 'm'];
    assert(r@ =~= deep_blue_code());
    r
}

fn bright_blue_vec() -> (r: Vec<char>)
    ensures
        r@ == bright_blue_code(),
{
    let r: Vec<char> = vec!['\u{1b}', '[', '9', '4', 'm'];
    assert(r@ =~= bright_blue_code());
    r
}

fn bold_vec() -> (r: Vec<char>)
    ensures
        r@ == bold_code(),
{
    let r: Vec<char> = vec!['\u{1b}', '[', '1', 'm'];
    assert(r@ =~= bold_code());
    r
}

/// One patch line as shown: additions green with a `+`, removals red
/// with a `-`, hunk headers bright blue, file headers bold after a
/// blank line, anything else verbatim.
pub open spec fn diff_line_spec(origin: char, content: Seq<char>) -> Seq<char> {
    if origin == '+' {
        styled(green_code(), seq!['+']) + styled(green_code(), content)
    } else if origin == '-' {
        styled(red_code(), seq!['-']) + styled(red_code(), content)
    } else if origin == 'H' {
        styled(bright_blue_code(), content)
    } else if origin == 'F' {
        seq!['\n'] + styled(bold_code(), content)
    } else {
        content
    }
}

/// Style one patch line by its origin marker.
pub fn diff_line(origin: char, content: &str) -> (r: String)
    ensures
        r@ == diff_line_spec(origin, content@),
{
    let body: Vec<char> = str_to_chars(content);
    let mut out: Vec<char> = Vec::new();
    if origin == '+' {
        push_all(&mut out, &green_vec());
        out.push('+');
        push_all(&mut out, &reset_vec());
        push_all(&mut out, &green_vec());
        push_all(&mut out, &body);
        push_all(&mut out, &reset_vec());
        assert(out@ =~= diff_line_spec(origin, content@));
    } else if origin == '-' {
        push_all(&mut out, &red_vec());
        out.push('-');
        push_all(&mut out, &reset_vec());
        push_all(&mut out, &red_vec());
        push_all(&mut out, &body);
        push_all(&mut out, &reset_vec());
        assert(out@ =~= diff_line_spec(origin, content@));
    } else if origin == 'H' {
        push_all(&mut out, &bright_blue_vec());
        push_all(&mut out, &body);
        push_all(&mut out, &reset_vec());
        assert(out@ =~= diff_line_spec(origin, content@));
    } else if origin == 'F' {
        out.push('\n');
        push_all(&mut out, &bold_vec());
        push_all(&mut out, &body);
        push_all(&mut out, &reset_vec());
        assert(out@ =~= diff_line_spec(origin, content@));
    } else {
        push_all(&mut out, &body);
        assert(out@ =~= diff_line_spec(origin, content@));
    }
    chars_to_string(&out)
}

/// The color a status code paints its path with, if any: added green,
/// modified yellow, deleted / ignored / conflicted red, renamed blue.
pub open spec fn status_color(code: Seq<char>) -> Option<Seq<char>> {
    if code == "A"@ {
        Some(green_code())
    } else if code == "M"@ {
        Some(yellow_code())
    } else if code == "D"@ || code == "!"@ || code == "U"@ {
        Some(red_code())
    } else if code == "R"@ {
        Some(deep_blue_code())
    } else {
        None
    }
}

/// One status entry: the path, painted by its code, then the code and
/// a newline.
pub open spec fn status_entry_spec(path: Seq<char>, code: Seq<char>) -> Seq<char> {
    (match status_color(code) {
        Some(color) => styled(color, path),
        None => path,
    }) + seq![' '] + code + seq!['\n']
}

/// Render one repository status entry.
pub fn status_entry(path: &str, code: &str) -> (r: String)
    ensures
        r@ == status_entry_spec(path@, code@),
{
    let p: Vec<char> = str_to_chars(path);
    let c: Vec<char> = str_to_chars(code);
    let mut out: Vec<char> = Vec::new();
    if crate::text::chars_eq_str(&c, "A") {
        push_all(&mut out, &green_vec());
        push_all(&mut out, &p);
        push_all(&mut out, &reset_vec());
    } else if crate::text::chars_eq_str(&c, "M") {
        push_all(&mut out, &yellow_vec());
        push_all(&mut out, &p);
        push_all(&mut out, &reset_vec());
    } else if crate::text::chars_eq_str(&c, "D") || crate::text::chars_eq_str(&c, "!")
        || crate::text::chars_eq_str(&c, "U") {
        push_all(&mut out, &red_vec());
        push_all(&mut out, &p);
        push_all(&mut out, &reset_vec());
    } else if crate::text::chars_eq_str(&c, "R") {
        push_all(&mut out, &deep_blue_vec());
        push_all(&mut out, &p);
        push_all(&mut out, &reset_vec());
    } else {
        push_all(&mut out, &p);
    }
    out.push(' ');
    push_all(&mut out, &c);
    out.push('\n');
    assert(out@ =~= status_entry_spec(path@, code@));
    chars_to_string(&out)
}

/// A commit hash shortened to its first seven characters.
pub open spec fn short_hash(h: Seq<char>) -> Seq<char> {
    if h.len() >= 7 {
        h.take(7)
    } else {
        h
    }
}

/// A commit message flattened for the confirmation line: trimmed, with
/// newlines, carriage returns and tabs turned into spaces and double
/// spaces collapsed once.
pub open spec fn flat_msg(m: Seq<char>) -> Seq<char> {
    replace_all(
        replace_all(
            replace_all(replace_all(trim(m), seq!['\n'], seq![' ']), seq!['\r'], seq![' ']),
            seq!['\t'],
            seq![' '],
        ),
        seq![' ', ' '],
        seq![' '],
    )
}

/// The confirmation line printed after a commit:
/// `[branch hash] message`, the message flattened and with gitmoji
/// codes replaced by their glyphs.
pub open spec fn confirm_line_spec(branch: Seq<char>, hash: Seq<char>, msg: Seq<char>) -> Seq<
    char,
> {
    seq!['['] + branch + seq![' '] + short_hash(hash) + seq![']', ' '] + crate::gitmoji::gm_replace(
        flat_msg(msg),
    )
}

/// Render the post-commit confirmation line.
pub fn confirm_line(branch: &str, hash: &str, message: &str) -> (r: String)
    ensures
        r@ == confirm_line_spec(branch@, hash@, message@),
{
    let b: Vec<char> = str_to_chars(branch);
    let h: Vec<char> = str_to_chars(hash);
    let short: Vec<char> = if h.len() >= 7 {
        crate::text::subvec(&h, 0, 7)
    } else {
        h
    };
    assert(short@ =~= short_hash(hash@));
    let m: Vec<char> = str_to_chars(message);
    let trimmed: Vec<char> = trim_vec(&m);
    let nl: Vec<char> = vec!['\n'];
    let cr: Vec<char> = vec!['\r'];
    let tab: Vec<char> = vec!['\t'];
    let two_sp: Vec<char> = vec![' ', ' '];
    let sp: Vec<char> = vec![' '];
    proof {
        assert(nl@ =~= seq!['\n']);
        assert(cr@ =~= seq!['\r']);
        assert(tab@ =~= seq!['\t']);
        assert(two_sp@ =~= seq![' ', ' ']);
        assert(sp@ =~= seq![' ']);
    }
    let m1: Vec<char> = replace_all_vec(&trimmed, &nl, &sp);
    let m2: Vec<char> = replace_all_vec(&m1, &cr, &sp);
    let m3: Vec<char> = replace_all_vec(&m2, &tab, &sp);
    let m4: Vec<char> = replace_all_vec(&m3, &two_sp, &sp);
    let m5: Vec<char> = crate::gitmoji::gm_replace_chars(&m4);
    let mut out: Vec<char> = Vec::new();
    out.push('[');
    push_all(&mut out, &b);
    out.push(' ');
    push_all(&mut out, &short);
    out.push(']');
    out.push(' ');
    push_all(&mut out, &m5);
    assert(out@ =~= confirm_line_spec(branch@, hash@, message@));
    chars_to_string(&out)
}

/// The digit character for one decimal digit.
pub open spec fn digit_char_spec(d: nat) -> char {
    if d == 0 {
        '0'
    } else if d == 1 {
        '1'
    } else if d == 2 {
        '2'
    } else if d == 3 {
        '3'
    } else if d == 4 {
        '4'
    } else if d == 5 {
        '5'
    } else if d == 6 {
        '6'
    } else if d == 7 {
        '7'
    } else if d == 8 {
        '8'
    } else {
        '9'
    }
}

/// The decimal rendering of a number, most significant digit first.
pub open spec fn dec_str(n: nat) -> Seq<char>
    decreases n,
{
    if n < 10 {
        seq![digit_char_spec(n)]
    } else {
        dec_str(n / 10).push(digit_char_spec(n % 10))
    }
}

fn digit_char(d: usize) -> (r: char)
    requires
        d < 10,
    ensures
        r == digit_char_spec(d as nat),
{
    if d == 0 {
        '0'
    } else if d == 1 {
        '1'
    } else if d == 2 {
        '2'
    } else if d == 3 {
        '3'
    } else if d == 4 {
        '4'
    } else if d == 5 {
        '5'
    } else if d == 6 {
        '6'
    } else if d == 7 {
        '7'
    } else if d == 8 {
        '8'
    } else {
        '9'
    }
}

/// Append the decimal rendering of `n`.
fn push_decimal(out: &mut Vec<char>, n: usize)
    ensures
        final(out)@ == old(out)@ + dec_str(n as nat),
    decreases n,
{
    if n < 10 {
        out.push(digit_char(n));
        assert(old(out)@ + dec_str(n as nat) =~= old(out)@.push(digit_char_spec(n as nat)));
    } else {
        push_decimal(out, n / 10);
        out.push(digit_char(n % 10));
        assert(old(out)@ + dec_str(n as nat) =~= (old(out)@ + dec_str((n / 10) as nat)).push(
            digit_char_spec((n % 10) as nat),
        ));
    }
}

/// The decimal rendering of `n` as a string.
pub fn usize_to_string(n: usize) -> (r: String)
    ensures
        r@ == dec_str(n as nat),
{
    let mut out: Vec<char> = Vec::new();
    push_decimal(&mut out, n);
    assert(out@ =~= dec_str(n as nat));
    chars_to_string(&out)
}

/// The summary line printed after a commit:
/// `N files changed, I insertions(+), D deletions(-)`.
pub open spec fn stats_line_spec(files: nat, insertions: nat, deletions: nat) -> Seq<char> {
    dec_str(files) + " files changed, "@ + dec_str(insertions) + " insertions(+), "@ + dec_str(
        deletions,
    ) + " deletions(-)"@
}

/// Render the change-count summary line.
pub fn stats_line(files: usize, insertions: usize, deletions: usize) -> (r: String)
    ensures
        r@ == stats_line_spec(files as nat, insertions as nat, deletions as nat),
{
    let mut out: Vec<char> = Vec::new();
    push_decimal(&mut out, files);
    push_all(&mut out, &str_to_chars(" files changed, "));
    push_decimal(&mut out, insertions);
    push_all(&mut out, &str_to_chars(" insertions(+), "));
    push_decimal(&mut out, deletions);
    push_all(&mut out, &str_to_chars(" deletions(-)"));
    assert(out@ =~= stats_line_spec(files as nat, insertions as nat, deletions as nat));
    chars_to_string(&out)
}

/// Addition capped at the machine word.
pub open spec fn sat_add(a: nat, b: nat) -> nat {
    if a + b > usize::MAX {
        usize::MAX as nat
    } else {
        a + b
    }
}

/// The capped sum of the first components of per-file counts.
pub open spec fn sum_fst(s: Seq<(usize, usize)>) -> nat
    decreases s.len(),
{
    if s.len() == 0 {
        0
    } else {
        sat_add(sum_fst(s.drop_last()), s.last().0 as nat)
    }
}

/// The capped sum of the second components of per-file counts.
pub open spec fn sum_snd(s: Seq<(usize, usize)>) -> nat
    decreases s.len(),
{
    if s.len() == 0 {
        0
    } else {
        sat_add(sum_snd(s.drop_last()), s.last().1 as nat)
    }
}

/// Fold per-file (insertions, deletions) counts into the triple the
/// summary line shows: file count, total insertions, total deletions,
/// the totals saturating at the machine word.
pub fn sum_diff_stats(per_file: &Vec<(usize, usize)>) -> (r: (usize, usize, usize))
    ensures
        r.0 == per_file@.len(),
        r.1 == sum_fst(per_file@),
        r.2 == sum_snd(per_file@),
{
    let mut ins: usize = 0;
    let mut dels: usize = 0;
    let mut i: usize = 0;
    assert(per_file@.take(0) =~= Seq::<(usize, usize)>::empty());
    while i < per_file.len()
        invariant
            i <= per_file@.len(),
            ins == sum_fst(per_file@.take(i as int)),
            dels == sum_snd(per_file@.take(i as int)),
        decreases per_file@.len() - i,
    {
        let entry: (usize, usize) = per_file[i];
        proof {
            assert(per_file@.take(i + 1 as int).drop_last() =~= per_file@.take(i as int));
            assert(per_file@.take(i + 1 as int).last() == per_file@[i as int]);
        }
        ins = if entry.0 > usize::MAX - ins {
            usize::MAX
        } else {
            ins + entry.0
        };
        dels = if entry.1 > usize::MAX - dels {
            usize::MAX
        } else {
            dels + entry.1
        };
        i = i + 1;
    }
    assert(per_file@.take(per_file@.len() as int) =~= per_file@);
    (per_file.len(), ins, dels)
}

} // verus!
