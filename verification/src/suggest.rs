//! Tidying the suggestion text that comes back from the generation
//! service: label prefixes are stripped from each line, and one line
//! can be replaced during interactive editing.

use vstd::prelude::*;

use crate::text::{
    chars_to_string, join_with, join_with_vec, replace_all, replace_all_vec, split_on,
    split_on_vec, str_to_chars, trim, trim_vec,
};

verus! {

/// One label removed everywhere in the line, the result trimmed.
pub open spec fn strip_label(s: Seq<char>, label: Seq<char>) -> Seq<char> {
    trim(replace_all(s, label, Seq::empty()))
}

/// One suggestion line tidied: each known label is removed in turn,
/// trimming after each, in the order the tool always used.
pub open spec fn clean_line(l: Seq<char>) -> Seq<char> {
    strip_label(
        strip_label(
            strip_label(strip_label(strip_label(l, "Title:"@), "Body:"@), "Summary:"@),
            "Gitmoji:"@,
        ),
        "feat:"@,
    )
}

/// The whole suggestion tidied line by line.
pub open spec fn clean_suggestion_spec(s: Seq<char>) -> Seq<char> {
    join_with(split_on(s, seq!['\n']).map_values(|l: Seq<char>| clean_line(l)), seq!['\n'])
}

/// Remove one label from a line and trim.
fn strip_label_vec(s: &Vec<char>, label: &Vec<char>) -> (r: Vec<char>)
    requires
        label@.len() >= 1,
    ensures
        r@ == strip_label(s@, label@),
{
    let empty: Vec<char> = Vec::new();
    assert(empty@ =~= Seq::<char>::empty());
    let replaced: Vec<char> = replace_all_vec(s, label, &empty);
    trim_vec(&replaced)
}

/// Tidy the suggestion: strip the known label prefixes from every
/// line, trimming as the labels come off.
pub fn clean_suggestion(result: &str) -> (r: String)
    ensures
        r@ == clean_suggestion_spec(result@),
{
    let chars: Vec<char> = str_to_chars(result);
    let nl: Vec<char> = vec!['\n'];
    assert(nl@ =~= seq!['\n']);
    let lines: Vec<Vec<char>> = split_on_vec(&chars, &nl);
    let title: Vec<char> = str_to_chars("Title:");
    let body: Vec<char> = str_to_chars("Body:");
    let summary: Vec<char> = str_to_chars("Summary:");
    let gitmoji: Vec<char> = str_to_chars("Gitmoji:");
    let feat: Vec<char> = str_to_chars("feat:");
    proof {
        reveal_strlit("Title:");
        reveal_strlit("Body:");
        reveal_strlit("Summary:");
        reveal_strlit("Gitmoji:");
        reveal_strlit("feat:");
    }
    let ghost lv = lines.deep_view();
    let mut cleaned: Vec<Vec<char>> = Vec::new();
    let mut i: usize = 0;
    while i < lines.len()
        invariant
            i <= lines@.len(),
            lv == lines.deep_view(),
            lv.len() == lines@.len(),
            title@ == "Title:"@ && body@ == "Body:"@ && summary@ == "Summary:"@,
            gitmoji@ == "Gitmoji:"@ && feat@ == "feat:"@,
            title@.len() >= 1 && body@.len() >= 1 && summary@.len() >= 1 && gitmoji@.len() >= 1
                && feat@.len() >= 1,
            cleaned.deep_view() == lv.take(i as int).map_values(|l: Seq<char>| clean_line(l)),
        decreases lines@.len() - i,
    {
        let ghost pre = cleaned.deep_view();
        let s1: Vec<char> = strip_label_vec(&lines[i], &title);
        let s2: Vec<char> = strip_label_vec(&s1, &body);
        let s3: Vec<char> = strip_label_vec(&s2, &summary);
        let s4: Vec<char> = strip_label_vec(&s3, &gitmoji);
        let s5: Vec<char> = strip_label_vec(&s4, &feat);
        cleaned.push(s5);
        proof {
            assert(lv[i as int] == lines@[i as int]@);
            crate::text::lemma_map_take_step(lv, |l: Seq<char>| clean_line(l), i as int);
            assert(cleaned.deep_view() =~~= pre.push(clean_line(lv[i as int])));
        }
        i = i + 1;
    }
    assert(lv.take(lines@.len() as int) =~= lv);
    let joined: Vec<char> = join_with_vec(&cleaned, &nl);
    chars_to_string(&joined)
}

/// The non-empty lines of a text, in order.
pub open spec fn keep_nonempty(lines: Seq<Seq<char>>) -> Seq<Seq<char>>
    decreases lines.len(),
{
    if lines.len() == 0 {
        Seq::empty()
    } else {
        let rest = keep_nonempty(lines.drop_first());
        if lines[0].len() == 0 {
            rest
        } else {
            seq![lines[0]] + rest
        }
    }
}

/// The non-empty newline-separated lines of `s`.
pub open spec fn nonempty_lines(s: Seq<char>) -> Seq<Seq<char>> {
    keep_nonempty(split_on(s, seq!['\n']))
}

/// What interactive editing leaves behind: the non-empty lines with
/// line `index` replaced, lines emptied by the edit dropped, newline-
/// joined; nothing when `index` is out of range.
pub open spec fn edit_line_spec(s: Seq<char>, index: int, replacement: Seq<char>) -> Option<
    Seq<char>,
> {
    let lines = nonempty_lines(s);
    if 0 <= index < lines.len() {
        Some(join_with(keep_nonempty(lines.update(index, replacement)), seq!['\n']))
    } else {
        None
    }
}

/// Keep the non-empty entries, in order.
fn keep_nonempty_vec(lines: &Vec<Vec<char>>) -> (r: Vec<Vec<char>>)
    ensures
        r.deep_view() == keep_nonempty(lines.deep_view()),
{
    let mut r: Vec<Vec<char>> = Vec::new();
    let mut i: usize = 0;
    assert(lines.deep_view().skip(0) =~= lines.deep_view());
    while i < lines.len()
        invariant
            i <= lines@.len(),
            lines.deep_view().len() == lines@.len(),
            keep_nonempty(lines.deep_view()) == r.deep_view() + keep_nonempty(
                lines.deep_view().skip(i as int),
            ),
        decreases lines@.len() - i,
    {
        let ghost pre = r.deep_view();
        let ghost sv = lines.deep_view().skip(i as int);
        proof {
            assert(sv[0] == lines.deep_view()[i as int]);
            assert(lines.deep_view()[i as int] == lines@[i as int]@);
            assert(sv.drop_first() =~= lines.deep_view().skip(i + 1 as int));
        }
        if lines[i].len() > 0 {
            let keep: Vec<char> = crate::text::subvec(&lines[i], 0, lines[i].len());
            assert(keep@ =~= lines@[i as int]@);
            r.push(keep);
            proof {
                assert(r.deep_view() =~~= pre.push(sv[0]));
                assert(r.deep_view() =~= pre + seq![sv[0]]);
            }
        }
        i = i + 1;
    }
    assert(lines.deep_view().skip(lines@.len() as int) =~= Seq::<Seq<char>>::empty());
    r
}

/// How many non-empty lines the text has.
pub fn nonempty_line_count(text: &str) -> (r: usize)
    ensures
        r == nonempty_lines(text@).len(),
{
    let chars: Vec<char> = str_to_chars(text);
    let nl: Vec<char> = vec!['\n'];
    assert(nl@ =~= seq!['\n']);
    let lines: Vec<Vec<char>> = split_on_vec(&chars, &nl);
    let kept: Vec<Vec<char>> = keep_nonempty_vec(&lines);
    let n: usize = kept.len();
    assert(kept.deep_view().len() == kept@.len());
    n
}

/// Replace non-empty line `index` of the text by `replacement`,
/// dropping lines the edit left empty; `None` when `index` is out of
/// range.
pub fn edit_line(text: &str, index: usize, replacement: &str) -> (r: Option<String>)
    ensures
        (match r {
            Some(out) => edit_line_spec(text@, index as int, replacement@) == Some(out@),
            None => edit_line_spec(text@, index as int, replacement@) is None,
        }),
{
    let chars: Vec<char> = str_to_chars(text);
    let nl: Vec<char> = vec!['\n'];
    assert(nl@ =~= seq!['\n']);
    let raw: Vec<Vec<char>> = split_on_vec(&chars, &nl);
    let mut lines: Vec<Vec<char>> = keep_nonempty_vec(&raw);
    assert(lines.deep_view().len() == lines@.len());
    if index >= lines.len() {
        return None;
    }
    let ghost before = lines.deep_view();
    lines.set(index, str_to_chars(replacement));
    assert(lines.deep_view() =~~= before.update(index as int, replacement@));
    let kept: Vec<Vec<char>> = keep_nonempty_vec(&lines);
    let joined: Vec<char> = join_with_vec(&kept, &nl);
    Some(chars_to_string(&joined))
}

} // verus!
