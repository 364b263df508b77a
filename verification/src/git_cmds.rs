//! Building the version-control command sequence: the `git add`,
//! `git commit -m` and optional `git push` commands from a commit
//! message and a file list, with paths normalized to forward-slash
//! segments.

use vstd::prelude::*;

use crate::text::{chars_eq_str, chars_to_string, str_to_chars, subvec, join_with};

verus! {

/// A path separator: forward or backward slash.
pub open spec fn is_path_sep(c: char) -> bool {
    c == '/' || c == '\\'
}

/// One path-splitting step: a separator closes the segment being
/// built, anything else extends it.
pub open spec fn seg_push(acc: (Seq<Seq<char>>, Seq<char>), c: char) -> (Seq<Seq<char>>, Seq<char>) {
    if is_path_sep(c) {
        if acc.1.len() > 0 {
            (acc.0.push(acc.1), Seq::empty())
        } else {
            acc
        }
    } else {
        (acc.0, acc.1.push(c))
    }
}

/// The path splitter run over `s`.
pub open spec fn seg_run(acc: (Seq<Seq<char>>, Seq<char>), s: Seq<char>) -> (Seq<Seq<char>>, Seq<char>)
    decreases s.len(),
{
    if s.len() == 0 {
        acc
    } else {
        seg_run(seg_push(acc, s[0]), s.drop_first())
    }
}

/// The non-empty slash- or backslash-separated segments of a path.
pub open spec fn path_segs(s: Seq<char>) -> Seq<Seq<char>> {
    let end = seg_run((Seq::empty(), Seq::empty()), s);
    if end.1.len() > 0 {
        end.0.push(end.1)
    } else {
        end.0
    }
}

/// Segments with every `.` segment dropped.
pub open spec fn keep_segs(segs: Seq<Seq<char>>) -> Seq<Seq<char>>
    decreases segs.len(),
{
    if segs.len() == 0 {
        Seq::empty()
    } else {
        let rest = keep_segs(segs.drop_first());
        if segs[0] == "."@ {
            rest
        } else {
            seq![segs[0]] + rest
        }
    }
}

/// A path as handed to git: its segments, `.` dropped, slash-joined.
pub open spec fn git_path(s: Seq<char>) -> Seq<char> {
    join_with(keep_segs(path_segs(s)), seq!['/'])
}

/// The non-empty segments of one path's characters.
fn path_segs_vec(s: &Vec<char>) -> (r: Vec<Vec<char>>)
    ensures
        r.deep_view() == path_segs(s@),
{
    let mut segs: Vec<Vec<char>> = Vec::new();
    let mut cur: Vec<char> = Vec::new();
    let mut i: usize = 0;
    proof {
        assert(s@.skip(0) =~= s@);
        assert(segs.deep_view() =~= Seq::<Seq<char>>::empty());
    }
    while i < s.len()
        invariant
            i <= s@.len(),
            seg_run((Seq::empty(), Seq::empty()), s@) == seg_run(
                (segs.deep_view(), cur@),
                s@.skip(i as int),
            ),
        decreases s@.len() - i,
    {
        let ghost pre = (segs.deep_view(), cur@);
        let c: char = s[i];
        if c == '/' || c == '\\' {
            if cur.len() > 0 {
                let done: Vec<char> = cur;
                segs.push(done);
                cur = Vec::new();
            }
        } else {
            cur.push(c);
        }
        proof {
            let post = (segs.deep_view(), cur@);
            assert(post.0 =~~= seg_push(pre, s@[i as int]).0);
            assert(post == seg_push(pre, s@[i as int]));
            assert(s@.skip(i as int).drop_first() =~= s@.skip(i + 1 as int));
            assert(s@.skip(i as int)[0] == s@[i as int]);
        }
        i = i + 1;
    }
    assert(s@.skip(s@.len() as int) =~= Seq::<char>::empty());
    if cur.len() > 0 {
        let ghost pre = segs.deep_view();
        segs.push(cur);
        assert(segs.deep_view() =~~= pre.push(cur@));
    }
    segs
}

/// One path normalized for git.
fn git_path_vec(s: &Vec<char>) -> (r: Vec<char>)
    ensures
        r@ == git_path(s@),
{
    let segs: Vec<Vec<char>> = path_segs_vec(s);
    let mut kept: Vec<Vec<char>> = Vec::new();
    let mut i: usize = 0;
    assert(segs.deep_view().skip(0) =~= segs.deep_view());
    while i < segs.len()
        invariant
            i <= segs@.len(),
            segs.deep_view().len() == segs@.len(),
            keep_segs(segs.deep_view()) == kept.deep_view() + keep_segs(
                segs.deep_view().skip(i as int),
            ),
        decreases segs@.len() - i,
    {
        let ghost pre = kept.deep_view();
        let ghost sv = segs.deep_view().skip(i as int);
        proof {
            assert(sv[0] == segs.deep_view()[i as int]);
            assert(segs.deep_view()[i as int] == segs@[i as int]@);
            assert(sv.drop_first() =~= segs.deep_view().skip(i + 1 as int));
        }
        if !chars_eq_str(&segs[i], ".") {
            let keep: Vec<char> = subvec(&segs[i], 0, segs[i].len());
            assert(keep@ =~= segs@[i as int]@);
            kept.push(keep);
            proof {
                assert(kept.deep_view() =~~= pre.push(sv[0]));
                assert(kept.deep_view() =~= pre + seq![sv[0]]);
            }
        }
        i = i + 1;
    }
    assert(segs.deep_view().skip(segs@.len() as int) =~= Seq::<Seq<char>>::empty());
    let slash: Vec<char> = vec!['/'];
    assert(slash@ =~= seq!['/']);
    crate::text::join_with_vec(&kept, &slash)
}

/// The paths handed to `git add`: `.` when no file is named, else each
/// path normalized to slash-joined segments with `.` segments dropped.
pub fn paths_to_git_paths(paths: &Vec<String>) -> (r: Vec<String>)
    ensures
        paths@.len() == 0 ==> r@.map_values(|s: String| s@) =~= seq!["."@],
        paths@.len() > 0 ==> r@.map_values(|s: String| s@) == paths.deep_view().map_values(
            |p: Seq<char>| git_path(p),
        ),
{
    if paths.len() == 0 {
        let mut r: Vec<String> = Vec::new();
        r.push(".".to_owned());
        assert(r@.map_values(|s: String| s@) =~= seq!["."@]);
        return r;
    }
    let ghost target = paths.deep_view();
    let mut r: Vec<String> = Vec::new();
    let mut i: usize = 0;
    while i < paths.len()
        invariant
            i <= paths@.len(),
            target == paths.deep_view(),
            target.len() == paths@.len(),
            r@.map_values(|s: String| s@) == target.take(i as int).map_values(
                |p: Seq<char>| git_path(p),
            ),
        decreases paths@.len() - i,
    {
        let ghost pre = r@.map_values(|s: String| s@);
        let chars: Vec<char> = str_to_chars(paths[i].as_str());
        let normed: Vec<char> = git_path_vec(&chars);
        r.push(chars_to_string(&normed));
        proof {
            assert(target[i as int] == paths@[i as int]@);
            crate::text::lemma_map_take_step(target, |p: Seq<char>| git_path(p), i as int);
            assert(r@.map_values(|s: String| s@) =~= pre.push(git_path(target[i as int])));
        }
        i = i + 1;
    }
    assert(target.take(paths@.len() as int) =~= target);
    r
}

/// The message with one pair of surrounding double quotes stripped.
pub open spec fn stripped_msg(m: Seq<char>) -> Seq<char> {
    if m.len() >= 2 && m[0] == '"' && m.last() == '"' {
        m.subrange(1, m.len() - 1)
    } else {
        m
    }
}

/// The git paths of a file list, `.` when it is empty.
pub open spec fn git_paths_spec(files: Seq<Seq<char>>) -> Seq<Seq<char>> {
    if files.len() == 0 {
        seq!["."@]
    } else {
        files.map_values(|p: Seq<char>| git_path(p))
    }
}

/// The commands that commit the given files with the given message:
/// `git add` over the normalized paths, `git commit -m` with the
/// message (surrounding quotes stripped, embedded spaces kept as one
/// argument), and `git push` when asked for.
pub open spec fn build_commands_spec(msg: Seq<char>, push: bool, files: Seq<Seq<char>>) -> Seq<
    Seq<Seq<char>>,
> {
    let add = seq!["git"@, "add"@] + git_paths_spec(files);
    let commit = seq!["git"@, "commit"@, "-m"@, stripped_msg(msg)];
    if push {
        seq![add, commit, seq!["git"@, "push"@]]
    } else {
        seq![add, commit]
    }
}

/// Build the add / commit / optional push command sequence.
pub fn build_commands(commit_message: &String, include_push: bool, files: &Vec<String>) -> (r: Vec<
    Vec<String>,
>)
    ensures
        r.deep_view() == build_commands_spec(commit_message@, include_push, files.deep_view()),
{
    let msg_chars: Vec<char> = str_to_chars(commit_message.as_str());
    let n: usize = msg_chars.len();
    let stripped: Vec<char> = if n >= 2 && msg_chars[0] == '"' && msg_chars[n - 1] == '"' {
        let inner: Vec<char> = subvec(&msg_chars, 1, n - 1);
        assert(inner@ =~= stripped_msg(commit_message@));
        inner
    } else {
        assert(msg_chars@ =~= stripped_msg(commit_message@));
        msg_chars
    };
    let message: String = chars_to_string(&stripped);

    let mut add: Vec<String> = Vec::new();
    add.push("git".to_owned());
    add.push("add".to_owned());
    let git_files: Vec<String> = paths_to_git_paths(files);
    let mut k: usize = 0;
    let ghost gp = git_paths_spec(files.deep_view());
    proof {
        if files.deep_view().len() == 0 {
            assert(git_files@.map_values(|s: String| s@) =~= gp);
        } else {
            assert(git_files@.map_values(|s: String| s@) =~= gp);
        }
        assert(add@.map_values(|s: String| s@) =~= seq!["git"@, "add"@]);
    }
    while k < git_files.len()
        invariant
            k <= git_files@.len(),
            gp == git_files@.map_values(|s: String| s@),
            add@.map_values(|s: String| s@) == seq!["git"@, "add"@] + gp.take(k as int),
        decreases git_files@.len() - k,
    {
        let ghost pre = add@.map_values(|s: String| s@);
        add.push(git_files[k].clone());
        proof {
            assert(add@.map_values(|s: String| s@) =~= pre.push(gp[k as int]));
            assert(gp.take(k + 1 as int) =~= gp.take(k as int).push(gp[k as int]));
            assert(pre.push(gp[k as int]) =~= seq!["git"@, "add"@] + gp.take(k + 1 as int));
        }
        k = k + 1;
    }
    assert(gp.take(gp.len() as int) =~= gp);

    let mut commit: Vec<String> = Vec::new();
    commit.push("git".to_owned());
    commit.push("commit".to_owned());
    commit.push("-m".to_owned());
    commit.push(message);
    assert(commit@.map_values(|s: String| s@) =~= seq![
        "git"@,
        "commit"@,
        "-m"@,
        stripped_msg(commit_message@),
    ]);

    let mut r: Vec<Vec<String>> = Vec::new();
    r.push(add);
    r.push(commit);
    if include_push {
        let mut push_cmd: Vec<String> = Vec::new();
        push_cmd.push("git".to_owned());
        push_cmd.push("push".to_owned());
        assert(push_cmd@.map_values(|s: String| s@) =~= seq!["git"@, "push"@]);
        r.push(push_cmd);
    }
    proof {
        assert(r.deep_view() =~~= build_commands_spec(
            commit_message@,
            include_push,
            files.deep_view(),
        ));
    }
    r
}

} // verus!
