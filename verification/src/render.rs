//! The colorizer: a pure rendering of parsed stages as a styled string.
//! Program names are yellow, flags bright blue, chain separators bright
//! black, and a `git commit` message body green with gitmoji codes
//! replaced; every style is a fixed ANSI escape, so rendering is a
//! function of the input alone.

use vstd::prelude::*;

use crate::gitmoji::{gm_replace, gm_replace_chars};
use crate::parser::{
    cmds_view, parse, parse_spec, toks_view, Command, Stage, StageView, Token,
};
use crate::text::{
    chars_eq_str, chars_to_string, find_from, find_from_at, join_with, join_with_vec,
    lemma_map_take_step, push_all, rfind_char, rfind_char_vec, str_to_chars, subvec,
};

verus! {

/// The escape that paints the program name (yellow).
pub open spec fn yellow_code() -> Seq<char> {
    seq!['\u{1b}', '[', '3', '3', 'm']
}

/// The escape that paints flags (bright blue).
pub open spec fn blue_code() -> Seq<char> {
    seq!['\u{1b}', '[', '9', '4', 'm']
}

/// The escape that paints a commit message body (green).
pub open spec fn green_code() -> Seq<char> {
    seq!['\u{1b}', '[', '3', '2', 'm']
}

/// The escape that paints separators (bright black).
pub open spec fn gray_code() -> Seq<char> {
    seq!['\u{1b}', '[', '9', '0', 'm']
}

/// The escape that restores the default style.
pub open spec fn reset_code() -> Seq<char> {
    seq!['\u{1b}', '[', '0', 'm']
}

/// `s` wrapped in a style escape and the reset escape.
pub open spec fn styled(code: Seq<char>, s: Seq<char>) -> Seq<char> {
    code + s + reset_code()
}

pub(crate) fn yellow_vec() -> (r: Vec<char>)
    ensures
        r@ == yellow_code(),
{
    let r: Vec<char> = vec!['\u{1b}', '[', '3', '3', 'm'];
    assert(r@ =~= yellow_code());
    r
}

pub(crate) fn blue_vec() -> (r: Vec<char>)
    ensures
        r@ == blue_code(),
{
    let r: Vec<char> = vec!['\u{1b}', '[', '9', '4', 'm'];
    assert(r@ =~= blue_code());
    r
}

pub(crate) fn green_vec() -> (r: Vec<char>)
    ensures
        r@ == green_code(),
{
    let r: Vec<char> = vec!['\u{1b}', '[', '3', '2', 'm'];
    assert(r@ =~= green_code());
    r
}

pub(crate) fn gray_vec() -> (r: Vec<char>)
    ensures
        r@ == gray_code(),
{
    let r: Vec<char> = vec!['\u{1b}', '[', '9', '0', 'm'];
    assert(r@ =~= gray_code());
    r
}

pub(crate) fn reset_vec() -> (r: Vec<char>)
    ensures
        r@ == reset_code(),
{
    let r: Vec<char> = vec!['\u{1b}', '[', '0', 'm'];
    assert(r@ =~= reset_code());
    r
}

/// How a token is shown: its quotes were stripped by the lexer, so they
/// are re-inserted when the token holds a space.
pub open spec fn tok_display(t: Seq<char>) -> Seq<char> {
    if t.contains(' ') {
        seq!['"'] + t + seq!['"']
    } else {
        t
    }
}

/// An argument that begins with `-` is shown as a flag, others plainly.
pub open spec fn flag_or_plain(t: Seq<char>) -> Seq<char> {
    if t.len() > 0 && t[0] == '-' {
        styled(blue_code(), tok_display(t))
    } else {
        tok_display(t)
    }
}

/// Arguments under the generic rule, in order.
pub open spec fn rendered_args(args: Seq<Seq<char>>) -> Seq<Seq<char>> {
    args.map_values(|t: Seq<char>| flag_or_plain(t))
}

/// A token naming the commit message: `-m`, `--message` or `-am`.
pub open spec fn is_msg_flag(t: Seq<char>) -> bool {
    t == "-m"@ || t == "--message"@ || t == "-am"@
}

/// The least index at or after `i` of a message flag, if any.
pub open spec fn find_msg_flag(args: Seq<Seq<char>>, i: int) -> Option<int>
    decreases args.len() + 1 - i,
{
    if i < 0 || i >= args.len() {
        None
    } else if is_msg_flag(args[i]) {
        Some(i)
    } else {
        find_msg_flag(args, i + 1)
    }
}

/// The rendered message: the span from the first to the last `"` of the
/// joined text has gitmoji replaced and is painted green, keeping the
/// quotes and anything after the closing quote; with fewer than two
/// quotes the segment is empty.
pub open spec fn msg_segment(j: Seq<char>) -> Seq<char> {
    match find_from(j, seq!['"'], 0) {
        None => Seq::empty(),
        Some(f) => match rfind_char(j, '"') {
            None => Seq::empty(),
            Some(l) => if f < l {
                seq!['"'] + styled(green_code(), gm_replace(j.subrange(f + 1, l))) + j.skip(l)
            } else {
                Seq::empty()
            },
        },
    }
}

/// The arguments of `git commit`: the first message flag is shown as a
/// flag and everything after it, joined as displayed, forms the message
/// segment; without a message flag nothing is shown.
pub open spec fn render_commit(args: Seq<Seq<char>>) -> Seq<char> {
    match find_msg_flag(args, 0) {
        None => Seq::empty(),
        Some(m) => styled(blue_code(), args[m]) + seq![' '] + msg_segment(
            join_with(args.skip(m + 1).map_values(|t: Seq<char>| tok_display(t)), seq![' ']),
        ),
    }
}

/// The arguments of `git`: a `commit` subcommand delegates to the
/// commit rule, anything else falls under the generic flag rule.
pub open spec fn render_git(args: Seq<Seq<char>>) -> Seq<char> {
    if args.len() == 0 {
        Seq::empty()
    } else if args[0] == "commit"@ {
        args[0] + seq![' '] + render_commit(args.skip(1))
    } else {
        join_with(rendered_args(args), seq![' '])
    }
}

/// One command: the program name in yellow, then its arguments under
/// the git rule or the generic flag rule.
pub open spec fn render_command(toks: Seq<Seq<char>>) -> Seq<char> {
    if toks.len() == 0 {
        Seq::empty()
    } else {
        let tail = if toks[0] == "git"@ {
            render_git(toks.skip(1))
        } else {
            join_with(rendered_args(toks.skip(1)), seq![' '])
        };
        styled(yellow_code(), toks[0]) + seq![' '] + tail
    }
}

/// The separator drawn between pipeline elements.
pub open spec fn pipe_sep_render(nl: bool) -> Seq<char> {
    styled(gray_code(), seq![' ', '|']) + (if nl {
        seq!['\n']
    } else {
        seq![' ']
    })
}

/// The separator drawn between AND-chain elements.
pub open spec fn and_sep_render(nl: bool) -> Seq<char> {
    styled(gray_code(), seq![' ', '&', '&']) + (if nl {
        seq!['\n']
    } else {
        seq![' ']
    })
}

/// One stage: its commands, joined by its separator.
pub open spec fn render_stage(sv: StageView, nl: bool) -> Seq<char> {
    match sv {
        StageView::Single(c) => render_command(c),
        StageView::Pipeline(cs) => join_with(
            cs.map_values(|c: Seq<Seq<char>>| render_command(c)),
            pipe_sep_render(nl),
        ),
        StageView::AndChain(cs) => join_with(
            cs.map_values(|c: Seq<Seq<char>>| render_command(c)),
            and_sep_render(nl),
        ),
    }
}

/// A whole input: its stages, always newline-joined.
pub open spec fn render_spec(stages: Seq<StageView>, nl: bool) -> Seq<char> {
    join_with(stages.map_values(|sv: StageView| render_stage(sv, nl)), seq!['\n'])
}

/// The display form of one token.
fn display_vec(t: &Token) -> (r: Vec<char>)
    ensures
        r@ == tok_display(t@),
{
    if crate::text::contains_char(&t.chars, ' ') {
        let mut r: Vec<char> = Vec::new();
        r.push('"');
        push_all(&mut r, &t.chars);
        r.push('"');
        assert(r@ =~= seq!['"'] + t@ + seq!['"']);
        r
    } else {
        subvec(&t.chars, 0, t.chars.len())
    }
}

/// One argument under the generic flag rule.
fn flag_or_plain_vec(t: &Token) -> (r: Vec<char>)
    ensures
        r@ == flag_or_plain(t@),
{
    let shown: Vec<char> = display_vec(t);
    if t.chars.len() > 0 && t.chars[0] == '-' {
        let mut r: Vec<char> = blue_vec();
        push_all(&mut r, &shown);
        push_all(&mut r, &reset_vec());
        assert(r@ =~= styled(blue_code(), tok_display(t@)));
        r
    } else {
        shown
    }
}

/// The flag-rule renderings of the tokens from `from` on.
fn args_vec(toks: &Vec<Token>, from: usize) -> (r: Vec<Vec<char>>)
    requires
        from <= toks@.len(),
    ensures
        r.deep_view() == rendered_args(toks_view(toks@).skip(from as int)),
{
    let ghost target = toks_view(toks@).skip(from as int);
    let mut r: Vec<Vec<char>> = Vec::new();
    let mut i: usize = from;
    while i < toks.len()
        invariant
            from <= i <= toks@.len(),
            target == toks_view(toks@).skip(from as int),
            r.deep_view() == target.take(i - from).map_values(|t: Seq<char>| flag_or_plain(t)),
        decreases toks@.len() - i,
    {
        let ghost pre = r.deep_view();
        let piece: Vec<char> = flag_or_plain_vec(&toks[i]);
        r.push(piece);
        proof {
            assert(target[i - from] == toks@[i as int]@);
            lemma_map_take_step(target, |t: Seq<char>| flag_or_plain(t), i - from);
            assert(r.deep_view() =~~= pre.push(flag_or_plain(target[i - from])));
        }
        i = i + 1;
    }
    assert(target.take(toks@.len() - from) =~= target);
    r
}

/// The display forms of the tokens from `from` on.
fn displays_vec(toks: &Vec<Token>, from: usize) -> (r: Vec<Vec<char>>)
    requires
        from <= toks@.len(),
    ensures
        r.deep_view() == toks_view(toks@).skip(from as int).map_values(
            |t: Seq<char>| tok_display(t),
        ),
{
    let ghost target = toks_view(toks@).skip(from as int);
    let mut r: Vec<Vec<char>> = Vec::new();
    let mut i: usize = from;
    while i < toks.len()
        invariant
            from <= i <= toks@.len(),
            target == toks_view(toks@).skip(from as int),
            r.deep_view() == target.take(i - from).map_values(|t: Seq<char>| tok_display(t)),
        decreases toks@.len() - i,
    {
        let ghost pre = r.deep_view();
        let piece: Vec<char> = display_vec(&toks[i]);
        r.push(piece);
        proof {
            assert(target[i - from] == toks@[i as int]@);
            lemma_map_take_step(target, |t: Seq<char>| tok_display(t), i - from);
            assert(r.deep_view() =~~= pre.push(tok_display(target[i - from])));
        }
        i = i + 1;
    }
    assert(target.take(toks@.len() - from) =~= target);
    r
}

/// The message segment of the joined display text.
fn msg_segment_vec(j: &Vec<char>) -> (r: Vec<char>)
    ensures
        r@ == msg_segment(j@),
{
    let quote: Vec<char> = vec!['"'];
    assert(quote@ =~= seq!['"']);
    let first: Option<usize> = find_from_at(j, &quote, 0);
    match first {
        None => Vec::new(),
        Some(f) => {
            let lastq: Option<usize> = rfind_char_vec(j, '"');
            match lastq {
                None => Vec::new(),
                Some(l) => {
                    if f < l {
                        proof {
                            crate::text::lemma_find_from_some(j@, seq!['"'], 0);
                            crate::text::lemma_rfind_some(j@, '"');
                        }
                        let body: Vec<char> = subvec(j, f + 1, l);
                        let rep: Vec<char> = gm_replace_chars(&body);
                        let mut r: Vec<char> = Vec::new();
                        r.push('"');
                        push_all(&mut r, &green_vec());
                        push_all(&mut r, &rep);
                        push_all(&mut r, &reset_vec());
                        let jl: usize = j.len();
                        let tail: Vec<char> = subvec(j, l, jl);
                        push_all(&mut r, &tail);
                        proof {
                            assert(tail@ =~= j@.skip(l as int));
                            assert(r@ =~= seq!['"'] + styled(
                                green_code(),
                                gm_replace(j@.subrange(f + 1, l as int)),
                            ) + j@.skip(l as int));
                        }
                        r
                    } else {
                        Vec::new()
                    }
                },
            }
        },
    }
}

/// The first message flag at or after `from`, if any.
fn find_msg_flag_vec(toks: &Vec<Token>, from: usize) -> (r: Option<usize>)
    requires
        from <= toks@.len(),
    ensures
        (match r {
            Some(m) => from <= m < toks@.len() && find_msg_flag(
                toks_view(toks@).skip(from as int),
                0,
            ) == Some(m - from),
            None => find_msg_flag(toks_view(toks@).skip(from as int), 0) is None,
        }),
{
    let ghost args = toks_view(toks@).skip(from as int);
    let mut i: usize = from;
    while i < toks.len()
        invariant
            from <= i <= toks@.len(),
            args == toks_view(toks@).skip(from as int),
            find_msg_flag(args, 0) == find_msg_flag(args, i - from),
        decreases toks@.len() - i,
    {
        let t: &Token = &toks[i];
        if chars_eq_str(&t.chars, "-m") || chars_eq_str(&t.chars, "--message") || chars_eq_str(
            &t.chars,
            "-am",
        ) {
            proof {
                assert(args[i - from] == toks@[i as int]@);
                assert(is_msg_flag(args[i - from]));
            }
            return Some(i);
        }
        proof {
            assert(args[i - from] == toks@[i as int]@);
            assert(!is_msg_flag(args[i - from]));
        }
        i = i + 1;
    }
    assert(find_msg_flag(args, i - from) is None);
    None
}

/// The commit rule over the tokens from `from` on.
fn render_commit_vec(toks: &Vec<Token>, from: usize) -> (r: Vec<char>)
    requires
        from <= toks@.len(),
    ensures
        r@ == render_commit(toks_view(toks@).skip(from as int)),
{
    let ghost args = toks_view(toks@).skip(from as int);
    let total: usize = toks.len();
    assert(toks@.len() == total);
    let found: Option<usize> = find_msg_flag_vec(toks, from);
    match found {
        None => Vec::new(),
        Some(m) => {
            let mut r: Vec<char> = blue_vec();
            push_all(&mut r, &toks[m].chars);
            push_all(&mut r, &reset_vec());
            r.push(' ');
            let shown: Vec<Vec<char>> = displays_vec(toks, m + 1);
            let space: Vec<char> = vec![' '];
            assert(space@ =~= seq![' ']);
            let joined: Vec<char> = join_with_vec(&shown, &space);
            proof {
                assert(toks_view(toks@).skip(m + 1 as int) =~= args.skip(m - from + 1));
            }
            let seg: Vec<char> = msg_segment_vec(&joined);
            push_all(&mut r, &seg);
            proof {
                assert(args[m - from] == toks@[m as int]@);
                assert(r@ =~= styled(blue_code(), args[m - from]) + seq![' '] + msg_segment(
                    join_with(
                        args.skip(m - from + 1).map_values(|t: Seq<char>| tok_display(t)),
                        seq![' '],
                    ),
                ));
            }
            r
        },
    }
}

/// The git rule over the tokens from `from` on.
fn render_git_vec(toks: &Vec<Token>, from: usize) -> (r: Vec<char>)
    requires
        from <= toks@.len(),
    ensures
        r@ == render_git(toks_view(toks@).skip(from as int)),
{
    let ghost args = toks_view(toks@).skip(from as int);
    if from >= toks.len() {
        assert(args.len() == 0);
        return Vec::new();
    }
    let sub: &Token = &toks[from];
    assert(args[0] == toks@[from as int]@);
    if chars_eq_str(&sub.chars, "commit") {
        let mut r: Vec<char> = subvec(&sub.chars, 0, sub.chars.len());
        assert(r@ =~= args[0]);
        r.push(' ');
        let rest: Vec<char> = render_commit_vec(toks, from + 1);
        push_all(&mut r, &rest);
        proof {
            assert(toks_view(toks@).skip(from + 1 as int) =~= args.skip(1));
            assert(r@ =~= args[0] + seq![' '] + render_commit(args.skip(1)));
        }
        r
    } else {
        let parts: Vec<Vec<char>> = args_vec(toks, from);
        let space: Vec<char> = vec![' '];
        assert(space@ =~= seq![' ']);
        join_with_vec(&parts, &space)
    }
}

/// One command rendered: yellow program name, then its arguments.
fn render_command_vec(toks: &Vec<Token>) -> (r: Vec<char>)
    ensures
        r@ == render_command(toks_view(toks@)),
{
    if toks.len() == 0 {
        assert(toks_view(toks@).len() == 0);
        return Vec::new();
    }
    let ghost tv = toks_view(toks@);
    let prog: &Token = &toks[0];
    assert(tv[0] == toks@[0]@);
    let mut r: Vec<char> = yellow_vec();
    push_all(&mut r, &prog.chars);
    push_all(&mut r, &reset_vec());
    r.push(' ');
    let tail: Vec<char> = if chars_eq_str(&prog.chars, "git") {
        render_git_vec(toks, 1)
    } else {
        let parts: Vec<Vec<char>> = args_vec(toks, 1);
        let space: Vec<char> = vec![' '];
        assert(space@ =~= seq![' ']);
        join_with_vec(&parts, &space)
    };
    push_all(&mut r, &tail);
    assert(r@ =~= render_command(tv));
    r
}

fn pipe_sep_vec(nl: bool) -> (r: Vec<char>)
    ensures
        r@ == pipe_sep_render(nl),
{
    let mut r: Vec<char> = gray_vec();
    r.push(' ');
    r.push('|');
    push_all(&mut r, &reset_vec());
    r.push(if nl { '\n' } else { ' ' });
    assert(r@ =~= pipe_sep_render(nl));
    r
}

fn and_sep_vec(nl: bool) -> (r: Vec<char>)
    ensures
        r@ == and_sep_render(nl),
{
    let mut r: Vec<char> = gray_vec();
    r.push(' ');
    r.push('&');
    r.push('&');
    push_all(&mut r, &reset_vec());
    r.push(if nl { '\n' } else { ' ' });
    assert(r@ =~= and_sep_render(nl));
    r
}

/// Each command of `cs` rendered, in order.
fn commands_rendered(cs: &Vec<Command>) -> (r: Vec<Vec<char>>)
    ensures
        r.deep_view() == cmds_view(cs@).map_values(|c: Seq<Seq<char>>| render_command(c)),
{
    let mut r: Vec<Vec<char>> = Vec::new();
    let mut i: usize = 0;
    while i < cs.len()
        invariant
            i <= cs@.len(),
            r.deep_view() == cmds_view(cs@).take(i as int).map_values(
                |c: Seq<Seq<char>>| render_command(c),
            ),
        decreases cs@.len() - i,
    {
        let ghost pre = r.deep_view();
        let piece: Vec<char> = render_command_vec(&cs[i].tokens);
        r.push(piece);
        proof {
            assert(cmds_view(cs@)[i as int] == cs@[i as int]@);
            lemma_map_take_step(cmds_view(cs@), |c: Seq<Seq<char>>| render_command(c), i as int);
            assert(r.deep_view() =~~= pre.push(render_command(cmds_view(cs@)[i as int])));
        }
        i = i + 1;
    }
    assert(cmds_view(cs@).take(cs@.len() as int) =~= cmds_view(cs@));
    r
}

/// One stage rendered with its separator.
fn render_stage_vec(stage: &Stage, nl: bool) -> (r: Vec<char>)
    ensures
        r@ == render_stage(stage@, nl),
{
    match stage {
        Stage::Single(c) => render_command_vec(&c.tokens),
        Stage::Pipeline(cs) => {
            let parts: Vec<Vec<char>> = commands_rendered(cs);
            let sep: Vec<char> = pipe_sep_vec(nl);
            join_with_vec(&parts, &sep)
        },
        Stage::AndChain(cs) => {
            let parts: Vec<Vec<char>> = commands_rendered(cs);
            let sep: Vec<char> = and_sep_vec(nl);
            join_with_vec(&parts, &sep)
        },
    }
}

/// Render parsed stages for display: commands styled as the rules say,
/// chain elements joined by their styled separator followed by a
/// newline or a space as `join_with_newline` says, and top-level stages
/// always joined by newlines.
pub fn render(stages: &Vec<Stage>, join_with_newline: bool) -> (r: String)
    ensures
        r@ == render_spec(crate::parser::stages_view(stages@), join_with_newline),
{
    let ghost sv = crate::parser::stages_view(stages@);
    let mut parts: Vec<Vec<char>> = Vec::new();
    let mut i: usize = 0;
    while i < stages.len()
        invariant
            i <= stages@.len(),
            sv == crate::parser::stages_view(stages@),
            parts.deep_view() == sv.take(i as int).map_values(
                |s: StageView| render_stage(s, join_with_newline),
            ),
        decreases stages@.len() - i,
    {
        let ghost pre = parts.deep_view();
        let piece: Vec<char> = render_stage_vec(&stages[i], join_with_newline);
        parts.push(piece);
        proof {
            assert(sv[i as int] == stages@[i as int]@);
            lemma_map_take_step(sv, |s: StageView| render_stage(s, join_with_newline), i as int);
            assert(parts.deep_view() =~~= pre.push(render_stage(sv[i as int], join_with_newline)));
        }
        i = i + 1;
    }
    assert(sv.take(stages@.len() as int) =~= sv);
    let nl_sep: Vec<char> = vec!['\n'];
    assert(nl_sep@ =~= seq!['\n']);
    let joined: Vec<char> = join_with_vec(&parts, &nl_sep);
    chars_to_string(&joined)
}

/// Parse `line` and render the result: the colorized preview of one
/// raw command-line string.
pub fn parse_command(line: &str, new_lines: bool) -> (r: String)
    ensures
        r@ == render_spec(parse_spec(line@), new_lines),
{
    let stages: Vec<Stage> = parse(line);
    render(&stages, new_lines)
}

/// Render ready-made commands (token texts, quotes already stripped) as
/// one AND-chain: each command colorized, joined by the styled `&&`
/// separator.
pub fn parse_commands(commands: &Vec<Vec<String>>, new_lines: bool) -> (r: String)
    ensures
        r@ == join_with(
            commands.deep_view().map_values(|c: Seq<Seq<char>>| render_command(c)),
            and_sep_render(new_lines),
        ),
{
    let ghost cv = commands.deep_view();
    let mut parts: Vec<Vec<char>> = Vec::new();
    let mut i: usize = 0;
    while i < commands.len()
        invariant
            i <= commands@.len(),
            cv == commands.deep_view(),
            cv.len() == commands@.len(),
            parts.deep_view() == cv.take(i as int).map_values(
                |c: Seq<Seq<char>>| render_command(c),
            ),
        decreases commands@.len() - i,
    {
        let ghost pre = parts.deep_view();
        let words: &Vec<String> = &commands[i];
        let mut toks: Vec<Token> = Vec::new();
        let mut k: usize = 0;
        while k < words.len()
            invariant
                k <= words@.len(),
                toks_view(toks@) == words.deep_view().take(k as int),
            decreases words@.len() - k,
        {
            let ghost tpre = toks_view(toks@);
            toks.push(Token::from_text(words[k].as_str()));
            proof {
                assert(words.deep_view()[k as int] == words@[k as int]@);
                assert(toks_view(toks@) =~= tpre.push(words@[k as int]@));
                assert(words.deep_view().take(k + 1 as int) =~= words.deep_view().take(
                    k as int,
                ).push(words.deep_view()[k as int]));
            }
            k = k + 1;
        }
        assert(words.deep_view().take(words@.len() as int) =~= words.deep_view());
        let piece: Vec<char> = render_command_vec(&toks);
        parts.push(piece);
        proof {
            assert(cv[i as int] =~= words.deep_view());
            lemma_map_take_step(cv, |c: Seq<Seq<char>>| render_command(c), i as int);
            assert(parts.deep_view() =~~= pre.push(render_command(cv[i as int])));
        }
        i = i + 1;
    }
    assert(cv.take(commands@.len() as int) =~= cv);
    let sep: Vec<char> = and_sep_vec(new_lines);
    let joined: Vec<char> = join_with_vec(&parts, &sep);
    chars_to_string(&joined)
}

} // verus!
