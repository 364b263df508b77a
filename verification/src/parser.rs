//! The command-line parser: a quote-aware lexer that splits a statement
//! into tokens, and a classifier that turns each input line into a
//! `Stage` — a single command, a pipeline, or an AND-chain.

use vstd::prelude::*;

use crate::text::{
    chars_to_string, contains_sub, is_space, is_space_char, join_with, split_on, split_on_vec,
    str_to_chars, trim, trim_vec,
};

verus! {

/// One whitespace-delimited unit of a command line; a double-quoted span
/// is one token even if it contains spaces, with the quotes stripped.
pub struct Token {
    pub chars: Vec<char>,
}

impl View for Token {
    type V = Seq<char>;

    open spec fn view(&self) -> Seq<char> {
        self.chars@
    }
}

impl Token {
    /// The token's characters as a `String`.
    pub fn text(&self) -> (r: String)
        ensures
            r@ == self@,
    {
        chars_to_string(&self.chars)
    }

    /// A token holding the characters of `s`.
    pub fn from_text(s: &str) -> (r: Token)
        ensures
            r@ == s@,
    {
        Token { chars: str_to_chars(s) }
    }
}

/// A program name followed by its arguments: a non-empty token sequence.
pub struct Command {
    pub tokens: Vec<Token>,
}

/// The views of a sequence of tokens.
pub open spec fn toks_view(ts: Seq<Token>) -> Seq<Seq<char>> {
    ts.map_values(|t: Token| t@)
}

impl View for Command {
    type V = Seq<Seq<char>>;

    open spec fn view(&self) -> Seq<Seq<char>> {
        toks_view(self.tokens@)
    }
}

impl Command {
    /// A well-formed command has at least its program-name token.
    pub open spec fn wf(&self) -> bool {
        self@.len() >= 1
    }

    /// The token texts, in order: the program name, then its arguments.
    pub fn strings(&self) -> (r: Vec<String>)
        ensures
            r@.map_values(|s: String| s@) == self@,
    {
        let mut r: Vec<String> = Vec::new();
        let mut i: usize = 0;
        while i < self.tokens.len()
            invariant
                i <= self.tokens@.len(),
                r@.map_values(|s: String| s@) == self@.take(i as int),
            decreases self.tokens@.len() - i,
        {
            let ghost pre = r@;
            r.push(self.tokens[i].text());
            proof {
                assert(r@ =~= pre.push(r@[pre.len() as int]));
                assert(r@.map_values(|s: String| s@) =~= pre.map_values(|s: String| s@).push(
                    self@[i as int],
                ));
                assert(self@.take(i + 1 as int) =~= self@.take(i as int).push(self@[i as int]));
            }
            i = i + 1;
        }
        assert(self@.take(self.tokens@.len() as int) =~= self@);
        r
    }
}

/// One parsed unit of execution or rendering.
pub enum Stage {
    /// One command.
    Single(Command),
    /// Two or more commands, the standard output of each feeding the next.
    Pipeline(Vec<Command>),
    /// Two or more commands run in order, each gated on the previous
    /// one's success.
    AndChain(Vec<Command>),
}

/// The mathematical shape of a `Stage`: token character sequences only.
pub ghost enum StageView {
    Single(Seq<Seq<char>>),
    Pipeline(Seq<Seq<Seq<char>>>),
    AndChain(Seq<Seq<Seq<char>>>),
}

/// The views of a sequence of commands.
pub open spec fn cmds_view(cs: Seq<Command>) -> Seq<Seq<Seq<char>>> {
    cs.map_values(|c: Command| c@)
}

impl View for Stage {
    type V = StageView;

    open spec fn view(&self) -> StageView {
        match self {
            Stage::Single(c) => StageView::Single(c@),
            Stage::Pipeline(cs) => StageView::Pipeline(cmds_view(cs@)),
            Stage::AndChain(cs) => StageView::AndChain(cmds_view(cs@)),
        }
    }
}

impl Stage {
    /// Chains have at least two elements and every command is non-empty.
    pub open spec fn wf(&self) -> bool {
        match self {
            Stage::Single(c) => c.wf(),
            Stage::Pipeline(cs) => cs@.len() >= 2 && forall|i: int|
                0 <= i < cs@.len() ==> cs@[i].wf(),
            Stage::AndChain(cs) => cs@.len() >= 2 && forall|i: int|
                0 <= i < cs@.len() ==> cs@[i].wf(),
        }
    }
}

/// The lexer's state: finished tokens, the token being built, whether a
/// token is in progress, and whether a quoted span is open.
pub ghost struct LexState {
    pub toks: Seq<Seq<char>>,
    pub cur: Seq<char>,
    pub started: bool,
    pub in_quote: bool,
}

/// The state before any character is read.
pub open spec fn lex_init() -> LexState {
    LexState { toks: Seq::empty(), cur: Seq::empty(), started: false, in_quote: false }
}

/// One lexer step: inside quotes everything but the closing quote is
/// token content; outside, a quote opens a span, whitespace ends the
/// current token, and any other character extends it.
pub open spec fn lex_push(st: LexState, c: char) -> LexState {
    if st.in_quote {
        if c == '"' {
            LexState { in_quote: false, ..st }
        } else {
            LexState { cur: st.cur.push(c), ..st }
        }
    } else if c == '"' {
        LexState { in_quote: true, started: true, ..st }
    } else if is_space_char(c) {
        if st.started {
            LexState { toks: st.toks.push(st.cur), cur: Seq::empty(), started: false, ..st }
        } else {
            st
        }
    } else {
        LexState { cur: st.cur.push(c), started: true, ..st }
    }
}

/// The lexer run over `s` starting from `st`.
pub open spec fn lex_from(st: LexState, s: Seq<char>) -> LexState
    decreases s.len(),
{
    if s.len() == 0 {
        st
    } else {
        lex_from(lex_push(st, s[0]), s.drop_first())
    }
}

/// The final token list: an in-progress token is emitted, so an
/// unterminated quote lazily takes the rest of the line.
pub open spec fn lex_finish(st: LexState) -> Seq<Seq<char>> {
    if st.started {
        st.toks.push(st.cur)
    } else {
        st.toks
    }
}

/// The tokens of one statement.
pub open spec fn tokenize_spec(s: Seq<char>) -> Seq<Seq<char>> {
    lex_finish(lex_from(lex_init(), s))
}

/// Split `statement` into tokens: runs of non-whitespace, except that a
/// double-quoted span is kept as one token with its quotes stripped.
pub fn tokenize(statement: &str) -> (r: Vec<Token>)
    ensures
        toks_view(r@) == tokenize_spec(statement@),
{
    let s: Vec<char> = str_to_chars(statement);
    tokenize_chars(&s)
}

/// `tokenize`, starting from the characters of the statement.
pub fn tokenize_chars(s: &Vec<char>) -> (r: Vec<Token>)
    ensures
        toks_view(r@) == tokenize_spec(s@),
{
    let mut toks: Vec<Token> = Vec::new();
    let mut cur: Vec<char> = Vec::new();
    let mut started: bool = false;
    let mut in_quote: bool = false;
    let mut i: usize = 0;
    proof {
        assert(s@.skip(0) =~= s@);
        assert(toks_view(toks@) =~= Seq::<Seq<char>>::empty());
        assert((LexState { toks: toks_view(toks@), cur: cur@, started, in_quote }) == lex_init());
    }
    while i < s.len()
        invariant
            i <= s@.len(),
            lex_from(lex_init(), s@) == lex_from(
                (LexState { toks: toks_view(toks@), cur: cur@, started, in_quote }),
                s@.skip(i as int),
            ),
        decreases s@.len() - i,
    {
        let ghost pre = LexState { toks: toks_view(toks@), cur: cur@, started, in_quote };
        let c: char = s[i];
        if in_quote {
            if c == '"' {
                in_quote = false;
            } else {
                cur.push(c);
            }
        } else if c == '"' {
            in_quote = true;
            started = true;
        } else if is_space(c) {
            if started {
                let done: Vec<char> = cur;
                toks.push(Token { chars: done });
                cur = Vec::new();
                started = false;
            }
        } else {
            cur.push(c);
            started = true;
        }
        proof {
            let post = LexState { toks: toks_view(toks@), cur: cur@, started, in_quote };
            assert(toks_view(toks@) =~= post.toks);
            if !pre.in_quote && !(c == '"') && is_space_char(c) && pre.started {
                assert(toks_view(toks@) =~= pre.toks.push(pre.cur));
            }
            assert(post == lex_push(pre, s@[i as int]));
            assert(s@.skip(i as int).drop_first() =~= s@.skip(i + 1 as int));
            assert(s@.skip(i as int)[0] == s@[i as int]);
        }
        i = i + 1;
    }
    assert(s@.skip(s@.len() as int) =~= Seq::<char>::empty());
    if started {
        let ghost pre_toks = toks_view(toks@);
        toks.push(Token { chars: cur });
        assert(toks_view(toks@) =~= pre_toks.push(cur@));
    }
    toks
}

/// The maximal non-whitespace runs of `s`, in order: its words.
pub open spec fn split_ws(s: Seq<char>) -> Seq<Seq<char>>
    decreases s.len(),
{
    if s.len() == 0 {
        Seq::empty()
    } else if is_space_char(s[0]) {
        split_ws(s.drop_first())
    } else {
        let rest = split_ws(s.drop_first());
        if s.len() > 1 && !is_space_char(s[1]) {
            seq![seq![s[0]] + rest[0]] + rest.skip(1)
        } else {
            seq![seq![s[0]]] + rest
        }
    }
}

/// The whitespace-normalized form of `s`: its words joined by single
/// spaces.
pub open spec fn normalize_ws(s: Seq<char>) -> Seq<char> {
    join_with(split_ws(s), seq![' '])
}

/// On quote-free input, running the lexer from a quiescent state tacks
/// the words of the rest of the input onto what the state already holds,
/// merging the first word into an in-progress token.
proof fn lemma_lex_words(st: LexState, s: Seq<char>)
    requires
        !st.in_quote,
        !st.started ==> st.cur.len() == 0,
        forall|i: int| 0 <= i < s.len() ==> s[i] != '"',
    ensures
        lex_finish(lex_from(st, s)) == if !st.started {
            st.toks + split_ws(s)
        } else if s.len() > 0 && !is_space_char(s[0]) {
            st.toks + seq![st.cur + split_ws(s)[0]] + split_ws(s).skip(1)
        } else {
            st.toks + seq![st.cur] + split_ws(s)
        },
    decreases s.len(),
{
    if s.len() == 0 {
        if st.started {
            assert(lex_finish(st) =~= st.toks + seq![st.cur]);
        } else {
            assert(st.toks + split_ws(s) =~= st.toks);
        }
    } else {
        let c = s[0];
        let d = s.drop_first();
        assert(forall|i: int| 0 <= i < d.len() ==> d[i] != '"') by {
            assert(forall|i: int| 0 <= i < d.len() ==> d[i] == s[1 + i]);
        }
        let st2 = lex_push(st, c);
        lemma_lex_words(st2, d);
        if is_space_char(c) {
            assert(split_ws(s) == split_ws(d));
            if st.started {
                assert(st2.toks =~= st.toks.push(st.cur));
                assert(st.toks.push(st.cur) + split_ws(d) =~= st.toks + seq![st.cur] + split_ws(
                    d,
                ));
            }
        } else {
            assert(st2.started && st2.toks == st.toks && st2.cur == st.cur.push(c));
            if d.len() > 0 && !is_space_char(d[0]) {
                assert(d[0] == s[1]);
                assert(split_ws(s) == seq![seq![c] + split_ws(d)[0]] + split_ws(d).skip(1));
                assert(st2.cur + split_ws(d)[0] =~= st.cur + (seq![c] + split_ws(d)[0]));
                assert(st2.cur + split_ws(d)[0] =~= st.cur + split_ws(s)[0]);
                assert(split_ws(s).skip(1) =~= split_ws(d).skip(1));
                if st.started {
                    assert(st.toks + seq![st2.cur + split_ws(d)[0]] + split_ws(d).skip(1) =~= st.toks
                        + seq![st.cur + split_ws(s)[0]] + split_ws(s).skip(1));
                } else {
                    assert(st.cur + split_ws(s)[0] =~= split_ws(s)[0]);
                    assert(st.toks + seq![st2.cur + split_ws(d)[0]] + split_ws(d).skip(1) =~= st.toks
                        + split_ws(s));
                }
            } else {
                assert(split_ws(s) == seq![seq![c]] + split_ws(d));
                assert(st2.cur =~= st.cur + seq![c]);
                if st.started {
                    assert(split_ws(s)[0] =~= seq![c]);
                    assert(st.cur + split_ws(s)[0] =~= st2.cur);
                    assert(split_ws(s).skip(1) =~= split_ws(d));
                } else {
                    assert(st2.cur =~= seq![c]);
                    assert(st.toks + seq![seq![c]] + split_ws(d) =~= st.toks + split_ws(s));
                }
            }
        }
    }
}

/// Tokenizing a line with no double quote yields exactly its words, so
/// the tokens, space-joined, are the whitespace-normalized line.
pub proof fn lemma_tokenize_round_trip(s: Seq<char>)
    requires
        forall|i: int| 0 <= i < s.len() ==> s[i] != '"',
    ensures
        tokenize_spec(s) == split_ws(s),
        join_with(tokenize_spec(s), seq![' ']) == normalize_ws(s),
{
    lemma_lex_words(lex_init(), s);
    assert(Seq::<Seq<char>>::empty() + split_ws(s) =~= split_ws(s));
}

/// The literal pipe separator, a space on each side.
pub open spec fn pipe_sep() -> Seq<char> {
    seq![' ', '|', ' ']
}

/// The literal AND separator, a space on each side.
pub open spec fn and_sep() -> Seq<char> {
    seq![' ', '&', '&', ' ']
}

/// The non-empty commands of the segments of one statement, in order:
/// each segment is tokenized, and segments with no token are dropped.
pub open spec fn cmds_of_segments(segs: Seq<Seq<char>>) -> Seq<Seq<Seq<char>>>
    decreases segs.len(),
{
    if segs.len() == 0 {
        Seq::empty()
    } else {
        let t = tokenize_spec(segs[0]);
        let rest = cmds_of_segments(segs.drop_first());
        if t.len() >= 1 {
            seq![t] + rest
        } else {
            rest
        }
    }
}

/// How one trimmed, non-empty line is classified: a line containing
/// `" | "` is a pipeline, else one containing `" && "` is an AND-chain,
/// else a single command. A chain left with one command degrades to
/// `Single`, and a line with no token yields no stage.
pub open spec fn classify_spec(line: Seq<char>) -> Option<StageView> {
    if contains_sub(line, pipe_sep()) {
        let cmds = cmds_of_segments(split_on(line, pipe_sep()));
        if cmds.len() >= 2 {
            Some(StageView::Pipeline(cmds))
        } else if cmds.len() == 1 {
            Some(StageView::Single(cmds[0]))
        } else {
            None
        }
    } else if contains_sub(line, and_sep()) {
        let cmds = cmds_of_segments(split_on(line, and_sep()));
        if cmds.len() >= 2 {
            Some(StageView::AndChain(cmds))
        } else if cmds.len() == 1 {
            Some(StageView::Single(cmds[0]))
        } else {
            None
        }
    } else {
        let t = tokenize_spec(line);
        if t.len() >= 1 {
            Some(StageView::Single(t))
        } else {
            None
        }
    }
}

/// The stages of a sequence of raw lines: each line is trimmed, empty
/// lines are dropped, and the rest are classified in order.
pub open spec fn stages_of_lines(lines: Seq<Seq<char>>) -> Seq<StageView>
    decreases lines.len(),
{
    if lines.len() == 0 {
        Seq::empty()
    } else {
        let t = trim(lines[0]);
        let rest = stages_of_lines(lines.drop_first());
        if t.len() == 0 {
            rest
        } else {
            match classify_spec(t) {
                Some(sv) => seq![sv] + rest,
                None => rest,
            }
        }
    }
}

/// The stages of a whole input: its newline-separated lines, classified.
pub open spec fn parse_spec(s: Seq<char>) -> Seq<StageView> {
    stages_of_lines(split_on(s, seq!['\n']))
}

/// The views of a sequence of stages.
pub open spec fn stages_view(ss: Seq<Stage>) -> Seq<StageView> {
    ss.map_values(|st: Stage| st@)
}

/// Tokenize each segment, dropping segments with no token.
fn commands_of_segments(segs: &Vec<Vec<char>>) -> (r: Vec<Command>)
    ensures
        cmds_view(r@) == cmds_of_segments(segs.deep_view()),
        forall|i: int| 0 <= i < r@.len() ==> r@[i].wf(),
{
    let mut r: Vec<Command> = Vec::new();
    let mut i: usize = 0;
    assert(segs.deep_view().skip(0) =~= segs.deep_view());
    while i < segs.len()
        invariant
            i <= segs@.len(),
            segs.deep_view().len() == segs@.len(),
            cmds_of_segments(segs.deep_view()) == cmds_view(r@) + cmds_of_segments(
                segs.deep_view().skip(i as int),
            ),
            forall|k: int| 0 <= k < r@.len() ==> r@[k].wf(),
        decreases segs@.len() - i,
    {
        let ghost pre = cmds_view(r@);
        let ghost segv = segs.deep_view().skip(i as int);
        let toks: Vec<Token> = tokenize_chars(&segs[i]);
        proof {
            assert(segs.deep_view()[i as int] == segs@[i as int]@);
            assert(segv[0] == segs.deep_view()[i as int]);
            assert(segv.drop_first() =~= segs.deep_view().skip(i + 1 as int));
        }
        if toks.len() >= 1 {
            let c = Command { tokens: toks };
            assert(c@.len() >= 1);
            r.push(c);
            proof {
                assert(cmds_view(r@) =~= pre.push(r@[pre.len() as int]@));
                assert(cmds_view(r@) =~= pre + seq![tokenize_spec(segv[0])]);
            }
        }
        i = i + 1;
    }
    assert(segs.deep_view().skip(segs@.len() as int) =~= Seq::<Seq<char>>::empty());
    r
}

/// Classify one trimmed line, if it holds any token.
fn classify(line: &Vec<char>) -> (r: Option<Stage>)
    ensures
        (match r {
            Some(st) => classify_spec(line@) == Some(st@) && st.wf(),
            None => classify_spec(line@) is None,
        }),
{
    let pipe: Vec<char> = vec![' ', '|', ' '];
    let and: Vec<char> = vec![' ', '&', '&', ' '];
    assert(pipe@ =~= pipe_sep());
    assert(and@ =~= and_sep());
    if crate::text::find_from_at(line, &pipe, 0).is_some() {
        let segs: Vec<Vec<char>> = split_on_vec(line, &pipe);
        let cmds: Vec<Command> = commands_of_segments(&segs);
        if cmds.len() >= 2 {
            let st = Stage::Pipeline(cmds);
            Some(st)
        } else if cmds.len() == 1 {
            let mut cmds = cmds;
            let c = cmds.pop().unwrap();
            assert(c@ == cmds_of_segments(split_on(line@, pipe_sep()))[0]);
            Some(Stage::Single(c))
        } else {
            None
        }
    } else if crate::text::find_from_at(line, &and, 0).is_some() {
        let segs: Vec<Vec<char>> = split_on_vec(line, &and);
        let cmds: Vec<Command> = commands_of_segments(&segs);
        if cmds.len() >= 2 {
            let st = Stage::AndChain(cmds);
            Some(st)
        } else if cmds.len() == 1 {
            let mut cmds = cmds;
            let c = cmds.pop().unwrap();
            assert(c@ == cmds_of_segments(split_on(line@, and_sep()))[0]);
            Some(Stage::Single(c))
        } else {
            None
        }
    } else {
        let toks: Vec<Token> = tokenize_chars(line);
        if toks.len() >= 1 {
            let c = Command { tokens: toks };
            assert(c@.len() >= 1);
            Some(Stage::Single(c))
        } else {
            None
        }
    }
}

/// Parse a whole input: split on newlines, trim each line, drop empty
/// lines, and classify each remaining line in order.
pub fn parse(line: &str) -> (r: Vec<Stage>)
    ensures
        stages_view(r@) == parse_spec(line@),
        forall|i: int| 0 <= i < r@.len() ==> r@[i].wf(),
{
    let s: Vec<char> = str_to_chars(line);
    let nl: Vec<char> = vec!['\n'];
    assert(nl@ =~= seq!['\n']);
    let lines: Vec<Vec<char>> = split_on_vec(&s, &nl);
    let mut r: Vec<Stage> = Vec::new();
    let mut i: usize = 0;
    assert(lines.deep_view().skip(0) =~= lines.deep_view());
    while i < lines.len()
        invariant
            i <= lines@.len(),
            lines.deep_view().len() == lines@.len(),
            parse_spec(line@) == stages_view(r@) + stages_of_lines(
                lines.deep_view().skip(i as int),
            ),
            forall|k: int| 0 <= k < r@.len() ==> r@[k].wf(),
        decreases lines@.len() - i,
    {
        let ghost pre = stages_view(r@);
        let ghost lv = lines.deep_view().skip(i as int);
        let t: Vec<char> = trim_vec(&lines[i]);
        proof {
            assert(lines.deep_view()[i as int] == lines@[i as int]@);
            assert(lv[0] == lines.deep_view()[i as int]);
            assert(lv.drop_first() =~= lines.deep_view().skip(i + 1 as int));
        }
        if t.len() > 0 {
            let st: Option<Stage> = classify(&t);
            match st {
                Some(stage) => {
                    r.push(stage);
                    proof {
                        assert(stages_view(r@) =~= pre.push(r@[pre.len() as int]@));
                        assert(stages_view(r@) =~= pre + seq![r@[pre.len() as int]@]);
                    }
                },
                None => {},
            }
        }
        i = i + 1;
    }
    assert(lines.deep_view().skip(lines@.len() as int) =~= Seq::<Seq<char>>::empty());
    r
}

} // verus!
