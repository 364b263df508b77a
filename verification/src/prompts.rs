//! Prompt assembly for the text-generation service: the fixed
//! instruction list, the initial system message, and the query bodies
//! built from repository status, diff and file contents.

use vstd::prelude::*;

use crate::text::{chars_to_string, join_with, join_with_vec, push_all, str_to_chars, subvec};

verus! {

/// The fixed commit-writing instructions, in order.
pub open spec fn params_spec() -> Seq<Seq<char>> {
    seq![
        "You write an informative commit message."@,
        "You write a commit subject and body, separated with a new line."@,
        "You just reply with 2 lines in total."@,
        "Subject line should include One Gitmoji, A Short Summary, using imperative, start with upper case, doesn't end with a period and should not be longer than 50 characters"@,
        "1. Limit the subject line to 50 characters"@,
        "2. Use one Gitmoji at the start of the subject line"@,
        "3. Use imperative in the subject line"@,
        "4. Wrap the body at 72 characters"@,
        "5. Use the body to explain what and why vs. how"@,
        "6. Do not use markdown headings"@,
    ]
}

/// The fixed README instruction list.
pub open spec fn readme_params_spec() -> Seq<Seq<char>> {
    seq!["create a readme based on the content of the given info"@]
}

/// The commit-writing instructions.
pub fn get_params() -> (r: Vec<String>)
    ensures
        r@.map_values(|s: String| s@) == params_spec(),
{
    let mut r: Vec<String> = Vec::new();
    r.push("You write an informative commit message.".to_owned());
    r.push("You write a commit subject and body, separated with a new line.".to_owned());
    r.push("You just reply with 2 lines in total.".to_owned());
    r.push(
        "Subject line should include One Gitmoji, A Short Summary, using imperative, start with upper case, doesn't end with a period and should not be longer than 50 characters".to_owned(),
    );
    r.push("1. Limit the subject line to 50 characters".to_owned());
    r.push("2. Use one Gitmoji at the start of the subject line".to_owned());
    r.push("3. Use imperative in the subject line".to_owned());
    r.push("4. Wrap the body at 72 characters".to_owned());
    r.push("5. Use the body to explain what and why vs. how".to_owned());
    r.push("6. Do not use markdown headings".to_owned());
    assert(r@.map_values(|s: String| s@) =~= params_spec());
    r
}

/// The README instructions.
pub fn get_readme_params() -> (r: Vec<String>)
    ensures
        r@.map_values(|s: String| s@) == readme_params_spec(),
{
    let mut r: Vec<String> = Vec::new();
    r.push("create a readme based on the content of the given info".to_owned());
    assert(r@.map_values(|s: String| s@) =~= readme_params_spec());
    r
}

/// The opening message handed to the service: the system information,
/// then the newline-joined instructions.
pub open spec fn initial_message_spec(os_info: Seq<char>) -> Seq<char> {
    "# The system information:\n"@ + os_info + "\n\n# Your instructions:\n"@ + join_with(
        params_spec(),
        seq!['\n'],
    )
}

/// Build the opening message around the given system information.
pub fn build_initial_message(os_info: &str) -> (r: String)
    ensures
        r@ == initial_message_spec(os_info@),
{
    let params: Vec<String> = get_params();
    let mut parts: Vec<Vec<char>> = Vec::new();
    let mut i: usize = 0;
    let ghost pv = params@.map_values(|s: String| s@);
    while i < params.len()
        invariant
            i <= params@.len(),
            pv == params@.map_values(|s: String| s@),
            pv.len() == params@.len(),
            parts.deep_view() == pv.take(i as int),
        decreases params@.len() - i,
    {
        let ghost pre = parts.deep_view();
        parts.push(str_to_chars(params[i].as_str()));
        proof {
            assert(pv[i as int] == params@[i as int]@);
            assert(parts.deep_view() =~~= pre.push(pv[i as int]));
            assert(pv.take(i + 1 as int) =~= pv.take(i as int).push(pv[i as int]));
        }
        i = i + 1;
    }
    assert(pv.take(params@.len() as int) =~= pv);
    let nl: Vec<char> = vec!['\n'];
    assert(nl@ =~= seq!['\n']);
    let joined: Vec<char> = join_with_vec(&parts, &nl);
    let mut out: Vec<char> = Vec::new();
    push_all(&mut out, &str_to_chars("# The system information:\n"));
    push_all(&mut out, &str_to_chars(os_info));
    push_all(&mut out, &str_to_chars("\n\n# Your instructions:\n"));
    push_all(&mut out, &joined);
    assert(out@ =~= initial_message_spec(os_info@));
    chars_to_string(&out)
}

/// The commit query body: the repository status, then the diff.
pub open spec fn query_spec(status: Seq<char>, diff: Seq<char>) -> Seq<char> {
    "# Git-Status:\n"@ + status + "\n\n# Git-Diffs, everything from here is the diff:\n"@ + diff
}

/// Build the commit query body from status and diff text.
pub fn build_query(status: &str, diff: &str) -> (r: String)
    ensures
        r@ == query_spec(status@, diff@),
{
    let mut out: Vec<char> = Vec::new();
    push_all(&mut out, &str_to_chars("# Git-Status:\n"));
    push_all(&mut out, &str_to_chars(status));
    push_all(&mut out, &str_to_chars("\n\n# Git-Diffs, everything from here is the diff:\n"));
    push_all(&mut out, &str_to_chars(diff));
    assert(out@ =~= query_spec(status@, diff@));
    chars_to_string(&out)
}

/// How many characters of the file contents fit beside the preamble:
/// the whole budget less the preamble, and none when the preamble
/// exceeds it.
pub open spec fn readme_budget(main_len: nat) -> nat {
    if main_len >= 4096 {
        0
    } else {
        (4096 - main_len) as nat
    }
}

/// The README query body: remote origin, the README instructions, and
/// the file contents truncated to the budget.
pub open spec fn readme_query_spec(origin: Seq<char>, contents: Seq<char>) -> Seq<char> {
    let main = origin + "\n\n"@ + join_with(readme_params_spec(), seq!['\n']) + "\n\n"@;
    let budget = readme_budget(main.len());
    let body = if contents.len() > budget {
        contents.take(budget as int)
    } else {
        contents
    };
    main + "\n\n"@ + body
}

/// Build the README query body from the remote origin and the gathered
/// file contents.
pub fn build_readme_query(origin: &str, contents: &str) -> (r: String)
    ensures
        r@ == readme_query_spec(origin@, contents@),
{
    let mut main: Vec<char> = Vec::new();
    push_all(&mut main, &str_to_chars(origin));
    push_all(&mut main, &str_to_chars("\n\n"));
    push_all(&mut main, &str_to_chars("create a readme based on the content of the given info"));
    push_all(&mut main, &str_to_chars("\n\n"));
    proof {
        assert(join_with(readme_params_spec(), seq!['\n'])
            == "create a readme based on the content of the given info"@);
        assert(main@ =~= origin@ + "\n\n"@ + join_with(readme_params_spec(), seq!['\n'])
            + "\n\n"@);
    }
    let body_all: Vec<char> = str_to_chars(contents);
    let budget: usize = if main.len() >= 4096 {
        0
    } else {
        4096 - main.len()
    };
    assert(budget == readme_budget(main@.len()));
    let body: Vec<char> = if body_all.len() > budget {
        let cut: Vec<char> = subvec(&body_all, 0, budget);
        assert(cut@ =~= contents@.take(budget as int));
        cut
    } else {
        body_all
    };
    let mut out: Vec<char> = Vec::new();
    push_all(&mut out, &main);
    push_all(&mut out, &str_to_chars("\n\n"));
    push_all(&mut out, &body);
    assert(out@ =~= readme_query_spec(origin@, contents@));
    chars_to_string(&out)
}

} // verus!
