//! What holds of every argument vector, whatever the parameters.

use vstd::prelude::*;
use crate::command::{bare_value, flag_with_value, numeral, path_tokens, repo_args, switch};
use crate::params::{
    CommitParamsView, DiffParamsView, GitCloneParamsView, LogParamsView, NewParamsView,
    RebaseParamsView, StatusParamsView, ToolParamsView,
};
use crate::registry::ToolKind;
use crate::text::{decimal, is_digit, lemma_decimal_is_digits};

verus! {

impl ToolParamsView {
    /// The repository path given with the parameters. A clone has none: it
    /// runs before a repository exists.
    pub open spec fn repo_path(self) -> Option<Seq<char>> {
        match self {
            ToolParamsView::Status(p) => p.repo_path,
            ToolParamsView::Rebase(p) => p.repo_path,
            ToolParamsView::Commit(p) => p.repo_path,
            ToolParamsView::New(p) => p.repo_path,
            ToolParamsView::Log(p) => p.repo_path,
            ToolParamsView::Diff(p) => p.repo_path,
            ToolParamsView::GitClone(_) => None,
        }
    }

    /// The same parameters with no repository path.
    pub open spec fn without_repo_path(self) -> ToolParamsView {
        match self {
            ToolParamsView::Status(p) => ToolParamsView::Status(
                StatusParamsView { repo_path: None, ..p },
            ),
            ToolParamsView::Rebase(p) => ToolParamsView::Rebase(
                RebaseParamsView { repo_path: None, ..p },
            ),
            ToolParamsView::Commit(p) => ToolParamsView::Commit(
                CommitParamsView { repo_path: None, ..p },
            ),
            ToolParamsView::New(p) => ToolParamsView::New(NewParamsView { repo_path: None, ..p }),
            ToolParamsView::Log(p) => ToolParamsView::Log(LogParamsView { repo_path: None, ..p }),
            ToolParamsView::Diff(p) => ToolParamsView::Diff(
                DiffParamsView { repo_path: None, ..p },
            ),
            ToolParamsView::GitClone(_) => self,
        }
    }
}

/// A repository path adds exactly two tokens, `-R` and the path, and they
/// are the last of the argument vector. Only a clone takes no such path.
pub proof fn lemma_repo_args_come_last(params: ToolParamsView, path: Seq<char>)
    requires
        params.repo_path() == Some(path),
    ensures
        params.kind() != ToolKind::GitClone,
        params.args() == params.without_repo_path().args() + seq!["-R"@, path],
        params.args().len() == params.without_repo_path().args().len() + 2,
        params.args()[params.args().len() - 2] == "-R"@,
        params.args()[params.args().len() - 1] == path,
{
}

/// The paths of a diff appear in the order given, in one run, after the
/// subcommand and all the flag options and before the repository path.
pub proof fn lemma_diff_paths_keep_order(params: DiffParamsView, paths: Seq<Seq<char>>)
    requires
        params.paths == Some(paths),
    ensures
        ({
            let args = params.args();
            let start = params.options().len() as int;
            let end = start + paths.len();
            &&& end <= args.len()
            &&& args.subrange(0, start) == params.options()
            &&& args.subrange(start, end) == paths
            &&& args.subrange(end, args.len() as int) == repo_args(params.repo_path)
        }),
{
}

impl DiffParamsView {
    /// The tokens that the caller words freely: the revisions, the paths and
    /// the repository path.
    pub open spec fn free_text(self) -> Seq<Seq<char>> {
        bare_value(self.from) + bare_value(self.to) + path_tokens(self.paths) + bare_value(
            self.repo_path,
        )
    }
}

impl GitCloneParamsView {
    /// The tokens that the caller words freely: the source, the destination
    /// and the name of the remote.
    pub open spec fn free_text(self) -> Seq<Seq<char>> {
        bare_value(self.source) + bare_value(self.destination) + bare_value(self.remote)
    }
}

/// `--summary` is one token that takes no value: setting the field to true
/// puts that token in after the options that take a value, and changes
/// nothing else; false and absent put in nothing.
pub proof fn lemma_summary_is_one_token(params: DiffParamsView)
    ensures
        ({
            let unset = DiffParamsView { summary: None, ..params };
            let at = params.valued_options().len() as int;
            params.args() == if params.summary == Some(true) {
                unset.args().insert(at, "--summary"@)
            } else {
                unset.args()
            }
        }),
{
}

/// `--summary` is among the arguments if and only if the field is exactly
/// true, as long as the caller words no value of its own as `--summary`.
pub proof fn lemma_summary_appears_iff_true(params: DiffParamsView)
    requires
        !params.free_text().contains("--summary"@),
    ensures
        params.args().contains("--summary"@) <==> params.summary == Some(true),
{
    let flag = "--summary"@;
    lemma_flag_texts();
    lemma_diff_args_hold(params, flag);
    lemma_numeral_is_no_flag(params.context, flag);
}

/// `--stat` is one token that takes no value: setting the field to true
/// puts that token in after `--summary`, or where that would stand, and
/// changes nothing else; false and absent put in nothing.
pub proof fn lemma_stat_is_one_token(params: DiffParamsView)
    ensures
        ({
            let unset = DiffParamsView { stat: None, ..params };
            let at = (params.valued_options() + switch("--summary"@, params.summary)).len() as int;
            params.args() == if params.stat == Some(true) {
                unset.args().insert(at, "--stat"@)
            } else {
                unset.args()
            }
        }),
{
}

/// `--stat` is among the arguments if and only if the field is exactly
/// true, as long as the caller words no value of its own as `--stat`.
pub proof fn lemma_stat_appears_iff_true(params: DiffParamsView)
    requires
        !params.free_text().contains("--stat"@),
    ensures
        params.args().contains("--stat"@) <==> params.stat == Some(true),
{
    let flag = "--stat"@;
    lemma_flag_texts();
    lemma_diff_args_hold(params, flag);
    lemma_numeral_is_no_flag(params.context, flag);
}

/// `--colocate` is one token that takes no value: setting the field to true
/// puts that token in after the source and the destination, and changes
/// nothing else; false and absent put in nothing.
pub proof fn lemma_colocate_is_one_token(params: GitCloneParamsView)
    ensures
        ({
            let unset = GitCloneParamsView { colocate: None, ..params };
            let at = params.positionals().len() as int;
            params.args() == if params.colocate == Some(true) {
                unset.args().insert(at, "--colocate"@)
            } else {
                unset.args()
            }
        }),
{
}

/// `--colocate` is among the arguments if and only if the field is exactly
/// true, as long as the caller words no value of its own as `--colocate`.
pub proof fn lemma_colocate_appears_iff_true(params: GitCloneParamsView)
    requires
        !params.free_text().contains("--colocate"@),
    ensures
        params.args().contains("--colocate"@) <==> params.colocate == Some(true),
{
    let flag = "--colocate"@;
    lemma_flag_texts();
    lemma_clone_args_hold(params, flag);
    lemma_numeral_is_no_flag(params.depth, flag);
}

/// A clone has no repository path to give and runs in no other directory
/// than the caller's own, whatever its parameters.
pub proof fn lemma_clone_runs_in_place(params: GitCloneParamsView)
    ensures
        ToolParamsView::GitClone(params).repo_path() is None,
        ToolParamsView::GitClone(params).invocation().cwd is None,
{
}

/// No `-R` is ever added to a clone: the token is among its arguments only
/// where the caller words a value of its own so.
pub proof fn lemma_clone_takes_no_repo_args(params: GitCloneParamsView)
    requires
        !params.free_text().contains("-R"@),
    ensures
        !params.args().contains("-R"@),
{
    let flag = "-R"@;
    lemma_flag_texts();
    lemma_clone_args_hold(params, flag);
    lemma_numeral_is_no_flag(params.depth, flag);
}

/// Which tokens an option with a value puts in.
proof fn lemma_flag_with_value_holds(flag: Seq<char>, value: Option<Seq<char>>, token: Seq<char>)
    ensures
        flag_with_value(flag, value).contains(token) <==> value is Some && (token == flag || token
            == value->0),
{
    let tokens = flag_with_value(flag, value);
    if value is Some {
        assert(tokens[0] == flag);
        assert(tokens[1] == value->0);
    }
}

/// Which token a positional value puts in.
proof fn lemma_bare_value_holds(value: Option<Seq<char>>, token: Seq<char>)
    ensures
        bare_value(value).contains(token) <==> value == Some(token),
{
    let tokens = bare_value(value);
    if value is Some {
        assert(tokens[0] == value->0);
    }
}

/// Which token a boolean flag puts in.
proof fn lemma_switch_holds(flag: Seq<char>, value: Option<bool>, token: Seq<char>)
    ensures
        switch(flag, value).contains(token) <==> value == Some(true) && token == flag,
{
    let tokens = switch(flag, value);
    if value == Some(true) {
        assert(tokens[0] == flag);
    }
}

/// A concatenation holds what its parts hold.
proof fn lemma_concat_holds(a: Seq<Seq<char>>, b: Seq<Seq<char>>, token: Seq<char>)
    ensures
        (a + b).contains(token) <==> a.contains(token) || b.contains(token),
{
    let c = a + b;
    if a.contains(token) {
        let i = choose|i: int| 0 <= i < a.len() && a[i] == token;
        assert(c[i] == token);
    }
    if b.contains(token) {
        let i = choose|i: int| 0 <= i < b.len() && b[i] == token;
        assert(c[a.len() + i] == token);
    }
    if c.contains(token) {
        let i = choose|i: int| 0 <= i < c.len() && c[i] == token;
        if i < a.len() {
            assert(a[i] == token);
        } else {
            assert(b[i - a.len()] == token);
        }
    }
}

/// A numeral is none of the flags: it holds digits only.
proof fn lemma_numeral_is_no_flag(value: Option<u32>, token: Seq<char>)
    requires
        token.len() > 0,
        !is_digit(token[0]),
    ensures
        numeral(value) != Some(token),
{
    if let Some(n) = value {
        lemma_decimal_is_digits(n as nat);
    }
}

/// The fixed tokens, character by character.
proof fn lemma_flag_texts()
    ensures
        "diff"@ == seq!['d', 'i', 'f', 'f'],
        "--from"@ == seq!['-', '-', 'f', 'r', 'o', 'm'],
        "--to"@ == seq!['-', '-', 't', 'o'],
        "--context"@ == seq!['-', '-', 'c', 'o', 'n', 't', 'e', 'x', 't'],
        "--summary"@ == seq!['-', '-', 's', 'u', 'm', 'm', 'a', 'r', 'y'],
        "--stat"@ == seq!['-', '-', 's', 't', 'a', 't'],
        "-R"@ == seq!['-', 'R'],
        "git"@ == seq!['g', 'i', 't'],
        "clone"@ == seq!['c', 'l', 'o', 'n', 'e'],
        "--colocate"@ == seq!['-', '-', 'c', 'o', 'l', 'o', 'c', 'a', 't', 'e'],
        "--remote"@ == seq!['-', '-', 'r', 'e', 'm', 'o', 't', 'e'],
        "--depth"@ == seq!['-', '-', 'd', 'e', 'p', 't', 'h'],
{
    reveal_strlit("diff");
    reveal_strlit("--from");
    reveal_strlit("--to");
    reveal_strlit("--context");
    reveal_strlit("--summary");
    reveal_strlit("--stat");
    reveal_strlit("-R");
    reveal_strlit("git");
    reveal_strlit("clone");
    reveal_strlit("--colocate");
    reveal_strlit("--remote");
    reveal_strlit("--depth");
}

/// Which tokens the arguments of a diff hold, part by part.
proof fn lemma_diff_args_hold(params: DiffParamsView, token: Seq<char>)
    ensures
        params.args().contains(token) <==> {
            ||| token == "diff"@
            ||| params.from is Some && (token == "--from"@ || token == params.from->0)
            ||| params.to is Some && (token == "--to"@ || token == params.to->0)
            ||| params.context is Some && (token == "--context"@ || token == decimal(
                params.context->0 as nat,
            ))
            ||| params.summary == Some(true) && token == "--summary"@
            ||| params.stat == Some(true) && token == "--stat"@
            ||| path_tokens(params.paths).contains(token)
            ||| params.repo_path is Some && (token == "-R"@ || token == params.repo_path->0)
        },
        params.free_text().contains(token) <==> {
            ||| params.from == Some(token)
            ||| params.to == Some(token)
            ||| path_tokens(params.paths).contains(token)
            ||| params.repo_path == Some(token)
        },
{
    let a0 = seq!["diff"@];
    let a1 = flag_with_value("--from"@, params.from);
    let a2 = flag_with_value("--to"@, params.to);
    let a3 = flag_with_value("--context"@, numeral(params.context));
    let a4 = switch("--summary"@, params.summary);
    let a5 = switch("--stat"@, params.stat);
    let a6 = path_tokens(params.paths);
    let a7 = repo_args(params.repo_path);
    assert(a0[0] == "diff"@);
    lemma_flag_with_value_holds("--from"@, params.from, token);
    lemma_flag_with_value_holds("--to"@, params.to, token);
    lemma_flag_with_value_holds("--context"@, numeral(params.context), token);
    lemma_switch_holds("--summary"@, params.summary, token);
    lemma_switch_holds("--stat"@, params.stat, token);
    lemma_flag_with_value_holds("-R"@, params.repo_path, token);
    lemma_concat_holds(a0, a1, token);
    lemma_concat_holds(a0 + a1, a2, token);
    lemma_concat_holds(a0 + a1 + a2, a3, token);
    lemma_concat_holds(a0 + a1 + a2 + a3, a4, token);
    lemma_concat_holds(a0 + a1 + a2 + a3 + a4, a5, token);
    lemma_concat_holds(a0 + a1 + a2 + a3 + a4 + a5, a6, token);
    lemma_concat_holds(a0 + a1 + a2 + a3 + a4 + a5 + a6, a7, token);
    let f0 = bare_value(params.from);
    let f1 = bare_value(params.to);
    let f3 = bare_value(params.repo_path);
    lemma_bare_value_holds(params.from, token);
    lemma_bare_value_holds(params.to, token);
    lemma_bare_value_holds(params.repo_path, token);
    lemma_concat_holds(f0, f1, token);
    lemma_concat_holds(f0 + f1, a6, token);
    lemma_concat_holds(f0 + f1 + a6, f3, token);
}

/// Which tokens the arguments of a clone hold, part by part.
proof fn lemma_clone_args_hold(params: GitCloneParamsView, token: Seq<char>)
    ensures
        params.args().contains(token) <==> {
            ||| token == "git"@
            ||| token == "clone"@
            ||| params.source == Some(token)
            ||| params.destination == Some(token)
            ||| params.colocate == Some(true) && token == "--colocate"@
            ||| params.remote is Some && (token == "--remote"@ || token == params.remote->0)
            ||| params.depth is Some && (token == "--depth"@ || token == decimal(
                params.depth->0 as nat,
            ))
        },
        params.free_text().contains(token) <==> {
            ||| params.source == Some(token)
            ||| params.destination == Some(token)
            ||| params.remote == Some(token)
        },
{
    let a0 = seq!["git"@, "clone"@];
    let a1 = bare_value(params.source);
    let a2 = bare_value(params.destination);
    let a3 = switch("--colocate"@, params.colocate);
    let a4 = flag_with_value("--remote"@, params.remote);
    let a5 = flag_with_value("--depth"@, numeral(params.depth));
    let f2 = bare_value(params.remote);
    lemma_bare_value_holds(params.source, token);
    lemma_bare_value_holds(params.destination, token);
    lemma_bare_value_holds(params.remote, token);
    lemma_switch_holds("--colocate"@, params.colocate, token);
    lemma_flag_with_value_holds("--remote"@, params.remote, token);
    lemma_flag_with_value_holds("--depth"@, numeral(params.depth), token);
    lemma_concat_holds(a0, a1, token);
    lemma_concat_holds(a0 + a1, a2, token);
    lemma_concat_holds(a0 + a1 + a2, a3, token);
    lemma_concat_holds(a0 + a1 + a2 + a3, a4, token);
    lemma_concat_holds(a0 + a1 + a2 + a3 + a4, a5, token);
    lemma_concat_holds(a1, a2, token);
    lemma_concat_holds(a1 + a2, f2, token);
}

} // verus!
