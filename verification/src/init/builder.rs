//! The command that the remote shell is given.

use vstd::prelude::*;

use crate::init::error::{InitError, InitErrorView, InputField};
use crate::init::resolver::{EffectiveParams, EffectiveParamsView};
use crate::shell::{
    item_views, lemma_rendered_reads_back, render, rendered, shell_tokens, tokens_of, Item,
    LineItem, Token,
};
use crate::text::result_view;

verus! {

/// Where the repository lies on the remote host.
pub open spec fn repo_path(base_dir: Seq<char>, name: Seq<char>) -> Seq<char> {
    base_dir + "/"@ + name + ".git"@
}

/// Where the repository lies on the remote host: `<base_dir>/<name>.git`.
pub fn remote_repo_path(base_dir: &str, name: &str) -> (path: String)
    ensures
        path@ == repo_path(base_dir@, name@),
{
    let mut path = base_dir.to_owned();
    path.append("/");
    path.append(name);
    path.append(".git");
    path
}

/// Whether no command can carry the text: it is empty, or it holds a NUL
/// character, which no argument of a process can hold.
pub open spec fn is_unsafe(text: Seq<char>) -> bool {
    text.len() == 0 || text.contains('\0')
}

/// Whether no command can carry the text.
pub fn is_unsafe_text(text: &str) -> (refused: bool)
    ensures
        refused == is_unsafe(text@),
{
    if text.is_empty() {
        return true;
    }
    for c in it: text.chars()
        invariant
            it.seq() == text@,
            forall|j: int| 0 <= j < it.index() ==> text@[j] != '\0',
    {
        if c == '\0' {
            assert(text@[it.index()] == '\0');
            return true;
        }
    }
    false
}

/// The items of the remote command: make sure that no repository is at the
/// path yet, that is, that it has no `HEAD`; create the directory and what is
/// missing above it; make it a bare repository; and point `HEAD` at the branch.
/// Each step runs only if the one before it has succeeded. The path and the
/// branch occur only in quoted items.
pub open spec fn command_items(path: Seq<char>, branch: Seq<char>) -> Seq<Item> {
    seq![
        Item::Plain("test"@),
        Item::Plain("!"@),
        Item::Plain("-e"@),
        Item::Quoted(path + "/HEAD"@),
        Item::AndThen,
        Item::Plain("mkdir"@),
        Item::Plain("-p"@),
        Item::Quoted(path),
        Item::AndThen,
        Item::Plain("git"@),
        Item::Plain("init"@),
        Item::Plain("--bare"@),
        Item::Quoted(path),
        Item::AndThen,
        Item::Plain("echo"@),
        Item::Quoted("ref: refs/heads/"@ + branch),
        Item::Into,
        Item::Quoted(path + "/HEAD"@),
    ]
}

/// The remote command: the command line of its items.
pub open spec fn remote_command(path: Seq<char>, branch: Seq<char>) -> Seq<char> {
    rendered(command_items(path, branch))
}

/// What the remote shell is to read from the command: one test that the path
/// has no `HEAD` yet, one `mkdir`, one bare `git init`, and one `echo` that
/// writes the reference to the branch into `HEAD`.
pub open spec fn command_tokens(path: Seq<char>, branch: Seq<char>) -> Seq<Token> {
    seq![
        Token::Word("test"@),
        Token::Word("!"@),
        Token::Word("-e"@),
        Token::Word(path + "/HEAD"@),
        Token::AndThen,
        Token::Word("mkdir"@),
        Token::Word("-p"@),
        Token::Word(path),
        Token::AndThen,
        Token::Word("git"@),
        Token::Word("init"@),
        Token::Word("--bare"@),
        Token::Word(path),
        Token::AndThen,
        Token::Word("echo"@),
        Token::Word("ref: refs/heads/"@ + branch),
        Token::Into,
        Token::Word(path + "/HEAD"@),
    ]
}

/// The remote command for the parameters, or the first of repository name, base
/// directory and branch that no command can carry.
pub open spec fn built(params: EffectiveParamsView) -> Result<Seq<char>, InitErrorView> {
    if is_unsafe(params.repo_name) {
        Err(InitErrorView::UnsafeInput { field: InputField::RepoName, value: params.repo_name })
    } else if is_unsafe(params.base_dir) {
        Err(InitErrorView::UnsafeInput { field: InputField::BaseDir, value: params.base_dir })
    } else if is_unsafe(params.default_branch) {
        Err(
            InitErrorView::UnsafeInput {
                field: InputField::DefaultBranch,
                value: params.default_branch,
            },
        )
    } else {
        Ok(remote_command(repo_path(params.base_dir, params.repo_name), params.default_branch))
    }
}

/// Builds the command that creates the repository on the remote host. Run
/// where a repository is at the path already, the command fails at its first
/// step and changes nothing, so that running it again does no harm.
///
/// The remote shell reads from the command exactly the words of
/// [`command_tokens`]: what the parameters hold reaches it only as the text of
/// whole words.
pub fn build_remote_command(params: &EffectiveParams) -> (outcome: Result<String, InitError>)
    ensures
        result_view(outcome) == built(params@),
        outcome matches Ok(command) ==> shell_tokens(command@) == Some(
            command_tokens(
                repo_path(params@.base_dir, params@.repo_name),
                params@.default_branch,
            ),
        ),
{
    if is_unsafe_text(params.repo_name.as_str()) {
        return Err(
            InitError::UnsafeInput { field: InputField::RepoName, value: params.repo_name.clone() },
        );
    }
    if is_unsafe_text(params.base_dir.as_str()) {
        return Err(
            InitError::UnsafeInput { field: InputField::BaseDir, value: params.base_dir.clone() },
        );
    }
    if is_unsafe_text(params.default_branch.as_str()) {
        return Err(
            InitError::UnsafeInput {
                field: InputField::DefaultBranch,
                value: params.default_branch.clone(),
            },
        );
    }
    let path = remote_repo_path(params.base_dir.as_str(), params.repo_name.as_str());
    let mut head = path.clone();
    head.append("/HEAD");
    let mut reference = "ref: refs/heads/".to_owned();
    reference.append(params.default_branch.as_str());
    let items = vec![
        LineItem::Plain("test"),
        LineItem::Plain("!"),
        LineItem::Plain("-e"),
        LineItem::Quoted(head.as_str()),
        LineItem::AndThen,
        LineItem::Plain("mkdir"),
        LineItem::Plain("-p"),
        LineItem::Quoted(path.as_str()),
        LineItem::AndThen,
        LineItem::Plain("git"),
        LineItem::Plain("init"),
        LineItem::Plain("--bare"),
        LineItem::Quoted(path.as_str()),
        LineItem::AndThen,
        LineItem::Plain("echo"),
        LineItem::Quoted(reference.as_str()),
        LineItem::Into,
        LineItem::Quoted(head.as_str()),
    ];
    proof {
        assert(item_views(items@) =~= command_items(path@, params.default_branch@));
        lemma_command_reads_back(path@, params.default_branch@);
    }
    let command = render(&items);
    Ok(command)
}

/// The remote shell reads from the command exactly the words and operators
/// that are meant, whatever the path and the branch hold: one `mkdir`, one bare
/// `git init` and one write of `HEAD`, behind the test that the path has no
/// `HEAD` yet. The path, the reference to the branch and the path of `HEAD`
/// come out as the texts that went in, and nothing of them is read as anything
/// else.
pub proof fn lemma_command_reads_back(path: Seq<char>, branch: Seq<char>)
    ensures
        shell_tokens(remote_command(path, branch)) == Some(command_tokens(path, branch)),
{
    let items = command_items(path, branch);
    lemma_rendered_reads_back(items);
    assert(tokens_of(items) =~= command_tokens(path, branch));
}

/// For a repository name, a base directory and a branch that are not empty and
/// hold no NUL, there is a command: the one for the repository's path and the
/// branch.
pub proof fn lemma_command_of_valid_params(params: EffectiveParamsView)
    requires
        params.repo_name.len() > 0 && !params.repo_name.contains('\0'),
        params.base_dir.len() > 0 && !params.base_dir.contains('\0'),
        params.default_branch.len() > 0 && !params.default_branch.contains('\0'),
    ensures
        ({
            let path = params.base_dir + "/"@ + params.repo_name + ".git"@;
            &&& built(params) == Ok::<Seq<char>, InitErrorView>(
                remote_command(path, params.default_branch),
            )
            &&& shell_tokens(remote_command(path, params.default_branch)) == Some(
                command_tokens(path, params.default_branch),
            )
        }),
{
    lemma_command_reads_back(
        params.base_dir + "/"@ + params.repo_name + ".git"@,
        params.default_branch,
    );
}

/// Whatever the repository name holds, quotes and the shell's other special
/// characters included: either the parameters are refused as `UnsafeInput`, or
/// the remote shell reads the name nowhere but inside the path, which it reads
/// as one word with the name in it, unchanged.
pub proof fn lemma_name_is_quoted_or_refused(params: EffectiveParamsView)
    ensures
        match built(params) {
            Ok(command) => shell_tokens(command) == Some(
                command_tokens(
                    params.base_dir + "/"@ + params.repo_name + ".git"@,
                    params.default_branch,
                ),
            ),
            Err(error) => error is UnsafeInput,
        },
{
    lemma_command_reads_back(
        params.base_dir + "/"@ + params.repo_name + ".git"@,
        params.default_branch,
    );
}

} // verus!
