//! The git commands that the runner issues, and what it reads from them.
//!
//! Nothing here runs git. Each function gives the arguments of one
//! invocation of the `git` program, first to last; the caller runs it and
//! reports how it went.

use crate::text::{chars_of, starts_with, texts_of, trim_start, trimmed_start};
use vstd::prelude::*;

verus! {

/// The place of the first `/` in `s` at or behind `from`, or the length of
/// `s` if there is none.
pub open spec fn find_slash(s: Seq<char>, from: int) -> int
    decreases s.len() - from,
{
    if from < 0 || from >= s.len() {
        s.len() as int
    } else if s[from] == '/' {
        from
    } else {
        find_slash(s, from + 1)
    }
}

/// The place of the second `/` in `s`, or the length of `s` if it holds
/// fewer than two.
pub open spec fn second_slash(s: Seq<char>) -> int {
    find_slash(s, find_slash(s, 0) + 1)
}

/// The branch that a ref names: what is left of it without its first two
/// segments and the slashes that end them, so `main` for
/// `refs/heads/main`. A ref with fewer than two slashes names none.
pub open spec fn branch_of(git_ref: Seq<char>) -> Option<Seq<char>> {
    if second_slash(git_ref) < git_ref.len() {
        Some(git_ref.skip(second_slash(git_ref) + 1))
    } else {
        None
    }
}

/// A ref in its canonical form, `refs/heads/` and a branch, names that
/// branch, whatever the branch is called.
pub proof fn lemma_branch_of_canonical(branch: Seq<char>)
    ensures
        branch_of("refs/heads/"@ + branch) == Some(branch),
{
    reveal_strlit("refs/heads/");
    let s = "refs/heads/"@ + branch;
    assert(s[0] == 'r' && s[1] == 'e' && s[2] == 'f' && s[3] == 's' && s[4] == '/');
    assert(s[5] == 'h' && s[6] == 'e' && s[7] == 'a' && s[8] == 'd' && s[9] == 's' && s[10] == '/');
    reveal_with_fuel(find_slash, 7);
    assert(find_slash(s, 0) == 4);
    assert(find_slash(s, 5) == 10);
    assert(s.skip(11) =~= branch);
}

/// The validation takes every ordinary ref: a ref in its canonical form
/// can be handed to git if its branch is not empty, does not begin with a
/// hyphen and holds only characters that may stand in a ref.
pub proof fn lemma_canonical_ref_is_usable(branch: Seq<char>)
    requires
        branch.len() > 0,
        !is_option(branch),
        forall|i: int| 0 <= i < branch.len() ==> is_ref_char(#[trigger] branch[i]),
    ensures
        usable_ref("refs/heads/"@ + branch),
{
    lemma_branch_of_canonical(branch);
    reveal_strlit("refs/heads/");
    let head = "refs/heads/"@;
    let s = head + branch;
    assert(head[0] == 'r' && head[1] == 'e' && head[2] == 'f' && head[3] == 's' && head[4] == '/');
    assert(head[5] == 'h' && head[6] == 'e' && head[7] == 'a' && head[8] == 'd' && head[9] == 's'
        && head[10] == '/');
    assert forall|i: int| 0 <= i < s.len() implies is_ref_char(#[trigger] s[i]) by {
        if i >= 11 {
            assert(s[i] == branch[i - 11]);
        } else {
            assert(s[i] == head[i]);
        }
    }
}

fn slash_from(chars: &Vec<char>, from: usize) -> (at: usize)
    requires
        from <= chars.len(),
    ensures
        at == find_slash(chars@, from as int),
        from <= at <= chars.len(),
{
    let mut i: usize = from;
    while i < chars.len() && chars[i] != '/'
        invariant
            from <= i <= chars.len(),
            find_slash(chars@, from as int) == find_slash(chars@, i as int),
        decreases chars.len() - i,
    {
        i += 1;
    }
    i
}

/// The branch that `git_ref` names, `None` for a ref with fewer than two
/// slashes.
pub fn branch_name(git_ref: &str) -> (branch: Option<String>)
    ensures
        match branch {
            Some(name) => branch_of(git_ref@) == Some(name@),
            None => branch_of(git_ref@) is None,
        },
{
    let chars = chars_of(git_ref);
    let first = slash_from(&chars, 0);
    if first >= chars.len() {
        return None;
    }
    let second = slash_from(&chars, first + 1);
    if second >= chars.len() {
        return None;
    }
    Some(git_ref.substring_char(second + 1, chars.len()).to_owned())
}

/// Whether git reads a word as an option: it begins with a hyphen.
pub open spec fn is_option(word: Seq<char>) -> bool {
    word.len() > 0 && word[0] == '-'
}

/// Whether a character may stand in a ref that is handed to git: no
/// control character, no space, and none of `~ ^ : ? * [ \`, which git
/// refuses in the name of a ref and which mean something of their own
/// where git expects one.
pub open spec fn is_ref_char(c: char) -> bool {
    &&& c as int > 0x20
    &&& c as int != 0x7f
    &&& c != '~'
    &&& c != '^'
    &&& c != ':'
    &&& c != '?'
    &&& c != '*'
    &&& c != '['
    &&& c != '\\'
}

/// Whether a character may stand in an address that is handed to git: no
/// control character and no space.
pub open spec fn is_url_char(c: char) -> bool {
    c as int > 0x20 && c as int != 0x7f
}

/// Whether a pushed ref can be handed to git: it names a branch, the
/// branch is not empty, neither the ref nor the branch can be read as an
/// option, and all of its characters may stand in a ref.
pub open spec fn usable_ref(git_ref: Seq<char>) -> bool {
    &&& !is_option(git_ref)
    &&& forall|i: int| 0 <= i < git_ref.len() ==> is_ref_char(#[trigger] git_ref[i])
    &&& branch_of(git_ref) matches Some(branch) && branch.len() > 0 && !is_option(branch)
}

/// Whether an address to clone from can be handed to git: it cannot be
/// read as an option, and all of its characters may stand in an address.
pub open spec fn usable_url(url: Seq<char>) -> bool {
    &&& !is_option(url)
    &&& forall|i: int| 0 <= i < url.len() ==> is_url_char(#[trigger] url[i])
}

fn ref_char(c: char) -> (r: bool)
    ensures
        r == is_ref_char(c),
{
    let n: u32 = c as u32;
    n > 0x20 && n != 0x7f && c != '~' && c != '^' && c != ':' && c != '?' && c != '*' && c != '['
        && c != '\\'
}

fn url_char(c: char) -> (r: bool)
    ensures
        r == is_url_char(c),
{
    let n: u32 = c as u32;
    n > 0x20 && n != 0x7f
}

/// The branch that `git_ref` names if the ref can be handed to git,
/// `None` if it cannot.
pub fn check_ref(git_ref: &str) -> (branch: Option<String>)
    ensures
        match branch {
            Some(name) => usable_ref(git_ref@) && branch_of(git_ref@) == Some(name@),
            None => !usable_ref(git_ref@),
        },
{
    let chars = chars_of(git_ref);
    if chars.len() > 0 && chars[0] == '-' {
        return None;
    }
    let mut i: usize = 0;
    while i < chars.len()
        invariant
            i <= chars.len(),
            chars@ == git_ref@,
            forall|j: int| 0 <= j < i ==> is_ref_char(#[trigger] chars@[j]),
        decreases chars.len() - i,
    {
        if !ref_char(chars[i]) {
            assert(!is_ref_char(git_ref@[i as int]));
            return None;
        }
        i += 1;
    }
    match branch_name(git_ref) {
        Some(name) => {
            if name.as_str().unicode_len() == 0 || name.as_str().get_char(0) == '-' {
                None
            } else {
                Some(name)
            }
        },
        None => None,
    }
}

/// Whether `url` can be handed to git as the address to clone from.
pub fn check_url(url: &str) -> (r: bool)
    ensures
        r == usable_url(url@),
{
    let chars = chars_of(url);
    if chars.len() > 0 && chars[0] == '-' {
        return false;
    }
    let mut i: usize = 0;
    while i < chars.len()
        invariant
            i <= chars.len(),
            chars@ == url@,
            forall|j: int| 0 <= j < i ==> is_url_char(#[trigger] chars@[j]),
        decreases chars.len() - i,
    {
        if !url_char(chars[i]) {
            assert(!is_url_char(url@[i as int]));
            return false;
        }
        i += 1;
    }
    true
}

/// Whether the answer to `git --version` is that of a git: the command
/// succeeded and what it printed begins, behind any white space, with
/// `git version`.
pub open spec fn is_git(success: bool, stdout: Seq<char>) -> bool {
    success && "git version"@.is_prefix_of(trimmed_start(stdout))
}

/// The arguments that ask git for its version.
pub fn version() -> (args: Vec<String>)
    ensures
        texts_of(args@) == seq!["--version"@],
{
    let mut args: Vec<String> = Vec::new();
    args.push("--version".to_owned());
    assert(texts_of(args@) =~= seq!["--version"@]);
    args
}

/// Whether a usable git is installed, from how `git --version` went.
pub fn check_git(success: bool, stdout: &str) -> (found: bool)
    ensures
        found == is_git(success, stdout@),
{
    success && starts_with(trim_start(stdout), "git version")
}

/// The arguments that every command on the working copy at `path`
/// begins with: `-C <path> <verb>`.
fn on_copy(path: &str, verb: &str) -> (args: Vec<String>)
    ensures
        texts_of(args@) == seq!["-C"@, path@, verb@],
{
    let mut args: Vec<String> = Vec::new();
    args.push("-C".to_owned());
    args.push(path.to_owned());
    args.push(verb.to_owned());
    assert(texts_of(args@) =~= seq!["-C"@, path@, verb@]);
    args
}

/// `args` with `word` behind them.
fn with(args: Vec<String>, word: &str) -> (longer: Vec<String>)
    ensures
        texts_of(longer@) == texts_of(args@).push(word@),
{
    let mut longer = args;
    longer.push(word.to_owned());
    assert(texts_of(longer@) =~= texts_of(args@).push(word@));
    longer
}

/// `git -C <path> status`: succeeds in a healthy working copy.
pub fn status(path: &str) -> (args: Vec<String>)
    ensures
        texts_of(args@) == seq!["-C"@, path@, "status"@],
{
    on_copy(path, "status")
}

/// `git clone <url> <path>`.
pub fn clone(path: &str, url: &str) -> (args: Vec<String>)
    ensures
        texts_of(args@) == seq!["clone"@, url@, path@],
{
    let mut args: Vec<String> = Vec::new();
    args.push("clone".to_owned());
    args.push(url.to_owned());
    args.push(path.to_owned());
    assert(texts_of(args@) =~= seq!["clone"@, url@, path@]);
    args
}

/// `git -C <path> pull origin <ref>`.
pub fn pull(path: &str, git_ref: &str) -> (args: Vec<String>)
    ensures
        texts_of(args@) == seq!["-C"@, path@, "pull"@, "origin"@, git_ref@],
{
    let args = with(with(on_copy(path, "pull"), "origin"), git_ref);
    assert(texts_of(args@) =~= seq!["-C"@, path@, "pull"@, "origin"@, git_ref@]);
    args
}

/// `git -C <path> fetch origin <ref>`.
pub fn fetch(path: &str, git_ref: &str) -> (args: Vec<String>)
    ensures
        texts_of(args@) == seq!["-C"@, path@, "fetch"@, "origin"@, git_ref@],
{
    let args = with(with(on_copy(path, "fetch"), "origin"), git_ref);
    assert(texts_of(args@) =~= seq!["-C"@, path@, "fetch"@, "origin"@, git_ref@]);
    args
}

/// `git -C <path> checkout <branch>`.
pub fn checkout(path: &str, branch: &str) -> (args: Vec<String>)
    ensures
        texts_of(args@) == seq!["-C"@, path@, "checkout"@, branch@],
{
    let args = with(on_copy(path, "checkout"), branch);
    assert(texts_of(args@) =~= seq!["-C"@, path@, "checkout"@, branch@]);
    args
}

/// `git -C <path> pull`: pulls the branch that is checked out.
pub fn pull_branch(path: &str) -> (args: Vec<String>)
    ensures
        texts_of(args@) == seq!["-C"@, path@, "pull"@],
{
    on_copy(path, "pull")
}

/// `git -C <path> restore .`: discards local modifications.
pub fn restore(path: &str) -> (args: Vec<String>)
    ensures
        texts_of(args@) == seq!["-C"@, path@, "restore"@, "."@],
{
    let args = with(on_copy(path, "restore"), ".");
    assert(texts_of(args@) =~= seq!["-C"@, path@, "restore"@, "."@]);
    args
}

/// The name under which a working copy knows the tip of `branch` as it
/// was last fetched from where the copy was cloned from.
pub open spec fn fetched_tip(branch: Seq<char>) -> Seq<char> {
    "origin/"@ + branch
}

/// `git -C <path> reset --hard origin/<branch>`: brings the working copy
/// to the tip of the branch as it was fetched, whatever was committed or
/// changed in the copy.
pub fn reset(path: &str, branch: &str) -> (args: Vec<String>)
    ensures
        texts_of(args@) == seq!["-C"@, path@, "reset"@, "--hard"@, fetched_tip(branch@)],
{
    let mut tip = "origin/".to_owned();
    tip.append(branch);
    let args = with(with(on_copy(path, "reset"), "--hard"), tip.as_str());
    assert(texts_of(args@) =~= seq!["-C"@, path@, "reset"@, "--hard"@, fetched_tip(branch@)]);
    args
}

/// `git -C <path> verify-commit <ref>`: succeeds if the commit carries a
/// valid signature.
pub fn verify_commit(path: &str, git_ref: &str) -> (args: Vec<String>)
    ensures
        texts_of(args@) == seq!["-C"@, path@, "verify-commit"@, git_ref@],
{
    let args = with(on_copy(path, "verify-commit"), git_ref);
    assert(texts_of(args@) =~= seq!["-C"@, path@, "verify-commit"@, git_ref@]);
    args
}

} // verus!
