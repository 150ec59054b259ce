//! What a push notification carries.

use vstd::prelude::*;

verus! {

/// The repository that was pushed to.
#[derive(Debug)]
pub struct Repository {
    pub clone_url: String,
}

/// The commit at the tip of the push.
#[derive(Debug)]
pub struct HeadCommit {
    pub message: String,
}

/// The fields of a push notification that the runner reads.
#[derive(Debug)]
pub struct Payload {
    /// The pushed ref, `refs/heads/<branch>` in its canonical form.
    pub git_ref: String,
    pub repository: Repository,
    pub head_commit: HeadCommit,
}

/// A payload as plain text values.
pub struct PayloadView {
    pub git_ref: Seq<char>,
    pub clone_url: Seq<char>,
    pub message: Seq<char>,
}

impl View for Payload {
    type V = PayloadView;

    open spec fn view(&self) -> PayloadView {
        PayloadView {
            git_ref: self.git_ref@,
            clone_url: self.repository.clone_url@,
            message: self.head_commit.message@,
        }
    }
}

impl Payload {
    /// A payload from its three texts.
    pub fn new(git_ref: String, clone_url: String, message: String) -> (p: Payload)
        ensures
            p@.git_ref == git_ref@,
            p@.clone_url == clone_url@,
            p@.message == message@,
    {
        Payload {
            git_ref,
            repository: Repository { clone_url },
            head_commit: HeadCommit { message },
        }
    }
}

} // verus!
