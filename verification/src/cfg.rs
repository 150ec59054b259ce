//! The runner's configuration: the tracked repositories and the settings
//! that every build shares.

use crate::text::ends_with;
use vstd::prelude::*;

verus! {

/// One tracked repository.
#[derive(Debug)]
pub struct Repo {
    /// The name under which pushes for it arrive.
    pub name: String,
    /// Where its working copy lives.
    pub path: String,
    /// The build command, relative to `path`.
    pub entrypoint: String,
    /// A push is built only if its ref ends with one of these.
    pub branches: Vec<String>,
}

/// The whole configuration. It is loaded once and only read afterwards.
#[derive(Debug)]
pub struct Cfg {
    pub repos: Vec<Repo>,
    /// The secret shared with the sender of the notifications.
    pub hmac_key: String,
    /// Whether the checked-out commit must carry a valid signature.
    pub enforce_signatures: bool,
    pub report_dir: String,
    pub artifact_dir: String,
}

/// Commit signatures are enforced unless the configuration says otherwise.
pub fn default_enforce_signatures() -> (r: bool)
    ensures
        r,
{
    true
}

/// Where reports go unless the configuration says otherwise.
pub fn default_report_dir() -> (dir: String)
    ensures
        dir@ == "./reports"@,
{
    "./reports".to_owned()
}

/// Whether `git_ref` ends with one of the suffixes.
pub open spec fn ref_admitted(branches: Seq<String>, git_ref: Seq<char>) -> bool {
    exists|i: int| 0 <= i < branches.len() && (#[trigger] branches[i])@.is_suffix_of(git_ref)
}

impl Repo {
    /// The branch filter: a push is built only if its ref ends with at
    /// least one of the repository's configured suffixes.
    pub fn admits(&self, git_ref: &str) -> (r: bool)
        ensures
            r == ref_admitted(self.branches@, git_ref@),
    {
        let mut i: usize = 0;
        while i < self.branches.len()
            invariant
                i <= self.branches.len(),
                forall|j: int| 0 <= j < i ==> !(#[trigger] self.branches@[j])@.is_suffix_of(git_ref@),
            decreases self.branches.len() - i,
        {
            if ends_with(git_ref, self.branches[i].as_str()) {
                return true;
            }
            i += 1;
        }
        false
    }
}

impl Cfg {
    /// Whether `i` is the place of the first repository called `name`.
    pub open spec fn first_named(&self, name: Seq<char>, i: int) -> bool {
        &&& 0 <= i < self.repos.len()
        &&& self.repos[i].name@ == name
        &&& forall|j: int| 0 <= j < i ==> (#[trigger] self.repos[j]).name@ != name
    }

    /// Whether some repository is called `name`.
    pub open spec fn knows(&self, name: Seq<char>) -> bool {
        exists|i: int| 0 <= i < self.repos.len() && (#[trigger] self.repos[i]).name@ == name
    }

    /// No two repositories share a name.
    pub open spec fn names_distinct(&self) -> bool {
        forall|i: int, j: int|
            0 <= i < j < self.repos.len() ==> (#[trigger] self.repos[i]).name@ != (
            #[trigger] self.repos[j]).name@
    }

    /// A configuration that tracks no repository yet.
    pub fn new(
        hmac_key: String,
        enforce_signatures: bool,
        report_dir: String,
        artifact_dir: String,
    ) -> (cfg: Cfg)
        ensures
            cfg.repos@.len() == 0,
            cfg.names_distinct(),
            cfg.hmac_key == hmac_key,
            cfg.enforce_signatures == enforce_signatures,
            cfg.report_dir == report_dir,
            cfg.artifact_dir == artifact_dir,
    {
        Cfg { repos: Vec::new(), hmac_key, enforce_signatures, report_dir, artifact_dir }
    }

    /// The place of the repository called `name`, if there is one.
    pub fn position(&self, name: &str) -> (r: Option<usize>)
        ensures
            match r {
                Some(i) => self.first_named(name@, i as int),
                None => !self.knows(name@),
            },
    {
        let wanted = name.to_owned();
        let mut i: usize = 0;
        while i < self.repos.len()
            invariant
                i <= self.repos.len(),
                wanted@ == name@,
                forall|j: int| 0 <= j < i ==> (#[trigger] self.repos[j]).name@ != name@,
            decreases self.repos.len() - i,
        {
            if self.repos[i].name == wanted {
                return Some(i);
            }
            i += 1;
        }
        None
    }

    /// The repository called `name`, if there is one.
    pub fn find_repo(&self, name: &str) -> (r: Option<&Repo>)
        ensures
            match r {
                Some(repo) => exists|i: int| self.first_named(name@, i) && *repo == self.repos[i],
                None => !self.knows(name@),
            },
    {
        match self.position(name) {
            Some(i) => Some(&self.repos[i]),
            None => None,
        }
    }

    /// Tracks `repo`. A repository already tracked under the same name is
    /// replaced, so names stay distinct.
    pub fn insert_repo(&mut self, repo: Repo)
        requires
            old(self).names_distinct(),
        ensures
            final(self).names_distinct(),
            forall|i: int|
                old(self).first_named(repo.name@, i) ==> final(self).repos@ == old(self).repos@.update(
                    i,
                    repo,
                ),
            !old(self).knows(repo.name@) ==> final(self).repos@ == old(self).repos@.push(repo),
            exists|i: int| final(self).first_named(repo.name@, i) && final(self).repos[i] == repo,
            final(self).hmac_key == old(self).hmac_key,
            final(self).enforce_signatures == old(self).enforce_signatures,
            final(self).report_dir == old(self).report_dir,
            final(self).artifact_dir == old(self).artifact_dir,
    {
        let ghost name = repo.name@;
        match self.position(repo.name.as_str()) {
            Some(i) => {
                self.repos.set(i, repo);
                assert(self.first_named(name, i as int));
            },
            None => {
                self.repos.push(repo);
                assert(self.first_named(name, self.repos.len() - 1));
            },
        }
    }
}

} // verus!
