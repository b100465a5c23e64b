//! The job data model: the error taxonomy, the normalized repository
//! view, and the job payload that the queue carries.

use vstd::prelude::*;
use vstd::string::StringExecFns;
use crate::gitops;
use crate::numfmt::u64_dec;
use crate::numfmt::u64_to_string;

verus! {

/// Everything that can go wrong between receiving a job and finishing
/// its script.  Outside failures are carried as plain messages.
#[derive(Debug)]
pub enum Error {
    /// A git operation (clone, open, fetch, reset) failed.
    Clone { message: String },
    /// The job's script could not be found or read.
    NoScriptFound { message: String },
    /// The repository payload offered no URL to clone from.
    NoCloneUrl,
    /// The job carried no command tokens, so there is no script to run.
    NoCmd,
    /// The checkout target exists but is not a directory.
    NoDirectory { path: String },
    /// The script failed while being compiled or run.
    ScriptExecution { message: String },
    /// The script could not be parsed.
    ScriptParse,
    /// The `cargo` arguments could not be split into shell words.
    CargoCmdParse,
    /// The upstream repository payload lacked a required field.
    MissingRepositoryField { field: String },
}

/// The rendering of each error, mirrored by `Error::message`.
pub open spec fn error_message_spec(e: Error) -> Seq<char> {
    match e {
        Error::Clone { message } => "Failed to clone repository: "@ + message@,
        Error::NoScriptFound { message } => "No benchmark job scripts found"@,
        Error::NoCloneUrl => "Failed to find a URL to clone the repository"@,
        Error::NoCmd => "Missing bot command"@,
        Error::NoDirectory { path } => "Failed to checkout repository because path "@ + path@
            + " exists but is not a directory"@,
        Error::ScriptExecution { message } => "Failed to execute script: "@ + message@,
        Error::ScriptParse => "Failed to parse script"@,
        Error::CargoCmdParse => "Failed to parse cargo command"@,
        Error::MissingRepositoryField { field } => "Failed to parse Repository: missing field \""@
            + field@ + "\""@,
    }
}

impl Error {
    /// Human-readable description, e.g. for the best-effort failure
    /// comment the dispatch loop posts back to the issue.
    pub fn message(&self) -> (r: String)
        ensures
            r@ == error_message_spec(*self),
    {
        match self {
            Error::Clone { message } => String::from_str("Failed to clone repository: ").concat(
                message.as_str(),
            ),
            Error::NoScriptFound { .. } => String::from_str("No benchmark job scripts found"),
            Error::NoCloneUrl => String::from_str("Failed to find a URL to clone the repository"),
            Error::NoCmd => String::from_str("Missing bot command"),
            Error::NoDirectory { path } => String::from_str(
                "Failed to checkout repository because path ",
            ).concat(path.as_str()).concat(" exists but is not a directory"),
            Error::ScriptExecution { message } => String::from_str(
                "Failed to execute script: ",
            ).concat(message.as_str()),
            Error::ScriptParse => String::from_str("Failed to parse script"),
            Error::CargoCmdParse => String::from_str("Failed to parse cargo command"),
            Error::MissingRepositoryField { field } => String::from_str(
                "Failed to parse Repository: missing field \"",
            ).concat(field.as_str()).concat("\""),
        }
    }
}

/// The best-effort comment the dispatch loop posts back to the
/// triggering issue when a job fails.
pub open spec fn failure_comment_spec(e: Error) -> Seq<char> {
    "Error running job: "@ + error_message_spec(e)
}

/// Renders the failure comment for `e`, exactly as
/// `failure_comment_spec` describes.
pub fn failure_comment(e: &Error) -> (r: String)
    ensures
        r@ == failure_comment_spec(*e),
{
    String::from_str("Error running job: ").concat(e.message().as_str())
}

/// An account identity; only the login takes part in the core logic.
#[derive(Debug)]
pub struct User {
    pub login: String,
}

impl Clone for User {
    fn clone(&self) -> (r: Self)
        ensures
            r == *self,
    {
        User { login: self.login.clone() }
    }
}

/// The issue (or pull request) whose comment triggered the job.
#[derive(Debug)]
pub struct Issue {
    pub number: u64,
    pub user: User,
}

impl Clone for Issue {
    fn clone(&self) -> (r: Self)
        ensures
            r == *self,
    {
        Issue { number: self.number, user: self.user.clone() }
    }
}

/// A repository as the upstream payload delivers it: the fields this
/// system cannot work without may still be missing here.
#[derive(Debug)]
pub struct RepositoryPayload {
    pub id: u64,
    pub name: String,
    pub url: String,
    pub owner: Option<User>,
    pub clone_url: Option<String>,
}

/// Normalized view of a remote repository.  Unlike the raw payload,
/// `owner` and `clone_url` are mandatory, which simplifies everything
/// downstream.
#[derive(Debug)]
pub struct Repository {
    pub id: u64,
    pub name: String,
    pub url: String,
    pub owner: User,
    pub clone_url: String,
}

impl Clone for Repository {
    fn clone(&self) -> (r: Self)
        ensures
            r == *self,
    {
        Repository {
            id: self.id,
            name: self.name.clone(),
            url: self.url.clone(),
            owner: self.owner.clone(),
            clone_url: self.clone_url.clone(),
        }
    }
}

impl Repository {
    /// Validates an upstream payload: construction fails with a
    /// field-specific error when `owner` or `clone_url` is absent.
    pub fn try_from(repo: RepositoryPayload) -> (r: Result<Repository, Error>)
        ensures
            repo.owner is None ==> (r matches Err(Error::MissingRepositoryField { field })
                && field@ == "owner"@),
            repo.owner is Some && repo.clone_url is None ==> (r matches Err(
                Error::MissingRepositoryField { field },
            ) && field@ == "clone_url"@),
            repo.owner is Some && repo.clone_url is Some ==> (r matches Ok(out)
                && out.id == repo.id
                && out.name == repo.name
                && out.url == repo.url
                && out.owner == repo.owner.unwrap()
                && out.clone_url == repo.clone_url.unwrap()),
    {
        let owner = match repo.owner {
            Some(owner) => owner,
            None => {
                return Err(
                    Error::MissingRepositoryField { field: String::from_str("owner") },
                );
            },
        };
        let clone_url = match repo.clone_url {
            Some(clone_url) => clone_url,
            None => {
                return Err(
                    Error::MissingRepositoryField { field: String::from_str("clone_url") },
                );
            },
        };
        Ok(Repository { id: repo.id, name: repo.name, url: repo.url, owner, clone_url })
    }

}

/// A queued unit of work: command tokens (the first names the script),
/// plus the repository and the triggering issue.
#[derive(Debug)]
pub struct Job {
    pub command: Vec<String>,
    pub repository: Repository,
    pub issue: Issue,
}

/// What the probe of the checkout target path found.
pub enum PathState {
    /// The path does not exist.
    Missing,
    /// The path is a directory.
    Directory,
    /// The path exists but is not a directory.
    Other,
}

/// The checkout protocol's first step for each path state.
pub enum CheckoutAction {
    /// Reuse the present working copy.
    Open,
    /// Clone a fresh working copy.
    CloneFresh,
    /// Refuse to touch the path: it exists but is not a directory.
    Fail,
}

/// Maps the probed path state to the checkout protocol's first step:
/// a directory is reused, a missing path is cloned fresh, and
/// anything else is refused before any destructive operation.
pub fn checkout_action(state: &PathState) -> (a: CheckoutAction)
    ensures
        a == (match state {
            PathState::Directory => CheckoutAction::Open,
            PathState::Missing => CheckoutAction::CloneFresh,
            PathState::Other => CheckoutAction::Fail,
        }),
{
    match state {
        PathState::Directory => CheckoutAction::Open,
        PathState::Missing => CheckoutAction::CloneFresh,
        PathState::Other => CheckoutAction::Fail,
    }
}

/// A job whose filesystem prerequisites are satisfied: the working
/// directory is synchronized to the tip of the PR branch.
#[derive(Debug)]
pub struct CheckedoutJob {
    pub command: Vec<String>,
    pub dir: String,
    pub clone_dir: String,
    pub gh_repo: Repository,
    pub gh_issue: Option<Issue>,
}

impl Clone for Job {
    fn clone(&self) -> (r: Self)
        ensures
            r.command@ == self.command@,
            r.repository == self.repository,
            r.issue == self.issue,
    {
        let mut command: Vec<String> = Vec::new();
        let mut i: usize = 0;
        while i < self.command.len()
            invariant
                i <= self.command.len(),
                command@ =~= self.command@.subrange(0, i as int),
            decreases self.command.len() - i,
        {
            command.push(self.command[i].clone());
            i = i + 1;
        }
        assert(command@ =~= self.command@);
        Job { command, repository: self.repository.clone(), issue: self.issue.clone() }
    }
}

impl Job {
    /// The working-copy directory name: the composite key
    /// `(repository id, issue number, issue author, owner, name)`
    /// joined by underscores.  It prevents collisions across
    /// unrelated jobs while letting the same issue reuse its
    /// earlier checkout.
    pub open spec fn dir_name_spec(&self) -> Seq<char> {
        u64_dec(self.repository.id as nat) + "_"@ + u64_dec(self.issue.number as nat) + "_"@
            + self.issue.user.login@ + "_"@ + self.repository.owner.login@ + "_"@
            + self.repository.name@
    }

    /// The working-copy path: the directory name under `root`.
    pub open spec fn repo_dir_spec(&self, root: Seq<char>) -> Seq<char> {
        root + "/"@ + self.dir_name_spec()
    }

    /// Resolves the job's working-copy path under `root`.
    pub fn repo_dir(&self, root: &str) -> (r: String)
        ensures
            r@ == self.repo_dir_spec(root@),
    {
        let mut s = String::from_str(root);
        s.append("/");
        s.append(u64_to_string(self.repository.id).as_str());
        s.append("_");
        s.append(u64_to_string(self.issue.number).as_str());
        s.append("_");
        s.append(self.issue.user.login.as_str());
        s.append("_");
        s.append(self.repository.owner.login.as_str());
        s.append("_");
        s.append(self.repository.name.as_str());
        s
    }

    /// The PR head ref for the triggering issue.
    pub open spec fn pr_branch_spec(&self) -> Seq<char> {
        "pull/"@ + u64_dec(self.issue.number as nat) + "/head"@
    }

    /// Names the PR head ref, `pull/<issue number>/head`.
    pub fn pr_branch(&self) -> (r: String)
        ensures
            r@ == self.pr_branch_spec(),
    {
        let mut s = String::from_str("pull/");
        s.append(u64_to_string(self.issue.number).as_str());
        s.append("/head");
        s
    }

    /// The refspec fetched for `branch`: the remote ref into a local
    /// branch of the same name.
    pub open spec fn refspec_spec(branch: Seq<char>) -> Seq<char> {
        "refs/"@ + branch + ":refs/heads/"@ + branch
    }

    /// Produces a working copy synchronized to the tip of the PR
    /// branch: a present directory is reused, a missing path cloned
    /// fresh, and in both cases the PR head is fetched and the tree
    /// hard-reset to it.  A path that exists but is no directory is
    /// refused before any destructive operation.
    ///
    /// At most one checkout may target a given directory at a time;
    /// the dispatch loop serializes job processing to guarantee it.
    pub fn checkout(&self, root: &str) -> (r: Result<CheckedoutJob, Error>)
        ensures
            r matches Ok(cj) ==> {
                &&& cj.dir@ == self.repo_dir_spec(root@)
                &&& cj.clone_dir@ == root@
                &&& cj.command@ == self.command@
                &&& cj.gh_repo == self.repository
                &&& cj.gh_issue == Some(self.issue)
            },
            r matches Err(e) ==> match e {
                Error::NoDirectory { path } => path@ == self.repo_dir_spec(root@),
                Error::Clone { message } => true,
                _ => false,
            },
    {
        let dir = self.repo_dir(root);
        let branch = self.pr_branch();

        let state = if gitops::path_is_dir(dir.as_str()) {
            PathState::Directory
        } else if gitops::path_exists(dir.as_str()) {
            PathState::Other
        } else {
            PathState::Missing
        };

        let repo = match checkout_action(&state) {
            CheckoutAction::Open => match gitops::repo_open(dir.as_str()) {
                Ok(repo) => repo,
                Err(message) => {
                    return Err(Error::Clone { message });
                },
            },
            CheckoutAction::CloneFresh => match gitops::clone_with_force_checkout(
                self.repository.clone_url.as_str(),
                dir.as_str(),
            ) {
                Ok(repo) => repo,
                Err(message) => {
                    return Err(Error::Clone { message });
                },
            },
            CheckoutAction::Fail => {
                return Err(Error::NoDirectory { path: dir });
            },
        };

        let mut refspec = String::from_str("refs/");
        refspec.append(branch.as_str());
        refspec.append(":refs/heads/");
        refspec.append(branch.as_str());
        assert(refspec@ == Job::refspec_spec(self.pr_branch_spec()));

        if let Err(message) = gitops::fetch_origin(&repo, refspec.as_str()) {
            return Err(Error::Clone { message });
        }
        if let Err(message) = gitops::reset_hard_to_fetch_head(&repo) {
            return Err(Error::Clone { message });
        }

        let dup = self.clone();
        Ok(
            CheckedoutJob {
                command: dup.command,
                dir,
                clone_dir: String::from_str(root),
                gh_repo: dup.repository,
                gh_issue: Some(dup.issue),
            },
        )
    }
}

/// Law: the working directory is a function of the composite job key
/// alone — two jobs agreeing on repository id, issue number, issue
/// author, owner and name check out into the same directory, so a
/// repeated checkout of the same key reuses the same working copy.
pub proof fn lemma_repo_dir_deterministic(a: Job, b: Job, root: Seq<char>)
    requires
        a.repository.id == b.repository.id,
        a.issue.number == b.issue.number,
        a.issue.user.login@ == b.issue.user.login@,
        a.repository.owner.login@ == b.repository.owner.login@,
        a.repository.name@ == b.repository.name@,
    ensures
        a.repo_dir_spec(root) == b.repo_dir_spec(root),
{
}

} // verus!
