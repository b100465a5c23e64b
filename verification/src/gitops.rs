//! Trusted boundary to git and to the filesystem probe the checkout
//! protocol needs.  Every result here depends on what is on disk or
//! on the network, so the wrappers promise nothing of their outcomes;
//! the checkout logic is verified for every value they return.
//! Failures are carried as the git error's rendering.

use vstd::prelude::*;

verus! {

/// An open working-copy repository.  It holds a `git2::Repository`,
/// which stays opaque to the verifier; the wrappers below are the
/// only operations on it.
#[verifier::external_body]
pub struct RepoHandle {
    inner: git2::Repository,
}

/// Relies on std::path::Path::is_dir: observes the filesystem; the
/// result depends on what is on disk, so nothing is promised of it.
#[verifier::external_body]
pub(crate) fn path_is_dir(path: &str) -> bool {
    std::path::Path::new(path).is_dir()
}

/// Relies on std::path::Path::exists: observes the filesystem; the
/// result depends on what is on disk, so nothing is promised of it.
#[verifier::external_body]
pub(crate) fn path_exists(path: &str) -> bool {
    std::path::Path::new(path).exists()
}

/// Relies on git2::Repository::open: opens the repository at `path`;
/// success depends on the on-disk state.
#[verifier::external_body]
pub(crate) fn repo_open(path: &str) -> Result<RepoHandle, String> {
    match git2::Repository::open(path) {
        Ok(inner) => Ok(RepoHandle { inner }),
        Err(e) => Err(format!("{e}")),
    }
}

/// Relies on git2::build::RepoBuilder::clone, configured with a
/// forced checkout that removes untracked and ignored files.
#[verifier::external_body]
pub(crate) fn clone_with_force_checkout(url: &str, path: &str) -> Result<RepoHandle, String> {
    let mut checkout = git2::build::CheckoutBuilder::new();
    checkout.remove_untracked(true).remove_ignored(true).force();
    match git2::build::RepoBuilder::new().with_checkout(checkout).clone(
        url,
        std::path::Path::new(path),
    ) {
        Ok(inner) => Ok(RepoHandle { inner }),
        Err(e) => Err(format!("{e}")),
    }
}

/// Relies on git2::Repository::find_remote and git2::Remote::fetch:
/// fetches `refspec` from the remote named "origin".
#[verifier::external_body]
pub(crate) fn fetch_origin(repo: &RepoHandle, refspec: &str) -> Result<(), String> {
    match repo.inner.find_remote("origin") {
        Ok(mut remote) => remote.fetch(&[refspec], None, None).map_err(|e| format!("{e}")),
        Err(e) => Err(format!("{e}")),
    }
}

/// Relies on git2::Repository::revparse_single and reset: hard-resets
/// the working tree to FETCH_HEAD, discarding untracked and ignored
/// content.
#[verifier::external_body]
pub(crate) fn reset_hard_to_fetch_head(repo: &RepoHandle) -> Result<(), String> {
    let rev = match repo.inner.revparse_single("FETCH_HEAD") {
        Ok(rev) => rev,
        Err(e) => return Err(format!("{e}")),
    };
    let mut checkout = git2::build::CheckoutBuilder::new();
    checkout.remove_untracked(true).remove_ignored(true).force();
    repo.inner.reset(&rev, git2::ResetType::Hard, Some(&mut checkout)).map_err(
        |e| format!("{e}"),
    )
}

} // verus!
