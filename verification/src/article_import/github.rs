//! The GitHub addresses an import requests: the repository, a branch, and the
//! archive description at a commit.
use vstd::prelude::*;
use vstd::string::*;
use crate::article_import::url_text::{url_join, url_join_of};

verus! {

/// A request address that could not be formed.
#[derive(Debug)]
pub enum GitHubUrlError {
    InvalidUrl(url::ParseError),
}

/// `repos/{user}/{repo}`: the repository, relative to the API's base.
pub open spec fn repo_path(user: Seq<char>, repo: Seq<char>) -> Seq<char> {
    "repos/"@ + user + "/"@ + repo
}

/// `repos/{user}/{repo}/branches/{branch}`: a branch, relative to the API's base.
pub open spec fn branch_path(user: Seq<char>, repo: Seq<char>, branch: Seq<char>) -> Seq<char> {
    repo_path(user, repo) + "/branches/"@ + branch
}

/// `repos/{user}/{repo}/contents/archive.toml?ref={commit}`: the archive
/// description at a commit, relative to the API's base.
pub open spec fn archive_path(user: Seq<char>, repo: Seq<char>, commit: Seq<char>) -> Seq<char> {
    repo_path(user, repo) + "/contents/archive.toml?ref="@ + commit
}

/// The address of the public GitHub API.
pub open spec fn github_api_base() -> Seq<char> {
    "https://api.github.com/"@
}

/// The GitHub API an import talks to, given by its base address.
#[derive(Clone, Debug)]
pub struct GitHubApi {
    base_url: String,
}

fn build_repo_path(user: &str, repo: &str) -> (r: String)
    ensures
        r@ == repo_path(user@, repo@),
{
    let mut path = String::from_str("repos/");
    path.append(user);
    path.append("/");
    path.append(repo);
    path
}

/// The address `path` resolves to against `base`, or the error of the `url` crate.
fn resolve(base: &String, path: &String) -> (r: Result<String, GitHubUrlError>)
    ensures
        match r {
            Ok(s) => url_join_of(base@, path@) == Some(s@),
            Err(_) => url_join_of(base@, path@) is None,
        },
{
    match url_join(base.as_str(), path.as_str()) {
        Ok(s) => Ok(s),
        Err(e) => Err(GitHubUrlError::InvalidUrl(e)),
    }
}

impl GitHubApi {
    pub closed spec fn base(&self) -> Seq<char> {
        self.base_url@
    }

    /// The public GitHub API.
    pub fn new() -> (r: GitHubApi)
        ensures
            r.base() == github_api_base(),
    {
        GitHubApi { base_url: String::from_str("https://api.github.com/") }
    }

    /// An API served at another address (a test server, for one).
    pub fn with_base_url(base_url: String) -> (r: GitHubApi)
        ensures
            r.base() == base_url@,
    {
        GitHubApi { base_url }
    }

    /// The address of the repository's description (which names its default branch).
    pub fn default_branch_url(&self, user: &str, repo: &str) -> (r: Result<String, GitHubUrlError>)
        ensures
            match r {
                Ok(s) => url_join_of(self.base(), repo_path(user@, repo@)) == Some(s@),
                Err(_) => url_join_of(self.base(), repo_path(user@, repo@)) is None,
            },
    {
        let path = build_repo_path(user, repo);
        resolve(&self.base_url, &path)
    }

    /// The address of a branch's description (which names its latest commit).
    pub fn latest_commit_url(&self, user: &str, repo: &str, branch: &str) -> (r: Result<
        String,
        GitHubUrlError,
    >)
        ensures
            match r {
                Ok(s) => url_join_of(self.base(), branch_path(user@, repo@, branch@)) == Some(s@),
                Err(_) => url_join_of(self.base(), branch_path(user@, repo@, branch@)) is None,
            },
    {
        let mut path = build_repo_path(user, repo);
        path.append("/branches/");
        path.append(branch);
        resolve(&self.base_url, &path)
    }

    /// The address of the repository's `archive.toml` at a commit.
    pub fn archive_toml_url(&self, user: &str, repo: &str, commit: &str) -> (r: Result<
        String,
        GitHubUrlError,
    >)
        ensures
            match r {
                Ok(s) => url_join_of(self.base(), archive_path(user@, repo@, commit@)) == Some(s@),
                Err(_) => url_join_of(self.base(), archive_path(user@, repo@, commit@)) is None,
            },
    {
        let mut path = build_repo_path(user, repo);
        path.append("/contents/archive.toml?ref=");
        path.append(commit);
        resolve(&self.base_url, &path)
    }
}

/// `https://api.github.com/repos/{user}/{repo}`.
pub open spec fn repo_api_url(user: Seq<char>, repo: Seq<char>) -> Seq<char> {
    github_api_base() + repo_path(user, repo)
}

/// `https://api.github.com/repos/{user}/{repo}/branches/{branch}`.
pub open spec fn branch_api_url(user: Seq<char>, repo: Seq<char>, branch: Seq<char>) -> Seq<char> {
    github_api_base() + branch_path(user, repo, branch)
}

/// `https://raw.githubusercontent.com/{user}/{repo}/{commit}/archive.toml`.
pub open spec fn raw_archive_url(user: Seq<char>, repo: Seq<char>, commit: Seq<char>) -> Seq<char> {
    "https://raw.githubusercontent.com/"@ + user + "/"@ + repo + "/"@ + commit + "/archive.toml"@
}

/// The address of a repository's description on the public API, written out in full.
pub fn default_branch_api_url(user: &str, repo: &str) -> (r: String)
    ensures
        r@ == repo_api_url(user@, repo@),
{
    let mut url = String::from_str("https://api.github.com/");
    let path = build_repo_path(user, repo);
    url.append(path.as_str());
    url
}

/// The address of a branch's description on the public API, written out in full.
pub fn latest_commit_api_url(user: &str, repo: &str, branch: &str) -> (r: String)
    ensures
        r@ == branch_api_url(user@, repo@, branch@),
{
    let mut url = default_branch_api_url(user, repo);
    url.append("/branches/");
    url.append(branch);
    url
}

/// The address of a repository's raw `archive.toml` at a commit.
pub fn raw_archive_toml_url(user: &str, repo: &str, commit: &str) -> (r: String)
    ensures
        r@ == raw_archive_url(user@, repo@, commit@),
{
    let mut url = String::from_str("https://raw.githubusercontent.com/");
    url.append(user);
    url.append("/");
    url.append(repo);
    url.append("/");
    url.append(commit);
    url.append("/archive.toml");
    url
}

/// The repository path carries the user and the repository name over unchanged:
/// it is `repos/`, then the user, then `/`, then the repository name, nothing
/// dropped or added. A branch path and an archive path extend it, ending in the
/// branch or commit unchanged.
pub proof fn law_request_paths(user: Seq<char>, repo: Seq<char>, reference: Seq<char>)
    ensures
        ({
            let p = repo_path(user, repo);
            &&& p.len() == 7int + user.len() + repo.len()
            &&& p.subrange(0, 6) == "repos/"@
            &&& p.subrange(6, 6int + user.len()) == user
            &&& p[6int + user.len()] == '/'
            &&& p.subrange(7int + user.len(), p.len() as int) == repo
            &&& branch_path(user, repo, reference).subrange(0, p.len() as int) == p
            &&& branch_path(user, repo, reference).len() == p.len() + 10 + reference.len()
            &&& branch_path(user, repo, reference).subrange(p.len() + 10int, branch_path(user, repo, reference).len() as int) == reference
            &&& archive_path(user, repo, reference).subrange(0, p.len() as int) == p
            &&& archive_path(user, repo, reference).len() == p.len() + 27 + reference.len()
            &&& archive_path(user, repo, reference).subrange(p.len() + 27int, archive_path(user, repo, reference).len() as int) == reference
        }),
{
    reveal_strlit("repos/");
    reveal_strlit("/");
    reveal_strlit("/branches/");
    reveal_strlit("/contents/archive.toml?ref=");
    let p = repo_path(user, repo);
    assert(p.subrange(0, 6) =~= "repos/"@);
    assert(p.subrange(6, 6int + user.len()) =~= user);
    assert(p.subrange(7int + user.len(), p.len() as int) =~= repo);
    let b = branch_path(user, repo, reference);
    assert(b.subrange(0, p.len() as int) =~= p);
    assert(b.subrange(p.len() + 10int, b.len() as int) =~= reference);
    let a = archive_path(user, repo, reference);
    assert(a.subrange(0, p.len() as int) =~= p);
    assert(a.subrange(p.len() + 27int, a.len() as int) =~= reference);
}

} // verus!
