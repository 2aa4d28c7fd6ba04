//! The import of one submitted URL, as a sequence of steps. The caller makes
//! the GitHub requests the steps ask for and hands back what they returned.
use vstd::prelude::*;
use vstd::string::*;
use crate::article_import::url_text::{
    UrlHost, UrlHostView, url_host, url_host_of, url_path_segments, url_path_segments_of,
};
use crate::shared::jobs::article_preloading::{
    ArticleMeta, ImportError, PreloadArticleResult, TempArticleId,
};

verus! {

/// An ASCII hexadecimal digit.
pub open spec fn is_hex_digit(c: char) -> bool {
    ('0' <= c && c <= '9') || ('a' <= c && c <= 'f') || ('A' <= c && c <= 'F')
}

/// Forty hexadecimal digits: the full name of a git commit.
pub open spec fn is_commit_sha(s: Seq<char>) -> bool {
    s.len() == 40 && forall|i: int| 0 <= i < s.len() ==> #[trigger] is_hex_digit(s[i])
}

fn is_ascii_hexdigit(c: char) -> (r: bool)
    ensures
        r == is_hex_digit(c),
{
    ('0' <= c && c <= '9') || ('a' <= c && c <= 'f') || ('A' <= c && c <= 'F')
}

/// Whether a branch name in a URL is in fact a full commit name: forty hexadecimal
/// digits. (Forty bytes that are all hexadecimal digits are forty characters.)
pub fn check_is_commit_sha(s: &str) -> (r: bool)
    ensures
        r == is_commit_sha(s@),
{
    let n = s.unicode_len();
    if n != 40 {
        return false;
    }
    let mut i: usize = 0;
    while i < n
        invariant
            n == s@.len(),
            i <= n,
            forall|j: int| 0 <= j < i ==> #[trigger] is_hex_digit(s@[j]),
        decreases n - i,
    {
        if !is_ascii_hexdigit(s.get_char(i)) {
            return false;
        }
        i = i + 1;
    }
    true
}

/// What the submitted URL asks for.
pub enum ImportPlan {
    /// The import fails at once with this message.
    Fail(Seq<char>),
    /// The commit is named: fetch the archive description at it.
    FetchArchive { user: Seq<char>, repo: Seq<char>, commit: Seq<char> },
    /// A branch is named: ask GitHub for its latest commit.
    LatestCommit { user: Seq<char>, repo: Seq<char>, branch: Seq<char> },
    /// Only the repository is named: ask GitHub for its default branch.
    DefaultBranch { user: Seq<char>, repo: Seq<char> },
    /// A path of a shape the import does not handle.
    Unsupported,
}

/// The plan for a URL with this host and these path segments: only
/// `github.com/<user>/<repo>`, optionally followed by `commit/<sha>` or
/// `tree/<branch or sha>`, is imported.
pub open spec fn import_plan(host: Option<UrlHostView>, segments: Option<Seq<Seq<char>>>) -> ImportPlan {
    if host != Some(UrlHostView::Domain("github.com"@)) {
        ImportPlan::Fail("Only github.com URLs are supported"@)
    } else if segments is None || segments->0.len() < 2 {
        ImportPlan::Fail("Invalid GitHub repository URL"@)
    } else {
        let s = segments->0;
        if s.len() >= 4 && s[2] == "commit"@ {
            ImportPlan::FetchArchive { user: s[0], repo: s[1], commit: s[3] }
        } else if s.len() >= 4 && s[2] == "tree"@ {
            if is_commit_sha(s[3]) {
                ImportPlan::FetchArchive { user: s[0], repo: s[1], commit: s[3] }
            } else {
                ImportPlan::LatestCommit { user: s[0], repo: s[1], branch: s[3] }
            }
        } else if s.len() == 2 {
            ImportPlan::DefaultBranch { user: s[0], repo: s[1] }
        } else {
            ImportPlan::Unsupported
        }
    }
}

/// The archive description of a repository (`archive.toml`).
#[derive(Clone, Debug)]
pub struct ArchiveMeta {
    pub title: String,
    pub tags: Vec<String>,
    pub path_in_repo: String,
}

/// Where an import stands.
#[derive(Debug)]
pub enum ImportStage {
    ResolvingDefaultBranch,
    ResolvingLatestCommit,
    FetchingArchive { commit: String },
    Finished(PreloadArticleResult),
}

/// A request to GitHub that an import needs answered.
#[derive(Debug)]
pub enum ImportRequest {
    GetDefaultBranch { user: String, repo: String },
    GetLatestCommit { user: String, repo: String, branch: String },
    FetchArchiveToml { user: String, repo: String, commit: String },
}

/// The answer to a request: the value, or the error's text.
#[derive(Debug)]
pub enum ImportReply {
    DefaultBranch(Result<String, String>),
    LatestCommit(Result<String, String>),
    Archive(Result<ArchiveMeta, String>),
}

/// One import: the submitted URL, the repository it names, and the stage reached.
#[derive(Debug)]
pub struct ImportJob {
    pub url: String,
    pub user: String,
    pub repo: String,
    pub stage: ImportStage,
}

/// How many stages at most lie between a stage and the end.
pub open spec fn stage_rank(stage: ImportStage) -> nat {
    match stage {
        ImportStage::ResolvingDefaultBranch => 3,
        ImportStage::ResolvingLatestCommit => 2,
        ImportStage::FetchingArchive { .. } => 1,
        ImportStage::Finished(_) => 0,
    }
}

pub open spec fn host_view(host: Option<UrlHost>) -> Option<UrlHostView> {
    match host {
        Some(h) => Some(h@),
        None => None,
    }
}

pub open spec fn segments_view(segments: Option<Vec<String>>) -> Option<Seq<Seq<char>>> {
    match segments {
        Some(v) => Some(v@.map_values(|s: String| s@)),
        None => None,
    }
}

/// The job and request carry out the plan.
pub open spec fn follows_plan(job: ImportJob, request: Option<ImportRequest>, plan: ImportPlan) -> bool {
    match plan {
        ImportPlan::Fail(msg) => {
            &&& job.stage matches ImportStage::Finished(Err(e))
            &&& e.0@ == msg
            &&& request is None
        },
        ImportPlan::FetchArchive { user, repo, commit } => {
            &&& job.user@ == user
            &&& job.repo@ == repo
            &&& job.stage matches ImportStage::FetchingArchive { commit: c } && c@ == commit
            &&& request matches Some(ImportRequest::FetchArchiveToml { user: u, repo: r, commit: c })
                && u@ == user && r@ == repo && c@ == commit
        },
        ImportPlan::LatestCommit { user, repo, branch } => {
            &&& job.user@ == user
            &&& job.repo@ == repo
            &&& job.stage is ResolvingLatestCommit
            &&& request matches Some(ImportRequest::GetLatestCommit { user: u, repo: r, branch: b })
                && u@ == user && r@ == repo && b@ == branch
        },
        ImportPlan::DefaultBranch { user, repo } => {
            &&& job.user@ == user
            &&& job.repo@ == repo
            &&& job.stage is ResolvingDefaultBranch
            &&& request matches Some(ImportRequest::GetDefaultBranch { user: u, repo: r })
                && u@ == user && r@ == repo
        },
        ImportPlan::Unsupported => false,
    }
}

fn failed(url: String, msg: &str) -> (r: (ImportJob, Option<ImportRequest>))
    ensures
        r.0.url == url,
        r.0.stage matches ImportStage::Finished(Err(e)) && e.0@ == msg@,
        r.1 is None,
{
    let job = ImportJob {
        url,
        user: String::new(),
        repo: String::new(),
        stage: ImportStage::Finished(Err(ImportError(String::from_str(msg)))),
    };
    (job, None)
}

fn text_is(s: &String, lit: &str) -> (r: bool)
    ensures
        r == (s@ == lit@),
{
    let other = String::from_str(lit);
    *s == other
}

/// The first step of an import, given the URL's host and path segments as the
/// `url` crate reads them. A path of a shape the import does not handle is not accepted.
pub fn plan_import(url: String, host: Option<UrlHost>, segments: Option<Vec<String>>) -> (r: (
    ImportJob,
    Option<ImportRequest>,
))
    requires
        !(import_plan(host_view(host), segments_view(segments)) is Unsupported),
    ensures
        r.0.url == url,
        follows_plan(r.0, r.1, import_plan(host_view(host), segments_view(segments))),
{
    let is_github = match &host {
        Some(UrlHost::Domain(d)) => text_is(d, "github.com"),
        _ => false,
    };
    if !is_github {
        return failed(url, "Only github.com URLs are supported");
    }
    let segments = match segments {
        Some(v) => v,
        None => {
            return failed(url, "Invalid GitHub repository URL");
        },
    };
    if segments.len() < 2 {
        return failed(url, "Invalid GitHub repository URL");
    }
    let ghost s = segments@.map_values(|x: String| x@);
    let user = segments[0].clone();
    let repo = segments[1].clone();
    assert(s[0] == user@ && s[1] == repo@);
    if segments.len() >= 4 {
        let kind = &segments[2];
        let reference = segments[3].clone();
        assert(s[2] == kind@ && s[3] == reference@);
        let named_commit = text_is(kind, "commit");
        let named_tree = text_is(kind, "tree");
        if named_commit || (named_tree && check_is_commit_sha(reference.as_str())) {
            let request = ImportRequest::FetchArchiveToml {
                user: user.clone(),
                repo: repo.clone(),
                commit: reference.clone(),
            };
            let job = ImportJob {
                url,
                user,
                repo,
                stage: ImportStage::FetchingArchive { commit: reference },
            };
            return (job, Some(request));
        }
        assert(named_tree);
        let request = ImportRequest::GetLatestCommit {
            user: user.clone(),
            repo: repo.clone(),
            branch: reference,
        };
        let job = ImportJob { url, user, repo, stage: ImportStage::ResolvingLatestCommit };
        (job, Some(request))
    } else {
        assert(segments.len() == 2);
        let request = ImportRequest::GetDefaultBranch { user: user.clone(), repo: repo.clone() };
        let job = ImportJob { url, user, repo, stage: ImportStage::ResolvingDefaultBranch };
        (job, Some(request))
    }
}

/// Starts the import of a submitted URL: reads its host and path segments with
/// the `url` crate and plans the first step. Only URLs whose path has a shape the
/// import handles are accepted: a github.com URL whose path goes on after
/// `<user>/<repo>` with anything but `commit/<sha>` or `tree/<reference>` (a
/// trailing slash, `blob/...`, a lone `commit`) is left out; for those the import
/// has no defined behaviour. `try_process_job` tests this first.
pub fn process_job(job: &TempArticleId) -> (r: (ImportJob, Option<ImportRequest>))
    requires
        !(import_plan(url_host_of(job.0@), url_path_segments_of(job.0@)) is Unsupported),
    ensures
        r.0.url@ == job.0@,
        follows_plan(r.0, r.1, import_plan(url_host_of(job.0@), url_path_segments_of(job.0@))),
{
    let host = url_host(job.0.as_str());
    let segments = url_path_segments(job.0.as_str());
    proof {
        if host is Some {
            assert(host_view(host) == url_host_of(job.0@));
        }
    }
    plan_import(job.0.clone(), host, segments)
}

/// `process_job` where the URL's path has a shape the import handles; `None`, and
/// no step taken, for the shapes `process_job` leaves out, on which the import
/// has no defined behaviour.
pub fn try_process_job(job: &TempArticleId) -> (r: Option<(ImportJob, Option<ImportRequest>)>)
    ensures
        r is None <==> import_plan(url_host_of(job.0@), url_path_segments_of(job.0@)) is Unsupported,
        r matches Some((j, q)) ==> j.url@ == job.0@ && follows_plan(
            j,
            q,
            import_plan(url_host_of(job.0@), url_path_segments_of(job.0@)),
        ),
{
    let host = url_host(job.0.as_str());
    let segments = url_path_segments(job.0.as_str());
    proof {
        if host is Some {
            assert(host_view(host) == url_host_of(job.0@));
        }
    }
    if !plan_supported(&host, &segments) {
        return None;
    }
    Some(process_job(job))
}

/// Whether the plan for this host and these segments is one the import carries out.
pub fn plan_supported(host: &Option<UrlHost>, segments: &Option<Vec<String>>) -> (r: bool)
    ensures
        r == !(import_plan(host_view(*host), segments_view(*segments)) is Unsupported),
{
    let is_github = match host {
        Some(UrlHost::Domain(d)) => text_is(d, "github.com"),
        _ => false,
    };
    if !is_github {
        return true;
    }
    match segments {
        None => true,
        Some(v) => {
            let ghost s = v@.map_values(|x: String| x@);
            if v.len() < 2 || v.len() == 2 {
                true
            } else if v.len() >= 4 {
                assert(s[2] == v[2]@);
                text_is(&v[2], "commit") || text_is(&v[2], "tree")
            } else {
                false
            }
        },
    }
}

impl ImportJob {
    /// Whether `reply` answers the request of this job's stage.
    pub open spec fn awaits(&self, reply: ImportReply) -> bool {
        match (self.stage, reply) {
            (ImportStage::ResolvingDefaultBranch, ImportReply::DefaultBranch(_)) => true,
            (ImportStage::ResolvingLatestCommit, ImportReply::LatestCommit(_)) => true,
            (ImportStage::FetchingArchive { .. }, ImportReply::Archive(_)) => true,
            _ => false,
        }
    }

    pub fn accepts(&self, reply: &ImportReply) -> (r: bool)
        ensures
            r == self.awaits(*reply),
    {
        match (&self.stage, reply) {
            (ImportStage::ResolvingDefaultBranch, ImportReply::DefaultBranch(_)) => true,
            (ImportStage::ResolvingLatestCommit, ImportReply::LatestCommit(_)) => true,
            (ImportStage::FetchingArchive { .. }, ImportReply::Archive(_)) => true,
            _ => false,
        }
    }

    /// The next step of an import, given the answer to its pending request: the
    /// default branch leads to asking for its latest commit, the latest commit to
    /// fetching the archive description there, and the description to the
    /// article's metadata. Any error ends the import with its text.
    pub fn advance(self, reply: ImportReply) -> (r: (ImportJob, Option<ImportRequest>))
        requires
            self.awaits(reply),
        ensures
            r.0.url == self.url,
            r.0.user == self.user,
            r.0.repo == self.repo,
            stage_rank(r.0.stage) < stage_rank(self.stage),
            r.1 is None <==> r.0.stage is Finished,
            match reply {
                ImportReply::DefaultBranch(Ok(branch)) => {
                    &&& r.0.stage is ResolvingLatestCommit
                    &&& r.1 == Some(ImportRequest::GetLatestCommit {
                        user: self.user,
                        repo: self.repo,
                        branch,
                    })
                },
                ImportReply::LatestCommit(Ok(commit)) => {
                    &&& r.0.stage == ImportStage::FetchingArchive { commit }
                    &&& r.1 == Some(ImportRequest::FetchArchiveToml {
                        user: self.user,
                        repo: self.repo,
                        commit,
                    })
                },
                ImportReply::Archive(Ok(meta)) => {
                    &&& self.stage matches ImportStage::FetchingArchive { commit }
                    &&& r.0.stage == ImportStage::Finished(Ok(ArticleMeta {
                        repo_url: self.url,
                        path_in_repo: meta.path_in_repo,
                        commit,
                        title: meta.title,
                        tags: meta.tags,
                    }))
                },
                ImportReply::DefaultBranch(Err(msg)) | ImportReply::LatestCommit(Err(msg))
                | ImportReply::Archive(Err(msg)) => {
                    r.0.stage == ImportStage::Finished(Err(ImportError(msg)))
                },
            },
    {
        let ImportJob { url, user, repo, stage } = self;
        match reply {
            ImportReply::DefaultBranch(Ok(branch)) => {
                let request = ImportRequest::GetLatestCommit {
                    user: user.clone(),
                    repo: repo.clone(),
                    branch,
                };
                (ImportJob { url, user, repo, stage: ImportStage::ResolvingLatestCommit }, Some(request))
            },
            ImportReply::LatestCommit(Ok(commit)) => {
                let request = ImportRequest::FetchArchiveToml {
                    user: user.clone(),
                    repo: repo.clone(),
                    commit: commit.clone(),
                };
                (ImportJob { url, user, repo, stage: ImportStage::FetchingArchive { commit } }, Some(request))
            },
            ImportReply::Archive(Ok(meta)) => {
                let commit = match stage {
                    ImportStage::FetchingArchive { commit } => commit,
                    _ => {
                        proof {
                            assert(false);
                        }
                        String::new()
                    },
                };
                let article = ArticleMeta {
                    repo_url: url.clone(),
                    path_in_repo: meta.path_in_repo,
                    commit,
                    title: meta.title,
                    tags: meta.tags,
                };
                (ImportJob { url, user, repo, stage: ImportStage::Finished(Ok(article)) }, None)
            },
            ImportReply::DefaultBranch(Err(msg)) | ImportReply::LatestCommit(Err(msg))
            | ImportReply::Archive(Err(msg)) => {
                (ImportJob { url, user, repo, stage: ImportStage::Finished(Err(ImportError(msg))) }, None)
            },
        }
    }
}

/// An import that starts has at most three stages ahead of it, and a request is
/// pending exactly while it is unfinished; since every step lowers the rank,
/// an import asks GitHub at most three times and then finishes.
pub proof fn law_import_is_bounded(job: ImportJob, request: Option<ImportRequest>, plan: ImportPlan)
    requires
        follows_plan(job, request, plan),
    ensures
        stage_rank(job.stage) <= 3,
        request is None <==> job.stage is Finished,
{
}

/// Only github.com repositories are imported: a URL with any other host ends the
/// import at once with the same message, whatever its path.
pub proof fn law_only_github_is_imported(host: Option<UrlHostView>, segments: Option<Seq<Seq<char>>>)
    requires
        host != Some(UrlHostView::Domain("github.com"@)),
    ensures
        import_plan(host, segments) == ImportPlan::Fail("Only github.com URLs are supported"@),
{
}

/// A tree reference that is a full commit name is used as the commit as it
/// stands, with no question to GitHub; any other tree reference is a branch.
pub proof fn law_tree_reference(user: Seq<char>, repo: Seq<char>, reference: Seq<char>, rest: Seq<Seq<char>>)
    ensures
        ({
            let segments = seq![user, repo, "tree"@, reference] + rest;
            let plan = import_plan(Some(UrlHostView::Domain("github.com"@)), Some(segments));
            &&& is_commit_sha(reference) ==> plan == ImportPlan::FetchArchive { user, repo, commit: reference }
            &&& !is_commit_sha(reference) ==> plan == ImportPlan::LatestCommit { user, repo, branch: reference }
        }),
{
    let segments = seq![user, repo, "tree"@, reference] + rest;
    assert(segments[0] == user && segments[1] == repo && segments[2] == "tree"@ && segments[3] == reference);
    reveal_strlit("tree");
    reveal_strlit("commit");
    assert("tree"@ != "commit"@) by {
        assert("tree"@[0] != "commit"@[0]);
    }
}

/// A commit named in the URL (`<user>/<repo>/commit/<c>`) is the commit the
/// archive description is fetched at, whatever its form, with no question to
/// GitHub: the first step fetches the archive at exactly `c`.
pub proof fn law_commit_reference(
    user: Seq<char>,
    repo: Seq<char>,
    commit: Seq<char>,
    rest: Seq<Seq<char>>,
    job: ImportJob,
    request: Option<ImportRequest>,
)
    ensures
        ({
            let segments = seq![user, repo, "commit"@, commit] + rest;
            let plan = import_plan(Some(UrlHostView::Domain("github.com"@)), Some(segments));
            &&& plan == ImportPlan::FetchArchive { user, repo, commit }
            &&& follows_plan(job, request, plan) ==> {
                &&& job.stage matches ImportStage::FetchingArchive { commit: c } && c@ == commit
                &&& request matches Some(ImportRequest::FetchArchiveToml { user: u, repo: r, commit: c })
                    && u@ == user && r@ == repo && c@ == commit
            }
        }),
{
    let segments = seq![user, repo, "commit"@, commit] + rest;
    assert(segments[0] == user && segments[1] == repo && segments[2] == "commit"@ && segments[3]
        == commit);
}

} // verus!
