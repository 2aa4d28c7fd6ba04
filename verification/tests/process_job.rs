use articles::article_import::github::{
    default_branch_api_url, latest_commit_api_url, raw_archive_toml_url, GitHubApi,
};
use articles::article_import::process_job::{
    check_is_commit_sha, process_job, try_process_job, ArchiveMeta, ImportReply, ImportRequest, ImportStage,
};
use articles::shared::jobs::article_preloading::TempArticleId;

#[test]
fn test_check_is_commit_sha() {
    assert!(check_is_commit_sha("a3c2565e5f4b6c7d8e9f0a1b2c3d4e5f6a7b8c9d"));
    assert!(!check_is_commit_sha("not-a-sha"));
    assert!(!check_is_commit_sha("12345"));
}

fn tags(list: &[&str]) -> Vec<String> {
    list.iter().map(|t| t.to_string()).collect()
}

#[test]
fn test_process_job_commit_url() {
    let commit_sha = "a3c2565e5f4b6c7d8e9f0a1b2c3d4e5f6a7b8c9d";
    let job_url = format!(
        "https://github.com/{}/{}/commit/{}",
        "some-user", "some-repo", commit_sha
    );
    let job = TempArticleId(job_url.clone());

    let (job_state, request) = process_job(&job);
    match &request {
        Some(ImportRequest::FetchArchiveToml { user, repo, commit }) => {
            assert_eq!(user, "some-user");
            assert_eq!(repo, "some-repo");
            assert_eq!(commit, commit_sha);
        }
        other => panic!("unexpected request {:?}", other),
    }
    let api = GitHubApi::with_base_url("http://127.0.0.1:5000/".to_string());
    assert_eq!(
        api.archive_toml_url("some-user", "some-repo", commit_sha).unwrap(),
        "http://127.0.0.1:5000/repos/some-user/some-repo/contents/archive.toml?ref=a3c2565e5f4b6c7d8e9f0a1b2c3d4e5f6a7b8c9d"
    );

    let (done, request) = job_state.advance(ImportReply::Archive(Ok(ArchiveMeta {
        title: "My test article".to_string(),
        tags: tags(&["rust", "github"]),
        path_in_repo: "articles/test.md".to_string(),
    })));
    assert!(request.is_none());
    let meta = match done.stage {
        ImportStage::Finished(Ok(meta)) => meta,
        other => panic!("unexpected stage {:?}", other),
    };
    assert_eq!(&*meta.title, "My test article");
    assert_eq!(meta.tags, tags(&["rust", "github"]));
    assert_eq!(&*meta.path_in_repo, "articles/test.md");
    assert_eq!(&*meta.commit, commit_sha);
    assert_eq!(meta.repo_url, job_url);
}

#[test]
fn test_process_job_default_branch() {
    let job = TempArticleId("https://github.com/some-user/some-repo".to_string());
    let api = GitHubApi::with_base_url("http://127.0.0.1:5000/".to_string());

    let (state, request) = process_job(&job);
    match &request {
        Some(ImportRequest::GetDefaultBranch { user, repo }) => {
            assert_eq!(
                api.default_branch_url(user, repo).unwrap(),
                "http://127.0.0.1:5000/repos/some-user/some-repo"
            );
        }
        other => panic!("unexpected request {:?}", other),
    }

    let (state, request) = state.advance(ImportReply::DefaultBranch(Ok("main".to_string())));
    match &request {
        Some(ImportRequest::GetLatestCommit { user, repo, branch }) => {
            assert_eq!(branch, "main");
            assert_eq!(
                api.latest_commit_url(user, repo, branch).unwrap(),
                "http://127.0.0.1:5000/repos/some-user/some-repo/branches/main"
            );
        }
        other => panic!("unexpected request {:?}", other),
    }

    let (state, request) =
        state.advance(ImportReply::LatestCommit(Ok("commit-for-main".to_string())));
    match &request {
        Some(ImportRequest::FetchArchiveToml { user, repo, commit }) => {
            assert_eq!(commit, "commit-for-main");
            assert_eq!(
                api.archive_toml_url(user, repo, commit).unwrap(),
                "http://127.0.0.1:5000/repos/some-user/some-repo/contents/archive.toml?ref=commit-for-main"
            );
        }
        other => panic!("unexpected request {:?}", other),
    }

    let (done, request) = state.advance(ImportReply::Archive(Ok(ArchiveMeta {
        title: "Main branch article".to_string(),
        tags: tags(&["rust"]),
        path_in_repo: "articles/main.md".to_string(),
    })));
    assert!(request.is_none());
    let meta = match done.stage {
        ImportStage::Finished(Ok(meta)) => meta,
        other => panic!("unexpected stage {:?}", other),
    };
    assert_eq!(&*meta.title, "Main branch article");
    assert_eq!(meta.tags, tags(&["rust"]));
    assert_eq!(&*meta.path_in_repo, "articles/main.md");
    assert_eq!(&*meta.commit, "commit-for-main");
}

fn finished_error(url: &str) -> String {
    let (state, request) = process_job(&TempArticleId(url.to_string()));
    assert!(request.is_none());
    match state.stage {
        ImportStage::Finished(Err(e)) => e.to_string(),
        other => panic!("unexpected stage {:?}", other),
    }
}

#[test]
fn import_refuses_other_hosts() {
    assert_eq!(
        finished_error("https://gitlab.com/some-user/some-repo"),
        "Only github.com URLs are supported"
    );
    assert_eq!(
        finished_error("https://127.0.0.1/some-user/some-repo"),
        "Only github.com URLs are supported"
    );
    assert_eq!(finished_error("not a url"), "Only github.com URLs are supported");
}

#[test]
fn import_refuses_url_without_repository() {
    assert_eq!(finished_error("https://github.com/some-user"), "Invalid GitHub repository URL");
    assert_eq!(finished_error("https://github.com"), "Invalid GitHub repository URL");
}

#[test]
fn import_tree_with_sha_fetches_archive_directly() {
    let sha = "0123456789abcdefABCDEF0123456789abcdef01";
    let url = format!("https://github.com/u/r/tree/{}/docs", sha);
    let (state, request) = process_job(&TempArticleId(url));
    match request {
        Some(ImportRequest::FetchArchiveToml { commit, .. }) => assert_eq!(commit, sha),
        other => panic!("unexpected request {:?}", other),
    }
    assert!(matches!(state.stage, ImportStage::FetchingArchive { .. }));
}

#[test]
fn import_tree_with_branch_asks_latest_commit() {
    let (state, request) =
        process_job(&TempArticleId("https://github.com/u/r/tree/develop".to_string()));
    match request {
        Some(ImportRequest::GetLatestCommit { user, repo, branch }) => {
            assert_eq!((user.as_str(), repo.as_str(), branch.as_str()), ("u", "r", "develop"));
        }
        other => panic!("unexpected request {:?}", other),
    }
    assert!(matches!(state.stage, ImportStage::ResolvingLatestCommit));
}

#[test]
fn import_of_unhandled_path_shape_is_not_started() {
    assert!(try_process_job(&TempArticleId("https://github.com/u/r/blob/main".to_string())).is_none());
    assert!(try_process_job(&TempArticleId("https://github.com/u/r/".to_string())).is_none());
    assert!(try_process_job(&TempArticleId("https://github.com/u/r/commit".to_string())).is_none());
    assert!(try_process_job(&TempArticleId("https://github.com/u/r".to_string())).is_some());
    assert!(try_process_job(&TempArticleId("https://gitlab.com/u/r/".to_string())).is_some());
}

#[test]
fn import_error_reply_ends_with_its_text() {
    let (state, _) =
        process_job(&TempArticleId("https://github.com/u/r".to_string()));
    assert!(state.accepts(&ImportReply::DefaultBranch(Ok("main".to_string()))));
    assert!(!state.accepts(&ImportReply::LatestCommit(Ok("x".to_string()))));
    let (done, request) = state.advance(ImportReply::DefaultBranch(Err("boom".to_string())));
    assert!(request.is_none());
    match done.stage {
        ImportStage::Finished(Err(e)) => assert_eq!(e.0, "boom"),
        other => panic!("unexpected stage {:?}", other),
    }
}

#[test]
fn public_api_urls() {
    assert_eq!(default_branch_api_url("u", "r"), "https://api.github.com/repos/u/r");
    assert_eq!(
        latest_commit_api_url("u", "r", "main"),
        "https://api.github.com/repos/u/r/branches/main"
    );
    assert_eq!(
        raw_archive_toml_url("u", "r", "abc"),
        "https://raw.githubusercontent.com/u/r/abc/archive.toml"
    );
    let api = GitHubApi::new();
    assert_eq!(api.default_branch_url("u", "r").unwrap(), "https://api.github.com/repos/u/r");
    let broken = GitHubApi::with_base_url("not a base".to_string());
    assert!(broken.default_branch_url("u", "r").is_err());
}
