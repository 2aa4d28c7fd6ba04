use articles::endpoint::content::{ContentAction, ContentRequest, ContentResponse};
use articles::endpoint::preview::{PreviewAction, PreviewRequest, PreviewResponse};
use articles::shared::common_args::{rd_as_env, RedisAccessArgs, RedisAuthArgs};
use articles::shared::jobs::article_preloading::{ArticleMeta, ImportError, TempArticleId};
use articles::shared::jobs::article_rendering::ArticleId;
use articles::shared::redis::{RedisAccess, RedisDesignation};
use articles::site;
use articles::site::types::{HtmlPage, Url};

#[test]
fn designation_numbers_round_trip() {
    assert_eq!(RedisDesignation::RenderWorkerCache.as_u32(), 0);
    assert_eq!(RedisDesignation::PreloadArticleWorkerCache.as_u32(), 1);
    assert_eq!(RedisDesignation::from_u32(0), Some(RedisDesignation::RenderWorkerCache));
    assert_eq!(RedisDesignation::from_u32(1), Some(RedisDesignation::PreloadArticleWorkerCache));
    assert_eq!(RedisDesignation::from_u32(2), None);
    for d in [RedisDesignation::RenderWorkerCache, RedisDesignation::PreloadArticleWorkerCache] {
        assert_eq!(RedisDesignation::from_u32(d.as_u32()), Some(d));
    }
    assert_eq!(RedisDesignation::PreloadArticleWorkerCache.to_string(), "PreloadArticleWorkerCache");
}

#[test]
fn redis_env_names() {
    assert_eq!(rd_as_env(0, "host"), "REDIS_RENDERWORKERCACHE_HOST");
    assert_eq!(rd_as_env(1, "base_key"), "REDIS_PRELOADARTICLEWORKERCACHE_BASE_KEY");
    assert_eq!(rd_as_env(1, "straße"), "REDIS_PRELOADARTICLEWORKERCACHE_STRASSE");
}

#[test]
fn redis_access_from_args() {
    let args: RedisAccessArgs<0> = RedisAccessArgs {
        host: "localhost".to_string(),
        port: 6379,
        base_key: "render".to_string(),
        auth: Some(RedisAuthArgs { user: "u".to_string(), password: "p".to_string() }),
    };
    let access = RedisAccess::from(&args);
    assert_eq!(access.url, "redis://localhost:6379");
    assert_eq!(access.base_key, "render");
    let auth = access.auth.unwrap();
    assert_eq!((auth.user.as_str(), auth.password.as_str()), ("u", "p"));

    let no_auth: RedisAccessArgs<1> = RedisAccessArgs {
        host: "h".to_string(),
        port: 0,
        base_key: String::new(),
        auth: None,
    };
    let access = RedisAccess::from(&no_auth);
    assert_eq!(access.url, "redis://h:0");
    assert!(access.auth.is_none());
}

#[test]
fn job_ids_display() {
    assert_eq!(ArticleId::from(0).to_string(), "0");
    assert_eq!(ArticleId::from(42).to_string(), "42");
    assert_eq!(ArticleId::from(u32::MAX).to_string(), "4294967295");
    assert_eq!(TempArticleId::from("https://github.com/a/b".to_string()).to_string(), "https://github.com/a/b");
    assert_eq!(ImportError("oops".to_string()).to_string(), "oops");
    assert_eq!(site::article::ArticleId::from(7).to_string(), "7");
    let url = Url::try_from("https://example.org".to_string()).unwrap();
    let id = site::article_preloading::TempArticleId::from(url.clone());
    assert_eq!(id.to_string(), "https://example.org");
    assert_eq!(String::from(url), "https://example.org");
    assert_eq!(String::from(HtmlPage::from("<p>x</p>".to_string())), "<p>x</p>");
}

#[test]
fn fixed_system_config() {
    let cfg = site::SystemConfig::load_me_instead();
    assert_eq!(cfg.main_endpoint_url, "http://localhost:3000");
    assert_eq!(cfg.render_worker_redis_url, "redis://localhost:5000/");
    assert_eq!(cfg.preload_article_worker_redis_url, "redis://localhost:5001/");
}

#[test]
fn preview_flow() {
    let req = PreviewRequest { url: "https://github.com/a/b".to_string() };
    match req.start() {
        PreviewAction::FetchResult(id) => assert_eq!(id.0, "https://github.com/a/b"),
        other => panic!("unexpected action {:?}", other),
    }
    match req.on_fetched::<()>(Err(())) {
        PreviewAction::Respond(PreviewResponse::Failure { status, message }) => {
            assert_eq!(status, 500);
            assert_eq!(message, "Failed to preload article");
        }
        other => panic!("unexpected action {:?}", other),
    }
    match req.on_fetched::<()>(Ok(None)) {
        PreviewAction::ScheduleJob(id) => assert_eq!(id.0, "https://github.com/a/b"),
        other => panic!("unexpected action {:?}", other),
    }
    let meta = ArticleMeta {
        repo_url: "https://github.com/a/b".to_string(),
        path_in_repo: "a.md".to_string(),
        commit: "c".to_string(),
        title: "T".to_string(),
        tags: vec![],
    };
    match req.on_fetched::<()>(Ok(Some(Ok(meta)))) {
        PreviewAction::Respond(PreviewResponse::Preview { status, url, result }) => {
            assert_eq!(status, 200);
            assert_eq!(url, "https://github.com/a/b");
            assert_eq!(result.unwrap().title, "T");
        }
        other => panic!("unexpected action {:?}", other),
    }
    match req.on_scheduled::<()>(Err(())) {
        PreviewAction::Respond(PreviewResponse::Failure { status, message }) => {
            assert_eq!(status, 500);
            assert_eq!(message, "Failed to schedule article preload");
        }
        other => panic!("unexpected action {:?}", other),
    }
    match req.on_scheduled::<()>(Ok(())) {
        PreviewAction::Respond(PreviewResponse::Loading { status, load_delay_ms, url }) => {
            assert_eq!((status, load_delay_ms), (202, 0));
            assert_eq!(url, "https://github.com/a/b");
        }
        other => panic!("unexpected action {:?}", other),
    }
}

#[test]
fn content_flow() {
    let req = ContentRequest { id: ArticleId::from(5) };
    match req.start() {
        ContentAction::FetchResult(id) => assert_eq!(id.to_string(), "5"),
        other => panic!("unexpected action {:?}", other),
    }
    match req.on_fetched::<()>(Ok(Some(Ok("<p>hi</p>".to_string())))) {
        ContentAction::Respond(ContentResponse::Content { status, id, result }) => {
            assert_eq!(status, 200);
            assert_eq!(id.to_string(), "5");
            assert_eq!(result, Ok("<p>hi</p>".to_string()));
        }
        other => panic!("unexpected action {:?}", other),
    }
    match req.on_fetched::<()>(Ok(None)) {
        ContentAction::ScheduleJob(id) => assert_eq!(id.to_string(), "5"),
        other => panic!("unexpected action {:?}", other),
    }
    match req.on_fetched::<()>(Err(())) {
        ContentAction::Respond(ContentResponse::Failure { status, message }) => {
            assert_eq!(status, 500);
            assert_eq!(message, "Failed to load article content");
        }
        other => panic!("unexpected action {:?}", other),
    }
    match req.on_scheduled::<()>(Ok(())) {
        ContentAction::Respond(ContentResponse::Loading { status, load_delay_ms, id }) => {
            assert_eq!((status, load_delay_ms), (202, 500));
            assert_eq!(id.to_string(), "5");
        }
        other => panic!("unexpected action {:?}", other),
    }
    match req.on_scheduled::<()>(Err(())) {
        ContentAction::Respond(ContentResponse::Failure { status, message }) => {
            assert_eq!(status, 500);
            assert_eq!(message, "Failed to schedule article render");
        }
        other => panic!("unexpected action {:?}", other),
    }
}
