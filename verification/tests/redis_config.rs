use articles::config::redis::{
    RedisAccess, RedisConfig, RedisConfigError, RedisConfigSerde, RedisDesignation,
    RedisInstance, RedisInstanceDesignation,
};

fn instance(url: &str, designations: &[(&str, RedisDesignation)]) -> RedisInstance {
    RedisInstance {
        url: url.to_string(),
        designations: designations
            .iter()
            .map(|(base_key, designation)| RedisInstanceDesignation {
                base_key: base_key.to_string(),
                designation: *designation,
            })
            .collect(),
    }
}

fn access_of(cfg: &RedisConfig, d: RedisDesignation) -> (String, String) {
    let RedisAccess { url, base_key } = cfg.get_access(&d).unwrap();
    (url, base_key)
}

#[test]
fn config_maps_each_designation_to_its_instance() {
    let cfg = RedisConfig::try_from(RedisConfigSerde {
        instances: vec![
            instance("redis://a:1", &[("render", RedisDesignation::RenderWorkerChache)]),
            instance("redis://b:2", &[("preload", RedisDesignation::PreloadArticleWorkerChache)]),
        ],
    })
    .unwrap();
    assert_eq!(
        access_of(&cfg, RedisDesignation::RenderWorkerChache),
        ("redis://a:1".to_string(), "render".to_string())
    );
    assert_eq!(
        access_of(&cfg, RedisDesignation::PreloadArticleWorkerChache),
        ("redis://b:2".to_string(), "preload".to_string())
    );
}

#[test]
fn config_one_instance_may_serve_both() {
    let cfg = RedisConfig::try_from(RedisConfigSerde {
        instances: vec![instance(
            "redis://shared:6379",
            &[
                ("r", RedisDesignation::RenderWorkerChache),
                ("p", RedisDesignation::PreloadArticleWorkerChache),
            ],
        )],
    })
    .unwrap();
    assert_eq!(access_of(&cfg, RedisDesignation::PreloadArticleWorkerChache).1, "p");
}

#[test]
fn config_refuses_duplicate_designation() {
    let err = RedisConfig::try_from(RedisConfigSerde {
        instances: vec![
            instance("redis://a:1", &[("x", RedisDesignation::RenderWorkerChache)]),
            instance(
                "redis://b:2",
                &[
                    ("y", RedisDesignation::PreloadArticleWorkerChache),
                    ("z", RedisDesignation::RenderWorkerChache),
                ],
            ),
        ],
    })
    .unwrap_err();
    assert_eq!(err, RedisConfigError::DuplicateDesignation(RedisDesignation::RenderWorkerChache));
}

#[test]
fn config_reports_missing_designation() {
    let cfg = RedisConfig::try_from(RedisConfigSerde {
        instances: vec![instance("redis://a:1", &[("x", RedisDesignation::RenderWorkerChache)])],
    })
    .unwrap();
    assert_eq!(
        cfg.get_access(&RedisDesignation::PreloadArticleWorkerChache).unwrap_err(),
        RedisConfigError::MissingDesignation(RedisDesignation::PreloadArticleWorkerChache)
    );
    let empty = RedisConfig::try_from(RedisConfigSerde { instances: vec![] }).unwrap();
    assert!(empty.get_access(&RedisDesignation::RenderWorkerChache).is_err());
    let default = RedisConfig::default();
    assert!(default.get_access(&RedisDesignation::RenderWorkerChache).is_err());
}

#[test]
fn config_clone_answers_the_same() {
    let cfg = RedisConfig::try_from(RedisConfigSerde {
        instances: vec![instance("redis://a:1", &[("x", RedisDesignation::RenderWorkerChache)])],
    })
    .unwrap();
    let copy = cfg.clone();
    assert_eq!(
        access_of(&copy, RedisDesignation::RenderWorkerChache),
        access_of(&cfg, RedisDesignation::RenderWorkerChache)
    );
}
