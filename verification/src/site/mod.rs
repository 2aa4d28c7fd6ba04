//! Types shared by the site's endpoint and workers: the system configuration,
//! URLs, rendered pages and job payloads.
pub mod article;
pub mod article_preloading;
pub mod types;

use vstd::prelude::*;
use vstd::string::*;

verus! {

/// Where the endpoint listens and where the workers' Redis instances are.
#[derive(Debug)]
pub struct SystemConfig {
    pub main_endpoint_url: String,
    pub render_worker_redis_url: String,
    pub preload_article_worker_redis_url: String,
}

impl SystemConfig {
    /// The fixed configuration used until one is loaded.
    pub fn load_me_instead() -> (r: SystemConfig)
        ensures
            r.main_endpoint_url@ == "http://localhost:3000"@,
            r.render_worker_redis_url@ == "redis://localhost:5000/"@,
            r.preload_article_worker_redis_url@ == "redis://localhost:5001/"@,
    {
        SystemConfig {
            main_endpoint_url: String::from_str("http://localhost:3000"),
            render_worker_redis_url: String::from_str("redis://localhost:5000/"),
            preload_article_worker_redis_url: String::from_str("redis://localhost:5001/"),
        }
    }
}

} // verus!
