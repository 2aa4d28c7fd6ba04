//! Verified core of an article platform: configuration of the Redis
//! instances, the Redis job queue protocol shared by endpoints and workers,
//! the import of article metadata from GitHub, and the shared data types.

pub mod article_import;
pub mod config;
pub mod endpoint;
pub mod job_worker;
pub mod service_core;
pub mod shared;
pub mod site;
pub mod text;
