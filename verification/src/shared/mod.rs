pub mod redis;
pub mod common_args;
pub mod jobs;
