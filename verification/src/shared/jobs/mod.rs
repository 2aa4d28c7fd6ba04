pub mod article_preloading;
pub mod article_rendering;
