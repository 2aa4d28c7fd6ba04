//! Import of article metadata from GitHub: which repository and commit a
//! submitted URL names, the GitHub requests that resolve it, and the metadata
//! that results.
pub mod url_text;
pub mod process_job;
pub mod github;
