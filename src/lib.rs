//! Builds coverage reports in the shape that the coveralls.io ingestion
//! service expects: dense per-line and per-branch arrays, CI provenance,
//! identity precedence, the choice of wire keys, upload framing and
//! upload-status classification.
pub mod coverage;
pub mod identity;
pub mod report;
pub mod service;
pub mod source;
pub mod text;
pub mod upload;

pub use coverage::{expand_branches, expand_lines, BranchData};
pub use identity::Identity;
pub use report::{CommitRef, CoverallsReport, GitInfo, Head, Remote, UploadStatus};
pub use service::{CiService, Environment, Service};
pub use source::Source;
pub use upload::{UploadPart, COVERALLS_ENDPOINT};
