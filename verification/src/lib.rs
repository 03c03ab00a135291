//! A resumable multipart file-upload engine.
//!
//! Files are shipped to a remote object store in fixed-size chunks. The
//! engine keeps a durable record of every upload and of each part the
//! remote has acknowledged, so an interrupted upload resumes from the
//! last persisted part. A cooperative scheduler serializes the work,
//! honours pause/resume gates (network, storage write access, quota),
//! and fans progress out to per-file subscribers.

pub mod chunk;
pub mod error;
pub mod manager;
pub mod progress;
pub mod queue;
pub mod record;
pub mod store;
pub mod uploader;
