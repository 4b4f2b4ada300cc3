//! Job lifecycle and status tracking for a media transcription service.
//!
//! Uploaded media files are staged under namespaced object keys in blob
//! storage, a remote workflow execution is started for each object, and an
//! in-memory registry tracks every execution from `pending` to `complete`.
//! This crate holds the verified core: the job registry, the derivation of a
//! job identifier from an execution handle, object-key construction with
//! filename sanitization, and the decision logic of the four request
//! handlers. Network transport and multipart ingestion live outside, in the
//! surrounding application, which hands this crate plain values.

pub mod handlers;
pub mod jobid;
pub mod registry;
pub mod status;
pub mod strutil;
pub mod upload;
pub mod workflow;
