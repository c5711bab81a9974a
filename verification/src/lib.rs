//! Command gateway for a cloud-synced document folder and a companion machine.
//!
//! The gateway plans five commands: persisting, retrieving and enumerating
//! documents in a cloud-synced directory, probing a remote host over HTTP,
//! and relaying a shell command to a companion machine. Planning — resolving
//! paths, building URLs, framing the JSON payload, classifying outcomes — is
//! verified here; the host performs the filesystem and network effects.

pub mod gateway;
pub mod json;
pub mod paths;
pub mod text;
pub mod urls;
