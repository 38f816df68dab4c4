//! Render a manifest-driven template tree into a deployment directory and
//! drive a compose-style container tool through its lifecycle.
//!
//! Every decision of the pipeline lives here as verified code: the caller
//! performs the file and process work that each step asks for and hands the
//! result back as an event.
//!
//! - [`up`]: bringing a deployment up, with the manifest, the template
//!   renderer, the `rand_pass` helper and the mirroring of the source tree;
//! - [`down`]: taking it down;
//! - [`new`]: creating an application from the starter files;
//! - [`compose_helper`]: choosing and running the compose tool;
//! - [`coordinator`]: exit codes and the graceful shutdown;
//! - [`outcome`]: how operations end, and the failures they end with;
//! - [`paths`]: relative paths and the well-known files;
//! - [`logger`] and [`version`]: what the program logs and calls itself.

pub mod compose_helper;
pub mod coordinator;
pub mod down;
pub mod logger;
pub mod new;
pub mod outcome;
pub mod paths;
pub mod up;
pub mod version;
