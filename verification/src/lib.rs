//! A small library behind a command-line tool that fetches one Notion page.
//!
//! The library holds everything the tool decides or computes: resolving the
//! per-user configuration root, planning the one-time creation of a config
//! file and a secrets file, shaping the request to Notion's API, rendering
//! the report, and the linear flow that ties these steps together. The
//! surrounding binary only performs the environment reads, filesystem
//! operations, and the HTTP call that the flow asks for.

pub mod bootstrap;
pub mod credential;
pub mod flow;
pub mod paths;
pub mod request;
