//! A small note manager built on git.
//!
//! Notes live as plain files under one base directory, which is a git
//! working tree. The work of the crate is orchestration: launching a
//! user-chosen finder or lister, the user's editor, and git, classifying
//! each child's exit, and chaining the outcomes into workflows (create or
//! edit a note, list notes, synchronize with a remote).
//!
//! The crate itself spawns no process and touches no file: every
//! invocation is described by an [`invoke::InvocationRequest`], and a thin
//! shell around the library runs the request and hands back a raw
//! [`invoke::RawOutput`]. Everything that decides — path containment,
//! exit classification, the workflow state machines — is verified here.

pub mod config;
pub mod edit;
pub mod errors;
pub mod invoke;
pub mod list;
pub mod paths;
pub mod preflight;
pub mod sync;
pub mod text;
