//! Sandboxed code execution for a chat bot: image builds, container runs
//! with a time budget and guaranteed cleanup, per-run workspaces, and the
//! small pieces of text and protocol logic around them.

pub mod dispatch;
pub mod events;
pub mod image_build;
pub mod naming;
pub mod parse;
pub mod registry;
pub mod reply;
pub mod runner;
pub mod sandbox;
pub mod text;
pub mod traq;
pub mod workspace;
