//! A programmatic document model for container build specifications.
//!
//! The crate models each build instruction as a typed value, accumulates
//! instructions in a [`DockerFile`] document, and renders the document into
//! the exact textual syntax a container image builder consumes. Rendering is
//! a pure function of the document: every `render` method carries an
//! `ensures` clause that pins its output down to the character.

pub mod text;

pub mod instructions;

mod document;

pub use instructions::Add;
pub use instructions::Arg;
pub use instructions::Cmd;
pub use instructions::Comment;
pub use instructions::EntryPoint;
pub use instructions::Env;
pub use instructions::Expose;
pub use instructions::From;
pub use instructions::HealthCheck;
pub use instructions::Instruction;
pub use instructions::Label;
pub use instructions::Maintainer;
pub use instructions::OnBuild;
pub use instructions::Run;
pub use instructions::Shell;
pub use instructions::StopSignal;
pub use instructions::TagOrDigest;
pub use instructions::User;
pub use instructions::Volume;
pub use instructions::WorkDir;

pub use document::DocModel;
pub use document::DockerFile;
