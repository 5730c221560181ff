//! Packaging of natively compiled executables for a managed host whose entry
//! point only loads a script: cross-build orchestration, the embedding of the
//! built binary into a self-extracting launcher, and toolchain diagnostics.

pub mod codec;
pub mod launcher;
pub mod metadata;
pub mod locate;
pub mod toolchain;
pub mod pipeline;
pub mod text;
pub mod doctor;
pub mod project;
pub mod command;
