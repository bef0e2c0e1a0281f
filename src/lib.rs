//! The core of a voice-channel music player: resolving a request through an
//! external resolver program into a stream and its metadata, keeping that
//! metadata, and the bounded join-then-act loop of playback commands.
pub mod commands;
pub mod metadata;
pub mod orchestrator;
pub mod resolver;
pub mod session;
pub mod source;
pub mod text;
