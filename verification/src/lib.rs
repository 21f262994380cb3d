//! Lifecycle of a shader program, and the frame loop that draws with it.
//!
//! The crate decides; it does not act. Compiling a stage, linking a program,
//! looking up a uniform and drawing a frame are each a conversation with the
//! graphics device, and each is written here as a function from the state of
//! the conversation and the device's last reply to the next command. The
//! caller that owns the rendering context performs the commands, in the order
//! given, on the one thread that may.

pub mod device;
pub mod diagnostics;
pub mod frame;
pub mod linker;
pub mod linker_laws;
pub mod program;
pub mod setup;
pub mod stage;
