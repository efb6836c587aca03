//! Frame-paced runner for a handheld console emulator.
//!
//! The crate holds the decisions of the emulation thread and of the process
//! start-up: the configuration record with its button table and its one-shot
//! action, the audio sample cadence, the frame pacing, the per-iteration
//! state machine of the runner, and the layout of the shared segment that
//! hands a cartridge path to an instance that is already running.  The
//! emulation core, the audio device, files, threads and the clock belong to
//! the caller, which performs what the runner asks for.

pub mod audio;
pub mod button_map;
pub mod channel;
pub mod config;
pub mod dispatcher;
pub mod handoff;
pub mod input;
pub mod instance;
pub mod pacing;
pub mod runner;
