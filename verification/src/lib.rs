//! Hold-to-talk dictation: capture control, session arbitration and the
//! settings that surround them.

pub mod capture;
pub mod commands;
pub mod cursor;
pub mod keychain;
pub mod level;
pub mod mix;
pub mod preview;
pub mod recording;
pub mod session;
pub mod settings;
pub mod text;
pub mod transcription;
pub mod wav;
pub mod window;
