//! Privacy-first dictation: the rules that turn a microphone recording into
//! typed text, with their contracts.

pub mod audio;
pub mod buffer;
pub mod detector;
pub mod device;
pub mod dictation;
pub mod hotkey;
pub mod inject;
pub mod settings;
pub mod shell;
pub mod startup;
pub mod state;
pub mod text;
pub mod transcribe;
pub mod tray;
pub mod vad;
pub mod wav;
