//! Verified core of a push-to-talk dictation tool.

pub mod audio;
pub mod clipboard;
pub mod commands;
pub mod config;
pub mod crypto;
pub mod data_saving;
pub mod error;
pub mod hotkey;
pub mod llm;
pub mod numeric;
pub mod order;
pub mod perf;
pub mod realtime;
pub mod speech;
pub mod startup;
pub mod state;
pub mod text;
pub mod watchdog;
pub mod wav;
