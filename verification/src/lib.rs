//! Verified core of the Memorata recording and transcription pipeline.

pub mod text;
pub mod language;
pub mod assembly;
pub mod session;
pub mod coordinator;
pub mod power;
pub mod history;
