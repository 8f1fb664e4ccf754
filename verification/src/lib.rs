//! Verified core of a text-to-speech model launcher: the manifest of model
//! weights, SHA-256 checking of downloaded files, the order in which model
//! files are looked for, command-line mode rules and the WAV layout.

pub mod text;
pub mod digest;
pub mod manifest;
pub mod release;
pub mod fetch;
pub mod resolve;
pub mod mode;
pub mod wav;
pub mod paths;
