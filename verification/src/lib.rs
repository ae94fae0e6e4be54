//! A verified store of browser-tab records: merging of lifecycle messages and
//! captures, drift correction, retention and time-windowed views.

pub mod blob;
pub mod clock;
pub mod engine;
pub mod ids;
pub mod judgement;
pub mod laws;
pub mod model;
pub mod prompt;
pub mod record;
pub mod retention;
pub mod settings;
pub mod storage;
pub mod text;
pub mod wire;
