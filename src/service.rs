//! Device settings as typed values.

pub mod settings;
