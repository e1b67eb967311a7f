//! Harnex core: the verified logic of a desktop shell around a local web service.

pub mod clock;
pub mod config;
pub mod launch;
pub mod number;
pub mod prefs;
pub mod process;
pub mod shell;
pub mod term;
pub mod text;
pub mod theme;
