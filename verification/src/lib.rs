//! Building blocks of the Unity server: the text of its log lines and the
//! loading of its configuration.

pub mod clock;
pub mod configuration;
pub mod document;
pub mod logger;

pub use logger::format_line;
pub use logger::log_line;
pub use logger::LogLevel;
