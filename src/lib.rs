//! A small leveled logger for a console that takes one character at a time.
//!
//! `level` holds the severities and the threshold that filters them,
//! `console` the character sink and the colored output, and `logger` the
//! filtering logger and the rendering of its lines.
pub mod console;
pub mod level;
pub mod logger;
