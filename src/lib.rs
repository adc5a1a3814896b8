//! Severity-tagged, colourised console messages and fatal crash reports.

pub mod color;
pub mod config;
pub mod severity;
pub mod styling;

pub use color::{Color, ColorMap};
pub use config::{
    fatal_exit, format_line, Config, FatalExit, FatalReport, HostInfo, HowToBugReport, LlvmVersion,
    ReportFile, FATAL_REPORTED, REPORT_FAILED, VERSION,
};
pub use severity::Severity;
pub use styling::decimal_string;
