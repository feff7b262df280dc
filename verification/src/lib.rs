//! Detection of a terminal's colour capability, and adaptation of colours and
//! styles to it.
//!
//! A detection reads a snapshot of signals ([`TermVars`]) and resolves it to
//! one [`TermProfile`]: [`TermProfile::detect_with_vars`]. The profile then
//! adapts any number of colours and styles: [`TermProfile::adapt_color`],
//! [`TermProfile::adapt_style`].
//!
//! The library reads no environment, runs no program and touches no
//! terminal. The snapshot is built from a source of variables that the caller
//! hands in ([`EnvVarSource`]); what the probes find is for the caller to fill
//! in, and [`DetectorSettings`] and [`ProbeState`] say which probe to run and
//! how.

pub mod adapt;
pub mod cache;
pub mod color;
pub mod detect;
pub mod probe;
pub mod profile;
pub mod quantize;
pub mod settings;
pub mod source;
pub mod style;
pub mod terminfo;
pub mod termvar;
pub mod text;
pub mod vars;

pub use adapt::ProfileColor;
pub use cache::{set_color_cache_enabled, set_color_cache_size, QuantizationCache};
pub use color::{AnsiColor, Color, Rgb};
pub use detect::{prefix_or_equal, Detector};
pub use probe::{
    perform, query, test_color, DcsEvent, ProbeAction, ProbeInput, ProbeState, QueryTerminal,
    TerminalReply,
};
pub use profile::TermProfile;
pub use quantize::{ansi256_to_ansi, ansi256_to_rgb, rgb_to_ansi256};
pub use settings::{DetectorSettings, NoTerminal};
pub use source::{EnvVarSource, IsTerminal, VarMap};
pub use style::Style;
pub use termvar::TermVar;
pub use vars::{
    OverrideVars, SpecialVars, TermMetaVars, TermVars, TerminfoVars, TmuxVars, WindowsVars,
};
