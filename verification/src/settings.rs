//! What a detection may do beyond reading variables, and the decisions that
//! follow from it.

use crate::detect::prefix_or_equal;
use crate::probe::{DcsEvent, QueryTerminal};
use crate::source::{EnvVarSource, IsTerminal};
use crate::vars::TermVars;
use vstd::prelude::*;

verus! {

/// The terminal that is never asked: it is none, and it has nothing to say.
#[derive(Debug, Clone, Copy, PartialEq, Eq, Structural)]
pub struct NoTerminal;

impl IsTerminal for NoTerminal {
    /// It is no terminal.
    fn is_terminal(&self) -> (answer: bool)
        ensures
            !answer,
    {
        false
    }
}

impl QueryTerminal for NoTerminal {
    /// There is no mode to enter: it is done, always, and nothing changes.
    fn setup(&mut self) -> (r: Result<(), std::io::Error>)
        ensures
            r is Ok,
            *final(self) == *old(self),
    {
        Ok(())
    }

    /// There is no mode to leave: it is done, always, and nothing changes.
    fn cleanup(&mut self) -> (r: Result<(), std::io::Error>)
        ensures
            r is Ok,
            *final(self) == *old(self),
    {
        Ok(())
    }

    /// The question goes nowhere: it counts as sent, always, whatever it is,
    /// and nothing changes.
    fn send(&mut self, query: &str) -> (r: Result<(), std::io::Error>)
        ensures
            r is Ok,
            *final(self) == *old(self),
    {
        Ok(())
    }

    /// No answer ever comes: the wait runs out at once, and nothing changes.
    fn read_event(&mut self) -> (r: Result<DcsEvent, std::io::Error>)
        ensures
            r == Ok::<DcsEvent, std::io::Error>(DcsEvent::TimedOut),
            *final(self) == *old(self),
    {
        Ok(DcsEvent::TimedOut)
    }
}

/// Which probes a detection may run, and the terminal for the one that asks it.
#[derive(Debug)]
pub struct DetectorSettings<T> {
    enable_dcs: bool,
    enable_terminfo: bool,
    enable_tmux_info: bool,
    query_terminal: T,
}

impl DetectorSettings<NoTerminal> {
    /// The settings to begin with: terminfo and `tmux info` may be read, the
    /// terminal is not asked.
    pub fn new() -> (r: DetectorSettings<NoTerminal>)
        ensures
            !r.dcs_enabled(),
            r.terminfo_enabled(),
            r.tmux_info_enabled(),
    {
        DetectorSettings {
            enable_dcs: false,
            enable_terminfo: true,
            enable_tmux_info: true,
            query_terminal: NoTerminal,
        }
    }
}

impl Default for DetectorSettings<NoTerminal> {
    /// The settings to begin with.
    fn default() -> (r: DetectorSettings<NoTerminal>)
        ensures
            !r.dcs_enabled(),
            r.terminfo_enabled(),
            r.tmux_info_enabled(),
    {
        DetectorSettings::new()
    }
}

impl<T> DetectorSettings<T> {
    /// Whether the terminal may be asked directly.
    pub closed spec fn dcs_enabled(&self) -> bool {
        self.enable_dcs
    }

    /// Whether the terminfo entry may be read.
    pub closed spec fn terminfo_enabled(&self) -> bool {
        self.enable_terminfo
    }

    /// Whether `tmux info` may be run.
    pub closed spec fn tmux_info_enabled(&self) -> bool {
        self.enable_tmux_info
    }

    /// The terminal to ask.
    pub closed spec fn terminal(&self) -> T {
        self.query_terminal
    }

    /// Allows or forbids reading the terminfo entry.
    pub fn enable_terminfo(self, enable_terminfo: bool) -> (r: DetectorSettings<T>)
        ensures
            r.terminfo_enabled() == enable_terminfo,
            r.dcs_enabled() == self.dcs_enabled(),
            r.tmux_info_enabled() == self.tmux_info_enabled(),
            r.terminal() == self.terminal(),
    {
        DetectorSettings {
            enable_dcs: self.enable_dcs,
            enable_terminfo,
            enable_tmux_info: self.enable_tmux_info,
            query_terminal: self.query_terminal,
        }
    }

    /// Allows or forbids running `tmux info`.
    pub fn enable_tmux_info(self, enable_tmux_info: bool) -> (r: DetectorSettings<T>)
        ensures
            r.tmux_info_enabled() == enable_tmux_info,
            r.dcs_enabled() == self.dcs_enabled(),
            r.terminfo_enabled() == self.terminfo_enabled(),
            r.terminal() == self.terminal(),
    {
        DetectorSettings {
            enable_dcs: self.enable_dcs,
            enable_terminfo: self.enable_terminfo,
            enable_tmux_info,
            query_terminal: self.query_terminal,
        }
    }

    /// Allows asking the terminal directly, through `query_terminal`.
    pub fn query_terminal<Q>(self, query_terminal: Q) -> (r: DetectorSettings<Q>)
        ensures
            r.dcs_enabled(),
            r.terminal() == query_terminal,
            r.terminfo_enabled() == self.terminfo_enabled(),
            r.tmux_info_enabled() == self.tmux_info_enabled(),
    {
        DetectorSettings {
            enable_dcs: true,
            enable_terminfo: self.enable_terminfo,
            enable_tmux_info: self.enable_tmux_info,
            query_terminal,
        }
    }

    /// Gives the terminal up to the caller, who is to ask it.
    pub fn into_terminal(self) -> (r: T)
        ensures
            r == self.terminal(),
    {
        self.query_terminal
    }

    /// Whether the terminal is to be asked for the snapshot `vars`: the
    /// settings allow it, and the terminal can be asked at all.
    pub fn wants_query(&self, vars: &TermVars) -> (r: bool)
        ensures
            r == (self.dcs_enabled() && vars.allows_query()),
    {
        if !self.enable_dcs {
            return false;
        }
        if !vars.meta.is_terminal && !vars.overrides.tty_force.is_truthy() {
            return false;
        }
        let term = vars.meta.term.value();
        !(vars.meta.is_dumb() || prefix_or_equal(term.as_str(), "tmux") || !vars.tmux.tmux.is_empty()
            || prefix_or_equal(term.as_str(), "screen"))
    }

    /// Whether `tmux info` is to be run for the snapshot `vars`: the settings
    /// allow it, and the session runs in tmux.
    pub fn wants_tmux_info(&self, vars: &TermVars) -> (r: bool)
        ensures
            r == (self.tmux_info_enabled() && vars.in_tmux()),
    {
        if !self.enable_tmux_info {
            return false;
        }
        !vars.tmux.tmux.is_empty() || prefix_or_equal(vars.meta.term.value().as_str(), "tmux")
            || prefix_or_equal(vars.meta.term_program.value().as_str(), "tmux")
    }

    /// Whether `name` is the name of a terminfo entry that the settings let
    /// be read for what `source` may answer: `TERM` as the source gives it,
    /// the empty name where it gives none; no name where the settings forbid
    /// reading.
    pub open spec fn names_entry<S: EnvVarSource>(&self, source: &S, name: Option<Seq<char>>) -> bool {
        if self.terminfo_enabled() {
            exists|raw: Option<String>| #[trigger]
                crate::source::may_answer(source, "TERM", raw) && name == Some(
                    match raw {
                        Some(text) => text@,
                        None => Seq::empty(),
                    },
                )
        } else {
            name is None
        }
    }

    /// The name of the terminfo entry to read, if the settings let one be read.
    pub fn terminfo_name<S: EnvVarSource>(&self, source: &S) -> (r: Option<String>)
        ensures
            self.names_entry(source, crate::termvar::text_of(r)),
    {
        if !self.enable_terminfo {
            return None;
        }
        let raw = source.var("TERM");
        let ghost answer = raw;
        let name = match raw {
            Some(text) => text,
            None => String::new(),
        };
        proof {
            assert(crate::source::may_answer(source, "TERM", answer) && Some(name@) == Some(
                match answer {
                    Some(text) => text@,
                    None => Seq::empty(),
                },
            ));
        }
        Some(name)
    }
}

} // verus!
