//! The snapshot of signals that a detection works on. It is built once, from a
//! source of variables and an output stream, and only read afterwards.

use crate::source::{EnvVarSource, IsTerminal};
use crate::termvar::TermVar;
use vstd::prelude::*;

verus! {

/// Everything that decides a profile.
#[derive(Debug)]
#[non_exhaustive]
pub struct TermVars {
    /// Variables that override the terminal's behaviour.
    pub overrides: OverrideVars,
    /// What the terminal says of itself.
    pub meta: TermMetaVars,
    /// Variables that platforms and CI services set.
    pub special: SpecialVars,
    /// What is known of tmux.
    pub tmux: TmuxVars,
    /// What is known of Windows.
    pub windows: WindowsVars,
    /// What the terminfo entry says.
    pub terminfo: TerminfoVars,
}

/// Variables that override the terminal's behaviour.
#[derive(Debug)]
#[non_exhaustive]
pub struct OverrideVars {
    /// `FORCE_COLOR`: forces colour.
    pub force_color: TermVar,
    /// `CLICOLOR_FORCE`: forces colour.
    pub clicolor_force: TermVar,
    /// `CLICOLOR`: asks for colour.
    pub clicolor: TermVar,
    /// `NO_COLOR`: switches colour off.
    pub no_color: TermVar,
    /// `TTY_FORCE`: makes the output count as a terminal.
    pub tty_force: TermVar,
}

/// What the terminal says of itself.
#[derive(Debug)]
#[non_exhaustive]
pub struct TermMetaVars {
    /// Whether the output is a terminal.
    pub is_terminal: bool,
    /// `TERM`: the terminal's name.
    pub term: TermVar,
    /// `COLORTERM`: announces true colour.
    pub colorterm: TermVar,
    /// `TERM_PROGRAM`: the terminal program's name.
    pub term_program: TermVar,
    /// `TERM_PROGRAM_VERSION`: the terminal program's version.
    pub term_program_version: TermVar,
    /// Whether the terminal, asked directly, showed that it keeps a true colour.
    pub dcs_response: bool,
}

/// What is known of Windows.
#[derive(Debug)]
#[non_exhaustive]
pub struct WindowsVars {
    /// `ANSICON`: set by the ANSICON program.
    pub ansicon: TermVar,
    /// `ANSICON_VER`: the version of the ANSICON program.
    pub ansicon_ver: TermVar,
    /// The build number of Windows.
    pub build_number: u64,
    /// The major version of Windows; 0 where it is not known.
    pub os_version: u64,
    /// Whether the rules for Windows apply.
    pub is_windows: bool,
}

/// Variables that platforms and CI services set.
#[derive(Debug)]
#[non_exhaustive]
pub struct SpecialVars {
    /// `GOOGLE_CLOUD_SHELL`.
    pub google_cloud_shell: TermVar,
    /// `GITHUB_ACTIONS`.
    pub github_actions: TermVar,
    /// `GITEA_ACTIONS`.
    pub gitea_actions: TermVar,
    /// `CIRCLECI`.
    pub circleci: TermVar,
    /// `TRAVIS`.
    pub travis: TermVar,
    /// `APPVEYOR`.
    pub appveyor: TermVar,
    /// `GITLAB_CI`.
    pub gitlab_ci: TermVar,
    /// `BUILDKITE`.
    pub buildkite: TermVar,
    /// `DRONE`.
    pub drone: TermVar,
    /// `TEAMCITY_VERSION`.
    pub teamcity_version: TermVar,
    /// `TF_BUILD`.
    pub tf_build: TermVar,
    /// `AGENT_NAME`.
    pub agent_name: TermVar,
    /// `CIRRUS_CI`.
    pub cirrus_ci: TermVar,
    /// `CI_NAME`.
    pub ci_name: TermVar,
    /// `ConEmuANSI`.
    pub con_emu_ansi: TermVar,
    /// `CI`.
    pub ci: TermVar,
}

/// What is known of tmux.
#[derive(Debug)]
#[non_exhaustive]
pub struct TmuxVars {
    /// What `tmux info` printed; empty where it was not asked or did not answer.
    pub tmux_info: String,
    /// `TMUX`: set inside tmux.
    pub tmux: TermVar,
}

/// What the terminfo entry says.
#[derive(Debug)]
#[non_exhaustive]
pub struct TerminfoVars {
    /// The number of colours that the entry gives.
    pub max_colors: Option<i32>,
    /// The entry's true-colour extension, where it has one.
    pub truecolor: Option<bool>,
}

impl OverrideVars {
    /// Whether `vars` is what reading the override variables from `source` may give.
    pub open spec fn read_from<S: EnvVarSource>(source: &S, vars: OverrideVars) -> bool {
        &&& TermVar::read_from(source, "NO_COLOR", vars.no_color)
        &&& TermVar::read_from(source, "FORCE_COLOR", vars.force_color)
        &&& TermVar::read_from(source, "CLICOLOR", vars.clicolor)
        &&& TermVar::read_from(source, "CLICOLOR_FORCE", vars.clicolor_force)
        &&& TermVar::read_from(source, "TTY_FORCE", vars.tty_force)
    }

    /// Reads the override variables from `source`.
    pub fn from_source<S: EnvVarSource>(source: &S) -> (r: OverrideVars)
        ensures
            OverrideVars::read_from(source, r),
    {
        OverrideVars {
            no_color: TermVar::from_source(source, "NO_COLOR"),
            force_color: TermVar::from_source(source, "FORCE_COLOR"),
            clicolor: TermVar::from_source(source, "CLICOLOR"),
            clicolor_force: TermVar::from_source(source, "CLICOLOR_FORCE"),
            tty_force: TermVar::from_source(source, "TTY_FORCE"),
        }
    }
}

impl TermMetaVars {
    /// Whether `vars` is what reading the terminal's own variables from
    /// `source`, and asking `out` whether it is a terminal, may give. The
    /// terminal has not been asked directly.
    pub open spec fn read_from<S: EnvVarSource, T: IsTerminal>(
        source: &S,
        out: &T,
        vars: TermMetaVars,
    ) -> bool {
        &&& crate::source::may_report(out, vars.is_terminal)
        &&& TermVar::read_from(source, "TERM", vars.term)
        &&& TermVar::read_from(source, "COLORTERM", vars.colorterm)
        &&& TermVar::read_from(source, "TERM_PROGRAM", vars.term_program)
        &&& TermVar::read_from(source, "TERM_PROGRAM_VERSION", vars.term_program_version)
        &&& !vars.dcs_response
    }

    /// Reads the terminal's own variables from `source` and asks `out` whether
    /// it is a terminal.
    pub fn from_source<S: EnvVarSource, T: IsTerminal>(source: &S, out: &T) -> (r: TermMetaVars)
        ensures
            TermMetaVars::read_from(source, out, r),
    {
        TermMetaVars {
            is_terminal: out.is_terminal(),
            term: TermVar::from_source(source, "TERM"),
            colorterm: TermVar::from_source(source, "COLORTERM"),
            term_program: TermVar::from_source(source, "TERM_PROGRAM"),
            term_program_version: TermVar::from_source(source, "TERM_PROGRAM_VERSION"),
            dcs_response: false,
        }
    }

    /// Whether the terminal calls itself `dumb`.
    pub fn is_dumb(&self) -> (r: bool)
        ensures
            r == (self.term.text() == "dumb"@),
    {
        self.term.is("dumb")
    }
}

impl SpecialVars {
    /// Whether `vars` is what reading the platform variables from `source` may give.
    pub open spec fn read_from<S: EnvVarSource>(source: &S, vars: SpecialVars) -> bool {
        &&& TermVar::read_from(source, "GITHUB_ACTIONS", vars.github_actions)
        &&& TermVar::read_from(source, "GITEA_ACTIONS", vars.gitea_actions)
        &&& TermVar::read_from(source, "CIRCLECI", vars.circleci)
        &&& TermVar::read_from(source, "GITLAB_CI", vars.gitlab_ci)
        &&& TermVar::read_from(source, "DRONE", vars.drone)
        &&& TermVar::read_from(source, "CI_NAME", vars.ci_name)
        &&& TermVar::read_from(source, "GOOGLE_CLOUD_SHELL", vars.google_cloud_shell)
        &&& TermVar::read_from(source, "APPVEYOR", vars.appveyor)
        &&& TermVar::read_from(source, "TRAVIS", vars.travis)
        &&& TermVar::read_from(source, "BUILDKITE", vars.buildkite)
        &&& TermVar::read_from(source, "AGENT_NAME", vars.agent_name)
        &&& TermVar::read_from(source, "TEAMCITY_VERSION", vars.teamcity_version)
        &&& TermVar::read_from(source, "TF_BUILD", vars.tf_build)
        &&& TermVar::read_from(source, "CIRRUS_CI", vars.cirrus_ci)
        &&& TermVar::read_from(source, "ConEmuANSI", vars.con_emu_ansi)
        &&& TermVar::read_from(source, "CI", vars.ci)
    }

    /// Reads the platform variables from `source`.
    pub fn from_source<S: EnvVarSource>(source: &S) -> (r: SpecialVars)
        ensures
            SpecialVars::read_from(source, r),
    {
        SpecialVars {
            github_actions: TermVar::from_source(source, "GITHUB_ACTIONS"),
            gitea_actions: TermVar::from_source(source, "GITEA_ACTIONS"),
            circleci: TermVar::from_source(source, "CIRCLECI"),
            gitlab_ci: TermVar::from_source(source, "GITLAB_CI"),
            drone: TermVar::from_source(source, "DRONE"),
            ci_name: TermVar::from_source(source, "CI_NAME"),
            google_cloud_shell: TermVar::from_source(source, "GOOGLE_CLOUD_SHELL"),
            appveyor: TermVar::from_source(source, "APPVEYOR"),
            travis: TermVar::from_source(source, "TRAVIS"),
            buildkite: TermVar::from_source(source, "BUILDKITE"),
            agent_name: TermVar::from_source(source, "AGENT_NAME"),
            teamcity_version: TermVar::from_source(source, "TEAMCITY_VERSION"),
            tf_build: TermVar::from_source(source, "TF_BUILD"),
            cirrus_ci: TermVar::from_source(source, "CIRRUS_CI"),
            con_emu_ansi: TermVar::from_source(source, "ConEmuANSI"),
            ci: TermVar::from_source(source, "CI"),
        }
    }
}

impl TmuxVars {
    /// Whether `vars` is what reading `TMUX` from `source` may give, with
    /// nothing heard from `tmux info`.
    pub open spec fn read_from<S: EnvVarSource>(source: &S, vars: TmuxVars) -> bool {
        &&& TermVar::read_from(source, "TMUX", vars.tmux)
        &&& vars.tmux_info@ == Seq::<char>::empty()
    }

    /// Reads `TMUX` from `source`. What `tmux info` prints is for the caller
    /// to fill in.
    pub fn from_source<S: EnvVarSource>(source: &S) -> (r: TmuxVars)
        ensures
            TmuxVars::read_from(source, r),
    {
        TmuxVars { tmux_info: String::new(), tmux: TermVar::from_source(source, "TMUX") }
    }
}

impl WindowsVars {
    /// Whether `vars` is what reading the ANSICON variables from `source` may
    /// give on a platform that is Windows or is not, as `is_windows` says,
    /// with the version of Windows not known.
    pub open spec fn read_from<S: EnvVarSource>(
        source: &S,
        is_windows: bool,
        vars: WindowsVars,
    ) -> bool {
        &&& TermVar::read_from(source, "ANSICON", vars.ansicon)
        &&& TermVar::read_from(source, "ANSICON_VER", vars.ansicon_ver)
        &&& vars.os_version == 0
        &&& vars.build_number == 0
        &&& vars.is_windows == is_windows
    }

    /// Reads the ANSICON variables from `source`. The rules for Windows apply
    /// where the platform is Windows, which the caller knows and says with
    /// `is_windows`; the version of Windows, unknown here, is for the caller
    /// to fill in.
    pub fn from_source<S: EnvVarSource>(source: &S, is_windows: bool) -> (r: WindowsVars)
        ensures
            WindowsVars::read_from(source, is_windows, r),
    {
        WindowsVars {
            ansicon: TermVar::from_source(source, "ANSICON"),
            ansicon_ver: TermVar::from_source(source, "ANSICON_VER"),
            os_version: 0,
            build_number: 0,
            is_windows,
        }
    }
}

impl TermVars {
    /// Whether `vars` is what reading all variables from `source`, and asking
    /// `out` whether it is a terminal, may give on a platform that is Windows
    /// or is not, as `is_windows` says: no probe has added anything.
    pub open spec fn read_from<S: EnvVarSource, T: IsTerminal>(
        source: &S,
        out: &T,
        is_windows: bool,
        vars: TermVars,
    ) -> bool {
        &&& TermMetaVars::read_from(source, out, vars.meta)
        &&& OverrideVars::read_from(source, vars.overrides)
        &&& SpecialVars::read_from(source, vars.special)
        &&& TmuxVars::read_from(source, vars.tmux)
        &&& WindowsVars::read_from(source, is_windows, vars.windows)
        &&& vars.terminfo.unset()
    }

    /// Builds the snapshot from `source` and `out`, for a platform that is
    /// Windows or is not, as `is_windows` says. What the probes find (the
    /// terminal's direct answer, the output of `tmux info`, the terminfo
    /// entry, the version of Windows) is for the caller to fill in.
    pub fn from_source<S: EnvVarSource, T: IsTerminal>(
        source: &S,
        out: &T,
        is_windows: bool,
    ) -> (r: TermVars)
        ensures
            TermVars::read_from(source, out, is_windows, r),
    {
        TermVars {
            meta: TermMetaVars::from_source(source, out),
            overrides: OverrideVars::from_source(source),
            special: SpecialVars::from_source(source),
            tmux: TmuxVars::from_source(source),
            terminfo: TerminfoVars::default(),
            windows: WindowsVars::from_source(source, is_windows),
        }
    }
}

impl OverrideVars {
    /// Whether no override is set.
    pub open spec fn unset(&self) -> bool {
        &&& self.force_color@ is None
        &&& self.clicolor_force@ is None
        &&& self.clicolor@ is None
        &&& self.no_color@ is None
        &&& self.tty_force@ is None
    }
}

impl Default for OverrideVars {
    /// No override is set.
    fn default() -> (r: OverrideVars)
        ensures
            r.unset(),
    {
        OverrideVars {
            force_color: TermVar::default(),
            clicolor_force: TermVar::default(),
            clicolor: TermVar::default(),
            no_color: TermVar::default(),
            tty_force: TermVar::default(),
        }
    }
}

impl TermMetaVars {
    /// Whether nothing is known of the terminal, and the output is none.
    pub open spec fn unset(&self) -> bool {
        &&& !self.is_terminal
        &&& self.term@ is None
        &&& self.colorterm@ is None
        &&& self.term_program@ is None
        &&& self.term_program_version@ is None
        &&& !self.dcs_response
    }
}

impl Default for TermMetaVars {
    /// Not a terminal, and nothing known of it.
    fn default() -> (r: TermMetaVars)
        ensures
            r.unset(),
    {
        TermMetaVars {
            is_terminal: false,
            term: TermVar::default(),
            colorterm: TermVar::default(),
            term_program: TermVar::default(),
            term_program_version: TermVar::default(),
            dcs_response: false,
        }
    }
}

impl WindowsVars {
    /// Whether the rules for Windows are switched off, and nothing is known of it.
    pub open spec fn unset(&self) -> bool {
        &&& self.ansicon@ is None
        &&& self.ansicon_ver@ is None
        &&& self.build_number == 0
        &&& self.os_version == 0
        &&& !self.is_windows
    }
}

impl Default for WindowsVars {
    /// Not Windows.
    fn default() -> (r: WindowsVars)
        ensures
            r.unset(),
    {
        WindowsVars {
            ansicon: TermVar::default(),
            ansicon_ver: TermVar::default(),
            build_number: 0,
            os_version: 0,
            is_windows: false,
        }
    }
}

impl SpecialVars {
    /// Whether no platform variable is set.
    pub open spec fn unset(&self) -> bool {
        &&& self.google_cloud_shell@ is None
        &&& self.github_actions@ is None
        &&& self.gitea_actions@ is None
        &&& self.circleci@ is None
        &&& self.travis@ is None
        &&& self.appveyor@ is None
        &&& self.gitlab_ci@ is None
        &&& self.buildkite@ is None
        &&& self.drone@ is None
        &&& self.teamcity_version@ is None
        &&& self.tf_build@ is None
        &&& self.agent_name@ is None
        &&& self.cirrus_ci@ is None
        &&& self.ci_name@ is None
        &&& self.con_emu_ansi@ is None
        &&& self.ci@ is None
    }
}

impl Default for SpecialVars {
    /// No platform variable is set.
    fn default() -> (r: SpecialVars)
        ensures
            r.unset(),
    {
        SpecialVars {
            google_cloud_shell: TermVar::default(),
            github_actions: TermVar::default(),
            gitea_actions: TermVar::default(),
            circleci: TermVar::default(),
            travis: TermVar::default(),
            appveyor: TermVar::default(),
            gitlab_ci: TermVar::default(),
            buildkite: TermVar::default(),
            drone: TermVar::default(),
            teamcity_version: TermVar::default(),
            tf_build: TermVar::default(),
            agent_name: TermVar::default(),
            cirrus_ci: TermVar::default(),
            ci_name: TermVar::default(),
            con_emu_ansi: TermVar::default(),
            ci: TermVar::default(),
        }
    }
}

impl TmuxVars {
    /// Whether nothing is known of tmux.
    pub open spec fn unset(&self) -> bool {
        &&& self.tmux@ is None
        &&& self.tmux_info@ == Seq::<char>::empty()
    }
}

impl Default for TmuxVars {
    /// Not in tmux.
    fn default() -> (r: TmuxVars)
        ensures
            r.unset(),
    {
        TmuxVars { tmux_info: String::new(), tmux: TermVar::default() }
    }
}

impl TerminfoVars {
    /// Whether there is no terminfo entry.
    pub open spec fn unset(&self) -> bool {
        &&& self.max_colors is None
        &&& self.truecolor is None
    }
}

impl Default for TerminfoVars {
    /// No terminfo entry.
    fn default() -> (r: TerminfoVars)
        ensures
            r.unset(),
    {
        TerminfoVars { max_colors: None, truecolor: None }
    }
}

impl TermVars {
    /// Whether the snapshot holds no signal at all.
    pub open spec fn unset(&self) -> bool {
        &&& self.overrides.unset()
        &&& self.meta.unset()
        &&& self.special.unset()
        &&& self.tmux.unset()
        &&& self.windows.unset()
        &&& self.terminfo.unset()
    }
}

impl Default for TermVars {
    /// No signal at all.
    fn default() -> (r: TermVars)
        ensures
            r.unset(),
    {
        TermVars {
            overrides: OverrideVars::default(),
            meta: TermMetaVars::default(),
            special: SpecialVars::default(),
            tmux: TmuxVars::default(),
            windows: WindowsVars::default(),
            terminfo: TerminfoVars::default(),
        }
    }
}

impl OverrideVars {
    /// Whether `other` holds the same values.
    pub open spec fn same(&self, other: OverrideVars) -> bool {
        &&& self.force_color@ == other.force_color@
        &&& self.clicolor_force@ == other.clicolor_force@
        &&& self.clicolor@ == other.clicolor@
        &&& self.no_color@ == other.no_color@
        &&& self.tty_force@ == other.tty_force@
    }
}

impl Clone for OverrideVars {
    fn clone(&self) -> (r: OverrideVars)
        ensures
            self.same(r),
    {
        OverrideVars {
            force_color: self.force_color.clone(),
            clicolor_force: self.clicolor_force.clone(),
            clicolor: self.clicolor.clone(),
            no_color: self.no_color.clone(),
            tty_force: self.tty_force.clone(),
        }
    }
}

impl TermMetaVars {
    /// Whether `other` holds the same values.
    pub open spec fn same(&self, other: TermMetaVars) -> bool {
        &&& self.is_terminal == other.is_terminal
        &&& self.term@ == other.term@
        &&& self.colorterm@ == other.colorterm@
        &&& self.term_program@ == other.term_program@
        &&& self.term_program_version@ == other.term_program_version@
        &&& self.dcs_response == other.dcs_response
    }
}

impl Clone for TermMetaVars {
    fn clone(&self) -> (r: TermMetaVars)
        ensures
            self.same(r),
    {
        TermMetaVars {
            is_terminal: self.is_terminal,
            term: self.term.clone(),
            colorterm: self.colorterm.clone(),
            term_program: self.term_program.clone(),
            term_program_version: self.term_program_version.clone(),
            dcs_response: self.dcs_response,
        }
    }
}

impl WindowsVars {
    /// Whether `other` holds the same values.
    pub open spec fn same(&self, other: WindowsVars) -> bool {
        &&& self.ansicon@ == other.ansicon@
        &&& self.ansicon_ver@ == other.ansicon_ver@
        &&& self.build_number == other.build_number
        &&& self.os_version == other.os_version
        &&& self.is_windows == other.is_windows
    }
}

impl Clone for WindowsVars {
    fn clone(&self) -> (r: WindowsVars)
        ensures
            self.same(r),
    {
        WindowsVars {
            ansicon: self.ansicon.clone(),
            ansicon_ver: self.ansicon_ver.clone(),
            build_number: self.build_number,
            os_version: self.os_version,
            is_windows: self.is_windows,
        }
    }
}

impl SpecialVars {
    /// Whether `other` holds the same values.
    pub open spec fn same(&self, other: SpecialVars) -> bool {
        &&& self.google_cloud_shell@ == other.google_cloud_shell@
        &&& self.github_actions@ == other.github_actions@
        &&& self.gitea_actions@ == other.gitea_actions@
        &&& self.circleci@ == other.circleci@
        &&& self.travis@ == other.travis@
        &&& self.appveyor@ == other.appveyor@
        &&& self.gitlab_ci@ == other.gitlab_ci@
        &&& self.buildkite@ == other.buildkite@
        &&& self.drone@ == other.drone@
        &&& self.teamcity_version@ == other.teamcity_version@
        &&& self.tf_build@ == other.tf_build@
        &&& self.agent_name@ == other.agent_name@
        &&& self.cirrus_ci@ == other.cirrus_ci@
        &&& self.ci_name@ == other.ci_name@
        &&& self.con_emu_ansi@ == other.con_emu_ansi@
        &&& self.ci@ == other.ci@
    }
}

impl Clone for SpecialVars {
    fn clone(&self) -> (r: SpecialVars)
        ensures
            self.same(r),
    {
        SpecialVars {
            google_cloud_shell: self.google_cloud_shell.clone(),
            github_actions: self.github_actions.clone(),
            gitea_actions: self.gitea_actions.clone(),
            circleci: self.circleci.clone(),
            travis: self.travis.clone(),
            appveyor: self.appveyor.clone(),
            gitlab_ci: self.gitlab_ci.clone(),
            buildkite: self.buildkite.clone(),
            drone: self.drone.clone(),
            teamcity_version: self.teamcity_version.clone(),
            tf_build: self.tf_build.clone(),
            agent_name: self.agent_name.clone(),
            cirrus_ci: self.cirrus_ci.clone(),
            ci_name: self.ci_name.clone(),
            con_emu_ansi: self.con_emu_ansi.clone(),
            ci: self.ci.clone(),
        }
    }
}

impl TmuxVars {
    /// Whether `other` holds the same values.
    pub open spec fn same(&self, other: TmuxVars) -> bool {
        &&& self.tmux_info@ == other.tmux_info@
        &&& self.tmux@ == other.tmux@
    }
}

impl Clone for TmuxVars {
    fn clone(&self) -> (r: TmuxVars)
        ensures
            self.same(r),
    {
        TmuxVars { tmux_info: self.tmux_info.clone(), tmux: self.tmux.clone() }
    }
}

impl Clone for TerminfoVars {
    fn clone(&self) -> (r: TerminfoVars)
        ensures
            r == *self,
    {
        TerminfoVars { max_colors: self.max_colors, truecolor: self.truecolor }
    }
}

impl TermVars {
    /// Whether `other` holds the same signals.
    pub open spec fn same(&self, other: TermVars) -> bool {
        &&& self.overrides.same(other.overrides)
        &&& self.meta.same(other.meta)
        &&& self.special.same(other.special)
        &&& self.tmux.same(other.tmux)
        &&& self.windows.same(other.windows)
        &&& self.terminfo == other.terminfo
    }
}

impl Clone for TermVars {
    fn clone(&self) -> (r: TermVars)
        ensures
            self.same(r),
    {
        TermVars {
            overrides: self.overrides.clone(),
            meta: self.meta.clone(),
            special: self.special.clone(),
            tmux: self.tmux.clone(),
            windows: self.windows.clone(),
            terminfo: self.terminfo.clone(),
        }
    }
}

} // verus!
