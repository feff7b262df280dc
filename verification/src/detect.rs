//! The resolver: an ordered chain of rules that turns a snapshot of signals
//! into one profile. A rule either decides the profile at once or raises a
//! floor under what the later rules find; the order of the rules is part of
//! their meaning.

use crate::profile::TermProfile;
use crate::text;
use crate::vars::{TermMetaVars, TermVars};
use vstd::prelude::*;

verus! {

/// Whether `var` names `word`: it is `word`, or `word` followed by `-` or `.`
/// and anything.
pub open spec fn names(var: Seq<char>, word: Seq<char>) -> bool {
    var == word || (word + seq!['-']).is_prefix_of(var) || (word + seq!['.']).is_prefix_of(var)
}

/// Whether the last part of a terminal's name is that of a terminal known to
/// show true colour.
pub open spec fn is_truecolor_name(name: Seq<char>) -> bool {
    name == "alacritty"@ || name == "contour"@ || name == "rio"@ || name == "wezterm"@ || name
        == "ghostty"@ || name == "kitty"@ || name == "foot"@ || name == "st"@ || name == "direct"@
}

/// Whether a line of `tmux info` shows a true-colour capability switched on.
pub open spec fn line_shows_truecolor(line: Seq<char>) -> bool {
    (text::has_substring(line, "Tc"@) || text::has_substring(line, "RGB"@)) && text::has_substring(
        line,
        "true"@,
    )
}

/// Whether some line of `info` shows a true-colour capability switched on.
pub open spec fn info_shows_truecolor(info: Seq<char>) -> bool
    decreases info.len(),
{
    let end = text::find(info, '\n');
    line_shows_truecolor(info.take(end)) || (0 <= end < info.len() && info_shows_truecolor(
        info.skip(end + 1),
    ))
}

/// Whether a forcing variable names a level outright.
pub open spec fn names_level(force: Seq<char>) -> bool {
    force == "no_color"@ || force == "ansi"@ || force == "ansi16"@ || force == "ansi256"@ || force
        == "truecolor"@
}

/// The number of colours from which a terminfo entry counts as true colour.
pub const TERMINFO_TRUECOLOR: i32 = 16777216;

impl TermVars {
    /// The first rule: `NoTty` where the output is no terminal and is not forced to
    /// count as one, or where the terminal is `dumb`; `NoColor` otherwise.
    pub open spec fn tty_profile(&self) -> TermProfile {
        if (!self.overrides.tty_force.truthy() && !self.meta.is_terminal) || self.meta.term.text()
            == "dumb"@ {
            TermProfile::NoTty
        } else {
            TermProfile::NoColor
        }
    }

    /// What `NO_COLOR` asks for.
    pub open spec fn no_color_profile(&self) -> Option<TermProfile> {
        if self.overrides.no_color.truthy() {
            Some(TermProfile::NoColor)
        } else {
            None
        }
    }

    /// The variable that forces colour: `CLICOLOR_FORCE` where it is set, else
    /// `FORCE_COLOR`.
    pub open spec fn force(&self) -> Option<Seq<char>> {
        if self.overrides.clicolor_force@ is Some {
            self.overrides.clicolor_force@
        } else {
            self.overrides.force_color@
        }
    }

    /// The text of the variable that forces colour.
    pub open spec fn force_text(&self) -> Seq<char> {
        match self.force() {
            Some(s) => s,
            None => Seq::empty(),
        }
    }

    /// Whether the variable that forces colour says "yes".
    pub open spec fn force_truthy(&self) -> bool {
        self.force() matches Some(s) && crate::termvar::is_truthy_text(s)
    }

    /// What the forcing variables decide: a level named outright, or, where
    /// they or `CLICOLOR` say "yes", at least sixteen colours.
    pub open spec fn force_profile(&self) -> Option<TermProfile> {
        let force = self.force_text();
        if force == "no_color"@ {
            Some(TermProfile::NoColor)
        } else if force == "ansi"@ || force == "ansi16"@ {
            Some(TermProfile::Ansi16)
        } else if force == "ansi256"@ {
            Some(TermProfile::Ansi256)
        } else if force == "truecolor"@ {
            Some(TermProfile::TrueColor)
        } else if self.force_truthy() || self.overrides.clicolor.truthy() {
            Some(TermProfile::Ansi16.higher(self.term_vars_profile()))
        } else {
            None
        }
    }

    /// What the platform decides: the first match in a fixed table of CI
    /// services and hosted shells.
    pub open spec fn special_profile(&self) -> Option<TermProfile> {
        let special = self.special;
        if !special.google_cloud_shell.blank() || !special.github_actions.blank()
            || !special.gitea_actions.blank() || !special.circleci.blank()
            || !special.cirrus_ci.blank() {
            Some(TermProfile::TrueColor)
        } else if !special.travis.blank() || !special.appveyor.blank() || !special.gitlab_ci.blank()
            || !special.buildkite.blank() || !special.drone.blank()
            || !special.teamcity_version.blank() {
            Some(TermProfile::Ansi16)
        } else if !special.tf_build.blank() && !special.agent_name.blank() {
            Some(TermProfile::Ansi16)
        } else if special.ci_name.text() == "codeship"@ {
            Some(TermProfile::Ansi16)
        } else if special.ci.truthy() {
            Some(TermProfile::Ansi16)
        } else {
            None
        }
    }

    /// What the version of Windows allows; nothing where it is not known.
    pub open spec fn windows_version_profile(&self) -> Option<TermProfile> {
        let windows = self.windows;
        if windows.os_version == 0 {
            None
        } else if windows.build_number < 10586 || windows.os_version < 10 {
            if windows.ansicon.blank() {
                Some(TermProfile::NoColor)
            } else if text::parsed_u32(windows.ansicon_ver.text()) matches Some(version)
                && version >= 181 {
                Some(TermProfile::Ansi256)
            } else {
                Some(TermProfile::Ansi16)
            }
        } else if windows.build_number < 14931 {
            Some(TermProfile::Ansi256)
        } else {
            Some(TermProfile::TrueColor)
        }
    }

    /// What is inferred on Windows; nothing elsewhere.
    pub open spec fn windows_profile(&self) -> Option<TermProfile> {
        if !self.windows.is_windows {
            None
        } else if self.special.con_emu_ansi.text() == "on"@ {
            Some(TermProfile::TrueColor)
        } else {
            self.windows_version_profile()
        }
    }

    /// Whether the session runs in tmux.
    pub open spec fn in_tmux(&self) -> bool {
        !self.tmux.tmux.blank() || names(self.meta.term.text(), "tmux"@) || names(
            self.meta.term_program.text(),
            "tmux"@,
        )
    }

    /// What tmux allows; nothing outside tmux.
    pub open spec fn tmux_profile(&self) -> Option<TermProfile> {
        if !self.in_tmux() {
            None
        } else if info_shows_truecolor(self.tmux.tmux_info@) {
            Some(TermProfile::TrueColor)
        } else {
            Some(TermProfile::Ansi256)
        }
    }

    /// The major version of the terminal program; 0 where it cannot be read.
    pub open spec fn program_major(&self) -> int {
        match text::parsed_u32(text::before_first(self.meta.term_program_version.text(), '.')) {
            Some(major) => major as int,
            None => 0,
        }
    }

    /// What the terminal program decides.
    pub open spec fn term_program_profile(&self) -> Option<TermProfile> {
        let program = self.meta.term_program.text();
        if program == "mintty"@ {
            Some(TermProfile::TrueColor)
        } else if program == "iterm.app"@ {
            if self.program_major() >= 3 {
                Some(TermProfile::TrueColor)
            } else {
                Some(TermProfile::Ansi256)
            }
        } else if program == "apple_terminal"@ {
            Some(TermProfile::Ansi256)
        } else {
            None
        }
    }

    /// Whether the terminal is screen.
    pub open spec fn is_screen(&self) -> bool {
        names(self.meta.term.text(), "screen"@)
    }

    /// The terminal's name without a leading `screen.`.
    pub open spec fn bare_term(&self) -> Seq<char> {
        text::without_prefix(self.meta.term.text(), "screen."@)
    }

    /// Whether `COLORTERM` announces true colour.
    pub open spec fn colorterm_truecolor(&self) -> bool {
        let colorterm = self.meta.colorterm.text();
        colorterm == "24bit"@ || colorterm == "truecolor"@ || self.meta.colorterm.truthy()
    }

    /// The floor that the platform lays: on Windows with no terminal name what
    /// Windows allows, with a terminal name sixteen colours.
    pub open spec fn platform_floor(&self) -> TermProfile {
        let start = self.tty_profile();
        if self.meta.term.text().len() == 0 {
            match self.windows_profile() {
                Some(profile) => start.higher(profile),
                None => start,
            }
        } else {
            start.higher(TermProfile::Ansi16)
        }
    }

    /// The floor after the terminal's name has been read.
    pub open spec fn name_floor(&self) -> TermProfile {
        let floor = if self.is_screen() {
            self.platform_floor().higher(TermProfile::Ansi256)
        } else {
            self.platform_floor()
        };
        let last = text::after_last(self.bare_term(), '-');
        if last == "256color"@ {
            floor.higher(TermProfile::Ansi256)
        } else if last == "linux"@ || last == "xterm"@ {
            floor.higher(TermProfile::Ansi16)
        } else {
            floor
        }
    }

    /// The floor after tmux has been heard.
    pub open spec fn tmux_floor(&self) -> TermProfile {
        match self.tmux_profile() {
            Some(profile) => self.name_floor().higher(profile),
            None => self.name_floor(),
        }
    }

    /// The floor after the terminal's name has been searched for a hint of colour.
    pub open spec fn hint_floor(&self) -> TermProfile {
        if text::has_substring(self.bare_term(), "color"@) || text::has_substring(
            self.bare_term(),
            "ansi"@,
        ) {
            self.tmux_floor().higher(TermProfile::Ansi16)
        } else {
            self.tmux_floor()
        }
    }

    /// The number of colours in the terminfo entry; 0 where it gives none.
    pub open spec fn terminfo_colors(&self) -> int {
        match self.terminfo.max_colors {
            Some(colors) => colors as int,
            None => 0,
        }
    }

    /// What the terminal's own variables come to: the heuristic of last
    /// resort. It starts from the first rule's profile and raises it, unless one of
    /// its rules decides at once.
    pub open spec fn term_vars_profile(&self) -> TermProfile {
        if let Some(profile) = self.term_program_profile() {
            profile
        } else if is_truecolor_name(text::after_last(self.bare_term(), '-')) {
            TermProfile::TrueColor
        } else if self.colorterm_truecolor() && !self.is_screen() && !self.in_tmux() {
            TermProfile::TrueColor
        } else if self.terminfo.truecolor == Some(true) {
            TermProfile::TrueColor
        } else if self.terminfo_colors() >= TERMINFO_TRUECOLOR {
            TermProfile::TrueColor
        } else if self.terminfo_colors() >= 256 {
            self.hint_floor().higher(TermProfile::Ansi256)
        } else {
            self.hint_floor()
        }
    }

    /// The profile of the snapshot: the outcome of the whole chain.
    pub open spec fn resolved(&self) -> TermProfile {
        let candidate = self.tty_profile();
        if self.overrides.no_color.truthy() && candidate.rank() > TermProfile::NoTty.rank() {
            TermProfile::NoColor
        } else if let Some(profile) = self.force_profile() {
            profile
        } else if self.meta.dcs_response {
            TermProfile::TrueColor
        } else if let Some(profile) = self.special_profile() {
            profile
        } else if candidate == TermProfile::NoTty {
            TermProfile::NoTty
        } else {
            self.term_vars_profile()
        }
    }
}

/// Whether `var` names `compare`: it is `compare`, or `compare` followed by
/// `-` or `.` and anything.
pub fn prefix_or_equal(var: &str, compare: &str) -> (r: bool)
    ensures
        r == names(var@, compare@),
{
    let name = text::chars(var);
    let word = text::chars(compare);
    let n = word.len();
    if n > name.len() {
        return false;
    }
    let begins = text::matches_at(&name, 0, &word);
    proof {
        let dash = word@ + seq!['-'];
        let dot = word@ + seq!['.'];
        if begins {
            if n == name.len() {
                assert(name@.subrange(0, n as int) =~= name@);
            } else {
                assert(name@ != word@);
                if name@[n as int] == '-' {
                    assert(name@.subrange(0, dash.len() as int) =~= dash);
                } else {
                    assert(dash[n as int] == '-');
                    assert(!dash.is_prefix_of(name@));
                }
                if name@[n as int] == '.' {
                    assert(name@.subrange(0, dot.len() as int) =~= dot);
                } else {
                    assert(dot[n as int] == '.');
                    assert(!dot.is_prefix_of(name@));
                }
            }
        } else {
            if name@ == word@ {
                assert(name@.subrange(0, n as int) =~= word@);
            }
            if dash.is_prefix_of(name@) {
                assert(name@.subrange(0, n as int) =~= dash.subrange(0, n as int));
                assert(dash.subrange(0, n as int) =~= word@);
            }
            if dot.is_prefix_of(name@) {
                assert(name@.subrange(0, n as int) =~= dot.subrange(0, n as int));
                assert(dot.subrange(0, n as int) =~= word@);
            }
        }
    }
    begins && (n == name.len() || name[n] == '-' || name[n] == '.')
}

/// Whether a line of `tmux info`, the piece of `info` from `from` to `to`,
/// shows a true-colour capability switched on.
fn line_has_truecolor(info: &Vec<char>, from: usize, to: usize) -> (r: bool)
    requires
        from <= to <= info.len(),
    ensures
        r == line_shows_truecolor(info@.subrange(from as int, to as int)),
{
    let tc = text::chars("Tc");
    let rgb = text::chars("RGB");
    let on = text::chars("true");
    (text::contains_in(info, from, to, &tc) || text::contains_in(info, from, to, &rgb))
        && text::contains_in(info, from, to, &on)
}

/// Whether some line of `info` shows a true-colour capability switched on.
pub fn tmux_info_has_truecolor(info: &str) -> (r: bool)
    ensures
        r == info_shows_truecolor(info@),
{
    let v = text::chars(info);
    let n = v.len();
    let mut from: usize = 0;
    proof {
        assert(v@.skip(0) =~= v@);
    }
    loop
        invariant
            from <= n,
            n == v.len(),
            v@ == info@,
            info_shows_truecolor(info@) == info_shows_truecolor(v@.skip(from as int)),
        decreases n - from,
    {
        let end = text::find_from(&v, from, '\n');
        let ghost rest = v@.skip(from as int);
        proof {
            assert(rest.take(end - from) =~= v@.subrange(from as int, end as int));
        }
        if line_has_truecolor(&v, from, end) {
            return true;
        }
        if end >= n {
            return false;
        }
        proof {
            assert(rest.skip(end - from + 1) =~= v@.skip(end + 1));
        }
        from = end + 1;
    }
}

/// The rules of the resolver, each on its own, over one snapshot.
#[derive(Debug)]
pub struct Detector {
    /// The snapshot that the rules read.
    pub vars: TermVars,
}

impl Detector {
    /// A detector over `vars`.
    pub fn new(vars: TermVars) -> (r: Detector)
        ensures
            r.vars == vars,
    {
        Detector { vars }
    }

    /// The first rule: whether there is a terminal at all.
    pub fn detect_tty(&self) -> (r: TermProfile)
        ensures
            r == self.vars.tty_profile(),
    {
        if (!self.vars.overrides.tty_force.is_truthy() && !self.vars.meta.is_terminal)
            || self.vars.meta.is_dumb() {
            TermProfile::NoTty
        } else {
            TermProfile::NoColor
        }
    }

    /// What `NO_COLOR` asks for.
    pub fn detect_no_color(&self) -> (r: Option<TermProfile>)
        ensures
            r == self.vars.no_color_profile(),
    {
        if self.vars.overrides.no_color.is_truthy() {
            Some(TermProfile::NoColor)
        } else {
            None
        }
    }

    /// What the forcing variables decide.
    pub fn detect_force_color(&self) -> (r: Option<TermProfile>)
        ensures
            r == self.vars.force_profile(),
    {
        let force = self.vars.overrides.clicolor_force.or(&self.vars.overrides.force_color);
        assert(force@ == self.vars.force());
        if force.is("no_color") {
            return Some(TermProfile::NoColor);
        }
        if force.is("ansi") || force.is("ansi16") {
            return Some(TermProfile::Ansi16);
        }
        if force.is("ansi256") {
            return Some(TermProfile::Ansi256);
        }
        if force.is("truecolor") {
            return Some(TermProfile::TrueColor);
        }
        if force.is_truthy() || self.vars.overrides.clicolor.is_truthy() {
            Some(TermProfile::Ansi16.max(self.detect_term_vars()))
        } else {
            None
        }
    }

    /// What the platform decides.
    pub fn detect_special_cases(&self) -> (r: Option<TermProfile>)
        ensures
            r == self.vars.special_profile(),
    {
        let special = &self.vars.special;
        if !special.google_cloud_shell.is_empty() || !special.github_actions.is_empty()
            || !special.gitea_actions.is_empty() || !special.circleci.is_empty()
            || !special.cirrus_ci.is_empty() {
            return Some(TermProfile::TrueColor);
        }
        if !special.travis.is_empty() || !special.appveyor.is_empty()
            || !special.gitlab_ci.is_empty() || !special.buildkite.is_empty()
            || !special.drone.is_empty() || !special.teamcity_version.is_empty() {
            return Some(TermProfile::Ansi16);
        }
        if !special.tf_build.is_empty() && !special.agent_name.is_empty() {
            return Some(TermProfile::Ansi16);
        }
        if special.ci_name.is("codeship") {
            return Some(TermProfile::Ansi16);
        }
        if special.ci.is_truthy() {
            return Some(TermProfile::Ansi16);
        }
        None
    }

    /// Whether the session runs in tmux.
    pub fn is_tmux(&self) -> (r: bool)
        ensures
            r == self.vars.in_tmux(),
    {
        !self.vars.tmux.tmux.is_empty() || prefix_or_equal(
            self.vars.meta.term.value().as_str(),
            "tmux",
        ) || prefix_or_equal(self.vars.meta.term_program.value().as_str(), "tmux")
    }

    /// What tmux allows.
    pub fn detect_tmux(&self) -> (r: Option<TermProfile>)
        ensures
            r == self.vars.tmux_profile(),
    {
        if !self.is_tmux() {
            return None;
        }
        if tmux_info_has_truecolor(self.vars.tmux.tmux_info.as_str()) {
            Some(TermProfile::TrueColor)
        } else {
            Some(TermProfile::Ansi256)
        }
    }

    /// What is inferred on Windows.
    pub fn detect_windows(&self) -> (r: Option<TermProfile>)
        ensures
            r == self.vars.windows_profile(),
    {
        if !self.vars.windows.is_windows {
            return None;
        }
        if self.vars.special.con_emu_ansi.is("on") {
            return Some(TermProfile::TrueColor);
        }
        self.detect_windows_version()
    }

    /// What the version of Windows allows.
    pub fn detect_windows_version(&self) -> (r: Option<TermProfile>)
        ensures
            r == self.vars.windows_version_profile(),
    {
        let windows = &self.vars.windows;
        if windows.os_version == 0 {
            return None;
        }
        if windows.build_number < 10586 || windows.os_version < 10 {
            if windows.ansicon.is_empty() {
                return Some(TermProfile::NoColor);
            }
            let recent = match text::parse_u32(windows.ansicon_ver.value().as_str()) {
                Some(version) => version >= 181,
                None => false,
            };
            if recent {
                return Some(TermProfile::Ansi256);
            } else {
                return Some(TermProfile::Ansi16);
            }
        }
        if windows.build_number < 14931 {
            return Some(TermProfile::Ansi256);
        }
        Some(TermProfile::TrueColor)
    }

    /// What the terminal's own variables come to.
    pub fn detect_term_vars(&self) -> (r: TermProfile)
        ensures
            r == self.vars.term_vars_profile(),
    {
        let term = self.vars.meta.term.value();
        let mut profile = self.detect_tty();
        if term.as_str().is_empty() {
            if let Some(windows) = self.detect_windows() {
                profile = profile.max(windows);
            }
        } else {
            profile = profile.max(TermProfile::Ansi16);
        }
        assert(profile == self.vars.platform_floor());

        let program = &self.vars.meta.term_program;
        if program.is("mintty") {
            return TermProfile::TrueColor;
        }
        if program.is("iterm.app") {
            let version = self.vars.meta.term_program_version.value();
            let major: u32 = match text::parse_u32(text::take_before_first(version.as_str(), '.')) {
                Some(major) => major,
                None => 0,
            };
            if major >= 3 {
                return TermProfile::TrueColor;
            } else {
                return TermProfile::Ansi256;
            }
        }
        if program.is("apple_terminal") {
            return TermProfile::Ansi256;
        }
        let is_screen = prefix_or_equal(term.as_str(), "screen");
        if is_screen {
            profile = profile.max(TermProfile::Ansi256);
        }
        let bare = text::strip_prefix(term.as_str(), "screen.");
        let last = text::take_after_last(bare, '-');
        if text::equal(last, "alacritty") || text::equal(last, "contour") || text::equal(
            last,
            "rio",
        ) || text::equal(last, "wezterm") || text::equal(last, "ghostty") || text::equal(
            last,
            "kitty",
        ) || text::equal(last, "foot") || text::equal(last, "st") || text::equal(last, "direct") {
            return TermProfile::TrueColor;
        }
        if text::equal(last, "256color") {
            profile = profile.max(TermProfile::Ansi256);
        } else if text::equal(last, "linux") || text::equal(last, "xterm") {
            profile = profile.max(TermProfile::Ansi16);
        }
        assert(profile == self.vars.name_floor());

        if let Some(tmux) = self.detect_tmux() {
            profile = profile.max(tmux);
        }
        assert(profile == self.vars.tmux_floor());

        let colorterm = &self.vars.meta.colorterm;
        if (colorterm.is("24bit") || colorterm.is("truecolor") || colorterm.is_truthy())
            && !is_screen && !self.is_tmux() {
            return TermProfile::TrueColor;
        }
        if text::contains(bare, "color") || text::contains(bare, "ansi") {
            profile = profile.max(TermProfile::Ansi16);
        }
        assert(profile == self.vars.hint_floor());

        if let Some(true) = self.vars.terminfo.truecolor {
            return TermProfile::TrueColor;
        }
        let colors: i32 = match self.vars.terminfo.max_colors {
            Some(colors) => colors,
            None => 0,
        };
        if colors >= TERMINFO_TRUECOLOR {
            return TermProfile::TrueColor;
        }
        if colors >= 256 {
            profile = profile.max(TermProfile::Ansi256);
        }
        profile
    }
}

impl TermProfile {
    /// The profile of a snapshot of signals. It is always one: no signal is
    /// needed, and none can make the resolver fail.
    pub fn detect_with_vars(vars: TermVars) -> (r: TermProfile)
        ensures
            r == vars.resolved(),
    {
        let detector = Detector::new(vars);
        let profile = detector.detect_tty();
        if let Some(env) = detector.detect_no_color() {
            if profile > TermProfile::NoTty {
                return env;
            }
        }
        if let Some(env) = detector.detect_force_color() {
            return env;
        }
        if detector.vars.meta.dcs_response {
            return TermProfile::TrueColor;
        }
        if let Some(env) = detector.detect_special_cases() {
            return env;
        }
        if profile == TermProfile::NoTty {
            return profile;
        }
        detector.detect_term_vars()
    }
}

/// `NO_COLOR` beats every request for colour, on a terminal: where it says
/// "yes" and there is a terminal, the profile is `NoColor`, whatever forces
/// colour and whatever else is set.
pub proof fn lemma_no_color_wins(vars: TermVars)
    requires
        vars.overrides.no_color.truthy(),
        vars.tty_profile() != TermProfile::NoTty,
    ensures
        vars.resolved() == TermProfile::NoColor,
{
}

/// `NO_COLOR` never raises a profile: without a terminal it changes nothing.
pub proof fn lemma_no_color_needs_a_terminal(with: TermVars, without: TermVars)
    requires
        with.tty_profile() == TermProfile::NoTty,
        without.tty_profile() == TermProfile::NoTty,
        with.force_profile() == without.force_profile(),
        with.meta.dcs_response == without.meta.dcs_response,
        with.special_profile() == without.special_profile(),
    ensures
        with.resolved() == without.resolved(),
{
}

/// A level that is forced by name is the profile, also without a terminal:
/// only `NO_COLOR` on a terminal stands before it.
pub proof fn lemma_forced_level(vars: TermVars)
    requires
        !(vars.overrides.no_color.truthy() && vars.tty_profile() != TermProfile::NoTty),
    ensures
        vars.force_text() == "truecolor"@ ==> vars.resolved() == TermProfile::TrueColor,
        vars.force_text() == "ansi256"@ ==> vars.resolved() == TermProfile::Ansi256,
        vars.force_text() == "ansi16"@ ==> vars.resolved() == TermProfile::Ansi16,
        vars.force_text() == "ansi"@ ==> vars.resolved() == TermProfile::Ansi16,
        vars.force_text() == "no_color"@ ==> vars.resolved() == TermProfile::NoColor,
{
    reveal_strlit("truecolor");
    reveal_strlit("ansi256");
    reveal_strlit("ansi16");
    reveal_strlit("ansi");
    reveal_strlit("no_color");
    assert("truecolor"@.len() == 9);
    assert("ansi256"@.len() == 7);
    assert("ansi16"@.len() == 6);
    assert("ansi"@.len() == 4);
    assert("no_color"@.len() == 8);
}

/// To force colour without naming a level only raises a floor: the profile
/// is then the higher of `Ansi16` and what the terminal's own variables come
/// to.
pub proof fn lemma_force_raises_a_floor(vars: TermVars)
    requires
        !(vars.overrides.no_color.truthy() && vars.tty_profile() != TermProfile::NoTty),
        !names_level(vars.force_text()),
        vars.force_truthy() || vars.overrides.clicolor.truthy(),
    ensures
        vars.resolved() == TermProfile::Ansi16.higher(vars.term_vars_profile()),
        vars.resolved().rank() >= TermProfile::Ansi16.rank(),
        vars.resolved().rank() >= vars.term_vars_profile().rank(),
{
}

/// Without a terminal the variables of the terminal raise nothing: where
/// nothing forces colour, the terminal was not heard and no platform is
/// known, the profile is `NoTty`, whatever `TERM`, `COLORTERM` and the
/// terminfo entry say.
pub proof fn lemma_no_terminal_no_color(vars: TermVars)
    requires
        vars.tty_profile() == TermProfile::NoTty,
        vars.force_profile() is None,
        !vars.meta.dcs_response,
        vars.special_profile() is None,
    ensures
        vars.resolved() == TermProfile::NoTty,
{
}

/// Off Windows the rules for Windows decide nothing: what is known of
/// Windows, its version and the variables of ANSICON and ConEmu, is not heard.
pub proof fn lemma_windows_rules_need_windows(vars: TermVars)
    requires
        !vars.windows.is_windows,
    ensures
        vars.windows_profile() is None,
        vars.meta.term.text().len() == 0 ==> vars.platform_floor() == vars.tty_profile(),
{
}

/// A terminal whose name ends in that of a terminal known for true colour
/// has true colour, whatever `COLORTERM` says: among the terminal's own
/// variables only the terminal program is heard before the name.
pub proof fn lemma_truecolor_name(vars: TermVars)
    requires
        is_truecolor_name(text::after_last(vars.bare_term(), '-')),
        vars.term_program_profile() is None,
    ensures
        vars.term_vars_profile() == TermProfile::TrueColor,
{
}

/// The names of the true-colour terminals are plain words without `-`:
/// each is stored as it stands, is the last part of itself, and is neither
/// `dumb` nor a name of screen.
proof fn lemma_truecolor_names(word: Seq<char>)
    requires
        is_truecolor_name(word),
    ensures
        text::is_plain(word),
        word.len() > 0,
        !text::is_ascii_space(word[0]),
        !text::is_ascii_space(word.last()),
        forall|i: int| 0 <= i < word.len() ==> word[i] != '-',
        !"screen."@.is_prefix_of(word),
        word != "dumb"@,
{
    reveal_strlit("screen.");
    reveal_strlit("dumb");
    assert("screen."@.len() == 7);
    assert("screen."@[0] == 's');
    assert("dumb"@.len() == 4);
    assert("dumb"@[0] == 'd');
    if word == "alacritty"@ {
        reveal_strlit("alacritty");
        assert("alacritty"@.len() == 9);
        assert("alacritty"@[0] == 'a');
        assert("alacritty"@[1] == 'l');
        assert("alacritty"@[2] == 'a');
        assert("alacritty"@[3] == 'c');
        assert("alacritty"@[4] == 'r');
        assert("alacritty"@[5] == 'i');
        assert("alacritty"@[6] == 't');
        assert("alacritty"@[7] == 't');
        assert("alacritty"@[8] == 'y');
    }
    if word == "contour"@ {
        reveal_strlit("contour");
        assert("contour"@.len() == 7);
        assert("contour"@[0] == 'c');
        assert("contour"@[1] == 'o');
        assert("contour"@[2] == 'n');
        assert("contour"@[3] == 't');
        assert("contour"@[4] == 'o');
        assert("contour"@[5] == 'u');
        assert("contour"@[6] == 'r');
    }
    if word == "rio"@ {
        reveal_strlit("rio");
        assert("rio"@.len() == 3);
        assert("rio"@[0] == 'r');
        assert("rio"@[1] == 'i');
        assert("rio"@[2] == 'o');
    }
    if word == "wezterm"@ {
        reveal_strlit("wezterm");
        assert("wezterm"@.len() == 7);
        assert("wezterm"@[0] == 'w');
        assert("wezterm"@[1] == 'e');
        assert("wezterm"@[2] == 'z');
        assert("wezterm"@[3] == 't');
        assert("wezterm"@[4] == 'e');
        assert("wezterm"@[5] == 'r');
        assert("wezterm"@[6] == 'm');
    }
    if word == "ghostty"@ {
        reveal_strlit("ghostty");
        assert("ghostty"@.len() == 7);
        assert("ghostty"@[0] == 'g');
        assert("ghostty"@[1] == 'h');
        assert("ghostty"@[2] == 'o');
        assert("ghostty"@[3] == 's');
        assert("ghostty"@[4] == 't');
        assert("ghostty"@[5] == 't');
        assert("ghostty"@[6] == 'y');
    }
    if word == "kitty"@ {
        reveal_strlit("kitty");
        assert("kitty"@.len() == 5);
        assert("kitty"@[0] == 'k');
        assert("kitty"@[1] == 'i');
        assert("kitty"@[2] == 't');
        assert("kitty"@[3] == 't');
        assert("kitty"@[4] == 'y');
    }
    if word == "foot"@ {
        reveal_strlit("foot");
        assert("foot"@.len() == 4);
        assert("foot"@[0] == 'f');
        assert("foot"@[1] == 'o');
        assert("foot"@[2] == 'o');
        assert("foot"@[3] == 't');
    }
    if word == "st"@ {
        reveal_strlit("st");
        assert("st"@.len() == 2);
        assert("st"@[0] == 's');
        assert("st"@[1] == 't');
    }
    if word == "direct"@ {
        reveal_strlit("direct");
        assert("direct"@.len() == 6);
        assert("direct"@[0] == 'd');
        assert("direct"@[1] == 'i');
        assert("direct"@[2] == 'r');
        assert("direct"@[3] == 'e');
        assert("direct"@[4] == 'c');
        assert("direct"@[5] == 't');
    }
    if "screen."@.is_prefix_of(word) {
        assert(word.subrange(0, 7)[0] == word[0]);
    }
}

/// A terminal that calls itself by the name of a true-colour terminal, such
/// as `alacritty`, has true colour, whatever `COLORTERM` says. The name is
/// stored as it was given, and the terminal's own variables come to
/// `TrueColor` unless the terminal program says otherwise. With a terminal,
/// and with neither `NO_COLOR`, nor a forced level, nor a known platform
/// before it, that is the profile.
pub proof fn lemma_truecolor_terminal(vars: TermVars, word: Seq<char>)
    requires
        is_truecolor_name(word),
        vars.meta.term@ == crate::termvar::normalized(Some(word)),
        vars.term_program_profile() is None,
    ensures
        vars.meta.term.text() == word,
        vars.term_vars_profile() == TermProfile::TrueColor,
        (vars.meta.is_terminal || vars.overrides.tty_force.truthy())
            && !vars.overrides.no_color.truthy() && !names_level(vars.force_text())
            && vars.special_profile() is None ==> vars.resolved() == TermProfile::TrueColor,
{
    lemma_truecolor_names(word);
    crate::termvar::lemma_plain_word_is_stored(word);
    text::lemma_one_piece(word, '-');
}

/// The profile depends on what the signals say and on nothing else: two
/// snapshots that hold the same signals come to the same.
pub proof fn lemma_same_signals_same_profile(one: TermVars, other: TermVars)
    requires
        one.same(other),
    ensures
        one.term_vars_profile() == other.term_vars_profile(),
        one.resolved() == other.resolved(),
{
}

/// Under screen and under tmux `COLORTERM` decides nothing: two snapshots
/// that differ in `COLORTERM` alone come to the same.
pub proof fn lemma_colorterm_unheard(one: TermVars, other: TermVars)
    requires
        one.is_screen() || one.in_tmux(),
        one.same(
            TermVars {
                meta: TermMetaVars { colorterm: one.meta.colorterm, ..other.meta },
                ..other
            },
        ),
    ensures
        one.term_vars_profile() == other.term_vars_profile(),
        one.resolved() == other.resolved(),
{
}

/// Screen alone gives 256 colours: where the terminal is screen, its name
/// does not end in that of a true-colour terminal, the terminal program is
/// unknown, tmux shows no true colour and the terminfo entry says nothing,
/// the terminal's own variables come to `Ansi256`, whatever `COLORTERM` says.
pub proof fn lemma_screen_is_ansi256(vars: TermVars)
    requires
        vars.is_screen(),
        vars.term_program_profile() is None,
        !is_truecolor_name(text::after_last(vars.bare_term(), '-')),
        vars.tmux_profile() != Some(TermProfile::TrueColor),
        vars.terminfo.truecolor != Some(true),
        vars.terminfo_colors() < TERMINFO_TRUECOLOR,
    ensures
        vars.term_vars_profile() == TermProfile::Ansi256,
{
    reveal_strlit("screen");
    assert("screen"@.len() == 6);
    assert(vars.meta.term.text().len() >= 6);
}

/// The resolver always comes to one of the five profiles, and to more than
/// `NoTty` only for a reason: a terminal, a forcing variable, the terminal's
/// own answer, or a known platform.
pub proof fn lemma_colour_needs_a_reason(vars: TermVars)
    ensures
        vars.resolved() != TermProfile::NoTty ==> vars.tty_profile() != TermProfile::NoTty
            || vars.force_profile() is Some || vars.meta.dcs_response
            || vars.special_profile() is Some,
{
}

} // verus!
