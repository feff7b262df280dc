use term_color_adapter::detect::tmux_info_has_truecolor;
use term_color_adapter::{
    Detector, IsTerminal, TermProfile, TermVar, TermVars, TerminfoVars, VarMap, WindowsVars,
};

struct Tty(bool);

impl IsTerminal for Tty {
    fn is_terminal(&self) -> bool {
        self.0
    }
}

fn vars(tty: bool, pairs: &[(&str, &str)]) -> TermVars {
    let mut vars = TermVars::from_source(&VarMap::from_pairs(pairs), &Tty(tty), false);
    vars.windows = WindowsVars::default();
    vars
}

fn on_tty(pairs: &[(&str, &str)]) -> TermProfile {
    TermProfile::detect_with_vars(vars(true, pairs))
}

fn off_tty(pairs: &[(&str, &str)]) -> TermProfile {
    TermProfile::detect_with_vars(vars(false, pairs))
}

#[test]
fn no_color_beats_force_color_on_a_terminal() {
    assert_eq!(
        on_tty(&[("NO_COLOR", "1"), ("FORCE_COLOR", "1")]),
        TermProfile::NoColor
    );
    assert_eq!(
        on_tty(&[("NO_COLOR", "true"), ("FORCE_COLOR", "truecolor")]),
        TermProfile::NoColor
    );
    assert_eq!(
        off_tty(&[
            ("NO_COLOR", "1"),
            ("FORCE_COLOR", "1"),
            ("TTY_FORCE", "1")
        ]),
        TermProfile::NoColor
    );
}

#[test]
fn no_color_raises_nothing_without_a_terminal() {
    assert_eq!(off_tty(&[("NO_COLOR", "1")]), TermProfile::NoTty);
    // without a terminal NO_COLOR is not heard, and what forces colour is
    assert_eq!(
        off_tty(&[("NO_COLOR", "1"), ("FORCE_COLOR", "1")]),
        TermProfile::Ansi16
    );
    assert_eq!(
        on_tty(&[("NO_COLOR", "1"), ("TERM", "dumb")]),
        TermProfile::NoTty
    );
    // only a "yes" counts
    assert_eq!(
        on_tty(&[("NO_COLOR", "0"), ("COLORTERM", "truecolor")]),
        TermProfile::TrueColor
    );
    assert_eq!(
        on_tty(&[("NO_COLOR", ""), ("TERM", "xterm")]),
        TermProfile::Ansi16
    );
}

#[test]
fn a_forced_level_needs_no_terminal() {
    assert_eq!(
        off_tty(&[("FORCE_COLOR", "truecolor")]),
        TermProfile::TrueColor
    );
    assert_eq!(
        off_tty(&[("FORCE_COLOR", " TrueColor ")]),
        TermProfile::TrueColor
    );
    assert_eq!(off_tty(&[("FORCE_COLOR", "ansi16")]), TermProfile::Ansi16);
    assert_eq!(
        off_tty(&[("CLICOLOR_FORCE", "ansi256")]),
        TermProfile::Ansi256
    );
    assert_eq!(
        off_tty(&[("CLICOLOR_FORCE", "no_color")]),
        TermProfile::NoColor
    );
    // a level forced down stays down, whatever the terminal can do
    assert_eq!(
        on_tty(&[("FORCE_COLOR", "ansi"), ("TERM", "alacritty")]),
        TermProfile::Ansi16
    );
}

#[test]
fn clicolor_force_comes_before_force_color() {
    assert_eq!(
        off_tty(&[("CLICOLOR_FORCE", "ansi"), ("FORCE_COLOR", "truecolor")]),
        TermProfile::Ansi16
    );
    // a variable that is set to nothing is set: FORCE_COLOR is not heard
    assert_eq!(
        off_tty(&[("CLICOLOR_FORCE", ""), ("FORCE_COLOR", "truecolor")]),
        TermProfile::NoTty
    );
    assert_eq!(
        off_tty(&[("CLICOLOR_FORCE", "0"), ("FORCE_COLOR", "1")]),
        TermProfile::NoTty
    );
}

#[test]
fn a_level_that_is_not_known_forces_nothing() {
    for level in ["0", "2", "3", "256", "always", "truecolour", "ansi-256", "-1", ""] {
        assert_eq!(off_tty(&[("FORCE_COLOR", level)]), TermProfile::NoTty);
        assert_eq!(on_tty(&[("FORCE_COLOR", level)]), TermProfile::NoColor);
    }
}

#[test]
fn forcing_only_raises_a_floor() {
    assert_eq!(
        off_tty(&[("FORCE_COLOR", "1"), ("COLORTERM", "truecolor")]),
        TermProfile::TrueColor
    );
    assert_eq!(
        off_tty(&[("CLICOLOR", "yes"), ("TERM", "xterm-kitty")]),
        TermProfile::TrueColor
    );
    assert_eq!(
        off_tty(&[("CLICOLOR_FORCE", "on"), ("TERM", "xterm-256color")]),
        TermProfile::Ansi256
    );
    assert_eq!(on_tty(&[("CLICOLOR", "1")]), TermProfile::Ansi16);
    // CLICOLOR does not stand in the way of what Windows allows
    let mut windows = vars(true, &[("CLICOLOR", "1")]);
    windows.windows.is_windows = true;
    windows.windows.os_version = 10;
    windows.windows.build_number = 19045;
    assert_eq!(
        TermProfile::detect_with_vars(windows),
        TermProfile::TrueColor
    );
    // a forced level is heard before CLICOLOR
    assert_eq!(
        on_tty(&[("CLICOLOR", "1"), ("FORCE_COLOR", "no_color")]),
        TermProfile::NoColor
    );
}

#[test]
fn the_answer_of_the_terminal_comes_before_the_platform() {
    let mut heard = vars(false, &[("TRAVIS", "1")]);
    heard.meta.dcs_response = true;
    assert_eq!(TermProfile::detect_with_vars(heard), TermProfile::TrueColor);
    let mut forced = vars(true, &[("FORCE_COLOR", "ansi")]);
    forced.meta.dcs_response = true;
    assert_eq!(TermProfile::detect_with_vars(forced), TermProfile::Ansi16);
}

#[test]
fn platforms_in_the_order_of_the_table() {
    for name in [
        "GOOGLE_CLOUD_SHELL",
        "GITHUB_ACTIONS",
        "GITEA_ACTIONS",
        "CIRCLECI",
        "CIRRUS_CI",
    ] {
        assert_eq!(off_tty(&[(name, "true")]), TermProfile::TrueColor);
        assert_eq!(
            off_tty(&[(name, "0"), ("TRAVIS", "1")]),
            TermProfile::TrueColor
        );
    }
    for name in [
        "TRAVIS",
        "APPVEYOR",
        "GITLAB_CI",
        "BUILDKITE",
        "DRONE",
        "TEAMCITY_VERSION",
    ] {
        assert_eq!(off_tty(&[(name, "x")]), TermProfile::Ansi16);
        assert_eq!(
            on_tty(&[(name, "x"), ("COLORTERM", "truecolor")]),
            TermProfile::Ansi16
        );
        // set to nothing is as good as not set
        assert_eq!(off_tty(&[(name, " ")]), TermProfile::NoTty);
    }
    assert_eq!(
        off_tty(&[("TF_BUILD", "True"), ("AGENT_NAME", "Hosted Agent")]),
        TermProfile::Ansi16
    );
    assert_eq!(off_tty(&[("TF_BUILD", "True")]), TermProfile::NoTty);
    assert_eq!(off_tty(&[("AGENT_NAME", "a")]), TermProfile::NoTty);
    assert_eq!(off_tty(&[("CI_NAME", "Codeship")]), TermProfile::Ansi16);
    assert_eq!(off_tty(&[("CI_NAME", "other")]), TermProfile::NoTty);
    assert_eq!(off_tty(&[("CI", "true")]), TermProfile::Ansi16);
    assert_eq!(off_tty(&[("CI", "woodpecker")]), TermProfile::NoTty);
}

#[test]
fn a_true_colour_terminal_whatever_colorterm_says() {
    for colorterm in ["", "0", "no", "truecolor", "24bit", "256"] {
        assert_eq!(
            on_tty(&[("TERM", "alacritty"), ("COLORTERM", colorterm)]),
            TermProfile::TrueColor
        );
    }
    assert_eq!(on_tty(&[("TERM", "alacritty")]), TermProfile::TrueColor);
    for term in [
        "contour",
        "rio",
        "xterm-ghostty",
        "foot",
        "st",
        "xterm-direct",
        "screen.xterm-kitty",
        "tmux-direct",
    ] {
        assert_eq!(on_tty(&[("TERM", term)]), TermProfile::TrueColor);
    }
    // a name in capitals, or with a letter that only Unicode puts in lowercase
    assert_eq!(on_tty(&[("TERM", " Alacritty ")]), TermProfile::TrueColor);
    assert_eq!(
        on_tty(&[("TERM", "xterm-\u{212a}itty")]),
        TermProfile::TrueColor
    );
    // the last part of the name counts, and all of it
    assert_eq!(on_tty(&[("TERM", "kitty-x")]), TermProfile::Ansi16);
    assert_eq!(on_tty(&[("TERM", "footer")]), TermProfile::Ansi16);
}

#[test]
fn the_terminal_program_comes_before_the_name() {
    assert_eq!(
        on_tty(&[("TERM_PROGRAM", "Apple_Terminal"), ("TERM", "alacritty")]),
        TermProfile::Ansi256
    );
    assert_eq!(
        on_tty(&[
            ("TERM_PROGRAM", "Apple_Terminal"),
            ("COLORTERM", "truecolor")
        ]),
        TermProfile::Ansi256
    );
    for (version, profile) in [
        ("3", TermProfile::TrueColor),
        ("3.4.19", TermProfile::TrueColor),
        ("+3.1", TermProfile::TrueColor),
        ("10.0", TermProfile::TrueColor),
        ("2.9.20140903", TermProfile::Ansi256),
        ("", TermProfile::Ansi256),
        ("three", TermProfile::Ansi256),
        (".3", TermProfile::Ansi256),
        ("3beta.1", TermProfile::Ansi256),
        ("99999999999.0", TermProfile::Ansi256),
    ] {
        assert_eq!(
            on_tty(&[
                ("TERM_PROGRAM", "iTerm.app"),
                ("TERM_PROGRAM_VERSION", version)
            ]),
            profile
        );
    }
    assert_eq!(on_tty(&[("TERM_PROGRAM", "iTerm.app")]), TermProfile::Ansi256);
}

#[test]
fn screen_is_not_raised_by_colorterm() {
    for term in ["screen", "screen-256color", "screen.xterm-256color", "screen.linux"] {
        for colorterm in ["truecolor", "24bit", "1", ""] {
            assert_eq!(
                on_tty(&[("TERM", term), ("COLORTERM", colorterm)]),
                TermProfile::Ansi256
            );
        }
    }
    // only a leading `screen.` is left out of the name
    assert_eq!(
        on_tty(&[("TERM", "screen-xscreen.kitty")]),
        TermProfile::Ansi256
    );
    assert_eq!(
        on_tty(&[("TERM", "screen-screen.kitty")]),
        TermProfile::Ansi256
    );
    assert_eq!(on_tty(&[("TERM", "screens")]), TermProfile::Ansi16);
    assert_eq!(
        on_tty(&[("TERM", "xscreen"), ("COLORTERM", "truecolor")]),
        TermProfile::TrueColor
    );
}

#[test]
fn tmux_is_asked_not_believed() {
    assert_eq!(
        on_tty(&[("TMUX", "/tmp/tmux-0/default,1,0"), ("TERM", "xterm")]),
        TermProfile::Ansi256
    );
    assert_eq!(
        on_tty(&[("TMUX", "x"), ("COLORTERM", "truecolor")]),
        TermProfile::Ansi256
    );
    let mut asked = vars(true, &[("TERM", "tmux")]);
    asked.tmux.tmux_info =
        "  0: AX: (flag) true\n197: RGB: (flag) true\n198: Tc: [missing]\n".to_string();
    assert_eq!(TermProfile::detect_with_vars(asked), TermProfile::TrueColor);
    // outside tmux what `tmux info` printed is not read
    let mut outside = vars(true, &[("TERM", "xterm")]);
    outside.tmux.tmux_info = "Tc: (flag) true".to_string();
    assert_eq!(TermProfile::detect_with_vars(outside), TermProfile::Ansi16);
}

#[test]
fn a_line_of_tmux_info_counts_alone() {
    assert!(tmux_info_has_truecolor("Tc: (flag) true"));
    assert!(tmux_info_has_truecolor("a\nb\n 12: RGB: (flag) true\nc"));
    assert!(tmux_info_has_truecolor("x\ntrue Tc"));
    assert!(tmux_info_has_truecolor("RGB=true\n"));
    assert!(!tmux_info_has_truecolor(""));
    assert!(!tmux_info_has_truecolor("\n\n"));
    assert!(!tmux_info_has_truecolor("Tc: [missing]\nAX: (flag) true"));
    assert!(!tmux_info_has_truecolor("Tc: (flag) \ntrue"));
    assert!(!tmux_info_has_truecolor("tc: (flag) true\nrgb: true"));
    assert!(!tmux_info_has_truecolor("Tc: (flag) TRUE"));
}

#[test]
fn hints_in_the_name() {
    assert_eq!(on_tty(&[("TERM", "ansi")]), TermProfile::Ansi16);
    assert_eq!(on_tty(&[("TERM", "xterm-color")]), TermProfile::Ansi16);
    assert_eq!(on_tty(&[("TERM", "vt100")]), TermProfile::Ansi16);
    assert_eq!(on_tty(&[("TERM", "XTERM-256COLOR")]), TermProfile::Ansi256);
    assert_eq!(on_tty(&[("TERM", "xterm-256color-x")]), TermProfile::Ansi16);
    assert_eq!(on_tty(&[("TERM", "")]), TermProfile::NoColor);
    assert_eq!(on_tty(&[("TERM", "  ")]), TermProfile::NoColor);
}

#[test]
fn what_terminfo_adds() {
    for (colors, profile) in [
        (-1, TermProfile::Ansi16),
        (8, TermProfile::Ansi16),
        (255, TermProfile::Ansi16),
        (256, TermProfile::Ansi256),
        (16777215, TermProfile::Ansi256),
        (16777216, TermProfile::TrueColor),
        (i32::MAX, TermProfile::TrueColor),
    ] {
        let mut vars = vars(true, &[("TERM", "xterm")]);
        vars.terminfo.max_colors = Some(colors);
        assert_eq!(TermProfile::detect_with_vars(vars), profile);
    }
    let mut off = vars(true, &[("TERM", "xterm")]);
    off.terminfo.truecolor = Some(false);
    assert_eq!(TermProfile::detect_with_vars(off), TermProfile::Ansi16);
    // without a terminal the entry is not heard
    let mut none = vars(false, &[("TERM", "xterm")]);
    none.terminfo.truecolor = Some(true);
    none.terminfo.max_colors = Some(16777216);
    assert_eq!(TermProfile::detect_with_vars(none), TermProfile::NoTty);
    // COLORTERM is heard before the entry, the entry before nothing
    let mut screen = vars(true, &[("TERM", "screen")]);
    screen.terminfo = TerminfoVars::default();
    screen.terminfo.truecolor = Some(true);
    assert_eq!(TermProfile::detect_with_vars(screen), TermProfile::TrueColor);
}

fn windows(os_version: u64, build_number: u64, pairs: &[(&str, &str)]) -> TermVars {
    let mut vars = TermVars::from_source(&VarMap::from_pairs(pairs), &Tty(true), true);
    assert!(vars.windows.is_windows);
    assert_eq!(vars.windows.os_version, 0);
    assert_eq!(vars.windows.build_number, 0);
    vars.windows.os_version = os_version;
    vars.windows.build_number = build_number;
    vars
}

#[test]
fn off_windows_the_rules_for_windows_are_off() {
    let source = VarMap::from_pairs(&[
        ("ConEmuANSI", "ON"),
        ("ANSICON", "80x25"),
        ("ANSICON_VER", " 186 "),
    ]);
    let off = WindowsVars::from_source(&source, false);
    assert!(!off.is_windows);
    assert_eq!(off.os_version, 0);
    assert_eq!(off.build_number, 0);
    assert_eq!(off.ansicon.value(), "80x25");
    assert_eq!(off.ansicon_ver.value(), "186");
    let on = WindowsVars::from_source(&source, true);
    assert!(on.is_windows);
    assert_eq!(on.os_version, 0);
    assert_eq!(on.build_number, 0);
    assert_eq!(on.ansicon_ver.value(), "186");

    let elsewhere = TermVars::from_source(&source, &Tty(true), false);
    assert!(!elsewhere.windows.is_windows);
    assert_eq!(
        TermProfile::detect_with_vars(elsewhere),
        TermProfile::NoColor
    );
    let there = TermVars::from_source(&source, &Tty(true), true);
    assert_eq!(TermProfile::detect_with_vars(there), TermProfile::TrueColor);
    // a version that is known counts on Windows alone
    let mut known = TermVars::from_source(&VarMap::new(), &Tty(true), false);
    known.windows.os_version = 10;
    known.windows.build_number = 22631;
    assert_eq!(TermProfile::detect_with_vars(known), TermProfile::NoColor);
}

#[test]
fn what_windows_allows() {
    let profile = |os, build, pairs: &[(&str, &str)]| {
        TermProfile::detect_with_vars(windows(os, build, pairs))
    };
    // the version is not known: nothing is inferred
    assert_eq!(profile(0, 0, &[]), TermProfile::NoColor);
    assert_eq!(profile(0, 20000, &[("ANSICON", "1")]), TermProfile::NoColor);
    assert_eq!(profile(0, 0, &[("ConEmuANSI", "on")]), TermProfile::TrueColor);
    assert_eq!(profile(0, 0, &[("ConEmuANSI", "off")]), TermProfile::NoColor);
    assert_eq!(profile(6, 7601, &[]), TermProfile::NoColor);
    assert_eq!(profile(6, 20000, &[]), TermProfile::NoColor);
    assert_eq!(profile(6, 7601, &[("ANSICON", "80x25")]), TermProfile::Ansi16);
    assert_eq!(
        profile(6, 7601, &[("ANSICON", "80x25"), ("ANSICON_VER", "171")]),
        TermProfile::Ansi16
    );
    assert_eq!(
        profile(6, 7601, &[("ANSICON", "80x25"), ("ANSICON_VER", "1.81")]),
        TermProfile::Ansi16
    );
    assert_eq!(
        profile(6, 7601, &[("ANSICON", "80x25"), ("ANSICON_VER", "186")]),
        TermProfile::Ansi256
    );
    assert_eq!(profile(10, 10586, &[]), TermProfile::Ansi256);
    assert_eq!(profile(10, 14930, &[("ANSICON", "1")]), TermProfile::Ansi256);
    assert_eq!(profile(10, 14931, &[]), TermProfile::TrueColor);
    assert_eq!(profile(11, 22631, &[]), TermProfile::TrueColor);
    // with a name for the terminal Windows is not asked
    assert_eq!(profile(10, 22631, &[("TERM", "xterm")]), TermProfile::Ansi16);
    assert_eq!(
        profile(10, 22631, &[("TERM", "xterm"), ("ConEmuANSI", "on")]),
        TermProfile::Ansi16
    );
    // what Windows allows is a floor like any other
    assert_eq!(
        profile(6, 7601, &[("COLORTERM", "truecolor")]),
        TermProfile::TrueColor
    );
}

#[test]
fn each_rule_on_its_own() {
    let detector = Detector::new(vars(
        false,
        &[
            ("NO_COLOR", "1"),
            ("FORCE_COLOR", "1"),
            ("TERM", "tmux-256color"),
            ("GITHUB_ACTIONS", "true"),
        ],
    ));
    assert_eq!(detector.detect_tty(), TermProfile::NoTty);
    assert_eq!(detector.detect_no_color(), Some(TermProfile::NoColor));
    assert_eq!(detector.detect_force_color(), Some(TermProfile::Ansi256));
    assert_eq!(
        detector.detect_special_cases(),
        Some(TermProfile::TrueColor)
    );
    assert!(detector.is_tmux());
    assert_eq!(detector.detect_tmux(), Some(TermProfile::Ansi256));
    assert_eq!(detector.detect_windows(), None);
    assert_eq!(detector.detect_windows_version(), None);
    assert_eq!(detector.detect_term_vars(), TermProfile::Ansi256);
    assert_eq!(
        TermProfile::detect_with_vars(detector.vars),
        TermProfile::Ansi256
    );

    let detector = Detector::new(vars(true, &[]));
    assert_eq!(detector.detect_tty(), TermProfile::NoColor);
    assert_eq!(detector.detect_no_color(), None);
    assert_eq!(detector.detect_force_color(), None);
    assert_eq!(detector.detect_special_cases(), None);
    assert!(!detector.is_tmux());
    assert_eq!(detector.detect_tmux(), None);
    assert_eq!(detector.detect_term_vars(), TermProfile::NoColor);
    assert!(!detector.vars.meta.is_dumb());

    // the heuristic starts from what the first rule found
    let detector = Detector::new(vars(false, &[]));
    assert_eq!(detector.detect_term_vars(), TermProfile::NoTty);
    let detector = Detector::new(vars(true, &[("TERM", "dumb")]));
    assert!(detector.vars.meta.is_dumb());
    assert_eq!(detector.detect_term_vars(), TermProfile::Ansi16);
}

#[test]
fn a_snapshot_can_be_copied() {
    let mut one = vars(true, &[("TERM", "xterm-256color"), ("CI", "1")]);
    one.tmux.tmux_info = "Tc".to_string();
    one.terminfo.max_colors = Some(88);
    let other = one.clone();
    assert_eq!(other.meta.term.value(), "xterm-256color");
    assert_eq!(other.special.ci.value(), "1");
    assert_eq!(other.tmux.tmux_info, "Tc");
    assert_eq!(other.terminfo.max_colors, Some(88));
    assert!(other.meta.is_terminal);
    assert_eq!(
        TermProfile::detect_with_vars(one),
        TermProfile::detect_with_vars(other)
    );
}

#[test]
fn nothing_set_is_no_terminal() {
    let vars = TermVars::default();
    assert!(!vars.meta.is_terminal);
    assert!(!vars.windows.is_windows);
    assert!(vars.overrides.no_color.is_empty());
    assert_eq!(TermProfile::detect_with_vars(vars), TermProfile::NoTty);
    let mut vars = TermVars::default();
    vars.overrides.tty_force = TermVar::new("yes");
    assert_eq!(TermProfile::detect_with_vars(vars), TermProfile::NoColor);
}
