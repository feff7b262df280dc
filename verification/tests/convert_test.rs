use term_color_adapter::style::BOLD;
use term_color_adapter::{AnsiColor, Color, ProfileColor, Rgb, Style, TermProfile};

fn rgb(red: u8, green: u8, blue: u8) -> Color {
    Color::Rgb(Rgb { red, green, blue })
}

fn rgb_to_ansi256(in_color: Color, out_index: u8) {
    let res = TermProfile::Ansi256.adapt_color(in_color).unwrap();
    assert_eq!(res, Color::Ansi256(out_index));

    let res = TermProfile::Ansi256.adapt_style(
        Style::new()
            .fg_color(Some(in_color))
            .bg_color(Some(in_color))
            .effects(BOLD),
    );
    assert_eq!(
        res,
        Style::new()
            .fg_color(Some(Color::Ansi256(out_index)))
            .bg_color(Some(Color::Ansi256(out_index)))
            .effects(BOLD),
    );
}

#[test]
fn rgb_to_ansi256_salmon() {
    rgb_to_ansi256(rgb(220, 90, 90), 167);
}

#[test]
fn rgb_to_ansi256_dark_green() {
    rgb_to_ansi256(rgb(20, 73, 18), 22);
}

#[test]
fn rgb_to_ansi256_red() {
    rgb_to_ansi256(rgb(255, 0, 0), 196);
}

#[test]
fn rgb_to_ansi256_white() {
    rgb_to_ansi256(rgb(255, 255, 255), 231);
}

#[test]
fn rgb_to_ansi256_near_white() {
    rgb_to_ansi256(rgb(250, 250, 250), 231);
}

#[test]
fn rgb_to_ansi256_black() {
    rgb_to_ansi256(rgb(0, 0, 0), 16);
}

fn rgb_to_ansi16(in_color: Color, out_color: AnsiColor) {
    let res = TermProfile::Ansi16.adapt_color(in_color).unwrap();
    assert_eq!(res, Color::Ansi(out_color));

    let res = TermProfile::Ansi16.adapt_style(
        Style::new()
            .fg_color(Some(in_color))
            .bg_color(Some(in_color))
            .effects(BOLD),
    );
    assert_eq!(
        res,
        Style::new()
            .fg_color(Some(Color::Ansi(out_color)))
            .bg_color(Some(Color::Ansi(out_color)))
            .effects(BOLD),
    );
}

#[test]
fn rgb_to_ansi16_salmon() {
    rgb_to_ansi16(rgb(220, 90, 90), AnsiColor::Yellow);
}

#[test]
fn rgb_to_ansi16_dark_green() {
    rgb_to_ansi16(rgb(20, 73, 18), AnsiColor::Green);
}

#[test]
fn rgb_to_ansi16_red() {
    rgb_to_ansi16(rgb(255, 0, 0), AnsiColor::BrightRed);
}

#[test]
fn rgb_to_ansi16_white() {
    rgb_to_ansi16(rgb(255, 255, 255), AnsiColor::BrightWhite);
}

#[test]
fn rgb_to_ansi16_black() {
    rgb_to_ansi16(rgb(0, 0, 0), AnsiColor::Black);
}

fn ansi256_to_ansi(in_index: u8, out_color: AnsiColor) {
    let in_color = Color::Ansi256(in_index);
    let res = TermProfile::Ansi16.adapt_color(in_color).unwrap();
    assert_eq!(res, Color::Ansi(out_color));

    let res = TermProfile::Ansi16.adapt_style(
        Style::new()
            .fg_color(Some(in_color))
            .bg_color(Some(in_color))
            .effects(BOLD),
    );
    assert_eq!(
        res,
        Style::new()
            .fg_color(Some(Color::Ansi(out_color)))
            .bg_color(Some(Color::Ansi(out_color)))
            .effects(BOLD),
    );
}

#[test]
fn ansi256_to_ansi_salmon() {
    ansi256_to_ansi(167, AnsiColor::Yellow);
}

#[test]
fn ansi256_to_ansi_black() {
    ansi256_to_ansi(0, AnsiColor::Black);
}

#[test]
fn convert_test_ascii() {
    let color = rgb(0, 0, 0);
    let res = TermProfile::NoColor.adapt_color(color);
    assert!(res.is_none());

    let res = TermProfile::NoColor.adapt_style(Style::new().fg_color(Some(color)).effects(BOLD));
    assert_eq!(res, Style::new().effects(BOLD));
}

#[test]
fn convert_test_no_tty() {
    let color = rgb(0, 0, 0);
    let res = TermProfile::NoTty.adapt_color(color);
    assert!(res.is_none());

    let res = TermProfile::NoTty.adapt_style(Style::new().fg_color(Some(color)).effects(BOLD));
    assert_eq!(res, Style::new());
}

#[test]
fn no_change() {
    let res = TermProfile::TrueColor.adapt_color(rgb(0, 0, 0)).unwrap();
    assert_eq!(res, rgb(0, 0, 0));
}

#[test]
fn no_change_ansi256() {
    let color = Color::Ansi256(0);
    let res = TermProfile::Ansi256.adapt_color(color).unwrap();
    assert_eq!(res, color);
}

#[test]
fn no_change_ansi16() {
    let color = Color::Ansi(AnsiColor::Black);
    let res = TermProfile::Ansi16.adapt_color(color).unwrap();
    assert_eq!(res, color);
}

#[test]
fn convert_test_profile_color_no_change() {
    let color = ProfileColor::new(rgb(0, 0, 0), TermProfile::TrueColor);
    assert_eq!(color.adapt(), Some(rgb(0, 0, 0)));
}

#[test]
fn convert_test_profile_color_adapt() {
    let color = ProfileColor::new(rgb(0, 0, 0), TermProfile::Ansi256);
    assert_eq!(color.adapt(), Some(Color::Ansi256(16)));
}

#[test]
fn convert_test_profile_color_256_override() {
    let color = ProfileColor::new(rgb(0, 0, 0), TermProfile::Ansi256).ansi_256(Color::Ansi256(0));
    assert_eq!(color.adapt(), Some(Color::Ansi256(0)));
}

#[test]
fn convert_test_profile_color_16_override() {
    let color = ProfileColor::new(rgb(0, 0, 0), TermProfile::Ansi16)
        .ansi_16(Color::Ansi(AnsiColor::BrightBlack));
    assert_eq!(color.adapt(), Some(Color::Ansi(AnsiColor::BrightBlack)));
}

#[test]
fn convert_test_profile_color_downsample_priority() {
    let color = ProfileColor::new(rgb(0, 0, 0), TermProfile::Ansi16).ansi_256(Color::Ansi256(8));
    assert_eq!(color.adapt(), Some(Color::Ansi(AnsiColor::BrightBlack)));
}

#[test]
fn profile_color_ignores_a_form_of_the_wrong_kind() {
    let color = ProfileColor::new(rgb(0, 0, 0), TermProfile::Ansi256)
        .ansi_256(Color::Ansi(AnsiColor::Red))
        .ansi_16(Color::Ansi256(3));
    assert_eq!(color.adapt(), Some(Color::Ansi256(16)));
}

#[test]
fn profile_color_keeps_the_default_under_true_colour() {
    let color = ProfileColor::new(rgb(1, 2, 3), TermProfile::TrueColor)
        .ansi_256(Color::Ansi256(9))
        .ansi_16(Color::Ansi(AnsiColor::Red));
    assert_eq!(color.adapt(), Some(rgb(1, 2, 3)));
}

#[test]
fn underline_colour_is_adapted_too() {
    let res = TermProfile::Ansi256.adapt_style(
        Style::new()
            .underline_color(Some(rgb(255, 0, 0)))
            .effects(BOLD),
    );
    assert_eq!(res.get_underline_color(), Some(Color::Ansi256(196)));
    assert_eq!(res.get_fg_color(), None);
    assert_eq!(res.get_bg_color(), None);
    assert_eq!(res.get_effects(), BOLD);
}

#[test]
fn adapting_twice_changes_nothing() {
    let profiles = [
        TermProfile::NoTty,
        TermProfile::NoColor,
        TermProfile::Ansi16,
        TermProfile::Ansi256,
        TermProfile::TrueColor,
    ];
    let colors = [
        rgb(220, 90, 90),
        rgb(0, 0, 0),
        rgb(8, 8, 8),
        Color::Ansi256(167),
        Color::Ansi256(3),
        Color::Ansi(AnsiColor::Cyan),
    ];
    for profile in profiles {
        for color in colors {
            let once = profile.adapt_color(color);
            let twice = once.and_then(|c| profile.adapt_color(c));
            assert_eq!(once, twice);
        }
    }
}

fn fidelity(color: Color) -> TermProfile {
    match color {
        Color::Ansi(_) => TermProfile::Ansi16,
        Color::Ansi256(_) => TermProfile::Ansi256,
        Color::Rgb(_) => TermProfile::TrueColor,
    }
}

#[test]
fn adapting_never_raises_the_fidelity() {
    let profiles = [
        TermProfile::NoTty,
        TermProfile::NoColor,
        TermProfile::Ansi16,
        TermProfile::Ansi256,
        TermProfile::TrueColor,
    ];
    let colors = [
        rgb(220, 90, 90),
        Color::Ansi256(167),
        Color::Ansi(AnsiColor::Cyan),
    ];
    for profile in profiles {
        for color in colors {
            if let Some(result) = profile.adapt_color(color) {
                assert!(fidelity(result) <= profile);
                assert!(fidelity(result) <= fidelity(color));
            } else {
                assert!(profile < TermProfile::Ansi16);
            }
        }
    }
}

#[test]
fn profiles_are_ordered() {
    assert!(TermProfile::NoTty < TermProfile::NoColor);
    assert!(TermProfile::NoColor < TermProfile::Ansi16);
    assert!(TermProfile::Ansi16 < TermProfile::Ansi256);
    assert!(TermProfile::Ansi256 < TermProfile::TrueColor);
    assert_eq!(
        TermProfile::Ansi16.max(TermProfile::Ansi256),
        TermProfile::Ansi256
    );
    assert_eq!(
        TermProfile::TrueColor.max(TermProfile::NoTty),
        TermProfile::TrueColor
    );
    assert_eq!(TermProfile::NoColor.level(), 1);
    assert_eq!(
        std::cmp::Ord::cmp(&TermProfile::Ansi16, &TermProfile::Ansi256),
        std::cmp::Ordering::Less
    );
}
