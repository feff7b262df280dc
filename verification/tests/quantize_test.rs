use term_color_adapter::quantize::{
    blue_color_index, distance_squared, get_color_index, green_color_index, red_color_index,
};
use term_color_adapter::{
    ansi256_to_ansi, ansi256_to_rgb, rgb_to_ansi256, set_color_cache_enabled,
    set_color_cache_size, AnsiColor, Color, QuantizationCache, Rgb, TermProfile,
};

fn rgb(red: u8, green: u8, blue: u8) -> Rgb {
    Rgb { red, green, blue }
}

#[test]
fn black_is_the_first_colour_of_the_cube() {
    assert_eq!(rgb_to_ansi256(rgb(0, 0, 0)), 16);
}

#[test]
fn white_is_the_last_colour_of_the_cube() {
    assert_eq!(rgb_to_ansi256(rgb(255, 255, 255)), 231);
}

#[test]
fn red_is_bright_red() {
    assert_eq!(rgb_to_ansi256(rgb(255, 0, 0)), 196);
    assert_eq!(ansi256_to_ansi(196), AnsiColor::BrightRed);
}

#[test]
fn steps_of_the_cube() {
    assert_eq!(red_color_index(0), 0);
    assert_eq!(red_color_index(48), 0);
    assert_eq!(red_color_index(49), 1);
    assert_eq!(green_color_index(47), 0);
    assert_eq!(green_color_index(48), 1);
    assert_eq!(blue_color_index(48), 1);
    assert_eq!(blue_color_index(115), 1);
    assert_eq!(blue_color_index(116), 2);
    assert_eq!(red_color_index(155), 2);
    assert_eq!(red_color_index(156), 3);
    assert_eq!(red_color_index(195), 3);
    assert_eq!(red_color_index(196), 4);
    assert_eq!(red_color_index(235), 4);
    assert_eq!(red_color_index(236), 5);
    assert_eq!(red_color_index(255), 5);
}

#[test]
fn breakpoints_of_any_number() {
    assert_eq!(get_color_index(7, [] as [u8; 0]), 0);
    assert_eq!(get_color_index(7, [8]), 0);
    assert_eq!(get_color_index(8, [8]), 1);
    assert_eq!(get_color_index(200, [10, 20, 30]), 3);
}

#[test]
fn distance_weighs_red_and_blue_by_the_mean_red() {
    // mean 217: (729 * 25) / 256 + 4 * 25 + (550 * 25) / 256
    assert_eq!(distance_squared(rgb(220, 90, 90), rgb(215, 95, 95)), 71 + 100 + 53);
    assert_eq!(distance_squared(rgb(1, 2, 3), rgb(1, 2, 3)), 0);
    // mean 127: (639 * 65025) / 256 + 0 + (640 * 65025) / 256
    assert_eq!(distance_squared(rgb(255, 0, 255), rgb(0, 0, 0)), 162308 + 162562);
    assert_eq!(
        distance_squared(rgb(0, 0, 0), rgb(255, 0, 255)),
        distance_squared(rgb(255, 0, 255), rgb(0, 0, 0))
    );
}

#[test]
fn grays_fall_on_the_ramp() {
    // (8, 8, 8) is the first gray of the ramp exactly
    assert_eq!(rgb_to_ansi256(rgb(8, 8, 8)), 232);
    assert_eq!(rgb_to_ansi256(rgb(128, 128, 128)), 244);
    assert_eq!(rgb_to_ansi256(rgb(238, 238, 238)), 255);
    // an average below 3 is the first step of the ramp, not a step before it
    assert_eq!(rgb_to_ansi256(rgb(2, 2, 2)), 16);
    assert_eq!(rgb_to_ansi256(rgb(5, 5, 5)), 232);
}

#[test]
fn a_tie_goes_to_the_cube() {
    // (4, 4, 4) is as far from black, 32 + 64 + 47, as from the first gray
    assert_eq!(distance_squared(rgb(4, 4, 4), rgb(0, 0, 0)), 143);
    assert_eq!(distance_squared(rgb(4, 4, 4), rgb(8, 8, 8)), 143);
    assert_eq!(rgb_to_ansi256(rgb(4, 4, 4)), 16);
    // (95, 95, 95) is in the cube; nothing is compared
    assert_eq!(rgb_to_ansi256(rgb(95, 95, 95)), 59);
}

#[test]
fn the_palette_holds_the_cube_and_the_ramp() {
    assert_eq!(ansi256_to_rgb(0), rgb(0, 0, 0));
    assert_eq!(ansi256_to_rgb(1), rgb(0x80, 0, 0));
    assert_eq!(ansi256_to_rgb(7), rgb(0xc0, 0xc0, 0xc0));
    assert_eq!(ansi256_to_rgb(15), rgb(255, 255, 255));
    assert_eq!(ansi256_to_rgb(16), rgb(0, 0, 0));
    assert_eq!(ansi256_to_rgb(167), rgb(215, 95, 95));
    assert_eq!(ansi256_to_rgb(231), rgb(255, 255, 255));
    assert_eq!(ansi256_to_rgb(232), rgb(8, 8, 8));
    assert_eq!(ansi256_to_rgb(255), rgb(238, 238, 238));
}

#[test]
fn every_colour_of_the_palette_from_16_on_is_its_own_index() {
    for index in 16..=255u8 {
        assert_eq!(rgb_to_ansi256(ansi256_to_rgb(index)), index);
    }
}

#[test]
fn the_named_colours_stand_for_themselves() {
    for index in 0..16u8 {
        assert_eq!(Some(ansi256_to_ansi(index)), AnsiColor::from_index(index));
    }
    assert_eq!(AnsiColor::from_index(0), Some(AnsiColor::Black));
    assert_eq!(AnsiColor::from_index(7), Some(AnsiColor::White));
    assert_eq!(AnsiColor::from_index(9), Some(AnsiColor::BrightRed));
    assert_eq!(AnsiColor::from_index(15), Some(AnsiColor::BrightWhite));
    assert_eq!(AnsiColor::from_index(16), None);
    assert_eq!(AnsiColor::from_index(255), None);
    assert_eq!(ansi256_to_ansi(8), AnsiColor::BrightBlack);
    assert_eq!(ansi256_to_ansi(16), AnsiColor::Black);
    assert_eq!(ansi256_to_ansi(22), AnsiColor::Green);
    assert_eq!(ansi256_to_ansi(231), AnsiColor::BrightWhite);
    assert_eq!(ansi256_to_ansi(244), AnsiColor::BrightBlack);
}

fn samples() -> Vec<Rgb> {
    // a fixed walk through the colour space: 1000 colours, the same each run
    let mut colors = Vec::new();
    let mut seed: u32 = 0x2545_f491;
    for _ in 0..1000 {
        seed = seed.wrapping_mul(1_664_525).wrapping_add(1_013_904_223);
        colors.push(rgb((seed >> 24) as u8, (seed >> 16) as u8, (seed >> 8) as u8));
    }
    colors
}

#[test]
fn the_cache_changes_no_result() {
    let mut on = QuantizationCache::new(64);
    set_color_cache_enabled(&mut on, true);
    let mut off = QuantizationCache::default();
    assert!(on.is_enabled());
    assert!(!off.is_enabled());
    for color in samples() {
        let plain = rgb_to_ansi256(color);
        assert_eq!(on.rgb_to_ansi256(color), plain);
        // a second time, now from the memory
        assert_eq!(on.rgb_to_ansi256(color), plain);
        assert_eq!(off.rgb_to_ansi256(color), plain);
    }
}

#[test]
fn the_cache_survives_a_resize_and_a_full_memory() {
    let mut cache = QuantizationCache::new(2);
    assert_eq!(cache.capacity(), 2);
    assert_eq!(cache.len(), 0);
    set_color_cache_enabled(&mut cache, true);
    let colors = [rgb(1, 2, 3), rgb(200, 100, 50), rgb(9, 9, 9), rgb(255, 0, 0)];
    for color in colors {
        assert_eq!(cache.rgb_to_ansi256(color), rgb_to_ansi256(color));
    }
    assert_eq!(cache.len(), 2);
    set_color_cache_size(&mut cache, 1);
    assert_eq!(cache.capacity(), 1);
    assert_eq!(cache.len(), 1);
    for color in colors {
        assert_eq!(cache.rgb_to_ansi256(color), rgb_to_ansi256(color));
    }
    assert_eq!(cache.len(), 1);
    set_color_cache_size(&mut cache, 100);
    assert_eq!(cache.len(), 1);
    set_color_cache_enabled(&mut cache, false);
    assert!(!cache.is_enabled());
    for color in colors {
        assert_eq!(cache.rgb_to_ansi256(color), rgb_to_ansi256(color));
    }
    assert_eq!(cache.len(), 1);
    assert_eq!(cache.capacity(), 100);
}

#[test]
fn the_cache_remembers_only_when_it_is_switched_on() {
    let mut cache = QuantizationCache::default();
    assert_eq!(cache.capacity(), 256);
    assert!(!cache.is_enabled());
    cache.rgb_to_ansi256(rgb(1, 2, 3));
    assert_eq!(cache.len(), 0);
    set_color_cache_enabled(&mut cache, true);
    cache.rgb_to_ansi256(rgb(1, 2, 3));
    assert_eq!(cache.len(), 1);
    // a colour that it holds is not held twice
    cache.rgb_to_ansi256(rgb(1, 2, 3));
    assert_eq!(cache.len(), 1);
    cache.rgb_to_ansi256(rgb(3, 2, 1));
    assert_eq!(cache.len(), 2);
    // colours that differ in one part have different keys
    cache.rgb_to_ansi256(rgb(3, 2, 0));
    cache.rgb_to_ansi256(rgb(3, 0, 1));
    cache.rgb_to_ansi256(rgb(0, 2, 1));
    assert_eq!(cache.len(), 5);
    // a named colour and a palette index are not quantized
    TermProfile::Ansi16.adapt_color_with(&mut cache, Color::Ansi256(200));
    TermProfile::Ansi16.adapt_color_with(&mut cache, Color::Ansi(AnsiColor::Red));
    TermProfile::TrueColor.adapt_color_with(&mut cache, Color::Rgb(rgb(9, 9, 9)));
    assert_eq!(cache.len(), 5);
    TermProfile::Ansi16.adapt_color_with(&mut cache, Color::Rgb(rgb(9, 9, 9)));
    assert_eq!(cache.len(), 6);
}

#[test]
fn adapting_with_a_cache_is_adapting() {
    let mut cache = QuantizationCache::new(16);
    set_color_cache_enabled(&mut cache, true);
    let profiles = [
        TermProfile::NoTty,
        TermProfile::NoColor,
        TermProfile::Ansi16,
        TermProfile::Ansi256,
        TermProfile::TrueColor,
    ];
    for profile in profiles {
        for color in samples().into_iter().take(50) {
            let color = Color::Rgb(color);
            assert_eq!(
                profile.adapt_color_with(&mut cache, color),
                profile.adapt_color(color)
            );
        }
        assert_eq!(
            profile.adapt_color_with(&mut cache, Color::Ansi256(167)),
            profile.adapt_color(Color::Ansi256(167))
        );
    }
}
