use hlwm_bar::utils::cairo_source_rgb_hex;
use hlwm_bar::utils::cairo_source_rgb_rgfade;
use hlwm_bar::utils::Color;
use hlwm_bar::utils::CHANNEL_FULL;

#[test]
fn hex_colours_are_split_into_channels() {
    assert_eq!(cairo_source_rgb_hex(0x000000), Color { red: 0, green: 0, blue: 0 });
    assert_eq!(
        cairo_source_rgb_hex(0xffffff),
        Color { red: CHANNEL_FULL, green: CHANNEL_FULL, blue: CHANNEL_FULL }
    );
    assert_eq!(cairo_source_rgb_hex(0xe8e6df), Color { red: 23200, green: 23000, blue: 22300 });
    assert_eq!(cairo_source_rgb_hex(0x0000ff), Color { red: 0, green: 0, blue: 25500 });
    assert_eq!(cairo_source_rgb_hex(0x010000), Color { red: 100, green: 0, blue: 0 });
}

#[test]
fn top_byte_of_a_hex_colour_is_ignored() {
    assert_eq!(cairo_source_rgb_hex(0xff393939), cairo_source_rgb_hex(0x393939));
}

#[test]
fn fade_runs_from_red_over_yellow_to_green() {
    assert_eq!(cairo_source_rgb_rgfade(0), Color { red: 25500, green: 0, blue: 0 });
    assert_eq!(cairo_source_rgb_rgfade(25), Color { red: 25500, green: 12750, blue: 0 });
    assert_eq!(cairo_source_rgb_rgfade(50), Color { red: 25500, green: 25500, blue: 0 });
    assert_eq!(cairo_source_rgb_rgfade(51), Color { red: 24990, green: 25500, blue: 0 });
    assert_eq!(cairo_source_rgb_rgfade(87), Color { red: 6630, green: 25500, blue: 0 });
    assert_eq!(cairo_source_rgb_rgfade(100), Color { red: 0, green: 25500, blue: 0 });
}
