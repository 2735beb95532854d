use hlwm_bar::config::modules_global;
use hlwm_bar::config::modules_left;
use hlwm_bar::config::modules_right;
use hlwm_bar::config::COLOR_BG;
use hlwm_bar::config::COLOR_BG_BATTERY;
use hlwm_bar::config::COLOR_BG_CLOCK;
use hlwm_bar::config::COLOR_TEXT;
use hlwm_bar::config::DATE_FORMAT;
use hlwm_bar::generator::Generator;
use hlwm_bar::geometry::DynamicConfig;
use hlwm_bar::modules::basebar::BaseBar;
use hlwm_bar::modules::battery::Battery;
use hlwm_bar::modules::clock::Clock;
use hlwm_bar::modules::clock::Moment;
use hlwm_bar::modules::herbstluftwm::HerbstluftWM;
use hlwm_bar::modules::BarModule;
use hlwm_bar::modules::Source;
use hlwm_bar::textbox::DrawCommand;
use hlwm_bar::textbox::TextExtent;
use hlwm_bar::utils::cairo_source_rgb_hex;
use hlwm_bar::utils::cairo_source_rgb_rgfade;

fn strip() -> DynamicConfig {
    DynamicConfig { x_offset: 0, y_offset: 0, width: 1200, height: 20, monitor: 3 }
}

fn lines(list: &[&str]) -> Vec<String> {
    list.iter().map(|s| s.to_string()).collect()
}

fn two_batteries() -> Battery {
    Battery {
        dirs: lines(&["/sys/class/power_supply/BAT0/", "/sys/class/power_supply/BAT1/"]),
    }
}

fn rectangle(command: &DrawCommand) -> (i64, i64, i64, i64) {
    match command {
        DrawCommand::Rectangle { x, y, width, height, .. } => (*x, *y, *width, *height),
        other => panic!("no rectangle: {:?}", other),
    }
}

#[test]
fn background_fills_the_strip_and_keeps_the_cursor() {
    let out = BaseBar {}.render(strip(), 17);
    assert_eq!(out.cursor, 17);
    assert_eq!(out.commands.len(), 1);
    match &out.commands[0] {
        DrawCommand::Paint { color } => assert_eq!(*color, cairo_source_rgb_hex(COLOR_BG)),
        other => panic!("no fill: {:?}", other),
    }
}

#[test]
fn clock_grows_to_the_left() {
    let out = Clock {}.render(strip(), 1200, "Mon 01.01.2024 [12:00:00]", TextExtent { width: 180, height: 14 }).unwrap();
    assert_eq!(out.cursor, 1000);
    assert_eq!(out.commands.len(), 2);
    match &out.commands[0] {
        DrawCommand::Rectangle { color, x, y, width, height } => {
            assert_eq!(*color, cairo_source_rgb_hex(COLOR_BG_CLOCK));
            assert_eq!((*x, *y, *width, *height), (1000, 0, 200, 20));
        }
        other => panic!("no rectangle: {:?}", other),
    }
    match &out.commands[1] {
        DrawCommand::Text { color, x, y, text } => {
            assert_eq!(*color, cairo_source_rgb_hex(COLOR_TEXT));
            assert_eq!((*x, *y), (1010, 3));
            assert_eq!(text, "Mon 01.01.2024 [12:00:00]");
        }
        other => panic!("no text: {:?}", other),
    }
}

#[test]
fn clock_before_the_first_position_is_not_rendered() {
    let extent = TextExtent { width: 180, height: 14 };
    assert!(Clock {}.render(strip(), i64::MIN + 199, "x", extent).is_none());
    assert_eq!(Clock {}.render(strip(), i64::MIN + 200, "x", extent).unwrap().cursor, i64::MIN);
}

#[test]
fn clock_writes_a_moment_in_its_format() {
    let epoch = Moment { seconds: 0, nanos: 0, offset: 0 };
    assert_eq!(Clock {}.text_at(epoch), Some(String::from("Thu 01.01.1970 [00:00:00]")));
    let east = Moment { seconds: 0, nanos: 0, offset: 3600 };
    assert_eq!(Clock {}.text_at(east), Some(String::from("Thu 01.01.1970 [01:00:00]")));
    let west = Moment { seconds: 0, nanos: 999_999_999, offset: -3600 };
    assert_eq!(Clock {}.text_at(west), Some(String::from("Wed 31.12.1969 [23:00:00]")));
    let later = Moment { seconds: 1431648000 + 13 * 3600 + 5 * 60 + 9, nanos: 0, offset: 0 };
    assert_eq!(Clock {}.text_at(later), Some(String::from("Fri 15.05.2015 [13:05:09]")));
}

#[test]
fn clock_writes_no_moment_that_chrono_lacks() {
    assert_eq!(Clock {}.text_at(Moment { seconds: 0, nanos: 0, offset: 86400 }), None);
    assert_eq!(Clock {}.text_at(Moment { seconds: 0, nanos: 0, offset: -86400 }), None);
    assert_eq!(Clock {}.text_at(Moment { seconds: 0, nanos: 2_000_000_000, offset: 0 }), None);
    assert_eq!(Clock {}.text_at(Moment { seconds: i64::MAX, nanos: 0, offset: 0 }), None);
}

#[test]
fn clock_writes_the_time_of_now() {
    let text = Clock {}.now_text().unwrap();
    assert_ne!(text, DATE_FORMAT);
    assert!(!text.contains('%'));
    let chars: Vec<char> = text.chars().collect();
    assert_eq!(chars.len(), 25);
    assert_eq!(chars[3], ' ');
    assert_eq!(chars[6], '.');
    assert_eq!(chars[9], '.');
    assert_eq!(chars[15], '[');
    assert_eq!(chars[18], ':');
    assert_eq!(chars[21], ':');
    assert_eq!(chars[24], ']');
    assert!(chars[10..14].iter().all(|c| c.is_ascii_digit()));
}

#[test]
fn charge_is_read_from_the_first_line() {
    assert_eq!(Battery::percentage("0"), Some(0));
    assert_eq!(Battery::percentage("87"), Some(87));
    assert_eq!(Battery::percentage("100"), Some(100));
    assert_eq!(Battery::percentage("101"), Some(100));
    assert_eq!(Battery::percentage("2147483647"), Some(100));
    assert_eq!(Battery::percentage("2147483648"), None);
    assert_eq!(Battery::percentage("-1"), None);
    assert_eq!(Battery::percentage(""), None);
    assert_eq!(Battery::percentage("87%"), None);
    assert_eq!(Battery::percentage("full"), None);
}

#[test]
fn charge_is_labelled_in_percent() {
    assert_eq!(Battery::label(0), "0%");
    assert_eq!(Battery::label(87), "87%");
    assert_eq!(Battery::label(100), "100%");
    assert_eq!(two_batteries().labels(&lines(&["87", "120"])), Some(lines(&["87%", "100%"])));
    assert_eq!(two_batteries().labels(&lines(&["87"])), None);
    assert_eq!(two_batteries().labels(&lines(&["87", "x"])), None);
    assert_eq!(Battery::percentages(&lines(&["5", "50", "500"])), Some(vec![5, 50, 100]));
    assert_eq!(Battery::percentages(&lines(&["5", "-50"])), None);
    assert_eq!(Battery::percentages(&lines(&[])), Some(vec![]));
}

#[test]
fn capacity_files_lie_in_the_directories() {
    assert_eq!(
        two_batteries().capacity_paths(),
        lines(&["/sys/class/power_supply/BAT0/capacity", "/sys/class/power_supply/BAT1/capacity"])
    );
}

#[test]
fn batteries_render_right_to_left() {
    let extents = vec![TextExtent { width: 30, height: 14 }, TextExtent { width: 36, height: 14 }];
    let out = two_batteries().render(strip(), 1000, &lines(&["87", "120"]), &extents).unwrap();
    assert_eq!(out.cursor, 817);
    assert_eq!(out.commands.len(), 12);
    assert_eq!(rectangle(&out.commands[0]), (959, 0, 41, 20));
    assert_eq!(rectangle(&out.commands[1]), (962, 4, 25, 12));
    assert_eq!(rectangle(&out.commands[2]), (987, 7, 3, 6));
    assert_eq!(rectangle(&out.commands[3]), (965, 7, 16, 6));
    assert_eq!(rectangle(&out.commands[4]), (909, 0, 50, 20));
    match &out.commands[0] {
        DrawCommand::Rectangle { color, .. } => assert_eq!(*color, cairo_source_rgb_hex(COLOR_BG_BATTERY)),
        other => panic!("no rectangle: {:?}", other),
    }
    match &out.commands[1] {
        DrawCommand::Rectangle { color, .. } => assert_eq!(*color, cairo_source_rgb_hex(0)),
        other => panic!("no rectangle: {:?}", other),
    }
    match &out.commands[3] {
        DrawCommand::Rectangle { color, .. } => assert_eq!(*color, cairo_source_rgb_rgfade(87)),
        other => panic!("no rectangle: {:?}", other),
    }
    match &out.commands[5] {
        DrawCommand::Text { color, x, y, text } => {
            assert_eq!(*color, cairo_source_rgb_hex(COLOR_TEXT));
            assert_eq!((*x, *y), (919, 3));
            assert_eq!(text, "87%");
        }
        other => panic!("no text: {:?}", other),
    }
    assert_eq!(rectangle(&out.commands[6]), (873, 0, 36, 20));
    assert_eq!(rectangle(&out.commands[7]), (876, 4, 25, 12));
    assert_eq!(rectangle(&out.commands[8]), (901, 7, 3, 6));
    assert_eq!(rectangle(&out.commands[9]), (879, 7, 19, 6));
    assert_eq!(rectangle(&out.commands[10]), (817, 0, 56, 20));
    match &out.commands[9] {
        DrawCommand::Rectangle { color, .. } => assert_eq!(*color, cairo_source_rgb_rgfade(100)),
        other => panic!("no rectangle: {:?}", other),
    }
    match &out.commands[11] {
        DrawCommand::Text { x, y, text, .. } => {
            assert_eq!((*x, *y), (827, 3));
            assert_eq!(text, "100%");
        }
        other => panic!("no text: {:?}", other),
    }
}

#[test]
fn batteries_with_a_bad_reading_are_not_rendered() {
    let extents = vec![TextExtent { width: 30, height: 14 }, TextExtent { width: 36, height: 14 }];
    let b = two_batteries();
    assert!(b.render(strip(), 1000, &lines(&["87", ""]), &extents).is_none());
    assert!(b.render(strip(), 1000, &lines(&["-3", "50"]), &extents).is_none());
    assert!(b.render(strip(), 1000, &lines(&["87"]), &extents).is_none());
    assert!(b.render(strip(), 1000, &lines(&["87", "50", "20"]), &extents).is_none());
    assert!(b.render(strip(), 1000, &lines(&["87", "50"]), &extents[..1].to_vec()).is_none());
    assert!(b.render(strip(), i64::MIN + 182, &lines(&["87", "50"]), &extents).is_none());
    assert_eq!(b.render(strip(), i64::MIN + 183, &lines(&["87", "50"]), &extents).unwrap().cursor, i64::MIN);
}

#[test]
fn no_batteries_draw_nothing() {
    let none = Battery { dirs: Vec::new() };
    let out = none.render(strip(), 1000, &Vec::new(), &Vec::new()).unwrap();
    assert_eq!(out.cursor, 1000);
    assert!(out.commands.is_empty());
}

#[test]
fn a_copy_of_a_battery_names_the_same_directories() {
    let b = two_batteries();
    assert_eq!(b.clone().dirs, b.dirs);
}

#[test]
fn modules_say_what_to_read() {
    assert!(matches!(BarModule::BaseBar(BaseBar {}).source(strip()), Source::Nothing));
    assert!(matches!(BarModule::Clock(Clock {}).source(strip()), Source::LocalTime));
    match BarModule::HerbstluftWM(HerbstluftWM {}).source(strip()) {
        Source::TagStatus { monitor } => assert_eq!(monitor, 3),
        other => panic!("no tag status: {:?}", other),
    }
    match BarModule::Battery(two_batteries()).source(strip()) {
        Source::Capacity { paths } => assert_eq!(paths, two_batteries().capacity_paths()),
        other => panic!("no capacity files: {:?}", other),
    }
}

#[test]
fn modules_say_what_they_show() {
    assert_eq!(BarModule::BaseBar(BaseBar {}).labels(&lines(&["any"])), Some(vec![]));
    assert_eq!(
        BarModule::HerbstluftWM(HerbstluftWM {}).labels(&lines(&["#1\t?x\t.two\t:3"])),
        Some(lines(&["1", "two", "3"]))
    );
    assert_eq!(BarModule::HerbstluftWM(HerbstluftWM {}).labels(&lines(&[])), None);
    assert_eq!(BarModule::HerbstluftWM(HerbstluftWM {}).labels(&lines(&["#1", "#2"])), None);
    assert_eq!(BarModule::Clock(Clock {}).labels(&lines(&["12:00"])), Some(lines(&["12:00"])));
    assert_eq!(BarModule::Clock(Clock {}).labels(&lines(&[])), None);
    assert_eq!(
        BarModule::Battery(two_batteries()).labels(&lines(&["1", "2"])),
        Some(lines(&["1%", "2%"]))
    );
    assert_eq!(BarModule::Battery(two_batteries()).labels(&lines(&["1"])), None);
}

#[test]
fn modules_render_as_their_kind_does() {
    let extent = TextExtent { width: 8, height: 14 };
    let base = BarModule::BaseBar(BaseBar {}).render(strip(), 5, &lines(&["x"]), &vec![extent]).unwrap();
    assert_eq!((base.cursor, base.commands.len()), (5, 1));
    let tags = BarModule::HerbstluftWM(HerbstluftWM {})
        .render(strip(), 0, &lines(&["#1\t.2\t:3"]), &vec![extent; 3])
        .unwrap();
    assert_eq!((tags.cursor, tags.commands.len()), (110, 7));
    assert!(BarModule::HerbstluftWM(HerbstluftWM {}).render(strip(), 0, &lines(&[]), &vec![]).is_none());
    assert!(BarModule::HerbstluftWM(HerbstluftWM {})
        .render(strip(), 0, &lines(&["#1\t.2"]), &vec![extent])
        .is_none());
    let clock = BarModule::Clock(Clock {}).render(strip(), 1200, &lines(&["now"]), &vec![extent]).unwrap();
    assert_eq!((clock.cursor, clock.commands.len()), (1172, 2));
    assert!(BarModule::Clock(Clock {}).render(strip(), 1200, &lines(&["now"]), &vec![]).is_none());
    assert!(BarModule::Clock(Clock {}).render(strip(), 1200, &lines(&[]), &vec![extent]).is_none());
    let battery = BarModule::Battery(two_batteries())
        .render(strip(), 1000, &lines(&["87", "120"]), &vec![TextExtent { width: 30, height: 14 }, TextExtent { width: 36, height: 14 }])
        .unwrap();
    assert_eq!((battery.cursor, battery.commands.len()), (817, 12));
}

#[test]
fn a_module_moves_the_cursor_as_far_wherever_it_stands() {
    let extents = vec![TextExtent { width: 8, height: 14 }; 3];
    let status = lines(&["#1\t.2\t:3"]);
    let m = BarModule::HerbstluftWM(HerbstluftWM {});
    let at_zero = m.render(strip(), 0, &status, &extents).unwrap();
    let at_far = m.render(strip(), -7000, &status, &extents).unwrap();
    assert_eq!(at_zero.cursor - 0, at_far.cursor + 7000);
}

#[test]
fn modules_have_their_generators() {
    assert_eq!(BarModule::BaseBar(BaseBar {}).event_generator(), Generator::Static);
    assert_eq!(BarModule::HerbstluftWM(HerbstluftWM {}).event_generator(), Generator::Stream);
    assert_eq!(BarModule::Clock(Clock {}).event_generator(), Generator::Timer { interval: 500 });
    assert_eq!(
        BarModule::Battery(two_batteries()).event_generator(),
        Generator::Timer { interval: 60000 }
    );
}

#[test]
fn configured_modules() {
    let global = modules_global();
    assert_eq!(global.len(), 1);
    assert!(matches!(global[0], BarModule::BaseBar(_)));
    let left = modules_left();
    assert_eq!(left.len(), 1);
    assert!(matches!(left[0], BarModule::HerbstluftWM(_)));
    let right = modules_right();
    assert_eq!(right.len(), 1);
    assert!(matches!(right[0], BarModule::Clock(_)));
}
