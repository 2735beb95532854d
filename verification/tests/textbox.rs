use hlwm_bar::textbox::centre;
use hlwm_bar::textbox::Alignment;
use hlwm_bar::textbox::CairoTextBox;
use hlwm_bar::textbox::DrawCommand;
use hlwm_bar::textbox::TextExtent;
use hlwm_bar::utils::cairo_source_rgb_hex;

fn boxed(alignment: Alignment, align: i64) -> CairoTextBox {
    CairoTextBox {
        text: String::from("12:00"),
        height: 20,
        color_text: 0xe8e6df,
        color_box: 0x747369,
        alignment,
        align,
        margin: 10,
    }
}

fn check(commands: &Vec<DrawCommand>, left: i64) {
    assert_eq!(commands.len(), 2);
    match &commands[0] {
        DrawCommand::Rectangle { color, x, y, width, height } => {
            assert_eq!(*color, cairo_source_rgb_hex(0x747369));
            assert_eq!((*x, *y, *width, *height), (left, 0, 50, 20));
        }
        other => panic!("no rectangle: {:?}", other),
    }
    match &commands[1] {
        DrawCommand::Text { color, x, y, text } => {
            assert_eq!(*color, cairo_source_rgb_hex(0xe8e6df));
            assert_eq!((*x, *y), (left + 10, 3));
            assert_eq!(text, "12:00");
        }
        other => panic!("no text: {:?}", other),
    }
}

#[test]
fn left_aligned_box_starts_at_the_cursor() {
    let mut commands = Vec::new();
    let cursor = boxed(Alignment::Left, 100).draw(TextExtent { width: 30, height: 14 }, &mut commands);
    assert_eq!(cursor, Some(150));
    check(&commands, 100);
}

#[test]
fn right_aligned_box_ends_at_the_cursor() {
    let mut commands = Vec::new();
    let cursor = boxed(Alignment::Right, 100).draw(TextExtent { width: 30, height: 14 }, &mut commands);
    assert_eq!(cursor, Some(50));
    check(&commands, 50);
}

#[test]
fn box_is_appended_to_what_was_drawn() {
    let mut commands = vec![DrawCommand::Paint { color: cairo_source_rgb_hex(0x393939) }];
    let cursor = boxed(Alignment::Right, 0).draw(TextExtent { width: 0, height: 0 }, &mut commands);
    assert_eq!(cursor, Some(-20));
    assert_eq!(commands.len(), 3);
    assert!(matches!(commands[0], DrawCommand::Paint { .. }));
    match &commands[2] {
        DrawCommand::Text { x, y, .. } => assert_eq!((*x, *y), (-10, 10)),
        other => panic!("no text: {:?}", other),
    }
}

#[test]
fn box_beyond_the_positions_is_not_drawn() {
    let mut commands = Vec::new();
    let extent = TextExtent { width: 30, height: 14 };
    assert_eq!(boxed(Alignment::Left, i64::MAX - 49).draw(extent, &mut commands), None);
    assert_eq!(boxed(Alignment::Right, i64::MIN + 49).draw(extent, &mut commands), None);
    assert!(commands.is_empty());
    assert_eq!(boxed(Alignment::Left, i64::MAX - 50).draw(extent, &mut commands), Some(i64::MAX));
    assert_eq!(boxed(Alignment::Right, i64::MIN + 50).draw(extent, &mut commands), Some(i64::MIN));
    assert_eq!(commands.len(), 4);
}

#[test]
fn widest_text_fits_the_arithmetic() {
    let mut commands = Vec::new();
    let b = CairoTextBox {
        text: String::new(),
        height: u32::MAX,
        color_text: 0,
        color_box: 0,
        alignment: Alignment::Left,
        align: 0,
        margin: u32::MAX,
    };
    let cursor = b.draw(TextExtent { width: u32::MAX, height: 0 }, &mut commands);
    assert_eq!(cursor, Some(3 * (u32::MAX as i64)));
}

#[test]
fn centring_cuts_halves_towards_zero() {
    assert_eq!(centre(20, 14), 3);
    assert_eq!(centre(20, 15), 2);
    assert_eq!(centre(20, 20), 0);
    assert_eq!(centre(14, 20), -3);
    assert_eq!(centre(15, 20), -2);
    assert_eq!(centre(0, u32::MAX), -2147483647);
    assert_eq!(centre(u32::MAX, 0), 2147483647);
}
