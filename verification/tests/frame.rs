use hlwm_bar::draw::render_frame;
use hlwm_bar::draw::Prepared;
use hlwm_bar::geometry::DynamicConfig;
use hlwm_bar::modules::basebar::BaseBar;
use hlwm_bar::modules::clock::Clock;
use hlwm_bar::modules::herbstluftwm::HerbstluftWM;
use hlwm_bar::modules::BarModule;
use hlwm_bar::textbox::DrawCommand;
use hlwm_bar::textbox::TextExtent;

fn strip() -> DynamicConfig {
    DynamicConfig { x_offset: 0, y_offset: 0, width: 1200, height: 20, monitor: 0 }
}

fn background() -> Prepared {
    Prepared { module: BarModule::BaseBar(BaseBar {}), lines: Vec::new(), extents: Vec::new() }
}

fn tags(status: &str, widths: &[u32]) -> Prepared {
    Prepared {
        module: BarModule::HerbstluftWM(HerbstluftWM {}),
        lines: vec![status.to_string()],
        extents: widths.iter().map(|w| TextExtent { width: *w, height: 14 }).collect(),
    }
}

fn clock(width: u32) -> Prepared {
    Prepared {
        module: BarModule::Clock(Clock {}),
        lines: vec![String::from("now")],
        extents: vec![TextExtent { width, height: 14 }],
    }
}

#[test]
fn empty_sides_leave_the_cursors_where_they_start() {
    let frame = render_frame(strip(), &vec![background()], &Vec::new(), &Vec::new(), 5);
    assert_eq!(frame.left, 0);
    assert_eq!(frame.right, 1200);
    assert_eq!(frame.commands.len(), 1);
    let bare = render_frame(strip(), &Vec::new(), &Vec::new(), &Vec::new(), 0);
    assert_eq!((bare.left, bare.right), (0, 1200));
    assert!(bare.commands.is_empty());
}

#[test]
fn left_side_adds_widths_and_the_gaps_between() {
    let left = vec![tags("", &[]), tags("#1", &[8]), tags("#1\t.2", &[8, 18])];
    for gap in [0u32, 5, 17] {
        let frame = render_frame(strip(), &Vec::new(), &left, &Vec::new(), gap);
        assert_eq!(frame.left, 20 + 50 + 90 + 2 * gap as i64);
        assert_eq!(frame.right, 1200);
    }
    let one = render_frame(strip(), &Vec::new(), &vec![tags("#1", &[8])], &Vec::new(), 17);
    assert_eq!(one.left, 50);
}

#[test]
fn right_side_takes_widths_and_the_gaps_between() {
    let right = vec![clock(60), clock(40)];
    for gap in [0u32, 5, 17] {
        let frame = render_frame(strip(), &Vec::new(), &Vec::new(), &right, gap);
        assert_eq!(frame.right, 1200 - 80 - 60 - gap as i64);
        assert_eq!(frame.left, 0);
    }
}

#[test]
fn frame_draws_global_then_left_then_right() {
    let frame = render_frame(
        strip(),
        &vec![background()],
        &vec![tags("#1\t.2\t:3", &[8, 8, 8])],
        &vec![clock(60)],
        0,
    );
    assert_eq!(frame.left, 110);
    assert_eq!(frame.right, 1120);
    assert_eq!(frame.commands.len(), 10);
    assert!(matches!(frame.commands[0], DrawCommand::Paint { .. }));
    let mut last = -1;
    for i in [2, 4, 6] {
        match &frame.commands[i] {
            DrawCommand::Rectangle { x, .. } => {
                assert!(*x > last);
                last = *x;
            }
            other => panic!("no rectangle: {:?}", other),
        }
    }
    match &frame.commands[8] {
        DrawCommand::Rectangle { x, width, .. } => assert_eq!((*x, *width), (1120, 80)),
        other => panic!("no rectangle: {:?}", other),
    }
    match &frame.commands[9] {
        DrawCommand::Text { text, .. } => assert_eq!(text, "now"),
        other => panic!("no text: {:?}", other),
    }
}

#[test]
fn global_modules_start_at_zero_and_move_no_cursor() {
    let frame = render_frame(strip(), &vec![clock(60), background()], &Vec::new(), &Vec::new(), 3);
    assert_eq!((frame.left, frame.right), (0, 1200));
    assert_eq!(frame.commands.len(), 3);
    match &frame.commands[0] {
        DrawCommand::Rectangle { x, .. } => assert_eq!(*x, -80),
        other => panic!("no rectangle: {:?}", other),
    }
    assert!(matches!(frame.commands[2], DrawCommand::Paint { .. }));
}

#[test]
fn a_module_that_cannot_be_rendered_is_left_out() {
    let stale = Prepared {
        module: BarModule::Clock(Clock {}),
        lines: Vec::new(),
        extents: Vec::new(),
    };
    let frame = render_frame(strip(), &Vec::new(), &Vec::new(), &vec![clock(60), stale, clock(40)], 5);
    assert_eq!(frame.commands.len(), 4);
    assert_eq!(frame.right, 1200 - 80 - 5 - 60);
    let stale_first = Prepared {
        module: BarModule::Clock(Clock {}),
        lines: Vec::new(),
        extents: Vec::new(),
    };
    let late = render_frame(strip(), &Vec::new(), &Vec::new(), &vec![stale_first, clock(60)], 5);
    assert_eq!(late.right, 1200 - 80);
    let short = render_frame(strip(), &Vec::new(), &vec![tags("#1\t.2", &[8])], &Vec::new(), 5);
    assert_eq!(short.left, 0);
    assert!(short.commands.is_empty());
}

#[test]
fn a_new_width_moves_the_right_side() {
    let narrow = strip().with_width(800);
    let frame = render_frame(narrow, &Vec::new(), &Vec::new(), &vec![clock(60)], 0);
    assert_eq!(frame.right, 720);
}
