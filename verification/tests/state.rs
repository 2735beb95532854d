use hlwm_bar::config::modules_global;
use hlwm_bar::config::modules_left;
use hlwm_bar::config::modules_right;
use hlwm_bar::generator::Generator;
use hlwm_bar::generator::GeneratorAction;
use hlwm_bar::generator::GeneratorEvent;
use hlwm_bar::geometry::DynamicConfig;
use hlwm_bar::lifecycle::handle_event;
use hlwm_bar::lifecycle::LifecycleAction;
use hlwm_bar::modules::battery::Battery;
use hlwm_bar::modules::BarModule;
use hlwm_bar::state::signal_bar_redraw;
use hlwm_bar::state::BarState;
use hlwm_bar::state::DrawStep;

fn strip() -> DynamicConfig {
    DynamicConfig { x_offset: 0, y_offset: 0, width: 1200, height: 20, monitor: 0 }
}

fn fresh() -> BarState {
    BarState::new(strip(), modules_left(), modules_right(), modules_global())
}

#[test]
fn a_new_strip_runs_and_waits() {
    let mut state = fresh();
    assert!(!state.redraw_signaled());
    assert!(!state.bar_closed());
    assert_eq!(state.dyn_config(), strip());
    assert!(matches!(state.poll(), DrawStep::Wait));
    assert!(!state.redraw_signaled());
}

#[test]
fn a_request_leads_to_one_pass() {
    let mut state = fresh();
    signal_bar_redraw(&mut state);
    assert!(state.redraw_signaled());
    match state.poll() {
        DrawStep::Render(snapshot) => {
            assert_eq!(snapshot.dyn_config, strip());
            assert_eq!(snapshot.modules_global.len(), 1);
            assert_eq!(snapshot.modules_left.len(), 1);
            assert_eq!(snapshot.modules_right.len(), 1);
            assert!(matches!(snapshot.modules_global[0], BarModule::BaseBar(_)));
            assert!(matches!(snapshot.modules_left[0], BarModule::HerbstluftWM(_)));
            assert!(matches!(snapshot.modules_right[0], BarModule::Clock(_)));
        }
        other => panic!("no pass: {:?}", other),
    }
    assert!(!state.redraw_signaled());
    assert!(matches!(state.poll(), DrawStep::Wait));
}

#[test]
fn requests_of_many_producers_coalesce() {
    let mut state = fresh();
    for _ in 0..5 {
        state.request_redraw();
    }
    let mut passes = 0;
    for _ in 0..5 {
        if let DrawStep::Render(_) = state.poll() {
            passes += 1;
        }
    }
    assert_eq!(passes, 1);
}

#[test]
fn a_request_after_a_pass_leads_to_another() {
    let mut state = fresh();
    let mut passes = 0;
    let mut requests = 0;
    let script = "rrprpprrrpp";
    for op in script.chars() {
        if op == 'r' {
            state.request_redraw();
            requests += 1;
        } else if let DrawStep::Render(_) = state.poll() {
            passes += 1;
        }
    }
    assert_eq!(passes, 3);
    assert!(passes <= requests);
    state.request_redraw();
    assert!(matches!(state.poll(), DrawStep::Render(_)));
}

#[test]
fn a_reported_width_is_whole_in_the_next_snapshot() {
    let mut state = fresh();
    state.request_redraw();
    assert!(matches!(state.poll(), DrawStep::Render(_)));
    state.set_width(800);
    state.request_redraw();
    match state.poll() {
        DrawStep::Render(snapshot) => {
            assert_eq!(
                snapshot.dyn_config,
                DynamicConfig { x_offset: 0, y_offset: 0, width: 800, height: 20, monitor: 0 }
            );
        }
        other => panic!("no pass: {:?}", other),
    }
    assert_eq!(state.dyn_config().width, 800);
}

#[test]
fn a_width_alone_asks_for_no_redraw() {
    let mut state = fresh();
    state.set_width(800);
    assert!(!state.redraw_signaled());
    assert!(matches!(state.poll(), DrawStep::Wait));
}

#[test]
fn a_closed_strip_is_left_even_with_a_request_pending() {
    let mut state = fresh();
    state.request_redraw();
    state.close();
    assert!(state.bar_closed());
    assert!(matches!(state.poll(), DrawStep::Exit));
    state.request_redraw();
    state.set_width(1);
    assert!(state.bar_closed());
    assert!(matches!(state.poll(), DrawStep::Exit));
}

#[test]
fn a_snapshot_copies_the_modules() {
    let dirs = vec![String::from("/sys/class/power_supply/BAT0/")];
    let right = vec![BarModule::Battery(Battery { dirs: dirs.clone() })];
    let mut state = BarState::new(strip(), Vec::new(), right, Vec::new());
    state.request_redraw();
    match state.poll() {
        DrawStep::Render(snapshot) => {
            assert!(snapshot.modules_left.is_empty());
            assert!(snapshot.modules_global.is_empty());
            match &snapshot.modules_right[0] {
                BarModule::Battery(b) => assert_eq!(b.dirs, dirs),
                other => panic!("no battery: {:?}", other),
            }
        }
        other => panic!("no pass: {:?}", other),
    }
}

#[test]
fn generators_are_listed_global_left_right() {
    assert_eq!(
        fresh().event_generators(),
        vec![Generator::Static, Generator::Stream, Generator::Timer { interval: 500 }]
    );
}

#[test]
fn exposure_asks_for_a_redraw() {
    let mut state = fresh();
    assert_eq!(handle_event(&mut state, Some(12)), LifecycleAction::Redraw);
    assert!(state.redraw_signaled());
    assert!(!state.bar_closed());
    let mut sent = fresh();
    assert_eq!(handle_event(&mut sent, Some(12 | 0x80)), LifecycleAction::Redraw);
    assert!(sent.redraw_signaled());
}

#[test]
fn other_events_are_ignored() {
    let mut state = fresh();
    assert_eq!(handle_event(&mut state, Some(2)), LifecycleAction::Ignore);
    assert_eq!(handle_event(&mut state, Some(0)), LifecycleAction::Ignore);
    assert_eq!(handle_event(&mut state, Some(13)), LifecycleAction::Ignore);
    assert_eq!(handle_event(&mut state, Some(0x80)), LifecycleAction::Ignore);
    assert!(!state.redraw_signaled());
    assert!(!state.bar_closed());
}

#[test]
fn the_end_of_the_events_closes_the_strip() {
    let mut state = fresh();
    assert_eq!(handle_event(&mut state, None), LifecycleAction::Shutdown);
    assert!(state.bar_closed());
    assert!(matches!(state.poll(), DrawStep::Exit));
}

#[test]
fn a_timer_signals_and_sleeps() {
    let timer = Generator::Timer { interval: 500 };
    assert_eq!(timer.step(GeneratorEvent::Started), GeneratorAction::SignalThenSleep { interval: 500 });
    assert_eq!(timer.step(GeneratorEvent::Woke), GeneratorAction::SignalThenSleep { interval: 500 });
    assert_eq!(timer.step(GeneratorEvent::Line), GeneratorAction::Finish);
    assert_eq!(timer.step(GeneratorEvent::StreamEnded), GeneratorAction::Finish);
    assert_eq!(timer.step(GeneratorEvent::SpawnFailed), GeneratorAction::Finish);
}

#[test]
fn a_stream_signals_at_each_line_and_starts_anew() {
    let stream = Generator::Stream;
    assert_eq!(stream.step(GeneratorEvent::Started), GeneratorAction::Spawn);
    assert_eq!(stream.step(GeneratorEvent::Line), GeneratorAction::SignalThenRead);
    assert_eq!(stream.step(GeneratorEvent::StreamEnded), GeneratorAction::Spawn);
    assert_eq!(stream.step(GeneratorEvent::SpawnFailed), GeneratorAction::Abort);
    assert_eq!(stream.step(GeneratorEvent::Woke), GeneratorAction::Finish);
}

#[test]
fn a_static_module_has_nothing_to_do() {
    for event in [
        GeneratorEvent::Started,
        GeneratorEvent::Woke,
        GeneratorEvent::Line,
        GeneratorEvent::StreamEnded,
        GeneratorEvent::SpawnFailed,
    ] {
        assert_eq!(Generator::Static.step(event), GeneratorAction::Finish);
    }
}
