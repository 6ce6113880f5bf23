use baby_rocs::ui::app::{Adjustment, App, Focus, LOG_HISTORY, TAB_TITLES};
use baby_rocs::ui::input::{handle_key, Key};
use baby_rocs::ui::view::{check_mark, log_scroll_offset};
use baby_rocs::ui::{log_text, LogLevel, LogLine};

fn line(i: usize) -> LogLine {
    LogLine { level: LogLevel::Info, text: format!("line {i}") }
}

#[test]
fn new_app_starts_on_main_tab_with_threshold_focused() {
    let app = App::new();
    assert_eq!(app.tab_index, 0);
    assert_eq!(app.focus, Focus::Threshold);
    assert!(!app.should_quit);
    assert!(app.logs.is_empty());
    assert_eq!(TAB_TITLES, ["Main", "Logs"]);
}

#[test]
fn tab_key_cycles_between_two_tabs() {
    let mut app = App::new();
    app.on_tab();
    assert_eq!(app.tab_index, 1);
    app.on_tab();
    assert_eq!(app.tab_index, 0);
}

#[test]
fn focus_moves_right_through_all_controls_and_wraps() {
    let mut f = Focus::Threshold;
    let mut seen = vec![f];
    for _ in 0..3 {
        f = f.next();
        seen.push(f);
    }
    assert_eq!(seen, vec![Focus::Threshold, Focus::Bypass, Focus::Timeout, Focus::DFN]);
    assert_eq!(f.next(), Focus::Threshold);
}

#[test]
fn focus_moves_left_and_wraps() {
    assert_eq!(Focus::Threshold.previous(), Focus::DFN);
    assert_eq!(Focus::DFN.previous(), Focus::Timeout);
    assert_eq!(Focus::Timeout.previous(), Focus::Bypass);
    assert_eq!(Focus::Bypass.previous(), Focus::Threshold);
}

#[test]
fn focus_left_undoes_right() {
    for f in [Focus::Threshold, Focus::Bypass, Focus::Timeout, Focus::DFN] {
        assert_eq!(f.next().previous(), f);
        assert_eq!(f.previous().next(), f);
        assert_eq!(f.next().next().next().next(), f);
    }
}

#[test]
fn up_and_down_adjust_the_focused_control() {
    let mut app = App::new();
    assert_eq!(app.on_up(), Adjustment::RaiseThreshold);
    assert_eq!(app.on_down(), Adjustment::LowerThreshold);
    app.on_right();
    assert_eq!(app.focus, Focus::Bypass);
    assert_eq!(app.on_up(), Adjustment::ToggleBypass);
    assert_eq!(app.on_down(), Adjustment::ToggleBypass);
    app.on_right();
    assert_eq!(app.on_up(), Adjustment::RaiseTimeout);
    assert_eq!(app.on_down(), Adjustment::LowerTimeout);
    app.on_right();
    assert_eq!(app.on_up(), Adjustment::ToggleDenoise);
    assert_eq!(app.on_down(), Adjustment::ToggleDenoise);
    assert_eq!(app.focus, Focus::DFN);
}

#[test]
fn toggle_only_acts_on_check_boxes() {
    let mut app = App::new();
    assert_eq!(app.on_toggle(), None);
    app.focus = Focus::Bypass;
    assert_eq!(app.on_toggle(), Some(Adjustment::ToggleBypass));
    app.focus = Focus::Timeout;
    assert_eq!(app.on_toggle(), None);
    app.focus = Focus::DFN;
    assert_eq!(app.on_toggle(), Some(Adjustment::ToggleDenoise));
}

#[test]
fn quit_sets_the_flag() {
    let mut app = App::new();
    app.quit();
    assert!(app.should_quit);
    assert_eq!(app.tab_index, 0);
}

#[test]
fn history_keeps_arrival_order() {
    let mut app = App::new();
    app.on_tick(vec![line(0), line(1)]);
    app.on_tick(vec![line(2)]);
    let texts: Vec<String> = app.logs.iter().map(|l| l.text.clone()).collect();
    assert_eq!(texts, vec!["line 0", "line 1", "line 2"]);
}

#[test]
fn history_keeps_only_latest_lines() {
    let mut app = App::new();
    app.on_tick((0..LOG_HISTORY - 1).map(line).collect());
    assert_eq!(app.logs.len(), LOG_HISTORY - 1);
    app.on_tick((LOG_HISTORY - 1..LOG_HISTORY + 5).map(line).collect());
    assert_eq!(app.logs.len(), LOG_HISTORY);
    assert_eq!(app.logs.front().unwrap().text, "line 5");
    assert_eq!(app.logs.back().unwrap().text, format!("line {}", LOG_HISTORY + 4));
}

#[test]
fn empty_tick_changes_nothing() {
    let mut app = App::new();
    app.on_tick(vec![line(7)]);
    app.on_tick(Vec::new());
    assert_eq!(app.logs.len(), 1);
}

#[test]
fn keys_map_to_commands() {
    let mut app = App::new();
    assert_eq!(handle_key(&mut app, Key::Right, false), None);
    assert_eq!(app.focus, Focus::Bypass);
    assert_eq!(handle_key(&mut app, Key::Char(' '), false), Some(Adjustment::ToggleBypass));
    assert_eq!(handle_key(&mut app, Key::Enter, false), Some(Adjustment::ToggleBypass));
    assert_eq!(handle_key(&mut app, Key::Left, false), None);
    assert_eq!(app.focus, Focus::Threshold);
    assert_eq!(handle_key(&mut app, Key::Up, false), Some(Adjustment::RaiseThreshold));
    assert_eq!(handle_key(&mut app, Key::Down, false), Some(Adjustment::LowerThreshold));
    assert_eq!(handle_key(&mut app, Key::Tab, false), None);
    assert_eq!(app.tab_index, 1);
    assert_eq!(handle_key(&mut app, Key::Other, false), None);
    assert_eq!(handle_key(&mut app, Key::Char('x'), false), None);
    assert!(!app.should_quit);
}

#[test]
fn ctrl_c_and_q_quit() {
    let mut app = App::new();
    handle_key(&mut app, Key::Char('c'), false);
    assert!(!app.should_quit);
    handle_key(&mut app, Key::Char('c'), true);
    assert!(app.should_quit);
    let mut app = App::new();
    handle_key(&mut app, Key::Char('q'), false);
    assert!(app.should_quit);
    let mut app = App::new();
    handle_key(&mut app, Key::Char('q'), true);
    assert!(app.should_quit);
}

#[test]
fn check_marks() {
    assert_eq!(check_mark(true), "[x]");
    assert_eq!(check_mark(false), "[ ]");
}

#[test]
fn scroll_offset_shows_newest_lines() {
    assert_eq!(log_scroll_offset(10, 20), 0);
    assert_eq!(log_scroll_offset(20, 20), 0);
    assert_eq!(log_scroll_offset(25, 20), 5);
    assert_eq!(log_scroll_offset(70_000, 0), 4464);
}

#[test]
fn log_text_formats_module_prefix() {
    assert_eq!(log_text(Some("net"), Some("connected")), "[net] connected");
    assert_eq!(log_text(None, Some("connected")), "connected");
    assert_eq!(log_text(Some("net"), None), "");
    assert_eq!(log_text(None, None), "");
}
