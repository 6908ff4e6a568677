use tukai::controller::{ActiveWindowEnum, App, AppKey};

#[test]
fn initial_state() {
    let app = App::new();
    assert!(!app.should_exit());
    assert!(!app.is_loading);
    assert_eq!(app.active_window, ActiveWindowEnum::Typing);
    assert!(app.typing_active);
    assert!(!app.stats_active);
}

#[test]
fn switch_to_stats_then_quit() {
    let mut app = App::new();
    app.handle_key_event(AppKey::Char('2'));
    assert_eq!(app.active_window, ActiveWindowEnum::Stats);
    assert!(!app.is_loading);
    assert!(!app.should_exit());
    app.handle_key_event(AppKey::Char('q'));
    assert!(app.should_exit());
}

#[test]
fn escape_exits_from_any_screen() {
    let mut app = App::new();
    app.handle_key_event(AppKey::Esc);
    assert!(app.should_exit());

    let mut other = App::new();
    other.handle_key_event(AppKey::Char('2'));
    other.handle_key_event(AppKey::Esc);
    assert!(other.should_exit());
}

#[test]
fn only_q_and_escape_exit() {
    let mut app = App::new();
    app.handle_key_event(AppKey::Char('1'));
    app.handle_key_event(AppKey::Char('2'));
    app.handle_key_event(AppKey::Char('x'));
    app.handle_key_event(AppKey::Enter);
    app.handle_key_event(AppKey::Other);
    assert!(!app.should_exit());
}

#[test]
fn exactly_one_screen_active_after_switching() {
    let mut app = App::new();
    app.handle_key_event(AppKey::Char('2'));
    assert!(app.stats_active && !app.typing_active);
    app.handle_key_event(AppKey::Char('1'));
    assert!(app.typing_active && !app.stats_active);
}

#[test]
fn enter_is_a_reserved_no_op() {
    let mut app = App::new();
    let before = app;
    app.handle_key_event(AppKey::Enter);
    assert_eq!(app, before);
}

#[test]
fn selected_window_decides_border() {
    let mut app = App::new();
    assert!(app.is_window_selected(ActiveWindowEnum::Typing));
    assert!(!app.is_window_selected(ActiveWindowEnum::Stats));
    app.handle_key_event(AppKey::Char('2'));
    assert!(app.is_window_selected(ActiveWindowEnum::Stats));
    assert!(!app.is_window_selected(ActiveWindowEnum::Typing));
}
