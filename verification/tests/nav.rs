use kuco::app::{
    interpret, AppEvent, Cache, Command, InteractionMode, Key, KeyInput, Kuco, ViewMode,
    NO_CONTAINER, NO_LOG_LINE, NO_NAMESPACE, NO_POD,
};
use kuco::data::{KubeComponentState, KubeWidgetState};
use kuco::error::CacheError;

fn entries(items: &[&str]) -> Vec<String> {
    items.iter().map(|s| s.to_string()).collect()
}

fn press(code: Key) -> KeyInput {
    KeyInput { code, control: false }
}

fn ctrl(c: char) -> KeyInput {
    KeyInput { code: Key::Char(c), control: true }
}

fn showing(items: &[&str]) -> Kuco {
    let mut app = Kuco::new();
    app.view.display = Some(entries(items));
    app
}

fn type_text(app: &mut Kuco, state: &mut KubeComponentState, text: &str) {
    for c in text.chars() {
        assert_eq!(app.handle_key_events(press(Key::Char(c)), state), None);
    }
}

#[test]
fn right_goes_down_with_the_selection_and_left_clears_it() {
    let mut app = Kuco::new();
    let mut levels = KubeWidgetState::new();
    app.view.display = Some(entries(&["default", "kube-system"]));
    app.prepare_frame(&mut levels);
    assert_eq!(app.view.data.current_namespace_name.as_deref(), Some("default"));
    assert!(app.update(AppEvent::NavRight, &mut levels));
    assert_eq!(app.view.view_mode, ViewMode::PODS);
    assert_eq!(app.view.data.current_namespace_name.as_deref(), Some("default"));

    app.view.display = Some(entries(&["web-1", "web-2"]));
    levels.pods_state.list_cursor = Some(1);
    app.prepare_frame(&mut levels);
    assert_eq!(app.view.data.current_pod_name.as_deref(), Some("web-2"));

    assert!(app.update(AppEvent::NavLeft, &mut levels));
    assert_eq!(app.view.view_mode, ViewMode::NS);
    assert_eq!(app.view.data.current_pod_name, None);
    assert_eq!(app.view.data.current_namespace_name.as_deref(), Some("default"));
    assert_eq!(levels.pods_state.list_cursor, Some(0));
}

#[test]
fn right_on_an_empty_list_takes_the_placeholder() {
    let mut levels = KubeWidgetState::new();
    let mut app = showing(&[]);
    app.update(AppEvent::NavRight, &mut levels);
    assert_eq!(app.view.data.current_namespace_name.as_deref(), Some("default"));
    assert_eq!(app.view.view_mode, ViewMode::PODS);
    app.update(AppEvent::NavRight, &mut levels);
    assert_eq!(app.view.data.current_pod_name.as_deref(), Some("none"));
    assert_eq!(app.view.view_mode, ViewMode::CONT);
    app.update(AppEvent::NavRight, &mut levels);
    assert_eq!(app.view.data.current_container_name.as_deref(), Some("none"));
    assert_eq!(app.view.view_mode, ViewMode::LOGS);
    assert!(!app.update(AppEvent::NavRight, &mut levels));
    assert_eq!(app.view.view_mode, ViewMode::LOGS);
    assert_eq!(NO_NAMESPACE, "default");
    assert_eq!(NO_POD, "none");
    assert_eq!(NO_CONTAINER, "none");
    assert_eq!(NO_LOG_LINE, "none");
}

#[test]
fn right_without_a_display_takes_the_placeholder() {
    let mut levels = KubeWidgetState::new();
    let mut app = Kuco::new();
    assert!(app.view.display.is_none());
    app.update(AppEvent::NavRight, &mut levels);
    assert_eq!(app.view.data.current_namespace_name.as_deref(), Some("default"));
}

#[test]
fn levels_are_walked_one_at_a_time() {
    let mut levels = KubeWidgetState::new();
    let mut app = showing(&["a"]);
    let mut seen = vec![app.view.view_mode];
    for _ in 0..4 {
        app.update(AppEvent::NavRight, &mut levels);
        seen.push(app.view.view_mode);
    }
    for _ in 0..4 {
        app.update(AppEvent::NavLeft, &mut levels);
        seen.push(app.view.view_mode);
    }
    assert_eq!(
        seen,
        vec![
            ViewMode::NS,
            ViewMode::PODS,
            ViewMode::CONT,
            ViewMode::LOGS,
            ViewMode::LOGS,
            ViewMode::CONT,
            ViewMode::PODS,
            ViewMode::NS,
            ViewMode::NS,
        ]
    );
    assert_eq!(ViewMode::NS.next(), ViewMode::PODS);
    assert_eq!(ViewMode::LOGS.next(), ViewMode::LOGS);
    assert_eq!(ViewMode::NS.previous(), ViewMode::NS);
    assert_eq!(ViewMode::LOGS.previous(), ViewMode::CONT);
}

#[test]
fn left_clears_the_level_that_is_left_and_the_one_below() {
    let mut levels = KubeWidgetState::new();
    let mut app = showing(&["x"]);
    app.view.view_mode = ViewMode::CONT;
    app.view.data.current_namespace_name = Some("ns".to_string());
    app.view.data.current_pod_name = Some("po".to_string());
    app.view.data.current_container_name = Some("co".to_string());
    app.view.data.current_log_line = Some("line".to_string());
    levels.containers_state.list_cursor = Some(4);
    app.update(AppEvent::NavLeft, &mut levels);
    assert_eq!(app.view.view_mode, ViewMode::PODS);
    assert_eq!(app.view.data.current_container_name, None);
    assert_eq!(app.view.data.current_log_line, None);
    assert_eq!(app.view.data.current_pod_name.as_deref(), Some("po"));
    assert_eq!(levels.containers_state.list_cursor, Some(0));
    app.update(AppEvent::NavLeft, &mut levels);
    assert_eq!(app.view.data.current_pod_name, None);
    assert_eq!(app.view.data.current_namespace_name.as_deref(), Some("ns"));
    assert!(!app.update(AppEvent::NavLeft, &mut levels));
    assert_eq!(app.view.data.current_namespace_name.as_deref(), Some("ns"));
}

#[test]
fn search_narrows_and_escape_restores() {
    let mut app = showing(&["web-1", "web-2", "cache-1"]);
    let mut state = KubeComponentState::new();
    assert_eq!(app.handle_key_events(press(Key::Char('/')), &mut state), None);
    assert_eq!(app.view.interact_mode, InteractionMode::SEARCH);
    type_text(&mut app, &mut state, "web");
    assert_eq!(state.search.input, "web");
    assert_eq!(app.view.display, Some(entries(&["web-1", "web-2"])));
    assert_eq!(state.list_cursor, Some(0));
    let asked = app.handle_key_events(press(Key::Esc), &mut state);
    assert_eq!(asked, Some(AppEvent::Refresh));
    assert_eq!(app.view.interact_mode, InteractionMode::NORMAL);
    assert_eq!(app.view.display, Some(entries(&["web-1", "web-2", "cache-1"])));
    assert_eq!(state.search.input, "");
    assert!(app.cache.is_none());
}

#[test]
fn backspace_widens_the_search_again() {
    let mut app = showing(&["web-1", "web-2", "cache-1"]);
    let mut state = KubeComponentState::new();
    app.handle_key_events(press(Key::Char('/')), &mut state);
    type_text(&mut app, &mut state, "web-2");
    assert_eq!(app.view.display, Some(entries(&["web-2"])));
    app.handle_key_events(press(Key::Backspace), &mut state);
    app.handle_key_events(press(Key::Backspace), &mut state);
    assert_eq!(state.search.input, "web");
    assert_eq!(app.view.display, Some(entries(&["web-1", "web-2"])));
    for _ in 0..3 {
        app.handle_key_events(press(Key::Backspace), &mut state);
    }
    assert_eq!(state.search.input, "");
    assert_eq!(app.view.display, Some(entries(&["web-1", "web-2", "cache-1"])));
    app.handle_key_events(press(Key::Backspace), &mut state);
    assert_eq!(state.search.input, "");
    assert_eq!(app.view.display, Some(entries(&["web-1", "web-2", "cache-1"])));
    assert_eq!(app.view.interact_mode, InteractionMode::SEARCH);
}

#[test]
fn the_snapshot_is_taken_once() {
    let mut app = showing(&["web-1", "web-2", "cache-1"]);
    let mut state = KubeComponentState::new();
    app.handle_key_events(press(Key::Char('/')), &mut state);
    let taken: Option<Cache> = app.cache.clone();
    assert_eq!(taken.map(|c| c.display), Some(entries(&["web-1", "web-2", "cache-1"])));
    type_text(&mut app, &mut state, "cache");
    assert_eq!(app.view.display, Some(entries(&["cache-1"])));
    assert_eq!(
        app.cache.as_ref().map(|c| c.display.clone()),
        Some(entries(&["web-1", "web-2", "cache-1"]))
    );
}

#[test]
fn enter_in_a_search_goes_down_into_the_match() {
    let mut levels = KubeWidgetState::new();
    let mut app = showing(&["default", "kube-system", "monitoring"]);
    app.handle_key_events(press(Key::Char('/')), &mut levels.namespace_state);
    type_text(&mut app, &mut levels.namespace_state, "kube");
    assert_eq!(app.view.display, Some(entries(&["kube-system"])));
    let asked = app.handle_key_events(press(Key::Enter), &mut levels.namespace_state);
    assert_eq!(asked, Some(AppEvent::NavRight));
    assert_eq!(app.view.interact_mode, InteractionMode::NORMAL);
    assert!(app.cache.is_none());
    assert_eq!(levels.namespace_state.search.input, "");
    assert!(app.update(AppEvent::NavRight, &mut levels));
    assert_eq!(app.view.data.current_namespace_name.as_deref(), Some("kube-system"));
    assert_eq!(app.view.view_mode, ViewMode::PODS);
}

#[test]
fn cursor_stays_on_a_list_of_one() {
    let mut app = showing(&["only"]);
    let mut state = KubeComponentState::new();
    state.list_cursor = Some(0);
    for _ in 0..5 {
        assert_eq!(app.handle_key_events(press(Key::Up), &mut state), None);
        assert_eq!(state.list_cursor, Some(0));
    }
    for _ in 0..5 {
        assert_eq!(app.handle_key_events(press(Key::Down), &mut state), None);
        assert_eq!(state.list_cursor, Some(0));
    }
    for key in [Key::Char('k'), Key::Char('j'), Key::Char('k')] {
        app.handle_key_events(press(key), &mut state);
        assert_eq!(state.list_cursor, Some(0));
    }
}

#[test]
fn cursor_moves_within_the_list_and_stops_at_its_ends() {
    let mut app = showing(&["a", "b", "c"]);
    let mut state = KubeComponentState::new();
    let mut seen = Vec::new();
    for _ in 0..5 {
        app.handle_key_events(press(Key::Up), &mut state);
        seen.push(state.list_cursor);
    }
    assert_eq!(seen, vec![Some(0), Some(1), Some(2), Some(2), Some(2)]);
    seen.clear();
    for _ in 0..4 {
        app.handle_key_events(press(Key::Down), &mut state);
        seen.push(state.list_cursor);
    }
    assert_eq!(seen, vec![Some(1), Some(0), Some(0), Some(0)]);
}

#[test]
fn cursor_is_bounded_by_the_filtered_list() {
    let mut app = showing(&["web-1", "web-2", "cache-1"]);
    let mut state = KubeComponentState::new();
    app.handle_key_events(press(Key::Char('/')), &mut state);
    type_text(&mut app, &mut state, "web");
    for _ in 0..5 {
        app.handle_key_events(press(Key::Up), &mut state);
    }
    assert_eq!(state.list_cursor, Some(1));
}

#[test]
fn cursor_on_an_empty_list_does_not_move() {
    let mut app = showing(&[]);
    let mut state = KubeComponentState::new();
    app.handle_key_events(press(Key::Up), &mut state);
    assert_eq!(state.list_cursor, None);
    app.handle_key_events(press(Key::Down), &mut state);
    assert_eq!(state.list_cursor, None);
    let mut none = Kuco::new();
    none.handle_key_events(press(Key::Up), &mut state);
    assert_eq!(state.list_cursor, None);
}

#[test]
fn keys_read_as_commands() {
    let n = InteractionMode::NORMAL;
    assert_eq!(interpret(n, press(Key::Esc)), Command::Send(AppEvent::Quit));
    assert_eq!(interpret(n, press(Key::Char('q'))), Command::Send(AppEvent::Quit));
    assert_eq!(interpret(n, ctrl('q')), Command::Send(AppEvent::Quit));
    assert_eq!(interpret(n, ctrl('c')), Command::Send(AppEvent::Quit));
    assert_eq!(interpret(n, ctrl('C')), Command::Send(AppEvent::Quit));
    assert_eq!(interpret(n, press(Key::Char('c'))), Command::Nothing);
    assert_eq!(interpret(n, press(Key::Char('r'))), Command::Send(AppEvent::Refresh));
    assert_eq!(interpret(n, press(Key::Char('/'))), Command::EnterSearch);
    assert_eq!(interpret(n, press(Key::Right)), Command::Send(AppEvent::NavRight));
    assert_eq!(interpret(n, press(Key::Char('l'))), Command::Send(AppEvent::NavRight));
    assert_eq!(interpret(n, press(Key::Left)), Command::Send(AppEvent::NavLeft));
    assert_eq!(interpret(n, press(Key::Char('h'))), Command::Send(AppEvent::NavLeft));
    assert_eq!(interpret(n, press(Key::Up)), Command::CursorUp);
    assert_eq!(interpret(n, press(Key::Char('k'))), Command::CursorUp);
    assert_eq!(interpret(n, press(Key::Down)), Command::CursorDown);
    assert_eq!(interpret(n, press(Key::Char('j'))), Command::CursorDown);
    assert_eq!(interpret(n, press(Key::Enter)), Command::Nothing);
    assert_eq!(interpret(n, press(Key::Backspace)), Command::Nothing);
    assert_eq!(interpret(n, press(Key::Char('x'))), Command::Nothing);
    assert_eq!(interpret(n, press(Key::Other)), Command::Nothing);
}

#[test]
fn keys_read_as_search_text() {
    let s = InteractionMode::SEARCH;
    assert_eq!(interpret(s, press(Key::Esc)), Command::LeaveSearch);
    assert_eq!(interpret(s, ctrl('c')), Command::Send(AppEvent::Quit));
    assert_eq!(interpret(s, ctrl('C')), Command::Send(AppEvent::Quit));
    assert_eq!(interpret(s, press(Key::Char('c'))), Command::Insert('c'));
    assert_eq!(interpret(s, press(Key::Char('q'))), Command::Insert('q'));
    assert_eq!(interpret(s, press(Key::Char('/'))), Command::Insert('/'));
    assert_eq!(interpret(s, ctrl('x')), Command::Insert('x'));
    assert_eq!(interpret(s, press(Key::Right)), Command::Confirm);
    assert_eq!(interpret(s, press(Key::Enter)), Command::Confirm);
    assert_eq!(interpret(s, press(Key::Left)), Command::Send(AppEvent::NavLeft));
    assert_eq!(interpret(s, press(Key::Up)), Command::CursorUp);
    assert_eq!(interpret(s, press(Key::Down)), Command::CursorDown);
    assert_eq!(interpret(s, press(Key::Backspace)), Command::Erase);
    assert_eq!(interpret(s, press(Key::Other)), Command::Nothing);
}

#[test]
fn quit_stops_the_application() {
    let mut levels = KubeWidgetState::new();
    let mut app = showing(&["a"]);
    assert!(app.running);
    let asked = app.handle_key_events(press(Key::Char('q')), &mut levels.namespace_state);
    assert_eq!(asked, Some(AppEvent::Quit));
    assert!(app.running);
    assert!(!app.update(AppEvent::Quit, &mut levels));
    assert!(!app.running);
    let mut other = showing(&["a"]);
    other.tick();
    assert!(other.running);
    other.quit();
    assert!(!other.running);
}

#[test]
fn refresh_asks_for_a_reload_and_changes_nothing() {
    let mut levels = KubeWidgetState::new();
    let mut app = showing(&["a", "b"]);
    levels.namespace_state.list_cursor = Some(1);
    assert!(app.update(AppEvent::Refresh, &mut levels));
    assert_eq!(app.view.display, Some(entries(&["a", "b"])));
    assert_eq!(app.view.view_mode, ViewMode::NS);
    assert_eq!(levels.namespace_state.list_cursor, Some(1));
}

#[test]
fn a_frame_sets_cursor_selection_and_search_text() {
    let mut levels = KubeWidgetState::new();
    let mut app = showing(&["a", "b"]);
    levels.namespace_state.search.input = "left over".to_string();
    app.prepare_frame(&mut levels);
    assert_eq!(levels.namespace_state.list_cursor, Some(0));
    assert_eq!(levels.namespace_state.search.input, "");
    assert_eq!(app.view.data.current_namespace_name.as_deref(), Some("a"));
    levels.namespace_state.list_cursor = Some(9);
    app.prepare_frame(&mut levels);
    assert_eq!(app.view.data.current_namespace_name.as_deref(), Some("b"));
    assert_eq!(levels.namespace_state.list_cursor, Some(1));

    app.view.interact_mode = InteractionMode::SEARCH;
    levels.namespace_state.search.input = "kept".to_string();
    app.prepare_frame(&mut levels);
    assert_eq!(levels.namespace_state.search.input, "kept");

    app.view.view_mode = ViewMode::LOGS;
    app.prepare_frame(&mut levels);
    assert_eq!(levels.logs_state.list_cursor, Some(0));
    assert_eq!(app.view.data.current_log_line, None);
}

#[test]
fn selections_are_taken_from_under_the_cursor() {
    let mut state = KubeComponentState::new();
    state.list_cursor = Some(1);
    let mut app = showing(&["one", "two"]);
    app.refresh_namespace_selection(&state);
    app.refresh_pods_selection(&state);
    app.refresh_containers_selection(&state);
    app.refresh_logs_selection(&state);
    assert_eq!(app.view.data.current_namespace_name.as_deref(), Some("two"));
    assert_eq!(app.view.data.current_pod_name.as_deref(), Some("two"));
    assert_eq!(app.view.data.current_container_name.as_deref(), Some("two"));
    assert_eq!(app.view.data.current_log_line.as_deref(), Some("two"));
    let mut empty = showing(&[]);
    empty.refresh_logs_selection(&state);
    assert_eq!(empty.view.data.current_log_line.as_deref(), Some("none"));
}

#[test]
fn load_shows_the_stored_list() {
    let mut app = Kuco::new();
    let state = KubeComponentState::new();
    let r = app.load(&state, Some(b"3661".to_vec()), Some(b"[\"default\",\"kube-system\"]".to_vec()), None);
    assert_eq!(r, Ok(()));
    assert_eq!(app.view.display, Some(entries(&["default", "kube-system"])));
    assert_eq!(app.view.data.namespace_names_list, entries(&["default", "kube-system"]));
    assert_eq!(app.view.data.last_refreshed_at, "01:01:01");
}

#[test]
fn load_shows_an_absent_entry_as_the_empty_list() {
    let mut app = Kuco::new();
    let state = KubeComponentState::new();
    assert_eq!(app.load(&state, None, None, None), Ok(()));
    assert_eq!(app.view.display, Some(Vec::new()));
    assert_eq!(app.view.data.last_refreshed_at, "00:00:00");
}

#[test]
fn load_reports_bytes_that_are_no_list() {
    let mut app = Kuco::new();
    let state = KubeComponentState::new();
    app.load(&state, None, Some(b"[\"a\"]".to_vec()), None).unwrap();
    let r = app.load(&state, None, Some(b"not json".to_vec()), None);
    match r {
        Err(CacheError::DeserializeFailure { key, .. }) => assert_eq!(key, "all_namespaces"),
        other => panic!("expected a deserialize failure, got {:?}", other),
    }
    assert_eq!(app.view.display, Some(entries(&["a"])));
    let r = app.load(&state, Some(b"\"x\"".to_vec()), Some(b"[\"b\"]".to_vec()), None);
    match r {
        Err(CacheError::DeserializeFailure { key, .. }) => assert_eq!(key, "last_refreshed_at"),
        other => panic!("expected a deserialize failure, got {:?}", other),
    }
    assert_eq!(app.view.display, Some(entries(&["b"])));
}

#[test]
fn load_during_a_search_keeps_the_filter() {
    let mut app = showing(&["web-1", "web-2", "cache-1"]);
    let mut state = KubeComponentState::new();
    app.handle_key_events(press(Key::Char('/')), &mut state);
    type_text(&mut app, &mut state, "web");
    let stored = b"[\"web-1\",\"web-2\",\"cache-1\",\"web-3\"]".to_vec();
    assert_eq!(app.load(&state, None, Some(stored), None), Ok(()));
    assert_eq!(app.view.display, Some(entries(&["web-1", "web-2"])));
    assert_eq!(
        app.view.data.namespace_names_list,
        entries(&["web-1", "web-2", "cache-1", "web-3"])
    );
    app.handle_key_events(press(Key::Esc), &mut state);
    assert_eq!(app.view.display, Some(entries(&["web-1", "web-2", "cache-1"])));
}

#[test]
fn left_in_a_search_drops_the_snapshot() {
    let mut levels = KubeWidgetState::new();
    let mut app = showing(&["web-1", "cache-1"]);
    app.view.view_mode = ViewMode::PODS;
    app.handle_key_events(press(Key::Char('/')), &mut levels.pods_state);
    let asked = app.handle_key_events(press(Key::Left), &mut levels.pods_state);
    assert_eq!(asked, Some(AppEvent::NavLeft));
    assert!(app.cache.is_some());
    app.update(AppEvent::NavLeft, &mut levels);
    assert!(app.cache.is_none());
    assert_eq!(app.view.view_mode, ViewMode::NS);
    app.view.display = Some(entries(&["default", "dev"]));
    type_text(&mut app, &mut levels.namespace_state, "dev");
    assert_eq!(app.view.display, Some(entries(&["dev"])));
    assert_eq!(app.cache.as_ref().map(|c| c.display.clone()), Some(entries(&["default", "dev"])));
}

#[test]
fn left_clears_the_cursor_of_the_level_below() {
    let mut levels = KubeWidgetState::new();
    let mut app = showing(&["x", "y"]);
    app.view.view_mode = ViewMode::PODS;
    levels.pods_state.list_cursor = Some(1);
    levels.containers_state.list_cursor = Some(1);
    levels.logs_state.list_cursor = Some(1);
    app.update(AppEvent::NavLeft, &mut levels);
    assert_eq!(levels.pods_state.list_cursor, Some(0));
    assert_eq!(levels.containers_state.list_cursor, None);
    assert_eq!(levels.logs_state.list_cursor, Some(1));
}

#[test]
fn a_frame_brings_the_cursor_back_into_a_list_that_shrank() {
    let mut levels = KubeWidgetState::new();
    let mut app = showing(&["only"]);
    levels.namespace_state.list_cursor = Some(5);
    app.prepare_frame(&mut levels);
    assert_eq!(levels.namespace_state.list_cursor, Some(0));
    assert_eq!(app.view.data.current_namespace_name.as_deref(), Some("only"));
    app.handle_key_events(press(Key::Down), &mut levels.namespace_state);
    assert_eq!(levels.namespace_state.list_cursor, Some(0));
    let mut empty = showing(&[]);
    levels.namespace_state.list_cursor = Some(5);
    empty.prepare_frame(&mut levels);
    assert_eq!(levels.namespace_state.list_cursor, Some(0));
    assert_eq!(empty.view.data.current_namespace_name.as_deref(), Some("default"));
}

#[test]
fn the_pod_placeholder_is_none() {
    let mut app = showing(&[]);
    app.view.view_mode = ViewMode::PODS;
    let mut state = KubeComponentState::new();
    for cursor in [None, Some(0), Some(7)] {
        state.list_cursor = cursor;
        app.refresh_pods_selection(&state);
        assert_eq!(app.view.data.current_pod_name, Some("none".to_string()));
    }
}
