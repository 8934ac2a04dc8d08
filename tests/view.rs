use progress_clock::view::{classify_key, handle_input, next_view, should_exit, AppState, InputSymbol, Key, View};

#[test]
fn cycling_walks_the_ring() {
    let mut state = AppState::new();
    assert_eq!(state.current_view, View::Main);
    assert!(!state.show_remaining);
    let expected = [View::TimeLimit, View::TimeBlocks, View::Main, View::TimeLimit];
    for v in expected {
        assert!(!handle_input(&mut state, InputSymbol::Cycle));
        assert_eq!(state.current_view, v);
    }
    assert_eq!(next_view(View::TimeBlocks), View::Main);
}

#[test]
fn toggle_and_unknown_keys() {
    let mut state = AppState::new();
    assert!(!handle_input(&mut state, InputSymbol::Toggle));
    assert!(state.show_remaining);
    assert_eq!(state.current_view, View::Main);
    let before = state;
    assert!(!handle_input(&mut state, InputSymbol::Unrecognized));
    assert_eq!(state, before);
    assert!(!handle_input(&mut state, InputSymbol::Toggle));
    assert!(!state.show_remaining);
}

#[test]
fn quit_symbols_end_the_session() {
    let mut state = AppState::new();
    assert!(handle_input(&mut state, InputSymbol::Quit));
    assert!(handle_input(&mut state, InputSymbol::ForceQuit));
    assert_eq!(state, AppState::new());
}

#[test]
fn keys_map_to_symbols() {
    assert_eq!(classify_key(Key::Char('q'), false, true), InputSymbol::Quit);
    assert_eq!(classify_key(Key::Char('c'), true, true), InputSymbol::ForceQuit);
    assert_eq!(classify_key(Key::Char('c'), false, true), InputSymbol::Unrecognized);
    assert_eq!(classify_key(Key::Tab, false, true), InputSymbol::Cycle);
    assert_eq!(classify_key(Key::Char(' '), false, true), InputSymbol::Toggle);
    assert_eq!(classify_key(Key::Tab, false, false), InputSymbol::Unrecognized);
    assert_eq!(classify_key(Key::Other, false, true), InputSymbol::Unrecognized);
    assert!(should_exit(Key::Char('q'), false));
    assert!(should_exit(Key::Char('c'), true));
    assert!(!should_exit(Key::Char('c'), false));
    assert!(!should_exit(Key::Tab, true));
}
