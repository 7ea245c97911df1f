use glauncher::program::Program;
use glauncher::render::render;
use glauncher::state::AppState;

#[test]
fn frame_lists_all_titles_and_marks_the_selection() {
    let entries = vec![
        Program::new("alpha".to_string(), "first".to_string(), "run-a".to_string()),
        Program::new("beta".to_string(), "second".to_string(), "run-b".to_string()),
    ];
    let mut state = AppState::new(entries);
    state.move_down();
    let frame = render(&state);
    assert_eq!(frame.title_bar, "GLauncher");
    assert_eq!(frame.list_titles, vec!["alpha".to_string(), "beta".to_string()]);
    assert_eq!(frame.highlighted, Some(1));
    assert_eq!(frame.detail_title, "beta");
    assert_eq!(frame.detail_description, "second");
    assert_eq!(frame.command_preview, "run-b");
}

#[test]
fn empty_state_renders_without_indexing() {
    let state = AppState::new(Vec::new());
    let frame = render(&state);
    assert_eq!(frame.title_bar, "GLauncher");
    assert!(frame.list_titles.is_empty());
    assert_eq!(frame.highlighted, None);
    assert_eq!(frame.detail_title, "");
    assert_eq!(frame.detail_description, "");
    assert_eq!(frame.command_preview, "");
}

#[test]
fn frame_follows_navigation() {
    let entries = vec![
        Program::new("alpha".to_string(), "first".to_string(), "run-a".to_string()),
        Program::new("beta".to_string(), "second".to_string(), "run-b".to_string()),
    ];
    let mut state = AppState::new(entries);
    let before = render(&state);
    assert_eq!(before.highlighted, Some(0));
    assert_eq!(before.detail_title, "alpha");
    state.move_down();
    let after = render(&state);
    assert_eq!(after.highlighted, Some(1));
    assert_eq!(after.detail_title, "beta");
    assert_eq!(after.list_titles, before.list_titles);
}
