use glauncher::input::{apply_event, InputEvent, Key, Step};
use glauncher::launch::{detach_step, DetachAction, ForkOutcome, POLL_INTERVAL_MS, SETTLE_DELAY_MS};
use glauncher::program::Program;
use glauncher::state::AppState;

fn state_with_true_command() -> AppState {
    let entries = vec![Program::new(
        "noop".to_string(),
        "does nothing".to_string(),
        "true".to_string(),
    )];
    AppState::new(entries)
}

#[test]
fn confirm_launches_the_selected_command_and_restores_the_terminal() {
    let mut state = state_with_true_command();
    state.enter_terminal_mode();
    assert!(state.terminal_mode_active);

    let step = apply_event(&mut state, InputEvent::Press(Key::Enter));
    match step {
        Step::Launch(command) => assert_eq!(command, "true"),
        _ => panic!("confirm on a non-empty list must launch"),
    }

    let (child_action, child_quits) = detach_step(ForkOutcome::Child);
    assert_eq!(child_action, DetachAction::SpawnShellCommand);
    assert!(child_quits);
    let (parent_action, parent_quits) = detach_step(ForkOutcome::Parent(4242));
    assert_eq!(parent_action, DetachAction::ContinueInParent(4242));
    assert!(parent_quits);

    state.restore_terminal_mode();
    assert!(!state.terminal_mode_active);
}

#[test]
fn fork_failure_aborts_the_launch_without_quitting() {
    let (action, quits) = detach_step(ForkOutcome::Failed);
    assert_eq!(action, DetachAction::ReportFailure);
    assert!(!quits);
}

#[test]
fn quit_key_quits_at_once_without_a_spawn() {
    let mut state = state_with_true_command();
    state.enter_terminal_mode();
    let step = apply_event(&mut state, InputEvent::Press(Key::Char('q')));
    assert!(matches!(step, Step::Quit));
    assert_eq!(state.selected_index, 0);
    state.restore_terminal_mode();
    assert!(!state.terminal_mode_active);
}

#[test]
fn quit_key_quits_on_an_empty_list_too() {
    let mut state = AppState::new(Vec::new());
    state.enter_terminal_mode();
    let step = apply_event(&mut state, InputEvent::Press(Key::Char('q')));
    assert!(matches!(step, Step::Quit));
    state.restore_terminal_mode();
    assert!(!state.terminal_mode_active);
}

#[test]
fn loop_timing_constants_hold_their_fixed_values() {
    assert_eq!(POLL_INTERVAL_MS, 50);
    assert_eq!(SETTLE_DELAY_MS, 5000);
}
