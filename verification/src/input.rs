use vstd::prelude::*;

use crate::state::{nav_down, nav_up, AppState};

verus! {

/// A keyboard key, as far as the launcher distinguishes them.
#[derive(Clone, Copy, PartialEq, Eq, Structural, Debug)]
pub enum Key {
    Up,
    Down,
    Enter,
    Char(char),
    Other,
}

/// One turn of the input poll: nothing arrived within the poll
/// interval, a key was pressed, a key event of another kind (release or
/// repeat) arrived, or some non-key terminal event arrived.
#[derive(Clone, Copy, PartialEq, Eq, Structural, Debug)]
pub enum InputEvent {
    Idle,
    Press(Key),
    NonPress(Key),
    Other,
}

/// What the main loop does after one event: keep looping, quit, or
/// launch the carried shell command and then quit.
#[derive(Debug)]
pub enum Step {
    Continue,
    Quit,
    Launch(String),
}

/// The shape of a `Step`, without the launched command.
#[derive(Clone, Copy, PartialEq, Eq, Structural, Debug)]
pub enum StepKind {
    Continue,
    Quit,
    Launch,
}

pub open spec fn kind_of(s: Step) -> StepKind {
    match s {
        Step::Continue => StepKind::Continue,
        Step::Quit => StepKind::Quit,
        Step::Launch(_) => StepKind::Launch,
    }
}

pub open spec fn is_quit_key(k: Key) -> bool {
    k == Key::Char('q')
}

pub open spec fn is_up_key(k: Key) -> bool {
    k == Key::Up || k == Key::Char('k')
}

pub open spec fn is_down_key(k: Key) -> bool {
    k == Key::Down || k == Key::Char('j')
}

pub open spec fn is_confirm_key(k: Key) -> bool {
    k == Key::Enter
}

/// Where the selection stands after one event, over a list of `len`
/// entries. Each navigation key clamps on its own; no key combination
/// bypasses the bounds check.
pub open spec fn step_selected(len: nat, index: nat, ev: InputEvent) -> nat {
    match ev {
        InputEvent::Press(k) => if is_quit_key(k) {
            index
        } else if is_up_key(k) {
            nav_up(index)
        } else if is_down_key(k) {
            nav_down(len, index)
        } else {
            index
        },
        _ => index,
    }
}

/// What the loop does after one event: quit on the quit key, launch on
/// the confirm key when an entry is selected, keep looping otherwise.
/// With an empty list the confirm key is inert.
pub open spec fn step_kind(len: nat, ev: InputEvent) -> StepKind {
    match ev {
        InputEvent::Press(k) => if is_quit_key(k) {
            StepKind::Quit
        } else if is_confirm_key(k) && len > 0 {
            StepKind::Launch
        } else {
            StepKind::Continue
        },
        _ => StepKind::Continue,
    }
}

/// Route one input event: apply navigation to the state and report
/// whether the loop continues, quits, or launches the selected
/// entry's command.
pub fn apply_event(state: &mut AppState, ev: InputEvent) -> (step: Step)
    requires
        old(state).wf(),
    ensures
        final(state).wf(),
        final(state).entries@ == old(state).entries@,
        final(state).terminal_mode_active == old(state).terminal_mode_active,
        final(state).selected_index as nat == step_selected(
            old(state).entries@.len(),
            old(state).selected_index as nat,
            ev,
        ),
        kind_of(step) == step_kind(old(state).entries@.len(), ev),
        step matches Step::Launch(c) ==> c@ == old(state).entries@[old(
            state,
        ).selected_index as int].command@,
{
    match ev {
        InputEvent::Press(k) => {
            if k == Key::Char('q') {
                Step::Quit
            } else if k == Key::Up || k == Key::Char('k') {
                state.move_up();
                Step::Continue
            } else if k == Key::Down || k == Key::Char('j') {
                state.move_down();
                Step::Continue
            } else if k == Key::Enter {
                match state.current() {
                    Some(p) => Step::Launch(p.command.clone()),
                    None => Step::Continue,
                }
            } else {
                Step::Continue
            }
        },
        _ => Step::Continue,
    }
}

/// The selection after a whole sequence of input events, starting from
/// `index` over a list of `len` entries.
pub open spec fn run_selected(len: nat, index: nat, evs: Seq<InputEvent>) -> nat
    decreases evs.len(),
{
    if evs.len() == 0 {
        index
    } else {
        run_selected(len, step_selected(len, index, evs[0]), evs.drop_first())
    }
}

/// Law: under every sequence of input events, the selection stays a
/// valid index of a non-empty list, and stays 0 over an empty list — a
/// boundary clamp, never a wraparound or an overflow.
pub proof fn lemma_selection_stays_in_bounds(len: nat, index: nat, evs: Seq<InputEvent>)
    requires
        len == 0 ==> index == 0,
        len > 0 ==> index < len,
    ensures
        len == 0 ==> run_selected(len, index, evs) == 0,
        len > 0 ==> run_selected(len, index, evs) < len,
    decreases evs.len(),
{
    if evs.len() > 0 {
        lemma_selection_stays_in_bounds(len, step_selected(len, index, evs[0]), evs.drop_first());
    }
}

/// Law: with zero entries, no input event moves the selection and none
/// leads to a launch.
pub proof fn lemma_empty_list_is_inert(ev: InputEvent)
    ensures
        step_selected(0, 0, ev) == 0,
        step_kind(0, ev) != StepKind::Launch,
{
}

/// Law: a press of the quit key quits at once, at every list length and
/// selection, without moving the selection and without a launch.
pub proof fn lemma_quit_is_immediate(len: nat, index: nat)
    ensures
        step_kind(len, InputEvent::Press(Key::Char('q'))) == StepKind::Quit,
        step_selected(len, index, InputEvent::Press(Key::Char('q'))) == index,
{
}

} // verus!
