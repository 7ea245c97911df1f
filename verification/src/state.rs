use vstd::prelude::*;

use crate::program::Program;

verus! {

/// Clamped upward navigation: one step toward the top of the list,
/// stopping at index 0.
pub open spec fn nav_up(index: nat) -> nat {
    if index > 0 {
        (index - 1) as nat
    } else {
        0
    }
}

/// Clamped downward navigation: one step toward the bottom of a list of
/// `len` entries, stopping at the last valid index.
pub open spec fn nav_down(len: nat, index: nat) -> nat {
    if index + 1 < len {
        (index + 1) as nat
    } else {
        index
    }
}

/// The launcher's in-memory state: the loaded entries, the current
/// selection, and whether the terminal is currently in the raw
/// alternate-screen mode that must be restored before exit.
pub struct AppState {
    pub entries: Vec<Program>,
    pub selected_index: usize,
    pub terminal_mode_active: bool,
}

impl AppState {
    /// Selection invariant: the index is a valid position whenever the
    /// list is non-empty, and pinned to 0 as an inactive sentinel when
    /// the list is empty.
    pub open spec fn wf(&self) -> bool {
        if self.entries@.len() == 0 {
            self.selected_index == 0
        } else {
            (self.selected_index as int) < self.entries@.len()
        }
    }

    /// Fresh state over a loaded entry list: selection at the top,
    /// terminal still in normal mode.
    pub fn new(entries: Vec<Program>) -> (s: AppState)
        ensures
            s.entries@ == entries@,
            s.selected_index == 0,
            !s.terminal_mode_active,
            s.wf(),
    {
        AppState { entries, selected_index: 0, terminal_mode_active: false }
    }

    /// Move the selection one entry up, clamped at the top.
    pub fn move_up(&mut self)
        ensures
            final(self).entries@ == old(self).entries@,
            final(self).terminal_mode_active == old(self).terminal_mode_active,
            final(self).selected_index as nat == nav_up(old(self).selected_index as nat),
            old(self).wf() ==> final(self).wf(),
    {
        if self.selected_index > 0 {
            self.selected_index = self.selected_index - 1;
        }
    }

    /// Move the selection one entry down, clamped at the last entry.
    pub fn move_down(&mut self)
        ensures
            final(self).entries@ == old(self).entries@,
            final(self).terminal_mode_active == old(self).terminal_mode_active,
            final(self).selected_index as nat == nav_down(
                old(self).entries@.len(),
                old(self).selected_index as nat,
            ),
            old(self).wf() ==> final(self).wf(),
    {
        let len = self.entries.len();
        if len > 0 && self.selected_index < len - 1 {
            self.selected_index = self.selected_index + 1;
        }
    }

    /// The currently selected entry, or `None` when the list is empty:
    /// callers must treat an empty list as having no current entry.
    pub fn current(&self) -> (r: Option<&Program>)
        requires
            self.wf(),
        ensures
            (self.entries@.len() == 0) <==> (r is None),
            r matches Some(p) ==> *p == self.entries@[self.selected_index as int],
    {
        if self.entries.len() == 0 {
            None
        } else {
            Some(&self.entries[self.selected_index])
        }
    }

    /// Record that the terminal has been switched into raw
    /// alternate-screen mode.
    pub fn enter_terminal_mode(&mut self)
        ensures
            final(self).entries@ == old(self).entries@,
            final(self).selected_index == old(self).selected_index,
            final(self).terminal_mode_active,
    {
        self.terminal_mode_active = true;
    }

    /// Record that the terminal has been restored to normal mode; every
    /// exit path must pass through this before the process ends.
    pub fn restore_terminal_mode(&mut self)
        ensures
            final(self).entries@ == old(self).entries@,
            final(self).selected_index == old(self).selected_index,
            !final(self).terminal_mode_active,
    {
        self.terminal_mode_active = false;
    }
}

} // verus!
