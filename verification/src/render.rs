use vstd::prelude::*;

use crate::state::AppState;

verus! {

/// The text shown in the top title bar.
pub open spec fn title_text() -> Seq<char> {
    "GLauncher"@
}

/// The marker drawn in front of the selected list row.
pub open spec fn highlight_marker() -> Seq<char> {
    ">>"@
}

/// Everything one frame shows, as plain values: the title bar, the
/// left-pane list of entry titles with the highlighted row, and the
/// three panes that follow the selected entry (its title, its
/// description, and its raw command line). A frame is a pure function
/// of the state; drawing it is someone else's job.
pub struct FrameModel {
    pub title_bar: String,
    pub list_titles: Vec<String>,
    pub highlighted: Option<usize>,
    pub detail_title: String,
    pub detail_description: String,
    pub command_preview: String,
}

/// Build the frame for a state: all entry titles in order, the
/// selection highlighted, and the selected entry's fields in the detail
/// panes. An empty list yields an empty-state frame with no highlight
/// and empty detail panes, never an out-of-bounds read.
pub fn render(state: &AppState) -> (f: FrameModel)
    requires
        state.wf(),
    ensures
        f.title_bar@ == title_text(),
        f.list_titles@.len() == state.entries@.len(),
        forall|i: int|
            0 <= i < state.entries@.len() ==> f.list_titles@[i]@ == state.entries@[i].title@,
        state.entries@.len() == 0 ==> {
            &&& f.highlighted is None
            &&& f.detail_title@.len() == 0
            &&& f.detail_description@.len() == 0
            &&& f.command_preview@.len() == 0
        },
        state.entries@.len() > 0 ==> {
            &&& f.highlighted == Some(state.selected_index)
            &&& f.detail_title@ == state.entries@[state.selected_index as int].title@
            &&& f.detail_description@ == state.entries@[state.selected_index as int].description@
            &&& f.command_preview@ == state.entries@[state.selected_index as int].command@
        },
{
    let mut titles: Vec<String> = Vec::new();
    let mut i: usize = 0;
    while i < state.entries.len()
        invariant
            i <= state.entries@.len(),
            titles@.len() == i as int,
            forall|j: int| 0 <= j < i as int ==> titles@[j]@ == state.entries@[j].title@,
        decreases state.entries@.len() - i,
    {
        titles.push(state.entries[i].title.clone());
        i = i + 1;
    }
    let title_bar = "GLauncher".to_owned();
    if state.entries.len() == 0 {
        FrameModel {
            title_bar,
            list_titles: titles,
            highlighted: None,
            detail_title: String::new(),
            detail_description: String::new(),
            command_preview: String::new(),
        }
    } else {
        let selected = &state.entries[state.selected_index];
        FrameModel {
            title_bar,
            list_titles: titles,
            highlighted: Some(state.selected_index),
            detail_title: selected.title.clone(),
            detail_description: selected.description.clone(),
            command_preview: selected.command.clone(),
        }
    }
}

} // verus!
