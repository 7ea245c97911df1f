use vstd::prelude::*;

verus! {

/// One configured launchable entry: a display title, a free-text
/// description, and the shell command line to run on launch.
pub struct Program {
    pub title: String,
    pub description: String,
    pub command: String,
}

/// Mathematical model of a `Program`: its three fields as character
/// sequences.
pub struct ProgramModel {
    pub title: Seq<char>,
    pub description: Seq<char>,
    pub command: Seq<char>,
}

impl View for Program {
    type V = ProgramModel;

    open spec fn view(&self) -> ProgramModel {
        ProgramModel {
            title: self.title@,
            description: self.description@,
            command: self.command@,
        }
    }
}

impl Program {
    pub fn new(title: String, description: String, command: String) -> (p: Program)
        ensures
            p@.title == title@,
            p@.description == description@,
            p@.command == command@,
    {
        Program { title, description, command }
    }

    /// An independent copy holding the same three fields.
    pub fn duplicate(&self) -> (p: Program)
        ensures
            p == *self,
    {
        Program {
            title: self.title.clone(),
            description: self.description.clone(),
            command: self.command.clone(),
        }
    }
}

} // verus!
