use vstd::prelude::*;

verus! {

/// The toolkit's command list (only ever handled by address).
pub struct JkCommand;

/// The command list of the editor window.
pub struct Command {
    pub name: String,
    pub jk_command: usize,
}

impl Command {
    /// The command list over the toolkit list `jk_command`.
    pub fn new(jk_command: usize) -> (c: Command)
        ensures
            c.name@ == "command_name"@,
            c.jk_command == jk_command,
    {
        Command { name: "command_name".to_owned(), jk_command }
    }
}

} // verus!
