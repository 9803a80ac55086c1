//! The runnable unit: an executable path with its base arguments.

use vstd::prelude::*;

verus! {

/// Mathematical value of a [`CommandArgs`]: the command text and the
/// argument texts as sequences of characters.
pub struct CommandArgsView {
    pub command: Seq<char>,
    pub args: Seq<Seq<char>>,
}

/// Holds the executable command and base arguments for a component.
///
/// This struct is the contract for a runnable component: it is what the
/// build manifest stores and what the orchestrator spawns.
#[derive(Debug)]
pub struct CommandArgs {
    /// The command to execute (e.g. "python3" or "/path/to/binary").
    pub command: String,

    /// Base arguments to pass to the command (e.g. ["./run.py"]).
    pub args: Vec<String>,
}

impl View for CommandArgs {
    type V = CommandArgsView;

    open spec fn view(&self) -> CommandArgsView {
        CommandArgsView { command: self.command@, args: self.args.deep_view() }
    }
}

impl Clone for CommandArgs {
    /// Deep copy; the view is preserved.
    fn clone(&self) -> (r: Self)
        ensures
            r@ == self@,
    {
        let mut args: Vec<String> = Vec::new();
        let mut i: usize = 0;
        while i < self.args.len()
            invariant
                i <= self.args.len(),
                args.len() == i,
                forall|j: int| 0 <= j < i ==> args@[j]@ == self.args@[j]@,
            decreases self.args.len() - i,
        {
            args.push(self.args[i].clone());
            i += 1;
        }
        let r = CommandArgs { command: self.command.clone(), args };
        proof {
            assert(r@.args =~= self@.args);
        }
        r
    }
}

} // verus!
