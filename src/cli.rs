use vstd::prelude::*;

use crate::exporter::FormatEnum;
use crate::stamp::Stamp;
use crate::task::{PriorityEnum, Task};
use crate::todolist::{
    added, can_add, completed, lemma_ids_kept, next_id, removed, reset_all, TodoList,
};

verus! {

/// A parsed command line: the command and the path of the save file.
pub struct Cli {
    pub command: Commands,
    pub path: String,
}

/// What the user asked for.
pub enum Commands {
    /// Add a task with a title and an optional priority.
    Add { title: String, priority: Option<PriorityEnum> },
    /// List tasks; `completed` wins over `pending` where both are set.
    List { completed: bool, pending: bool },
    /// Remove the task at a 1-based position.
    Remove { id: i32 },
    /// Complete the task at a 1-based position.
    Complete { id: i32 },
    /// Mark every task pending.
    Reset,
    /// Write the list in a format.
    Export { format: FormatEnum },
}

/// Which tasks a listing shows.
#[derive(Clone, Copy, Debug, PartialEq, Eq, Structural)]
pub enum ListView {
    All,
    Completed,
    Pending,
}

/// What remains to be done outside the list after a command ran on it.
#[derive(Clone, Copy, Debug, PartialEq, Eq, Structural)]
pub struct Step {
    /// Write the list to its path as JSON.
    pub save: bool,
    /// Write the list in this format.
    pub export: Option<FormatEnum>,
    /// Print the listing lines of these tasks.
    pub show: Option<ListView>,
}

/// The commands that change the list; each is followed by a save.
pub open spec fn mutates(c: Commands) -> bool {
    match c {
        Commands::Add { .. } | Commands::Remove { .. } | Commands::Complete { .. } | Commands::Reset => true,
        _ => false,
    }
}

/// The commands that take the current time.
pub open spec fn needs_clock(c: Commands) -> bool {
    c is Add || c is Complete
}

/// The tasks after command `c` ran on `s`, with `now` the current time where
/// the command takes one.
pub open spec fn applied(s: Seq<Task>, c: Commands, now: Option<Stamp>) -> Seq<Task> {
    match c {
        Commands::Add { title, priority } => added(s, title, priority, now->Some_0),
        Commands::Remove { id } => removed(s, id as int),
        Commands::Complete { id } => completed(s, id as int, now->Some_0),
        Commands::Reset => reset_all(s),
        _ => s,
    }
}

/// The step that command `c` leaves to be done.
pub open spec fn step_of(c: Commands) -> Step {
    match c {
        Commands::List { completed, pending } => Step {
            save: false,
            export: None,
            show: Some(
                if completed {
                    ListView::Completed
                } else if pending {
                    ListView::Pending
                } else {
                    ListView::All
                },
            ),
        },
        Commands::Export { format } => Step { save: false, export: Some(format), show: None },
        _ => Step { save: true, export: None, show: Some(ListView::All) },
    }
}

impl Commands {
    /// Whether the command takes the current time.
    pub fn needs_clock(&self) -> (r: bool)
        ensures
            r == needs_clock(*self),
    {
        match self {
            Commands::Add { .. } | Commands::Complete { .. } => true,
            _ => false,
        }
    }
}

/// Runs `command` on `todolist`, taking `now` as the current time where the
/// command needs one, and returns what is left to do: every command that
/// changes the list asks for a save, listings say which tasks they show, an
/// export names its format.
pub fn dispatch(todolist: &mut TodoList, command: Commands, now: Option<Stamp>) -> (r: Step)
    requires
        command is Add ==> can_add(old(todolist).tasks@),
        needs_clock(command) ==> now is Some,
    ensures
        final(todolist).tasks@ == applied(old(todolist).tasks@, command, now),
        final(todolist).path == old(todolist).path,
        r == step_of(command),
        r.save <==> mutates(command),
{
    match command {
        Commands::Add { title, priority } => {
            match now {
                Some(t) => todolist.add_task_at(title, priority, t),
                None => {},
            }
            Step { save: true, export: None, show: Some(ListView::All) }
        },
        Commands::Remove { id } => {
            todolist.remove_task(id);
            Step { save: true, export: None, show: Some(ListView::All) }
        },
        Commands::Complete { id } => {
            match now {
                Some(t) => todolist.complete_task_at(id, t),
                None => {},
            }
            Step { save: true, export: None, show: Some(ListView::All) }
        },
        Commands::Reset => {
            todolist.reset_tasks();
            Step { save: true, export: None, show: Some(ListView::All) }
        },
        Commands::List { completed, pending } => {
            let view = if completed {
                ListView::Completed
            } else if pending {
                ListView::Pending
            } else {
                ListView::All
            };
            Step { save: false, export: None, show: Some(view) }
        },
        Commands::Export { format } => Step { save: false, export: Some(format), show: None },
    }
}

/// The tasks that a run of commands leaves on an empty list, each command with
/// the time it was given.
pub open spec fn history(cmds: Seq<(Commands, Option<Stamp>)>) -> Seq<Task>
    decreases cmds.len(),
{
    if cmds.len() == 0 {
        Seq::empty()
    } else {
        applied(history(cmds.drop_last()), cmds.last().0, cmds.last().1)
    }
}

/// How many of the commands are adds.
pub open spec fn adds_in(cmds: Seq<(Commands, Option<Stamp>)>) -> nat
    decreases cmds.len(),
{
    if cmds.len() == 0 {
        0
    } else {
        adds_in(cmds.drop_last()) + if cmds.last().0 is Add {
            1nat
        } else {
            0nat
        }
    }
}

/// Every task's id is its 1-based position.
pub open spec fn ids_by_position(s: Seq<Task>) -> bool {
    forall|j: int| 0 <= j < s.len() ==> #[trigger] s[j].id == j + 1
}

/// On a list that starts empty, a run of commands without a removal (adds,
/// completions, resets, listings, exports in any order) keeps one task per add
/// and gives each task the id of its 1-based position: the k-th added task has id k.
pub proof fn lemma_ids_without_removal(cmds: Seq<(Commands, Option<Stamp>)>)
    requires
        cmds.len() < i32::MAX,
        forall|i: int| 0 <= i < cmds.len() ==> !(#[trigger] cmds[i].0 is Remove),
    ensures
        history(cmds).len() == adds_in(cmds),
        adds_in(cmds) <= cmds.len(),
        ids_by_position(history(cmds)),
    decreases cmds.len(),
{
    if cmds.len() > 0 {
        let prev = cmds.drop_last();
        assert forall|i: int| 0 <= i < prev.len() implies !(#[trigger] prev[i].0 is Remove) by {
            assert(prev[i] == cmds[i]);
        }
        lemma_ids_without_removal(prev);
        let s = history(prev);
        let (c, now) = cmds.last();
        assert(!(cmds[cmds.len() - 1].0 is Remove));
        match c {
            Commands::Add { title, priority } => {
                assert(next_id(s) == s.len() + 1);
            },
            Commands::Complete { id } => {
                lemma_ids_kept(s, id as int, now->Some_0);
            },
            Commands::Reset => {
                lemma_ids_kept(s, 0, now->Some_0);
            },
            _ => {},
        }
    }
}

} // verus!
