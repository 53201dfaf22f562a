//! How the bot answers Discord events: slash commands, pressed components
//! and the readiness of its cache.
use vstd::prelude::*;

use crate::commands::{is_plain_command, is_reset_command, CommandDefinition};
use crate::components::MessageData;
use crate::mechanics::MechanicFunction;
use crate::tasks::TaskType;

verus! {

/// Whether two texts are equal, compared character by character.
pub fn str_eq(a: &str, b: &str) -> (r: bool)
    ensures
        r == (a@ == b@),
{
    let n = a.unicode_len();
    if n != b.unicode_len() {
        return false;
    }
    let mut i: usize = 0;
    while i < n
        invariant
            i <= n,
            n == a@.len(),
            n == b@.len(),
            forall|j: int| 0 <= j < i ==> a@[j] == b@[j],
        decreases n - i,
    {
        if a.get_char(i) != b.get_char(i) {
            return false;
        }
        i = i + 1;
    }
    assert(a@ =~= b@);
    true
}

/// The slash commands that the bot answers.
#[derive(Clone, Copy, Debug, PartialEq, Eq, Structural)]
pub enum CommandKind {
    /// `trade`, run by `FakeTrade`.
    Trade,
    /// `initialize`, run by `InitializeGame`.
    Initialize,
    /// `reset`, run by `Nuke`.
    Reset,
}

/// The command that a slash command's name calls for.
pub open spec fn command_kind(name: Seq<char>) -> Option<CommandKind> {
    if name == "trade"@ {
        Some(CommandKind::Trade)
    } else if name == "initialize"@ {
        Some(CommandKind::Initialize)
    } else if name == "reset"@ {
        Some(CommandKind::Reset)
    } else {
        None
    }
}

/// The command that a slash command's name calls for; `None` for a name the
/// bot does not register.
pub fn command_for(name: &str) -> (r: Option<CommandKind>)
    ensures
        r == command_kind(name@),
{
    if str_eq(name, "trade") {
        Some(CommandKind::Trade)
    } else if str_eq(name, "initialize") {
        Some(CommandKind::Initialize)
    } else if str_eq(name, "reset") {
        Some(CommandKind::Reset)
    } else {
        None
    }
}

/// Every command that the bot registers is answered, each by its own
/// command: of the commands that `all_commands` gives, `trade` is run by
/// `FakeTrade`, `initialize` by `InitializeGame` and `reset` by `Nuke`.
pub proof fn lemma_registered_commands_answered(registered: Seq<CommandDefinition>)
    requires
        registered.len() == 3,
        is_plain_command(registered[0], "trade"@, "Start a test trade"@),
        is_plain_command(registered[1], "initialize"@, "Initialize the game"@),
        is_reset_command(registered[2]),
    ensures
        command_kind(registered[0].name@) == Some(CommandKind::Trade),
        command_kind(registered[1].name@) == Some(CommandKind::Initialize),
        command_kind(registered[2].name@) == Some(CommandKind::Reset),
        forall|i: int| 0 <= i < registered.len() ==> #[trigger] command_kind(registered[i].name@) is Some,
{
    reveal_strlit("trade");
    reveal_strlit("initialize");
    reveal_strlit("reset");
    assert("initialize"@.len() != "trade"@.len());
    assert("reset"@[0] != "trade"@[0]);
    assert("reset"@.len() != "initialize"@.len());
    assert forall|i: int| 0 <= i < registered.len() implies #[trigger] command_kind(registered[i].name@) is Some by {
        if i == 0 {
        } else if i == 1 {
        } else {
        }
    }
}

/// The first answer to a slash command, before it runs.
pub fn command_acknowledgement() -> (s: String)
    ensures
        s@ == "Handling command..."@,
{
    String::from_str("Handling command...")
}

/// What to do about a pressed component.
#[derive(Debug)]
pub enum ComponentAction {
    /// The component carries nothing: say so.
    ReplyEmpty { reply: String },
    /// Queue the task and wait for it.
    RunTask { task: TaskType },
    /// Run the mechanic for the member who pressed the component.
    RunMechanic { mechanic: MechanicFunction },
    /// Nothing to do.
    Ignore,
}

/// What to do about a pressed component, from the data stored under its
/// custom id and whether it is a button: empty data is answered as such; the
/// data of a button is run (a task is queued, a mechanic is started); other
/// components are left alone.
pub fn component_action(data: Option<MessageData>, is_button: bool) -> (r: ComponentAction)
    ensures
        match data {
            None => r matches ComponentAction::ReplyEmpty { reply } && reply@
                == "That interaction is empty!"@,
            Some(MessageData::Task(t)) => if is_button {
                r == (ComponentAction::RunTask { task: t })
            } else {
                r == ComponentAction::Ignore
            },
            Some(MessageData::Function(m)) => if is_button {
                r == (ComponentAction::RunMechanic { mechanic: m })
            } else {
                r == ComponentAction::Ignore
            },
        },
{
    match data {
        None => ComponentAction::ReplyEmpty { reply: String::from_str("That interaction is empty!") },
        Some(MessageData::Task(t)) => {
            if is_button {
                ComponentAction::RunTask { task: t }
            } else {
                ComponentAction::Ignore
            }
        },
        Some(MessageData::Function(m)) => {
            if is_button {
                ComponentAction::RunMechanic { mechanic: m }
            } else {
                ComponentAction::Ignore
            }
        },
    }
}

/// What to start once the cache is ready.
#[derive(Clone, Copy, Debug, PartialEq, Eq, Structural)]
pub struct CacheReadyPlan {
    /// Start the loop that runs queued tasks.
    pub start_runner: bool,
    /// Start the bot's own tests.
    pub start_tests: bool,
    /// Whether the loop runs afterwards.
    pub loop_running: bool,
}

/// What to start once the cache is ready: the task loop, and the tests when
/// asked for, unless the loop already runs; either way the loop runs
/// afterwards.
pub fn cache_ready(is_loop_running: bool, run_tests: bool) -> (r: CacheReadyPlan)
    ensures
        r.start_runner == !is_loop_running,
        r.start_tests == (!is_loop_running && run_tests),
        r.loop_running,
{
    if !is_loop_running {
        CacheReadyPlan { start_runner: true, start_tests: run_tests, loop_running: true }
    } else {
        CacheReadyPlan { start_runner: false, start_tests: false, loop_running: true }
    }
}

} // verus!
