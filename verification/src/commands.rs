//! The slash commands of the bot: how each is registered and what it does.
use vstd::prelude::*;

use crate::ids::{decimal_digits, decimal_string, DiscordId};
use crate::mechanics::menu::{MenuJobs, MenuMechanicsHandler};
use crate::mechanics::team::{TeamJobs, TeamMechanicsHandler};
use crate::mechanics::MechanicFunction;
use crate::tasks::{category_create_task, channel_delete_task, is_category_create_task, is_channel_delete_task, TaskType};

verus! {

/// The kind of value that a command option takes.
#[derive(Clone, Copy, Debug, PartialEq, Eq, Structural)]
pub enum CommandOptionKind {
    String,
    Integer,
    Boolean,
}

/// An option of a slash command.
#[derive(Clone, Debug)]
pub struct CommandOption {
    pub kind: CommandOptionKind,
    pub name: String,
    pub description: String,
}

/// How a slash command is registered with Discord.
#[derive(Clone, Debug)]
pub struct CommandDefinition {
    pub name: String,
    pub description: String,
    pub options: Vec<CommandOption>,
}

/// Whether `c` is a command named `name` described by `description`, with no
/// options.
pub open spec fn is_plain_command(c: CommandDefinition, name: Seq<char>, description: Seq<char>) -> bool {
    c.name@ == name && c.description@ == description && c.options@.len() == 0
}

/// A command with no options.
fn plain_command(name: &str, description: &str) -> (c: CommandDefinition)
    ensures
        is_plain_command(c, name@, description@),
{
    CommandDefinition {
        name: String::from_str(name),
        description: String::from_str(description),
        options: Vec::new(),
    }
}

/// The guild in which `trade` makes its test category.
pub const TEST_GUILD_ID: u64 = 345993194322001923;

/// The `trade` command: it makes a test category.
pub struct FakeTrade;

impl FakeTrade {
    pub fn register() -> (c: CommandDefinition)
        ensures
            is_plain_command(c, "trade"@, "Start a test trade"@),
    {
        plain_command("trade", "Start a test trade")
    }

    /// The task that `trade` queues, and its reply.
    pub fn run() -> (r: (TaskType, String))
        ensures
            is_category_create_task(r.0, DiscordId(TEST_GUILD_ID), "test"@),
            r.1@ == "Hey, I'm alive!"@,
    {
        (
            category_create_task(DiscordId(TEST_GUILD_ID), String::from_str("test")),
            String::from_str("Hey, I'm alive!"),
        )
    }
}

/// The names of the three teams of a new game, before their suffix.
pub open spec fn team_bases() -> Seq<Seq<char>> {
    seq!["Airship"@, "Galleon"@, "Submarine"@]
}

/// The name of a team of a new game: its base, a hyphen and a number.
pub open spec fn team_name_text(base: Seq<char>, suffix: u16) -> Seq<char> {
    base + "-"@ + decimal_digits(suffix as nat)
}

/// What `initialize` does: the names of the three teams, the random numbers
/// that tell them apart, the mechanics to run in order (the making of each
/// team, then the team change menu), and the reply.
#[derive(Debug)]
pub struct InitializePlan {
    pub suffixes: Vec<u16>,
    pub team_names: Vec<String>,
    pub mechanics: Vec<MechanicFunction>,
    pub reply: String,
}

/// Whether `m` makes the team named `name` in a guild.
pub open spec fn is_create_team_mechanic(m: MechanicFunction, guild: DiscordId, name: Seq<char>) -> bool {
    match m {
        MechanicFunction::Team(h) => h.guild_id == guild && match h.task {
            TeamJobs::CreateTeam { name: n } => n@ == name,
            _ => false,
        },
        _ => false,
    }
}

/// Whether `m` posts the team change menu of a guild for the teams named
/// `names`.
pub open spec fn is_team_change_mechanic(
    m: MechanicFunction,
    guild: DiscordId,
    names: Seq<String>,
) -> bool {
    match m {
        MechanicFunction::Menu(h) => h.guild_id == guild && match h.task {
            MenuJobs::RoleChangeMenu { team_names } => team_names@.len() == names.len() && forall|
                i: int,
            |
                0 <= i < names.len() ==> #[trigger] team_names@[i]@ == names[i]@,
            _ => false,
        },
        _ => false,
    }
}

/// Whether `p` is the plan of `initialize` in a guild for the numbers it drew.
pub open spec fn is_initialize_plan(p: InitializePlan, guild: DiscordId) -> bool {
    &&& p.suffixes@.len() == 3
    &&& p.team_names@.len() == 3
    &&& forall|i: int|
        0 <= i < 3 ==> #[trigger] p.team_names@[i]@ == team_name_text(
            team_bases()[i],
            p.suffixes@[i],
        )
    &&& p.mechanics@.len() == 4
    &&& forall|i: int|
        0 <= i < 3 ==> #[trigger] is_create_team_mechanic(p.mechanics@[i], guild, p.team_names@[i]@)
    &&& is_team_change_mechanic(p.mechanics@[3], guild, p.team_names@)
    &&& p.reply@ == "Made a team!"@
}

/// `rand::random::<u16>`: any number may come back.
#[verifier::external_body]
fn random_u16() -> (n: u16) {
    rand::random::<u16>()
}

/// The name of a team of a new game.
fn team_name(base: &str, suffix: u16) -> (s: String)
    ensures
        s@ == team_name_text(base@, suffix),
{
    let mut s = String::from_str(base);
    s.append("-");
    let digits = decimal_string(suffix as u64);
    s.append(digits.as_str());
    s
}

/// The `initialize` command: it makes three teams and the menu to change
/// team.
pub struct InitializeGame;

impl InitializeGame {
    pub fn register() -> (c: CommandDefinition)
        ensures
            is_plain_command(c, "initialize"@, "Initialize the game"@),
    {
        plain_command("initialize", "Initialize the game")
    }

    /// The plan of `initialize` for the given numbers, one per team.
    pub fn plan(guild: DiscordId, suffixes: Vec<u16>) -> (p: InitializePlan)
        requires
            suffixes@.len() == 3,
        ensures
            is_initialize_plan(p, guild),
            p.suffixes@ == suffixes@,
    {
        let mut names: Vec<String> = Vec::new();
        names.push(team_name("Airship", suffixes[0]));
        names.push(team_name("Galleon", suffixes[1]));
        names.push(team_name("Submarine", suffixes[2]));
        let mut mechanics: Vec<MechanicFunction> = Vec::new();
        let mut i: usize = 0;
        while i < 3
            invariant
                0 <= i <= 3,
                names@.len() == 3,
                mechanics@.len() == i,
                forall|j: int|
                    0 <= j < i ==> #[trigger] is_create_team_mechanic(
                        mechanics@[j],
                        guild,
                        names@[j]@,
                    ),
            decreases 3 - i,
        {
            mechanics.push(
                MechanicFunction::Team(
                    TeamMechanicsHandler {
                        guild_id: guild,
                        task: TeamJobs::CreateTeam { name: names[i].clone() },
                    },
                ),
            );
            i = i + 1;
        }
        let mut menu_names: Vec<String> = Vec::new();
        menu_names.push(names[0].clone());
        menu_names.push(names[1].clone());
        menu_names.push(names[2].clone());
        mechanics.push(
            MechanicFunction::Menu(
                MenuMechanicsHandler {
                    guild_id: guild,
                    task: MenuJobs::RoleChangeMenu { team_names: menu_names },
                },
            ),
        );
        let p = InitializePlan {
            suffixes,
            team_names: names,
            mechanics,
            reply: String::from_str("Made a team!"),
        };
        assert forall|i: int| 0 <= i < 3 implies #[trigger] p.team_names@[i]@ == team_name_text(
            team_bases()[i],
            p.suffixes@[i],
        ) by {
            if i == 0 {
            } else if i == 1 {
            } else {
            }
        }
        p
    }

    /// Runs `initialize`: draws a random number for each team, and gives the
    /// plan for those numbers.
    pub fn run(guild: DiscordId) -> (p: InitializePlan)
        ensures
            is_initialize_plan(p, guild),
    {
        let mut suffixes: Vec<u16> = Vec::new();
        suffixes.push(random_u16());
        suffixes.push(random_u16());
        suffixes.push(random_u16());
        InitializeGame::plan(guild, suffixes)
    }
}

/// Whether `c` is the `reset` command, with its `password` option.
pub open spec fn is_reset_command(c: CommandDefinition) -> bool {
    &&& c.name@ == "reset"@
    &&& c.description@ == "Nuke the server"@
    &&& c.options@.len() == 1
    &&& c.options@[0].kind == CommandOptionKind::String
    &&& c.options@[0].name@ == "password"@
    &&& c.options@[0].description@ == "Confirm that you want to nuke the server"@
}

/// The `reset` command: it deletes every channel of the guild.
pub struct Nuke;

impl Nuke {
    /// `reset`, with a `password` option to confirm it.
    pub fn register() -> (c: CommandDefinition)
        ensures
            is_reset_command(c),
    {
        let mut options: Vec<CommandOption> = Vec::new();
        options.push(
            CommandOption {
                kind: CommandOptionKind::String,
                name: String::from_str("password"),
                description: String::from_str("Confirm that you want to nuke the server"),
            },
        );
        CommandDefinition {
            name: String::from_str("reset"),
            description: String::from_str("Nuke the server"),
            options,
        }
    }

    /// The tasks that `reset` queues, one deletion per channel of the guild,
    /// in the order of the channels, and its reply once they are done.
    pub fn run(guild: DiscordId, channels: &Vec<DiscordId>) -> (r: (Vec<TaskType>, String))
        ensures
            r.0@.len() == channels@.len(),
            forall|i: int|
                0 <= i < channels@.len() ==> #[trigger] is_channel_delete_task(
                    r.0@[i],
                    guild,
                    channels@[i],
                ),
            r.1@ == "Nuked the server!"@,
    {
        let mut tasks: Vec<TaskType> = Vec::new();
        let mut i: usize = 0;
        while i < channels.len()
            invariant
                i <= channels@.len(),
                tasks@.len() == i,
                forall|j: int|
                    0 <= j < i ==> #[trigger] is_channel_delete_task(tasks@[j], guild, channels@[j]),
            decreases channels.len() - i,
        {
            tasks.push(channel_delete_task(guild, channels[i]));
            i = i + 1;
        }
        (tasks, String::from_str("Nuked the server!"))
    }
}

/// The commands that the bot registers in each guild.
pub fn all_commands() -> (r: Vec<CommandDefinition>)
    ensures
        r@.len() == 3,
        is_plain_command(r@[0], "trade"@, "Start a test trade"@),
        is_plain_command(r@[1], "initialize"@, "Initialize the game"@),
        is_reset_command(r@[2]),
{
    let mut r: Vec<CommandDefinition> = Vec::new();
    r.push(FakeTrade::register());
    r.push(InitializeGame::register());
    r.push(Nuke::register());
    r
}

} // verus!
