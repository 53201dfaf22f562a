//! Single-purpose task payloads: making a category, a channel, a dropdown, a
//! message or a role, and the flow that makes a category and records it.
use vstd::prelude::*;

use crate::components::{ButtonSpec, ButtonStyle, SelectMenuSpec, SelectOption};
use crate::ids::DiscordId;
use crate::runner::{category_request, ChannelRequest, PermissionOverwrite, SEND_TTS_MESSAGES, VIEW_CHANNEL};
use crate::tasks::ChannelKind;

verus! {

/// Whose category is to be made: a team's, or a public one.
#[derive(Clone, Copy, Debug, PartialEq, Eq, Structural)]
pub enum CreateCategoryKind {
    Team { team_id: u64 },
    Public,
}

/// Make a category named `category_name` in a guild.
#[derive(Clone, Debug)]
pub struct CreateCategory {
    pub guild_id: u64,
    pub category_name: String,
    pub kind: CreateCategoryKind,
}

/// A team as the category task reads and writes it.
#[derive(Clone, Debug)]
pub struct CategoryTeamRow {
    pub id: i32,
    pub name: String,
    pub category_id: Option<i32>,
}

/// A guild as the category task reads and writes it.
#[derive(Clone, Copy, Debug, PartialEq, Eq, Structural)]
pub struct CategoryGuildRow {
    pub id: i32,
    pub discord_id: i32,
}

/// A category as the category task reads and writes it.
#[derive(Clone, Debug)]
pub struct CategoryRow {
    pub id: i32,
    pub name: String,
    pub discord_id: i32,
    pub guild_id: Option<i32>,
}

/// Why the category task stopped.
#[derive(Clone, Copy, Debug, PartialEq, Eq, Structural)]
pub enum CategoryTaskFailure {
    /// The guild is not in the cache, or has no `@everyone` role.
    EveryoneRoleMissing,
    TeamNotFound,
    CategoryNotCreated,
    GuildNotStored,
    CategoryNotStored,
    /// The event does not answer the action that the task is waiting on.
    UnexpectedEvent,
}

/// The next piece of outside work of the category task.
#[derive(Debug)]
pub enum CategoryTaskAction {
    /// Find the `@everyone` role of the guild in the cache; answered by
    /// `EveryoneRole`.
    FindEveryoneRole { guild_id: u64 },
    /// Find a team by its id; answered by `Team`.
    FindTeam { id: i32 },
    /// Make the category on Discord; answered by `CategoryMade`.
    MakeCategory { guild_id: u64, request: ChannelRequest },
    /// Find a guild by its Discord id; answered by `Guild`.
    FindGuild { discord_id: i32 },
    /// Add a guild with this Discord id; answered by `Guild`.
    InsertGuild { discord_id: i32 },
    /// Find a category by its Discord id; answered by `Category`.
    FindCategory { discord_id: i32 },
    /// Add a category; answered by `Category`.
    InsertCategory { name: String, discord_id: i32, guild_id: Option<i32> },
    /// Write the team back; answered by `Stored`.
    UpdateTeam { team: CategoryTeamRow },
    /// The task cannot go on.
    Fail { reason: CategoryTaskFailure },
    /// The task has finished.
    Done,
}

/// What came of a piece of outside work of the category task. A lookup that
/// found nothing, or a write or a Discord request that failed, is `None`.
#[derive(Debug)]
pub enum CategoryTaskEvent {
    EveryoneRole(Option<DiscordId>),
    Team(Option<CategoryTeamRow>),
    CategoryMade(Option<DiscordId>),
    Guild(Option<CategoryGuildRow>),
    Category(Option<CategoryRow>),
    Stored,
}

/// Where the category task stands.
#[derive(Clone, Debug)]
pub enum CategoryTaskStage {
    AwaitEveryoneRole,
    AwaitTeamName { everyone_role: DiscordId },
    AwaitCategory,
    AwaitTeam { category: DiscordId },
    AwaitGuild { category: DiscordId, team: CategoryTeamRow },
    AwaitGuildInsert { category: DiscordId, team: CategoryTeamRow },
    AwaitCategoryRow { category: DiscordId, team: CategoryTeamRow, guild_row: i32 },
    AwaitCategoryInsert { team: CategoryTeamRow },
    AwaitTeamUpdate,
    Finished,
    Failed,
}

/// The category task under way.
#[derive(Debug)]
pub struct CreateCategoryFlow {
    pub task: CreateCategory,
    pub stage: CategoryTaskStage,
}

/// Whether `a` asks to make, in `guild_id`, a category named `name` that
/// everyone may see and where no one may send text-to-speech messages.
pub open spec fn is_make_category(a: CategoryTaskAction, guild_id: u64, name: Seq<char>, everyone_role: DiscordId) -> bool {
    &&& a matches CategoryTaskAction::MakeCategory { guild_id: g, request }
    &&& g == guild_id
    &&& request.name@ == name
    &&& request.kind == ChannelKind::Category
    &&& request.category is None
    &&& request.permissions@ == seq![
        PermissionOverwrite { allow: VIEW_CHANNEL, deny: SEND_TTS_MESSAGES, role: everyone_role },
    ]
}

/// The team after it was found again: named after the category.
pub open spec fn renamed_team(t: CategoryTeamRow, name: String) -> CategoryTeamRow {
    CategoryTeamRow { name, ..t }
}

/// The team pointing at its category.
pub open spec fn team_with_category(t: CategoryTeamRow, category_id: i32) -> CategoryTeamRow {
    CategoryTeamRow { category_id: Some(category_id), ..t }
}

/// One step of the category task: from `f`, on the answer `e`, to `g`, asking
/// for `a`. A team category is named after the team's row; once made, the
/// team is named after the category and pointed at the category's row, the
/// guild's and the category's rows being added where they are missing. A
/// public category is only made. Ids go to the database cut to `i32`.
pub open spec fn create_category_step(
    f: CreateCategoryFlow,
    e: CategoryTaskEvent,
    g: CreateCategoryFlow,
    a: CategoryTaskAction,
) -> bool {
    let t = f.task;
    let unexpected = CategoryTaskAction::Fail { reason: CategoryTaskFailure::UnexpectedEvent };
    &&& g.task == t
    &&& match f.stage {
        CategoryTaskStage::AwaitEveryoneRole => match e {
            CategoryTaskEvent::EveryoneRole(Some(role)) => match t.kind {
                CreateCategoryKind::Team { team_id } => g.stage == (CategoryTaskStage::AwaitTeamName {
                    everyone_role: role,
                }) && a == (CategoryTaskAction::FindTeam { id: team_id as i32 }),
                CreateCategoryKind::Public => g.stage == CategoryTaskStage::AwaitCategory
                    && is_make_category(a, t.guild_id, t.category_name@, role),
            },
            CategoryTaskEvent::EveryoneRole(None) => g.stage == CategoryTaskStage::Failed && a == (
            CategoryTaskAction::Fail { reason: CategoryTaskFailure::EveryoneRoleMissing }),
            _ => g.stage == CategoryTaskStage::Failed && a == unexpected,
        },
        CategoryTaskStage::AwaitTeamName { everyone_role } => match e {
            CategoryTaskEvent::Team(Some(team)) => g.stage == CategoryTaskStage::AwaitCategory
                && is_make_category(a, t.guild_id, team.name@, everyone_role),
            CategoryTaskEvent::Team(None) => g.stage == CategoryTaskStage::Failed && a == (
            CategoryTaskAction::Fail { reason: CategoryTaskFailure::TeamNotFound }),
            _ => g.stage == CategoryTaskStage::Failed && a == unexpected,
        },
        CategoryTaskStage::AwaitCategory => match e {
            CategoryTaskEvent::CategoryMade(Some(category)) => match t.kind {
                CreateCategoryKind::Team { team_id } => g.stage == (CategoryTaskStage::AwaitTeam {
                    category,
                }) && a == (CategoryTaskAction::FindTeam { id: team_id as i32 }),
                CreateCategoryKind::Public => g.stage == CategoryTaskStage::Finished && a
                    == CategoryTaskAction::Done,
            },
            CategoryTaskEvent::CategoryMade(None) => g.stage == CategoryTaskStage::Failed && a == (
            CategoryTaskAction::Fail { reason: CategoryTaskFailure::CategoryNotCreated }),
            _ => g.stage == CategoryTaskStage::Failed && a == unexpected,
        },
        CategoryTaskStage::AwaitTeam { category } => match e {
            CategoryTaskEvent::Team(Some(team)) => g.stage == (CategoryTaskStage::AwaitGuild {
                category,
                team: renamed_team(team, t.category_name),
            }) && a == (CategoryTaskAction::FindGuild { discord_id: t.guild_id as i32 }),
            CategoryTaskEvent::Team(None) => g.stage == CategoryTaskStage::Failed && a == (
            CategoryTaskAction::Fail { reason: CategoryTaskFailure::TeamNotFound }),
            _ => g.stage == CategoryTaskStage::Failed && a == unexpected,
        },
        CategoryTaskStage::AwaitGuild { category, team } => match e {
            CategoryTaskEvent::Guild(Some(row)) => g.stage == (CategoryTaskStage::AwaitCategoryRow {
                category,
                team,
                guild_row: row.id,
            }) && a == (CategoryTaskAction::FindCategory { discord_id: category.0 as i32 }),
            CategoryTaskEvent::Guild(None) => g.stage == (CategoryTaskStage::AwaitGuildInsert {
                category,
                team,
            }) && a == (CategoryTaskAction::InsertGuild { discord_id: t.guild_id as i32 }),
            _ => g.stage == CategoryTaskStage::Failed && a == unexpected,
        },
        CategoryTaskStage::AwaitGuildInsert { category, team } => match e {
            CategoryTaskEvent::Guild(Some(row)) => g.stage == (CategoryTaskStage::AwaitCategoryRow {
                category,
                team,
                guild_row: row.id,
            }) && a == (CategoryTaskAction::FindCategory { discord_id: category.0 as i32 }),
            CategoryTaskEvent::Guild(None) => g.stage == CategoryTaskStage::Failed && a == (
            CategoryTaskAction::Fail { reason: CategoryTaskFailure::GuildNotStored }),
            _ => g.stage == CategoryTaskStage::Failed && a == unexpected,
        },
        CategoryTaskStage::AwaitCategoryRow { category, team, guild_row } => match e {
            CategoryTaskEvent::Category(Some(c)) => g.stage == CategoryTaskStage::AwaitTeamUpdate
                && a == (CategoryTaskAction::UpdateTeam { team: team_with_category(team, c.id) }),
            CategoryTaskEvent::Category(None) => g.stage == (CategoryTaskStage::AwaitCategoryInsert {
                team,
            }) && a == (CategoryTaskAction::InsertCategory {
                name: t.category_name,
                discord_id: category.0 as i32,
                guild_id: Some(guild_row),
            }),
            _ => g.stage == CategoryTaskStage::Failed && a == unexpected,
        },
        CategoryTaskStage::AwaitCategoryInsert { team } => match e {
            CategoryTaskEvent::Category(Some(c)) => g.stage == CategoryTaskStage::AwaitTeamUpdate
                && a == (CategoryTaskAction::UpdateTeam { team: team_with_category(team, c.id) }),
            CategoryTaskEvent::Category(None) => g.stage == CategoryTaskStage::Failed && a == (
            CategoryTaskAction::Fail { reason: CategoryTaskFailure::CategoryNotStored }),
            _ => g.stage == CategoryTaskStage::Failed && a == unexpected,
        },
        CategoryTaskStage::AwaitTeamUpdate => match e {
            CategoryTaskEvent::Stored => g.stage == CategoryTaskStage::Finished && a
                == CategoryTaskAction::Done,
            _ => g.stage == CategoryTaskStage::Failed && a == unexpected,
        },
        CategoryTaskStage::Finished => g.stage == CategoryTaskStage::Finished && a
            == CategoryTaskAction::Done,
        CategoryTaskStage::Failed => g.stage == CategoryTaskStage::Failed && a == unexpected,
    }
}

/// What holds of the category task at every stage: only a team's task goes
/// past making the category, and the team it carries is named after the
/// category.
pub open spec fn category_flow_inv(f: CreateCategoryFlow) -> bool {
    let name = f.task.category_name;
    match f.stage {
        CategoryTaskStage::AwaitTeamName { .. } => f.task.kind is Team,
        CategoryTaskStage::AwaitTeam { .. } => f.task.kind is Team,
        CategoryTaskStage::AwaitGuild { team, .. } => f.task.kind is Team && team.name == name,
        CategoryTaskStage::AwaitGuildInsert { team, .. } => f.task.kind is Team && team.name == name,
        CategoryTaskStage::AwaitCategoryRow { team, .. } => f.task.kind is Team && team.name == name,
        CategoryTaskStage::AwaitCategoryInsert { team } => f.task.kind is Team && team.name == name,
        CategoryTaskStage::AwaitTeamUpdate => f.task.kind is Team,
        _ => true,
    }
}

/// Whether the action writes to or reads from the database's guilds,
/// categories or teams after the category was made.
pub open spec fn is_record_action(a: CategoryTaskAction) -> bool {
    ||| a is FindGuild
    ||| a is InsertGuild
    ||| a is FindCategory
    ||| a is InsertCategory
    ||| a is UpdateTeam
}

/// Whatever the outside work answers, every step of the category task keeps
/// `category_flow_inv`; the team it writes back is named after the category
/// and points at a category row; and a public category is never recorded.
pub proof fn lemma_category_task_records_team(
    f: CreateCategoryFlow,
    e: CategoryTaskEvent,
    g: CreateCategoryFlow,
    a: CategoryTaskAction,
)
    requires
        category_flow_inv(f),
        create_category_step(f, e, g, a),
    ensures
        category_flow_inv(g),
        a matches CategoryTaskAction::UpdateTeam { team } ==> team.name == f.task.category_name
            && team.category_id is Some && f.task.kind is Team,
        f.task.kind is Public ==> !is_record_action(a),
{
}

/// The category row of a team's category points at the guild's row and
/// records the category that was made: from the stage where the category
/// was made, once the team is found again, the guild's row is found (or,
/// missing, added), and no category row exists yet, the row added has the
/// task's name, the made category's Discord id (cut to `i32`) and, as its
/// guild, `Some` of the id of the guild row that was answered; once added,
/// the team is written back under the task's name, pointing at that row.
pub proof fn lemma_category_row_points_at_guild_row(
    f: Seq<CreateCategoryFlow>,
    a: Seq<CategoryTaskAction>,
    e: Seq<CategoryTaskEvent>,
    category: DiscordId,
    team: CategoryTeamRow,
    guild_found: bool,
    guild_row: CategoryGuildRow,
    new_category: CategoryRow,
)
    requires
        f.len() == e.len() + 1,
        a.len() == f.len(),
        f[0].stage == CategoryTaskStage::AwaitCategory,
        f[0].task.kind is Team,
        e.len() == (if guild_found { 5int } else { 6int }),
        e[0] == CategoryTaskEvent::CategoryMade(Some(category)),
        e[1] == CategoryTaskEvent::Team(Some(team)),
        guild_found ==> e[2] == CategoryTaskEvent::Guild(Some(guild_row)),
        !guild_found ==> e[2] == CategoryTaskEvent::Guild(None) && e[3]
            == CategoryTaskEvent::Guild(Some(guild_row)),
        e[e.len() - 2] == CategoryTaskEvent::Category(None),
        e[e.len() - 1] == CategoryTaskEvent::Category(Some(new_category)),
        forall|i: int| #![trigger e[i]] 0 <= i < e.len() ==> create_category_step(f[i], e[i], f[i + 1], a[i + 1]),
    ensures
        !guild_found ==> a[3] == (CategoryTaskAction::InsertGuild { discord_id: f[0].task.guild_id as i32 }),
        a[e.len() - 1] matches CategoryTaskAction::InsertCategory { name, discord_id, guild_id }
            && name == f[0].task.category_name && discord_id == category.0 as i32 && guild_id
            == Some(guild_row.id),
        a[e.len() as int] matches CategoryTaskAction::UpdateTeam { team: written } && written.id
            == team.id && written.name == f[0].task.category_name && written.category_id == Some(
            new_category.id,
        ),
{
    let n = e.len() as int;
    let _e0 = e[0];
    let _e1 = e[1];
    let _e2 = e[2];
    let _e3 = e[3];
    let _e4 = e[4];
    if !guild_found {
        let _e5 = e[5];
    }
    assert(f[1].task == f[0].task);
    assert(f[2].task == f[0].task);
    assert(f[3].task == f[0].task);
    assert(f[4].task == f[0].task);
    assert(f[5].task == f[0].task);
}

impl CreateCategory {
    /// Starts the task: the guild's `@everyone` role is looked up first.
    pub fn handle(self) -> (r: (CreateCategoryFlow, CategoryTaskAction))
        ensures
            r.0.task == self,
            r.0.stage == CategoryTaskStage::AwaitEveryoneRole,
            category_flow_inv(r.0),
            r.1 == (CategoryTaskAction::FindEveryoneRole { guild_id: self.guild_id }),
    {
        let guild_id = self.guild_id;
        (
            CreateCategoryFlow { task: self, stage: CategoryTaskStage::AwaitEveryoneRole },
            CategoryTaskAction::FindEveryoneRole { guild_id },
        )
    }
}

impl CreateCategoryFlow {
    /// Takes the answer to the last piece of work and names the next one.
    pub fn resume(self, e: CategoryTaskEvent) -> (r: (CreateCategoryFlow, CategoryTaskAction))
        ensures
            create_category_step(self, e, r.0, r.1),
    {
        let unexpected = CategoryTaskAction::Fail { reason: CategoryTaskFailure::UnexpectedEvent };
        let t = self.task;
        match self.stage {
            CategoryTaskStage::AwaitEveryoneRole => match e {
                CategoryTaskEvent::EveryoneRole(Some(role)) => match t.kind {
                    CreateCategoryKind::Team { team_id } => {
                        let id = team_id as i32;
                        (
                            CreateCategoryFlow {
                                task: t,
                                stage: CategoryTaskStage::AwaitTeamName { everyone_role: role },
                            },
                            CategoryTaskAction::FindTeam { id },
                        )
                    },
                    CreateCategoryKind::Public => {
                        let guild_id = t.guild_id;
                        let request = category_request(t.category_name.clone(), role);
                        (
                            CreateCategoryFlow { task: t, stage: CategoryTaskStage::AwaitCategory },
                            CategoryTaskAction::MakeCategory { guild_id, request },
                        )
                    },
                },
                CategoryTaskEvent::EveryoneRole(None) => (
                    CreateCategoryFlow { task: t, stage: CategoryTaskStage::Failed },
                    CategoryTaskAction::Fail { reason: CategoryTaskFailure::EveryoneRoleMissing },
                ),
                _ => (CreateCategoryFlow { task: t, stage: CategoryTaskStage::Failed }, unexpected),
            },
            CategoryTaskStage::AwaitTeamName { everyone_role } => match e {
                CategoryTaskEvent::Team(Some(team)) => {
                    let guild_id = t.guild_id;
                    let request = category_request(team.name, everyone_role);
                    (
                        CreateCategoryFlow { task: t, stage: CategoryTaskStage::AwaitCategory },
                        CategoryTaskAction::MakeCategory { guild_id, request },
                    )
                },
                CategoryTaskEvent::Team(None) => (
                    CreateCategoryFlow { task: t, stage: CategoryTaskStage::Failed },
                    CategoryTaskAction::Fail { reason: CategoryTaskFailure::TeamNotFound },
                ),
                _ => (CreateCategoryFlow { task: t, stage: CategoryTaskStage::Failed }, unexpected),
            },
            CategoryTaskStage::AwaitCategory => match e {
                CategoryTaskEvent::CategoryMade(Some(category)) => match t.kind {
                    CreateCategoryKind::Team { team_id } => {
                        let id = team_id as i32;
                        (
                            CreateCategoryFlow { task: t, stage: CategoryTaskStage::AwaitTeam { category } },
                            CategoryTaskAction::FindTeam { id },
                        )
                    },
                    CreateCategoryKind::Public => (
                        CreateCategoryFlow { task: t, stage: CategoryTaskStage::Finished },
                        CategoryTaskAction::Done,
                    ),
                },
                CategoryTaskEvent::CategoryMade(None) => (
                    CreateCategoryFlow { task: t, stage: CategoryTaskStage::Failed },
                    CategoryTaskAction::Fail { reason: CategoryTaskFailure::CategoryNotCreated },
                ),
                _ => (CreateCategoryFlow { task: t, stage: CategoryTaskStage::Failed }, unexpected),
            },
            CategoryTaskStage::AwaitTeam { category } => match e {
                CategoryTaskEvent::Team(Some(team)) => {
                    let discord_id = t.guild_id as i32;
                    let team = CategoryTeamRow { name: t.category_name.clone(), ..team };
                    (
                        CreateCategoryFlow {
                            task: t,
                            stage: CategoryTaskStage::AwaitGuild { category, team },
                        },
                        CategoryTaskAction::FindGuild { discord_id },
                    )
                },
                CategoryTaskEvent::Team(None) => (
                    CreateCategoryFlow { task: t, stage: CategoryTaskStage::Failed },
                    CategoryTaskAction::Fail { reason: CategoryTaskFailure::TeamNotFound },
                ),
                _ => (CreateCategoryFlow { task: t, stage: CategoryTaskStage::Failed }, unexpected),
            },
            CategoryTaskStage::AwaitGuild { category, team } => match e {
                CategoryTaskEvent::Guild(Some(row)) => {
                    let discord_id = category.0 as i32;
                    (
                        CreateCategoryFlow {
                            task: t,
                            stage: CategoryTaskStage::AwaitCategoryRow { category, team, guild_row: row.id },
                        },
                        CategoryTaskAction::FindCategory { discord_id },
                    )
                },
                CategoryTaskEvent::Guild(None) => {
                    let discord_id = t.guild_id as i32;
                    (
                        CreateCategoryFlow {
                            task: t,
                            stage: CategoryTaskStage::AwaitGuildInsert { category, team },
                        },
                        CategoryTaskAction::InsertGuild { discord_id },
                    )
                },
                _ => (CreateCategoryFlow { task: t, stage: CategoryTaskStage::Failed }, unexpected),
            },
            CategoryTaskStage::AwaitGuildInsert { category, team } => match e {
                CategoryTaskEvent::Guild(Some(row)) => {
                    let discord_id = category.0 as i32;
                    (
                        CreateCategoryFlow {
                            task: t,
                            stage: CategoryTaskStage::AwaitCategoryRow { category, team, guild_row: row.id },
                        },
                        CategoryTaskAction::FindCategory { discord_id },
                    )
                },
                CategoryTaskEvent::Guild(None) => (
                    CreateCategoryFlow { task: t, stage: CategoryTaskStage::Failed },
                    CategoryTaskAction::Fail { reason: CategoryTaskFailure::GuildNotStored },
                ),
                _ => (CreateCategoryFlow { task: t, stage: CategoryTaskStage::Failed }, unexpected),
            },
            CategoryTaskStage::AwaitCategoryRow { category, team, guild_row } => match e {
                CategoryTaskEvent::Category(Some(c)) => {
                    let team = CategoryTeamRow { category_id: Some(c.id), ..team };
                    (
                        CreateCategoryFlow { task: t, stage: CategoryTaskStage::AwaitTeamUpdate },
                        CategoryTaskAction::UpdateTeam { team },
                    )
                },
                CategoryTaskEvent::Category(None) => {
                    let name = t.category_name.clone();
                    let discord_id = category.0 as i32;
                    (
                        CreateCategoryFlow {
                            task: t,
                            stage: CategoryTaskStage::AwaitCategoryInsert { team },
                        },
                        CategoryTaskAction::InsertCategory { name, discord_id, guild_id: Some(guild_row) },
                    )
                },
                _ => (CreateCategoryFlow { task: t, stage: CategoryTaskStage::Failed }, unexpected),
            },
            CategoryTaskStage::AwaitCategoryInsert { team } => match e {
                CategoryTaskEvent::Category(Some(c)) => {
                    let team = CategoryTeamRow { category_id: Some(c.id), ..team };
                    (
                        CreateCategoryFlow { task: t, stage: CategoryTaskStage::AwaitTeamUpdate },
                        CategoryTaskAction::UpdateTeam { team },
                    )
                },
                CategoryTaskEvent::Category(None) => (
                    CreateCategoryFlow { task: t, stage: CategoryTaskStage::Failed },
                    CategoryTaskAction::Fail { reason: CategoryTaskFailure::CategoryNotStored },
                ),
                _ => (CreateCategoryFlow { task: t, stage: CategoryTaskStage::Failed }, unexpected),
            },
            CategoryTaskStage::AwaitTeamUpdate => match e {
                CategoryTaskEvent::Stored => (
                    CreateCategoryFlow { task: t, stage: CategoryTaskStage::Finished },
                    CategoryTaskAction::Done,
                ),
                _ => (CreateCategoryFlow { task: t, stage: CategoryTaskStage::Failed }, unexpected),
            },
            CategoryTaskStage::Finished => (
                CreateCategoryFlow { task: t, stage: CategoryTaskStage::Finished },
                CategoryTaskAction::Done,
            ),
            CategoryTaskStage::Failed => (
                CreateCategoryFlow { task: t, stage: CategoryTaskStage::Failed },
                unexpected,
            ),
        }
    }
}

/// Make a channel in a category (it carries no data).
#[derive(Clone, Copy, Debug, PartialEq, Eq, Structural)]
pub struct CreateCategoryChannel {}

/// Make a channel named `channel_name` in a category of a guild.
#[derive(Clone, Debug)]
pub struct CreateChannel {
    pub guild_id: u64,
    pub category_id: u64,
    pub channel_name: String,
}

impl CreateChannel {
    /// The channel that the task makes: a text channel with the given name in
    /// the given category.
    pub fn handle(&self) -> (r: ChannelRequest)
        ensures
            r.name@ == self.channel_name@,
            r.kind == ChannelKind::Text,
            r.category == Some(DiscordId(self.category_id)),
            r.permissions@.len() == 0,
    {
        ChannelRequest {
            name: self.channel_name.clone(),
            kind: ChannelKind::Text,
            category: Some(DiscordId(self.category_id)),
            permissions: Vec::new(),
        }
    }
}

/// Send a message (it carries no data).
#[derive(Clone, Copy, Debug, PartialEq, Eq, Structural)]
pub struct CreateMessage {}

/// Make a role (it carries no data).
#[derive(Clone, Copy, Debug, PartialEq, Eq, Structural)]
pub struct CreateRole {}

/// A message task (it carries no data).
#[derive(Clone, Copy, Debug, PartialEq, Eq, Structural)]
pub struct Message {}

/// A row of components of a message: buttons, or a select menu alone.
#[derive(Clone, Debug)]
pub enum ActionRow {
    Buttons(Vec<ButtonSpec>),
    SelectMenu(SelectMenuSpec),
}

/// The animals of the animal select menu.
#[derive(Clone, Copy, Debug, PartialEq, Eq, Structural)]
pub enum Animal {
    Cat,
    Dog,
    Horse,
    Alpaca,
}

/// The name of an animal.
pub open spec fn animal_name(a: Animal) -> Seq<char> {
    match a {
        Animal::Cat => "Cat"@,
        Animal::Dog => "Dog"@,
        Animal::Horse => "Horse"@,
        Animal::Alpaca => "Alpaca"@,
    }
}

/// The value that the select menu reports for an animal: its name in lower
/// case.
pub open spec fn animal_value(a: Animal) -> Seq<char> {
    match a {
        Animal::Cat => "cat"@,
        Animal::Dog => "dog"@,
        Animal::Horse => "horse"@,
        Animal::Alpaca => "alpaca"@,
    }
}

/// The emoji of an animal.
pub open spec fn animal_emoji(a: Animal) -> Seq<char> {
    match a {
        Animal::Cat => "\u{1F408}"@,
        Animal::Dog => "\u{1F415}"@,
        Animal::Horse => "\u{1F40E}"@,
        Animal::Alpaca => "\u{1F999}"@,
    }
}

/// A dropdown to post in a channel.
#[derive(Clone, Debug)]
pub struct CreateDropdown {
    pub guild_id: u64,
    pub channel_id: u64,
    pub custom_id: String,
    pub options: Vec<SelectOption>,
}

/// The choices that the animal menu adds after those of the dropdown.
pub open spec fn animal_options() -> Seq<Animal> {
    seq![Animal::Cat, Animal::Dog, Animal::Horse, Animal::Alpaca]
}

/// Whether `o` is the choice of the animal menu for `a`.
pub open spec fn is_animal_option(o: SelectOption, a: Animal) -> bool {
    o.label@ == animal_emoji(a) + " "@ + animal_name(a) && o.value@ == animal_value(a)
}

/// Whether `m` is the animal select menu over the choices `own`: its custom
/// id is `animal_select`, its placeholder `No animal selected`, and its
/// choices are `own` followed by one per animal.
pub open spec fn is_animal_menu_of(m: SelectMenuSpec, own: Seq<SelectOption>) -> bool {
    &&& m.custom_id@ == "animal_select"@
    &&& m.placeholder is Some
    &&& m.placeholder->0@ == "No animal selected"@
    &&& m.options@.len() == own.len() + 4
    &&& forall|i: int| 0 <= i < own.len() ==> #[trigger] m.options@[i] == own[i]
    &&& forall|i: int|
        0 <= i < 4 ==> #[trigger] is_animal_option(m.options@[own.len() + i], animal_options()[i])
}

impl CreateDropdown {
    /// The choice of an animal: its emoji and name are shown, its name in
    /// lower case is reported.
    pub fn menu_option(animal: Animal) -> (o: SelectOption)
        ensures
            is_animal_option(o, animal),
    {
        let (emoji, name, value) = match animal {
            Animal::Cat => ("\u{1F408}", "Cat", "cat"),
            Animal::Dog => ("\u{1F415}", "Dog", "dog"),
            Animal::Horse => ("\u{1F40E}", "Horse", "horse"),
            Animal::Alpaca => ("\u{1F999}", "Alpaca", "alpaca"),
        };
        let mut label = String::from_str(emoji);
        label.append(" ");
        label.append(name);
        SelectOption { label, value: String::from_str(value) }
    }

    /// The animal select menu: the dropdown's own choices, then one per
    /// animal.
    pub fn select_menu(&self) -> (m: SelectMenuSpec)
        ensures
            is_animal_menu_of(m, self.options@),
    {
        let mut options: Vec<SelectOption> = Vec::new();
        let mut i: usize = 0;
        while i < self.options.len()
            invariant
                i <= self.options@.len(),
                options@.len() == i,
                forall|j: int| 0 <= j < i ==> #[trigger] options@[j] == self.options@[j],
            decreases self.options.len() - i,
        {
            let o = &self.options[i];
            options.push(SelectOption { label: o.label.clone(), value: o.value.clone() });
            i = i + 1;
        }
        let n = options.len();
        options.push(CreateDropdown::menu_option(Animal::Cat));
        options.push(CreateDropdown::menu_option(Animal::Dog));
        options.push(CreateDropdown::menu_option(Animal::Horse));
        options.push(CreateDropdown::menu_option(Animal::Alpaca));
        assert forall|i: int| 0 <= i < 4 implies #[trigger] is_animal_option(
            options@[n + i],
            animal_options()[i],
        ) by {
            if i == 0 {
            } else if i == 1 {
            } else if i == 2 {
            } else {
            }
        }
        SelectMenuSpec {
            custom_id: String::from_str("animal_select"),
            options,
            placeholder: Some(String::from_str("No animal selected")),
        }
    }

    /// The row that holds the animal select menu, alone.
    pub fn action_row(&self) -> (r: ActionRow)
        ensures
            r matches ActionRow::SelectMenu(m) && is_animal_menu_of(m, self.options@),
    {
        ActionRow::SelectMenu(self.select_menu())
    }

    /// The message that the dropdown task posts: a greeting and a row with a
    /// single button labelled `test1`.
    pub fn handle(&self) -> (r: (u64, String, ActionRow))
        ensures
            r.0 == self.channel_id,
            r.1@ == "Hello, world!"@,
            r.2 matches ActionRow::Buttons(b),
            r.2->Buttons_0@.len() == 1,
            r.2->Buttons_0@[0].custom_id@.len() == 0,
            r.2->Buttons_0@[0].label is Some,
            r.2->Buttons_0@[0].label->0@ == "test1"@,
            r.2->Buttons_0@[0].emoji is None,
            r.2->Buttons_0@[0].style == ButtonStyle::Primary,
            !r.2->Buttons_0@[0].disabled,
    {
        let mut buttons: Vec<ButtonSpec> = Vec::new();
        buttons.push(
            ButtonSpec {
                custom_id: String::new(),
                label: Some(String::from_str("test1")),
                emoji: None,
                style: ButtonStyle::Primary,
                disabled: false,
            },
        );
        (self.channel_id, String::from_str("Hello, world!"), ActionRow::Buttons(buttons))
    }
}

} // verus!
