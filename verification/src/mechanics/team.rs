//! Making a team: its database row, role, category, channel and menu.
use vstd::prelude::*;

use crate::components::{ButtonSpec, MessageComponent, MessageData};
use crate::ids::{DatabaseId, DiscordId};
use crate::mechanics::menu::{MenuJobs, MenuMechanicsHandler};
use crate::mechanics::{FailReason, GameAction, GameEvent, MechanicFunction};
use crate::messages::{
    animal_menu, is_animal_menu, is_menu_button, is_plain_message_task, menu_button,
    plain_message_task, welcome_message, welcome_text,
};
use crate::records::{CategoryRecord, ChannelRecord, GuildRecord, RoleRecord, TeamRecord};
use crate::results::{TaskResult, TaskReturnData};
use crate::tasks::{
    category_create_task, channel_create_task, is_category_create_task, is_channel_create_task,
    is_role_create_task, role_create_task, ChannelKind, MessageHandler, MessageTasks,
    SendChannelMessage, TaskType, TEAM_ROLE_COLOR,
};

verus! {

#[derive(Clone, Debug)]
pub struct TeamMechanicsHandler {
    pub guild_id: DiscordId,
    pub task: TeamJobs,
}

#[derive(Clone, Debug)]
pub enum TeamJobs {
    CreateTeam { name: String },
    AddPlayerToTeam,
    RemovePlayerFromTeam,
    DeleteTeam,
}

/// Where the making of a team stands: which answer it waits for, and what it
/// has learnt so far.
#[derive(Clone, Debug)]
pub enum CreateTeamStage {
    AwaitGuild,
    AwaitTeam,
    AwaitRole { team: TeamRecord },
    AwaitCategory { team: TeamRecord, role: DiscordId },
    AwaitChannel { team: TeamRecord, role: DiscordId },
    AwaitWelcome { team: TeamRecord, role: DiscordId, channel: DiscordId },
    AwaitMenu { team: TeamRecord },
    AwaitUpdate,
    Finished,
    Failed,
}

/// The making of a team named `name` in a guild.
#[derive(Clone, Debug)]
pub struct CreateTeamFlow {
    pub guild_id: DiscordId,
    pub name: String,
    pub stage: CreateTeamStage,
}

/// The menu item of a team channel's menu that carries `job`.
pub open spec fn menu_item(guild: DiscordId, job: MenuJobs) -> Option<MessageData> {
    Some(MessageData::Function(MechanicFunction::Menu(MenuMechanicsHandler { guild_id: guild, task: job })))
}

/// Whether `b` is a menu button with the given label and emoji that carries
/// `data`.
pub open spec fn is_menu_entry(
    b: MessageComponent<ButtonSpec>,
    label: Seq<char>,
    emoji: Seq<char>,
    data: Option<MessageData>,
) -> bool {
    is_menu_button(b.component, label, emoji) && *b.data == data
}

/// Whether `t` posts the menu of a team in the team's channel: the greeting
/// that pings the team's role, the animal menu, and the buttons Start Trade,
/// Open Comms, Update Bank and Join Team.
pub open spec fn is_team_menu_task(
    t: TaskType,
    guild: DiscordId,
    channel: DiscordId,
    role: DiscordId,
    team_id: i32,
) -> bool {
    match t {
        TaskType::MessageHandler(h) => {
            &&& h.guild_id == guild
            &&& match h.task {
                MessageTasks::SendChannelMessage(m) => {
                    &&& m.channel_id == channel
                    &&& m.message@ == welcome_text(role)
                    &&& m.select_menu is Some
                    &&& is_animal_menu(m.select_menu->0.component)
                    &&& *m.select_menu->0.data == None::<MessageData>
                    &&& m.buttons@.len() == 4
                    &&& is_menu_entry(
                        m.buttons@[0],
                        "Start Trade"@,
                        "\u{1F4B1}"@,
                        menu_item(guild, MenuJobs::StartTradeMenu { channel_id: channel }),
                    )
                    &&& is_menu_entry(
                        m.buttons@[1],
                        "Open Comms"@,
                        "\u{1F4AC}"@,
                        menu_item(guild, MenuJobs::OpenComms { channel_id: channel }),
                    )
                    &&& is_menu_entry(m.buttons@[2], "Update Bank"@, "\u{1F4B0}"@, None)
                    &&& is_menu_entry(
                        m.buttons@[3],
                        "Join Team"@,
                        "\u{1F44B}"@,
                        menu_item(
                            guild,
                            MenuJobs::JoinTeam {
                                channel_id: channel,
                                joining_team_id: DatabaseId(team_id),
                            },
                        ),
                    )
                },
            }
        },
        _ => false,
    }
}

/// The task that posts the menu of a team in the team's channel.
pub fn team_menu_task(guild: DiscordId, channel: DiscordId, role: DiscordId, team_id: i32) -> (t:
    TaskType)
    ensures
        is_team_menu_task(t, guild, channel, role, team_id),
{
    let mut buttons: Vec<MessageComponent<ButtonSpec>> = Vec::new();
    buttons.push(
        menu_button(
            String::from_str("Start Trade"),
            String::from_str("\u{1F4B1}"),
            Some(
                MessageData::Function(
                    MechanicFunction::Menu(
                        MenuMechanicsHandler {
                            guild_id: guild,
                            task: MenuJobs::StartTradeMenu { channel_id: channel },
                        },
                    ),
                ),
            ),
        ),
    );
    buttons.push(
        menu_button(
            String::from_str("Open Comms"),
            String::from_str("\u{1F4AC}"),
            Some(
                MessageData::Function(
                    MechanicFunction::Menu(
                        MenuMechanicsHandler {
                            guild_id: guild,
                            task: MenuJobs::OpenComms { channel_id: channel },
                        },
                    ),
                ),
            ),
        ),
    );
    buttons.push(
        menu_button(String::from_str("Update Bank"), String::from_str("\u{1F4B0}"), None),
    );
    buttons.push(
        menu_button(
            String::from_str("Join Team"),
            String::from_str("\u{1F44B}"),
            Some(
                MessageData::Function(
                    MechanicFunction::Menu(
                        MenuMechanicsHandler {
                            guild_id: guild,
                            task: MenuJobs::JoinTeam {
                                channel_id: channel,
                                joining_team_id: DatabaseId(team_id),
                            },
                        },
                    ),
                ),
            ),
        ),
    );
    let menu = MessageComponent::new(animal_menu(), None);
    TaskType::MessageHandler(
        MessageHandler {
            guild_id: guild,
            task: MessageTasks::SendChannelMessage(
                SendChannelMessage {
                    channel_id: channel,
                    message: welcome_message(role),
                    select_menu: Some(menu),
                    buttons,
                },
            ),
        },
    )
}

/// One step of the making of a team: from the flow `f` and the answer `e` to
/// the flow `g` and the next piece of work `a`.
///
/// The team's row is added once the guild is known; then its role, its
/// category and its channel (in that category) are made, each through a
/// queued task, and the ids that those tasks hand back are recorded in the
/// team; then the greeting and the menu are posted in the channel, and the
/// team is written back. A task that does not hand back what was asked for
/// stops the flow.
pub open spec fn create_team_step(
    f: CreateTeamFlow,
    e: GameEvent,
    g: CreateTeamFlow,
    a: GameAction,
) -> bool {
    let guild = f.guild_id;
    &&& g.guild_id == f.guild_id
    &&& g.name == f.name
    &&& match f.stage {
        CreateTeamStage::AwaitGuild => match e {
            GameEvent::Guild(gr) => {
                &&& g.stage == CreateTeamStage::AwaitTeam
                &&& a matches GameAction::InsertTeam { name, fk_guild_id }
                &&& name@ == f.name@
                &&& fk_guild_id == gr.discord_id
            },
            _ => g.stage == CreateTeamStage::Failed && a == (GameAction::Fail {
                reason: FailReason::UnexpectedEvent,
            }),
        },
        CreateTeamStage::AwaitTeam => match e {
            GameEvent::Team(Some(t)) => {
                &&& g.stage == (CreateTeamStage::AwaitRole { team: t })
                &&& a matches GameAction::RunTask { task }
                &&& is_role_create_task(task, guild, f.name@, TEAM_ROLE_COLOR)
            },
            _ => g.stage == CreateTeamStage::Failed && a == (GameAction::Fail {
                reason: FailReason::UnexpectedEvent,
            }),
        },
        CreateTeamStage::AwaitRole { team } => match e {
            GameEvent::TaskDone(TaskResult::Completed(TaskReturnData::RoleModel(r))) => {
                &&& g.stage == (CreateTeamStage::AwaitCategory {
                    team: TeamRecord { fk_team_role_id: Some(r.discord_id), ..team },
                    role: r.discord_id,
                })
                &&& a matches GameAction::RunTask { task }
                &&& is_category_create_task(task, guild, f.name@)
            },
            GameEvent::TaskDone(_) => g.stage == CreateTeamStage::Failed && a == (GameAction::Fail {
                reason: FailReason::RoleNotCreated,
            }),
            _ => g.stage == CreateTeamStage::Failed && a == (GameAction::Fail {
                reason: FailReason::UnexpectedEvent,
            }),
        },
        CreateTeamStage::AwaitCategory { team, role } => match e {
            GameEvent::TaskDone(TaskResult::Completed(TaskReturnData::CategoryModel(c))) => {
                &&& g.stage == (CreateTeamStage::AwaitChannel { team, role })
                &&& a matches GameAction::RunTask { task }
                &&& is_channel_create_task(
                    task,
                    guild,
                    f.name@,
                    Some(c.discord_id),
                    ChannelKind::Text,
                )
            },
            GameEvent::TaskDone(_) => g.stage == CreateTeamStage::Failed && a == (GameAction::Fail {
                reason: FailReason::CategoryNotCreated,
            }),
            _ => g.stage == CreateTeamStage::Failed && a == (GameAction::Fail {
                reason: FailReason::UnexpectedEvent,
            }),
        },
        CreateTeamStage::AwaitChannel { team, role } => match e {
            GameEvent::TaskDone(TaskResult::Completed(TaskReturnData::ChannelModel(ch))) => {
                &&& g.stage == (CreateTeamStage::AwaitWelcome {
                    team: TeamRecord { fk_menu_channel_id: Some(ch.discord_id), ..team },
                    role,
                    channel: ch.discord_id,
                })
                &&& a matches GameAction::RunTask { task }
                &&& is_plain_message_task(task, guild, ch.discord_id, welcome_text(role))
            },
            GameEvent::TaskDone(_) => g.stage == CreateTeamStage::Failed && a == (GameAction::Fail {
                reason: FailReason::ChannelNotCreated,
            }),
            _ => g.stage == CreateTeamStage::Failed && a == (GameAction::Fail {
                reason: FailReason::UnexpectedEvent,
            }),
        },
        CreateTeamStage::AwaitWelcome { team, role, channel } => match e {
            GameEvent::TaskDone(_) => {
                &&& g.stage == (CreateTeamStage::AwaitMenu { team })
                &&& a matches GameAction::RunTask { task }
                &&& is_team_menu_task(task, guild, channel, role, team.id)
            },
            _ => g.stage == CreateTeamStage::Failed && a == (GameAction::Fail {
                reason: FailReason::UnexpectedEvent,
            }),
        },
        CreateTeamStage::AwaitMenu { team } => match e {
            GameEvent::TaskDone(_) => g.stage == CreateTeamStage::AwaitUpdate && a == (
            GameAction::UpdateTeam { team }),
            _ => g.stage == CreateTeamStage::Failed && a == (GameAction::Fail {
                reason: FailReason::UnexpectedEvent,
            }),
        },
        CreateTeamStage::AwaitUpdate => match e {
            GameEvent::Stored => g.stage == CreateTeamStage::Finished && a == GameAction::Done,
            _ => g.stage == CreateTeamStage::Failed && a == (GameAction::Fail {
                reason: FailReason::UnexpectedEvent,
            }),
        },
        CreateTeamStage::Finished => g.stage == CreateTeamStage::Finished && a == GameAction::Done,
        CreateTeamStage::Failed => g.stage == CreateTeamStage::Failed && a == (GameAction::Fail {
            reason: FailReason::UnexpectedEvent,
        }),
    }
}

/// When the guild is found, the team's row is added and every task hands
/// back what was asked for, the making of a team asks, in this order: to add
/// the row in the guild, to make the team's role (green), its category, and
/// its text channel in that category; to greet the role in that channel; to
/// post the team's menu there, whose Join Team button leads to this team; and
/// to write the team back with the role and the channel recorded in it. Then
/// it is finished.
pub proof fn lemma_create_team_success(
    f0: CreateTeamFlow,
    guild: GuildRecord,
    team: TeamRecord,
    role: RoleRecord,
    category: CategoryRecord,
    channel: ChannelRecord,
    welcome_result: TaskResult,
    menu_result: TaskResult,
    f1: CreateTeamFlow,
    f2: CreateTeamFlow,
    f3: CreateTeamFlow,
    f4: CreateTeamFlow,
    f5: CreateTeamFlow,
    f6: CreateTeamFlow,
    f7: CreateTeamFlow,
    f8: CreateTeamFlow,
    a1: GameAction,
    a2: GameAction,
    a3: GameAction,
    a4: GameAction,
    a5: GameAction,
    a6: GameAction,
    a7: GameAction,
    a8: GameAction,
)
    requires
        f0.stage == CreateTeamStage::AwaitGuild,
        create_team_step(f0, GameEvent::Guild(guild), f1, a1),
        create_team_step(f1, GameEvent::Team(Some(team)), f2, a2),
        create_team_step(
            f2,
            GameEvent::TaskDone(TaskResult::Completed(TaskReturnData::RoleModel(role))),
            f3,
            a3,
        ),
        create_team_step(
            f3,
            GameEvent::TaskDone(TaskResult::Completed(TaskReturnData::CategoryModel(category))),
            f4,
            a4,
        ),
        create_team_step(
            f4,
            GameEvent::TaskDone(TaskResult::Completed(TaskReturnData::ChannelModel(channel))),
            f5,
            a5,
        ),
        create_team_step(f5, GameEvent::TaskDone(welcome_result), f6, a6),
        create_team_step(f6, GameEvent::TaskDone(menu_result), f7, a7),
        create_team_step(f7, GameEvent::Stored, f8, a8),
    ensures
        a1 matches GameAction::InsertTeam { name, fk_guild_id } && name@ == f0.name@ && fk_guild_id
            == guild.discord_id,
        a2 matches GameAction::RunTask { task } && is_role_create_task(
            task,
            f0.guild_id,
            f0.name@,
            TEAM_ROLE_COLOR,
        ),
        a3 matches GameAction::RunTask { task } && is_category_create_task(task, f0.guild_id, f0.name@),
        a4 matches GameAction::RunTask { task } && is_channel_create_task(
            task,
            f0.guild_id,
            f0.name@,
            Some(category.discord_id),
            ChannelKind::Text,
        ),
        a5 matches GameAction::RunTask { task } && is_plain_message_task(
            task,
            f0.guild_id,
            channel.discord_id,
            welcome_text(role.discord_id),
        ),
        a6 matches GameAction::RunTask { task } && is_team_menu_task(
            task,
            f0.guild_id,
            channel.discord_id,
            role.discord_id,
            team.id,
        ),
        a7 == (GameAction::UpdateTeam {
            team: TeamRecord {
                fk_team_role_id: Some(role.discord_id),
                fk_menu_channel_id: Some(channel.discord_id),
                ..team
            },
        }),
        a8 == GameAction::Done,
        f8.stage == CreateTeamStage::Finished,
{
}

impl CreateTeamFlow {
    /// Starts making a team named `name` in a guild: the guild is looked up
    /// first.
    pub fn start(guild_id: DiscordId, name: String) -> (r: (CreateTeamFlow, GameAction))
        ensures
            r.0.guild_id == guild_id,
            r.0.name == name,
            r.0.stage == CreateTeamStage::AwaitGuild,
            r.1 == (GameAction::LoadGuild { guild_id }),
    {
        (CreateTeamFlow { guild_id, name, stage: CreateTeamStage::AwaitGuild }, GameAction::LoadGuild {
            guild_id,
        })
    }

    /// Takes the answer to the last piece of work and names the next one.
    pub fn resume(self, e: GameEvent) -> (r: (CreateTeamFlow, GameAction))
        ensures
            create_team_step(self, e, r.0, r.1),
    {
        let guild = self.guild_id;
        let unexpected = GameAction::Fail { reason: FailReason::UnexpectedEvent };
        match self.stage {
            CreateTeamStage::AwaitGuild => match e {
                GameEvent::Guild(gr) => {
                    let a = GameAction::InsertTeam {
                        name: self.name.clone(),
                        fk_guild_id: gr.discord_id,
                    };
                    (CreateTeamFlow { stage: CreateTeamStage::AwaitTeam, ..self }, a)
                },
                _ => (CreateTeamFlow { stage: CreateTeamStage::Failed, ..self }, unexpected),
            },
            CreateTeamStage::AwaitTeam => match e {
                GameEvent::Team(Some(t)) => {
                    let task = role_create_task(guild, self.name.clone(), TEAM_ROLE_COLOR);
                    (
                        CreateTeamFlow { stage: CreateTeamStage::AwaitRole { team: t }, ..self },
                        GameAction::RunTask { task },
                    )
                },
                _ => (CreateTeamFlow { stage: CreateTeamStage::Failed, ..self }, unexpected),
            },
            CreateTeamStage::AwaitRole { team } => match e {
                GameEvent::TaskDone(TaskResult::Completed(TaskReturnData::RoleModel(r))) => {
                    let task = category_create_task(guild, self.name.clone());
                    let role = r.discord_id;
                    let team = TeamRecord { fk_team_role_id: Some(role), ..team };
                    (
                        CreateTeamFlow {
                            stage: CreateTeamStage::AwaitCategory { team, role },
                            ..self
                        },
                        GameAction::RunTask { task },
                    )
                },
                GameEvent::TaskDone(_) => (
                    CreateTeamFlow { stage: CreateTeamStage::Failed, ..self },
                    GameAction::Fail { reason: FailReason::RoleNotCreated },
                ),
                _ => (CreateTeamFlow { stage: CreateTeamStage::Failed, ..self }, unexpected),
            },
            CreateTeamStage::AwaitCategory { team, role } => match e {
                GameEvent::TaskDone(TaskResult::Completed(TaskReturnData::CategoryModel(c))) => {
                    let task = channel_create_task(
                        guild,
                        self.name.clone(),
                        Some(c.discord_id),
                        ChannelKind::Text,
                    );
                    (
                        CreateTeamFlow { stage: CreateTeamStage::AwaitChannel { team, role }, ..self },
                        GameAction::RunTask { task },
                    )
                },
                GameEvent::TaskDone(_) => (
                    CreateTeamFlow { stage: CreateTeamStage::Failed, ..self },
                    GameAction::Fail { reason: FailReason::CategoryNotCreated },
                ),
                _ => (CreateTeamFlow { stage: CreateTeamStage::Failed, ..self }, unexpected),
            },
            CreateTeamStage::AwaitChannel { team, role } => match e {
                GameEvent::TaskDone(TaskResult::Completed(TaskReturnData::ChannelModel(ch))) => {
                    let channel = ch.discord_id;
                    let task = plain_message_task(guild, channel, welcome_message(role));
                    let team = TeamRecord { fk_menu_channel_id: Some(channel), ..team };
                    (
                        CreateTeamFlow {
                            stage: CreateTeamStage::AwaitWelcome { team, role, channel },
                            ..self
                        },
                        GameAction::RunTask { task },
                    )
                },
                GameEvent::TaskDone(_) => (
                    CreateTeamFlow { stage: CreateTeamStage::Failed, ..self },
                    GameAction::Fail { reason: FailReason::ChannelNotCreated },
                ),
                _ => (CreateTeamFlow { stage: CreateTeamStage::Failed, ..self }, unexpected),
            },
            CreateTeamStage::AwaitWelcome { team, role, channel } => match e {
                GameEvent::TaskDone(_) => {
                    let task = team_menu_task(guild, channel, role, team.id);
                    (
                        CreateTeamFlow { stage: CreateTeamStage::AwaitMenu { team }, ..self },
                        GameAction::RunTask { task },
                    )
                },
                _ => (CreateTeamFlow { stage: CreateTeamStage::Failed, ..self }, unexpected),
            },
            CreateTeamStage::AwaitMenu { team } => match e {
                GameEvent::TaskDone(_) => (
                    CreateTeamFlow { stage: CreateTeamStage::AwaitUpdate, ..self },
                    GameAction::UpdateTeam { team },
                ),
                _ => (CreateTeamFlow { stage: CreateTeamStage::Failed, ..self }, unexpected),
            },
            CreateTeamStage::AwaitUpdate => match e {
                GameEvent::Stored => (
                    CreateTeamFlow { stage: CreateTeamStage::Finished, ..self },
                    GameAction::Done,
                ),
                _ => (CreateTeamFlow { stage: CreateTeamStage::Failed, ..self }, unexpected),
            },
            CreateTeamStage::Finished => (
                CreateTeamFlow { stage: CreateTeamStage::Finished, ..self },
                GameAction::Done,
            ),
            CreateTeamStage::Failed => (
                CreateTeamFlow { stage: CreateTeamStage::Failed, ..self },
                unexpected,
            ),
        }
    }
}

} // verus!
