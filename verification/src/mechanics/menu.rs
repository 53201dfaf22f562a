//! The menus of the game: trading, communications and changing team.
use vstd::prelude::*;

use crate::components::{ButtonSpec, MessageComponent, MessageData};
use crate::ids::{DatabaseId, DiscordId};
use crate::mechanics::{FailReason, GameAction, GameEvent, Interactor, MechanicFunction};
use crate::mechanics::team::{is_menu_entry, menu_item};
use crate::messages::{is_plain_message_task, menu_button, plain_message_task};
use crate::records::{player_team, player_team_spec, GuildRecord, PlayerRecord, RoleRecord, TeamRecord};
use crate::results::{TaskResult, TaskReturnData};
use crate::tasks::{
    channel_create_task, is_channel_create_task, is_role_grant_task, role_grant_task, ChannelKind,
    MessageHandler, MessageTasks, SendChannelMessage, TaskType,
};

verus! {

#[derive(Clone, Debug)]
pub struct MenuMechanicsHandler {
    pub guild_id: DiscordId,
    pub task: MenuJobs,
}

#[derive(Clone, Debug)]
pub enum MenuJobs {
    StartTradeMenu { channel_id: DiscordId },
    RoleChangeMenu { team_names: Vec<String> },
    OpenComms { channel_id: DiscordId },
    /// Move a player to a team. `channel_id` is the channel that the request
    /// came from, so that the answer goes back to it.
    JoinTeam { channel_id: DiscordId, joining_team_id: DatabaseId },
}

// ---------------------------------------------------------------------------
// Start Trade
// ---------------------------------------------------------------------------

#[derive(Clone, Debug)]
pub enum StartTradeStage {
    AwaitMessage,
    AwaitGuild,
    AwaitPlayer { guild: GuildRecord },
    AwaitTeam { guild: GuildRecord, player: PlayerRecord },
    Finished,
    Failed,
}

/// The Start Trade button: announce the trade in the channel, then find the
/// team of the member who pressed it.
#[derive(Clone, Debug)]
pub struct StartTradeFlow {
    pub guild_id: DiscordId,
    pub channel_id: DiscordId,
    pub interactor: Option<Interactor>,
    pub stage: StartTradeStage,
}

/// One step of Start Trade. A player that is not found, a team that is not
/// found or a team of another guild stops it.
pub open spec fn start_trade_step(f: StartTradeFlow, e: GameEvent, g: StartTradeFlow, a: GameAction) -> bool {
    &&& g.guild_id == f.guild_id
    &&& g.channel_id == f.channel_id
    &&& g.interactor == f.interactor
    &&& match f.stage {
        StartTradeStage::AwaitMessage => match e {
            GameEvent::TaskDone(_) => match f.interactor {
                Some(u) => g.stage == StartTradeStage::AwaitGuild && a == (GameAction::LoadGuild {
                    guild_id: f.guild_id,
                }),
                None => g.stage == StartTradeStage::Failed && a == (GameAction::Fail {
                    reason: FailReason::NoInteractor,
                }),
            },
            _ => g.stage == StartTradeStage::Failed && a == (GameAction::Fail {
                reason: FailReason::UnexpectedEvent,
            }),
        },
        StartTradeStage::AwaitGuild => match (e, f.interactor) {
            (GameEvent::Guild(gr), Some(u)) => g.stage == (StartTradeStage::AwaitPlayer { guild: gr })
                && a == (GameAction::FindPlayer { discord_id: u.user_id }),
            _ => g.stage == StartTradeStage::Failed && a == (GameAction::Fail {
                reason: FailReason::UnexpectedEvent,
            }),
        },
        StartTradeStage::AwaitPlayer { guild } => match e {
            GameEvent::Player(Some(p)) => match p.fk_team_id {
                Some(tid) => g.stage == (StartTradeStage::AwaitTeam { guild, player: p }) && a == (
                GameAction::FindTeam { id: tid }),
                None => g.stage == StartTradeStage::Failed && a == (GameAction::Fail {
                    reason: FailReason::PlayerTeam(
                        player_team_spec(guild, Some(p), None)->Err_0,
                    ),
                }),
            },
            GameEvent::Player(None) => g.stage == StartTradeStage::Failed && a == (GameAction::Fail {
                reason: FailReason::PlayerTeam(player_team_spec(guild, None, None)->Err_0),
            }),
            _ => g.stage == StartTradeStage::Failed && a == (GameAction::Fail {
                reason: FailReason::UnexpectedEvent,
            }),
        },
        StartTradeStage::AwaitTeam { guild, player } => match e {
            GameEvent::Team(t) => match player_team_spec(guild, Some(player), t) {
                Ok(_) => g.stage == StartTradeStage::Finished && a == GameAction::Done,
                Err(err) => g.stage == StartTradeStage::Failed && a == (GameAction::Fail {
                    reason: FailReason::PlayerTeam(err),
                }),
            },
            _ => g.stage == StartTradeStage::Failed && a == (GameAction::Fail {
                reason: FailReason::UnexpectedEvent,
            }),
        },
        StartTradeStage::Finished => g.stage == StartTradeStage::Finished && a == GameAction::Done,
        StartTradeStage::Failed => g.stage == StartTradeStage::Failed && a == (GameAction::Fail {
            reason: FailReason::UnexpectedEvent,
        }),
    }
}

impl StartTradeFlow {
    /// Starts Start Trade: the announcement is sent first.
    pub fn start(guild_id: DiscordId, channel_id: DiscordId, interactor: Option<Interactor>) -> (r: (
        StartTradeFlow,
        GameAction,
    ))
        ensures
            r.0 == (StartTradeFlow {
                guild_id,
                channel_id,
                interactor,
                stage: StartTradeStage::AwaitMessage,
            }),
            r.1 matches GameAction::RunTask { task },
            is_plain_message_task(r.1->task, guild_id, channel_id, "Trade started!"@),
    {
        let task = plain_message_task(guild_id, channel_id, String::from_str("Trade started!"));
        (
            StartTradeFlow { guild_id, channel_id, interactor, stage: StartTradeStage::AwaitMessage },
            GameAction::RunTask { task },
        )
    }

    /// Takes the answer to the last piece of work and names the next one.
    pub fn resume(self, e: GameEvent) -> (r: (StartTradeFlow, GameAction))
        ensures
            start_trade_step(self, e, r.0, r.1),
    {
        let unexpected = GameAction::Fail { reason: FailReason::UnexpectedEvent };
        match self.stage {
            StartTradeStage::AwaitMessage => match e {
                GameEvent::TaskDone(_) => {
                    if self.interactor.is_some() {
                        let guild_id = self.guild_id;
                        (
                            StartTradeFlow { stage: StartTradeStage::AwaitGuild, ..self },
                            GameAction::LoadGuild { guild_id },
                        )
                    } else {
                        (
                            StartTradeFlow { stage: StartTradeStage::Failed, ..self },
                            GameAction::Fail { reason: FailReason::NoInteractor },
                        )
                    }
                },
                _ => (StartTradeFlow { stage: StartTradeStage::Failed, ..self }, unexpected),
            },
            StartTradeStage::AwaitGuild => match e {
                GameEvent::Guild(gr) => match &self.interactor {
                    Some(u) => {
                        let discord_id = u.user_id;
                        (
                            StartTradeFlow {
                                stage: StartTradeStage::AwaitPlayer { guild: gr },
                                ..self
                            },
                            GameAction::FindPlayer { discord_id },
                        )
                    },
                    None => (StartTradeFlow { stage: StartTradeStage::Failed, ..self }, unexpected),
                },
                _ => (StartTradeFlow { stage: StartTradeStage::Failed, ..self }, unexpected),
            },
            StartTradeStage::AwaitPlayer { guild } => match e {
                GameEvent::Player(Some(p)) => match p.fk_team_id {
                    Some(tid) => (
                        StartTradeFlow {
                            stage: StartTradeStage::AwaitTeam { guild, player: p },
                            ..self
                        },
                        GameAction::FindTeam { id: tid },
                    ),
                    None => {
                        let err = player_team(&guild, Some(p), None);
                        match err {
                            Err(reason) => (
                                StartTradeFlow { stage: StartTradeStage::Failed, ..self },
                                GameAction::Fail { reason: FailReason::PlayerTeam(reason) },
                            ),
                            Ok(_) => (
                                StartTradeFlow { stage: StartTradeStage::Failed, ..self },
                                unexpected,
                            ),
                        }
                    },
                },
                GameEvent::Player(None) => {
                    let err = player_team(&guild, None, None);
                    match err {
                        Err(reason) => (
                            StartTradeFlow { stage: StartTradeStage::Failed, ..self },
                            GameAction::Fail { reason: FailReason::PlayerTeam(reason) },
                        ),
                        Ok(_) => (StartTradeFlow { stage: StartTradeStage::Failed, ..self }, unexpected),
                    }
                },
                _ => (StartTradeFlow { stage: StartTradeStage::Failed, ..self }, unexpected),
            },
            StartTradeStage::AwaitTeam { guild, player } => match e {
                GameEvent::Team(t) => match player_team(&guild, Some(player), t) {
                    Ok(_) => (
                        StartTradeFlow { stage: StartTradeStage::Finished, ..self },
                        GameAction::Done,
                    ),
                    Err(reason) => (
                        StartTradeFlow { stage: StartTradeStage::Failed, ..self },
                        GameAction::Fail { reason: FailReason::PlayerTeam(reason) },
                    ),
                },
                _ => (StartTradeFlow { stage: StartTradeStage::Failed, ..self }, unexpected),
            },
            StartTradeStage::Finished => (
                StartTradeFlow { stage: StartTradeStage::Finished, ..self },
                GameAction::Done,
            ),
            StartTradeStage::Failed => (
                StartTradeFlow { stage: StartTradeStage::Failed, ..self },
                unexpected,
            ),
        }
    }
}


// ---------------------------------------------------------------------------
// Open Comms
// ---------------------------------------------------------------------------

#[derive(Clone, Copy, Debug, PartialEq, Eq, Structural)]
pub enum OpenCommsStage {
    AwaitPlayer,
    AwaitMessage,
    Finished,
    Failed,
}

/// The Open Comms button: the member who pressed it must be a player; then
/// the opening of communications is announced in the channel.
#[derive(Clone, Debug)]
pub struct OpenCommsFlow {
    pub guild_id: DiscordId,
    pub channel_id: DiscordId,
    pub stage: OpenCommsStage,
}

/// One step of Open Comms.
pub open spec fn open_comms_step(f: OpenCommsFlow, e: GameEvent, g: OpenCommsFlow, a: GameAction) -> bool {
    &&& g.guild_id == f.guild_id
    &&& g.channel_id == f.channel_id
    &&& match f.stage {
        OpenCommsStage::AwaitPlayer => match e {
            GameEvent::Player(Some(_)) => {
                &&& g.stage == OpenCommsStage::AwaitMessage
                &&& a matches GameAction::RunTask { task }
                &&& is_plain_message_task(task, f.guild_id, f.channel_id, "Comms opened!"@)
            },
            GameEvent::Player(None) => g.stage == OpenCommsStage::Failed && a == (GameAction::Fail {
                reason: FailReason::PlayerNotFound,
            }),
            _ => g.stage == OpenCommsStage::Failed && a == (GameAction::Fail {
                reason: FailReason::UnexpectedEvent,
            }),
        },
        OpenCommsStage::AwaitMessage => match e {
            GameEvent::TaskDone(_) => g.stage == OpenCommsStage::Finished && a == GameAction::Done,
            _ => g.stage == OpenCommsStage::Failed && a == (GameAction::Fail {
                reason: FailReason::UnexpectedEvent,
            }),
        },
        OpenCommsStage::Finished => g.stage == OpenCommsStage::Finished && a == GameAction::Done,
        OpenCommsStage::Failed => g.stage == OpenCommsStage::Failed && a == (GameAction::Fail {
            reason: FailReason::UnexpectedEvent,
        }),
    }
}

impl OpenCommsFlow {
    /// Starts Open Comms: the member who pressed the button is looked up as
    /// a player; without one, it stops at once.
    pub fn start(guild_id: DiscordId, channel_id: DiscordId, interactor: Option<Interactor>) -> (r: (
        OpenCommsFlow,
        GameAction,
    ))
        ensures
            r.0.guild_id == guild_id,
            r.0.channel_id == channel_id,
            match interactor {
                Some(u) => r.0.stage == OpenCommsStage::AwaitPlayer && r.1 == (
                GameAction::FindPlayer { discord_id: u.user_id }),
                None => r.0.stage == OpenCommsStage::Failed && r.1 == (GameAction::Fail {
                    reason: FailReason::NoInteractor,
                }),
            },
    {
        match interactor {
            Some(u) => (
                OpenCommsFlow { guild_id, channel_id, stage: OpenCommsStage::AwaitPlayer },
                GameAction::FindPlayer { discord_id: u.user_id },
            ),
            None => (
                OpenCommsFlow { guild_id, channel_id, stage: OpenCommsStage::Failed },
                GameAction::Fail { reason: FailReason::NoInteractor },
            ),
        }
    }

    /// Takes the answer to the last piece of work and names the next one.
    pub fn resume(self, e: GameEvent) -> (r: (OpenCommsFlow, GameAction))
        ensures
            open_comms_step(self, e, r.0, r.1),
    {
        let unexpected = GameAction::Fail { reason: FailReason::UnexpectedEvent };
        match self.stage {
            OpenCommsStage::AwaitPlayer => match e {
                GameEvent::Player(Some(_)) => {
                    let task = plain_message_task(
                        self.guild_id,
                        self.channel_id,
                        String::from_str("Comms opened!"),
                    );
                    (
                        OpenCommsFlow { stage: OpenCommsStage::AwaitMessage, ..self },
                        GameAction::RunTask { task },
                    )
                },
                GameEvent::Player(None) => (
                    OpenCommsFlow { stage: OpenCommsStage::Failed, ..self },
                    GameAction::Fail { reason: FailReason::PlayerNotFound },
                ),
                _ => (OpenCommsFlow { stage: OpenCommsStage::Failed, ..self }, unexpected),
            },
            OpenCommsStage::AwaitMessage => match e {
                GameEvent::TaskDone(_) => (
                    OpenCommsFlow { stage: OpenCommsStage::Finished, ..self },
                    GameAction::Done,
                ),
                _ => (OpenCommsFlow { stage: OpenCommsStage::Failed, ..self }, unexpected),
            },
            OpenCommsStage::Finished => (
                OpenCommsFlow { stage: OpenCommsStage::Finished, ..self },
                GameAction::Done,
            ),
            OpenCommsStage::Failed => (
                OpenCommsFlow { stage: OpenCommsStage::Failed, ..self },
                unexpected,
            ),
        }
    }
}

// ---------------------------------------------------------------------------
// Join Team
// ---------------------------------------------------------------------------

#[derive(Clone, Copy, Debug, PartialEq, Eq, Structural)]
pub enum JoinTeamStage {
    AwaitGuild,
    AwaitPlayer,
    AwaitOldTeam,
    AwaitOldRole,
    AwaitRemoval,
    AwaitNewTeam,
    AwaitNewRole,
    AwaitAddition,
    AwaitPlayerUpdate,
    AwaitMessage,
    Finished,
    Failed,
}

/// The Join Team button moves the member who pressed it to a team: they
/// become a player of the guild if they were not one; the role of their old
/// team, if any, is taken from them; the role of the team they join is
/// granted; their player row is written back with the joined team as its
/// team; and the channel the request came from is answered. `player` is the
/// player's row once it was found.
#[derive(Clone, Debug)]
pub struct JoinTeamFlow {
    pub guild_id: DiscordId,
    pub channel_id: DiscordId,
    pub joining_team_id: DatabaseId,
    pub interactor: Option<Interactor>,
    pub player: Option<PlayerRecord>,
    pub stage: JoinTeamStage,
}

/// The player's row after joining `team`: the same row, on that team.
pub open spec fn moved_player(p: PlayerRecord, team: DatabaseId) -> PlayerRecord {
    PlayerRecord { fk_team_id: Some(team.0), ..p }
}

/// The piece of work and the stage that follow a team lookup: the team's
/// role is looked up next; a missing team or a team without a role stops the
/// flow.
pub open spec fn join_team_after_team(
    t: Option<TeamRecord>,
    next: JoinTeamStage,
    g: JoinTeamFlow,
    a: GameAction,
) -> bool {
    match t {
        Some(team) => match team.fk_team_role_id {
            Some(rid) => g.stage == next && a == (GameAction::FindRoleByKey { key: rid }),
            None => g.stage == JoinTeamStage::Failed && a == (GameAction::Fail {
                reason: FailReason::TeamHasNoRole,
            }),
        },
        None => g.stage == JoinTeamStage::Failed && a == (GameAction::Fail {
            reason: FailReason::TeamNotFound,
        }),
    }
}

/// One step of Join Team.
pub open spec fn join_team_step(f: JoinTeamFlow, e: GameEvent, g: JoinTeamFlow, a: GameAction) -> bool {
    let guild = f.guild_id;
    let fail_unexpected = g.stage == JoinTeamStage::Failed && a == (GameAction::Fail {
        reason: FailReason::UnexpectedEvent,
    });
    &&& g.guild_id == f.guild_id
    &&& g.channel_id == f.channel_id
    &&& g.joining_team_id == f.joining_team_id
    &&& g.interactor == f.interactor
    &&& match (f.interactor, f.stage, e) {
        (Some(_), JoinTeamStage::AwaitPlayer, GameEvent::Player(Some(p))) => g.player == Some(p),
        _ => g.player == f.player,
    }
    &&& match f.interactor {
        None => match (f.stage, e) {
            (JoinTeamStage::AwaitGuild, GameEvent::Guild(_)) => g.stage == JoinTeamStage::Failed
                && a == (GameAction::Fail { reason: FailReason::NoInteractor }),
            (JoinTeamStage::Finished, _) => g.stage == JoinTeamStage::Finished && a
                == GameAction::Done,
            _ => fail_unexpected,
        },
        Some(u) => match (f.stage, e) {
            (JoinTeamStage::AwaitGuild, GameEvent::Guild(_)) => {
                &&& g.stage == JoinTeamStage::AwaitPlayer
                &&& a matches GameAction::GetOrCreatePlayer { guild_id, player_id, name }
                &&& guild_id == guild
                &&& player_id == u.user_id
                &&& name@ == u.name@
            },
            (JoinTeamStage::AwaitPlayer, GameEvent::Player(Some(p))) => match p.fk_team_id {
                Some(tid) => g.stage == JoinTeamStage::AwaitOldTeam && a == (GameAction::FindTeam {
                    id: tid,
                }),
                None => g.stage == JoinTeamStage::AwaitNewTeam && a == (GameAction::FindTeam {
                    id: f.joining_team_id.0,
                }),
            },
            (JoinTeamStage::AwaitPlayer, GameEvent::Player(None)) => g.stage
                == JoinTeamStage::Failed && a == (GameAction::Fail {
                reason: FailReason::PlayerNotFound,
            }),
            (JoinTeamStage::AwaitOldTeam, GameEvent::Team(t)) => join_team_after_team(
                t,
                JoinTeamStage::AwaitOldRole,
                g,
                a,
            ),
            (JoinTeamStage::AwaitOldRole, GameEvent::Role(Some(r))) => {
                &&& g.stage == JoinTeamStage::AwaitRemoval
                &&& a matches GameAction::RunTask { task }
                &&& is_role_grant_task(task, guild, u.user_id, r.discord_id, false)
            },
            (JoinTeamStage::AwaitRemoval, GameEvent::TaskDone(_)) => g.stage
                == JoinTeamStage::AwaitNewTeam && a == (GameAction::FindTeam {
                id: f.joining_team_id.0,
            }),
            (JoinTeamStage::AwaitNewTeam, GameEvent::Team(t)) => join_team_after_team(
                t,
                JoinTeamStage::AwaitNewRole,
                g,
                a,
            ),
            (JoinTeamStage::AwaitNewRole, GameEvent::Role(Some(r))) => {
                &&& g.stage == JoinTeamStage::AwaitAddition
                &&& a matches GameAction::RunTask { task }
                &&& is_role_grant_task(task, guild, u.user_id, r.discord_id, true)
            },
            (JoinTeamStage::AwaitOldRole, GameEvent::Role(None)) | (
                JoinTeamStage::AwaitNewRole,
                GameEvent::Role(None),
            ) => g.stage == JoinTeamStage::Failed && a == (GameAction::Fail {
                reason: FailReason::RoleNotFound,
            }),
            (JoinTeamStage::AwaitAddition, GameEvent::TaskDone(_)) => match f.player {
                Some(p) => g.stage == JoinTeamStage::AwaitPlayerUpdate && a == (
                GameAction::UpdatePlayer { player: moved_player(p, f.joining_team_id) }),
                None => fail_unexpected,
            },
            (JoinTeamStage::AwaitPlayerUpdate, GameEvent::Stored) => {
                &&& g.stage == JoinTeamStage::AwaitMessage
                &&& a matches GameAction::RunTask { task }
                &&& is_plain_message_task(task, guild, f.channel_id, "Comms opened!"@)
            },
            (JoinTeamStage::AwaitMessage, GameEvent::TaskDone(_)) => g.stage
                == JoinTeamStage::Finished && a == GameAction::Done,
            (JoinTeamStage::Finished, _) => g.stage == JoinTeamStage::Finished && a
                == GameAction::Done,
            _ => fail_unexpected,
        },
    }
}

/// A member of an old team who presses Join Team, where every lookup
/// succeeds, is moved to the joined team: the role of the old team is taken
/// away, the role of the joined team is granted, the player's row is written
/// back with the joined team as its team and nothing else changed, and the
/// channel is answered. The order is: the guild, the player, the old team,
/// its role, the removal, the joined team, its role, the grant, the player's
/// row, the answer.
pub proof fn lemma_join_team_from_old_team(
    f0: JoinTeamFlow,
    guild: GuildRecord,
    player: PlayerRecord,
    old_team: TeamRecord,
    old_role: RoleRecord,
    new_team: TeamRecord,
    new_role: RoleRecord,
    removal: TaskResult,
    grant: TaskResult,
    answer: TaskResult,
    f: Seq<JoinTeamFlow>,
    a: Seq<GameAction>,
)
    requires
        f.len() == 11,
        a.len() == 11,
        f[0] == f0,
        f0.stage == JoinTeamStage::AwaitGuild,
        f0.interactor is Some,
        player.fk_team_id is Some,
        old_team.fk_team_role_id is Some,
        new_team.fk_team_role_id is Some,
        join_team_step(f[0], GameEvent::Guild(guild), f[1], a[1]),
        join_team_step(f[1], GameEvent::Player(Some(player)), f[2], a[2]),
        join_team_step(f[2], GameEvent::Team(Some(old_team)), f[3], a[3]),
        join_team_step(f[3], GameEvent::Role(Some(old_role)), f[4], a[4]),
        join_team_step(f[4], GameEvent::TaskDone(removal), f[5], a[5]),
        join_team_step(f[5], GameEvent::Team(Some(new_team)), f[6], a[6]),
        join_team_step(f[6], GameEvent::Role(Some(new_role)), f[7], a[7]),
        join_team_step(f[7], GameEvent::TaskDone(grant), f[8], a[8]),
        join_team_step(f[8], GameEvent::Stored, f[9], a[9]),
        join_team_step(f[9], GameEvent::TaskDone(answer), f[10], a[10]),
    ensures
        ({
            let u = f0.interactor->0;
            &&& a[1] matches GameAction::GetOrCreatePlayer { guild_id, player_id, name }
                && guild_id == f0.guild_id && player_id == u.user_id
            &&& a[2] == (GameAction::FindTeam { id: player.fk_team_id->0 })
            &&& a[3] == (GameAction::FindRoleByKey { key: old_team.fk_team_role_id->0 })
            &&& a[4] matches GameAction::RunTask { task } && is_role_grant_task(
                task,
                f0.guild_id,
                u.user_id,
                old_role.discord_id,
                false,
            )
            &&& a[5] == (GameAction::FindTeam { id: f0.joining_team_id.0 })
            &&& a[6] == (GameAction::FindRoleByKey { key: new_team.fk_team_role_id->0 })
            &&& a[7] matches GameAction::RunTask { task } && is_role_grant_task(
                task,
                f0.guild_id,
                u.user_id,
                new_role.discord_id,
                true,
            )
            &&& a[8] == (GameAction::UpdatePlayer { player: moved_player(player, f0.joining_team_id) })
            &&& a[9] matches GameAction::RunTask { task } && is_plain_message_task(
                task,
                f0.guild_id,
                f0.channel_id,
                "Comms opened!"@,
            )
            &&& a[10] == GameAction::Done
            &&& f[10].stage == JoinTeamStage::Finished
        }),
{
}

/// A member without a team who presses Join Team, where every lookup
/// succeeds, is moved to the joined team with no role taken away: the joined
/// team's role is granted right after the team and its role are found, the
/// player's row is written back with the joined team as its team, and the
/// channel is answered.
pub proof fn lemma_join_team_without_team(
    f0: JoinTeamFlow,
    guild: GuildRecord,
    player: PlayerRecord,
    new_team: TeamRecord,
    new_role: RoleRecord,
    grant: TaskResult,
    answer: TaskResult,
    f: Seq<JoinTeamFlow>,
    a: Seq<GameAction>,
)
    requires
        f.len() == 8,
        a.len() == 8,
        f[0] == f0,
        f0.stage == JoinTeamStage::AwaitGuild,
        f0.interactor is Some,
        player.fk_team_id is None,
        new_team.fk_team_role_id is Some,
        join_team_step(f[0], GameEvent::Guild(guild), f[1], a[1]),
        join_team_step(f[1], GameEvent::Player(Some(player)), f[2], a[2]),
        join_team_step(f[2], GameEvent::Team(Some(new_team)), f[3], a[3]),
        join_team_step(f[3], GameEvent::Role(Some(new_role)), f[4], a[4]),
        join_team_step(f[4], GameEvent::TaskDone(grant), f[5], a[5]),
        join_team_step(f[5], GameEvent::Stored, f[6], a[6]),
        join_team_step(f[6], GameEvent::TaskDone(answer), f[7], a[7]),
    ensures
        a[2] == (GameAction::FindTeam { id: f0.joining_team_id.0 }),
        a[3] == (GameAction::FindRoleByKey { key: new_team.fk_team_role_id->0 }),
        a[4] matches GameAction::RunTask { task } && is_role_grant_task(
            task,
            f0.guild_id,
            f0.interactor->0.user_id,
            new_role.discord_id,
            true,
        ),
        a[5] == (GameAction::UpdatePlayer { player: moved_player(player, f0.joining_team_id) }),
        a[6] matches GameAction::RunTask { task } && is_plain_message_task(
            task,
            f0.guild_id,
            f0.channel_id,
            "Comms opened!"@,
        ),
        a[7] == GameAction::Done,
        f[7].stage == JoinTeamStage::Finished,
{
}

impl JoinTeamFlow {
    /// Starts Join Team: the guild is looked up first.
    pub fn start(
        guild_id: DiscordId,
        channel_id: DiscordId,
        joining_team_id: DatabaseId,
        interactor: Option<Interactor>,
    ) -> (r: (JoinTeamFlow, GameAction))
        ensures
            r.0 == (JoinTeamFlow {
                guild_id,
                channel_id,
                joining_team_id,
                interactor,
                player: None,
                stage: JoinTeamStage::AwaitGuild,
            }),
            r.1 == (GameAction::LoadGuild { guild_id }),
    {
        (
            JoinTeamFlow {
                guild_id,
                channel_id,
                joining_team_id,
                interactor,
                player: None,
                stage: JoinTeamStage::AwaitGuild,
            },
            GameAction::LoadGuild { guild_id },
        )
    }

    /// The next stage and piece of work after a team lookup.
    fn after_team(self, t: Option<TeamRecord>, next: JoinTeamStage) -> (r: (JoinTeamFlow, GameAction))
        ensures
            r.0.guild_id == self.guild_id,
            r.0.channel_id == self.channel_id,
            r.0.joining_team_id == self.joining_team_id,
            r.0.interactor == self.interactor,
            r.0.player == self.player,
            join_team_after_team(t, next, r.0, r.1),
    {
        match t {
            Some(team) => match team.fk_team_role_id {
                Some(rid) => (JoinTeamFlow { stage: next, ..self }, GameAction::FindRoleByKey {
                    key: rid,
                }),
                None => (
                    JoinTeamFlow { stage: JoinTeamStage::Failed, ..self },
                    GameAction::Fail { reason: FailReason::TeamHasNoRole },
                ),
            },
            None => (
                JoinTeamFlow { stage: JoinTeamStage::Failed, ..self },
                GameAction::Fail { reason: FailReason::TeamNotFound },
            ),
        }
    }

    /// Takes the answer to the last piece of work and names the next one.
    pub fn resume(self, e: GameEvent) -> (r: (JoinTeamFlow, GameAction))
        ensures
            join_team_step(self, e, r.0, r.1),
    {
        let unexpected = GameAction::Fail { reason: FailReason::UnexpectedEvent };
        let guild = self.guild_id;
        if self.stage == JoinTeamStage::Finished {
            return (JoinTeamFlow { stage: JoinTeamStage::Finished, ..self }, GameAction::Done);
        }
        let (user_id, user_name) = match &self.interactor {
            Some(u) => (u.user_id, u.name.clone()),
            None => {
                let nothing = match (self.stage, e) {
                    (JoinTeamStage::AwaitGuild, GameEvent::Guild(_)) => true,
                    _ => false,
                };
                if nothing {
                    return (
                        JoinTeamFlow { stage: JoinTeamStage::Failed, ..self },
                        GameAction::Fail { reason: FailReason::NoInteractor },
                    );
                }
                return (JoinTeamFlow { stage: JoinTeamStage::Failed, ..self }, unexpected);
            },
        };
        match (self.stage, e) {
            (JoinTeamStage::AwaitGuild, GameEvent::Guild(_)) => (
                JoinTeamFlow { stage: JoinTeamStage::AwaitPlayer, ..self },
                GameAction::GetOrCreatePlayer { guild_id: guild, player_id: user_id, name: user_name },
            ),
            (JoinTeamStage::AwaitPlayer, GameEvent::Player(Some(p))) => match p.fk_team_id {
                Some(tid) => (
                    JoinTeamFlow { stage: JoinTeamStage::AwaitOldTeam, player: Some(p), ..self },
                    GameAction::FindTeam { id: tid },
                ),
                None => {
                    let id = self.joining_team_id.0;
                    (
                        JoinTeamFlow { stage: JoinTeamStage::AwaitNewTeam, player: Some(p), ..self },
                        GameAction::FindTeam { id },
                    )
                },
            },
            (JoinTeamStage::AwaitPlayer, GameEvent::Player(None)) => (
                JoinTeamFlow { stage: JoinTeamStage::Failed, ..self },
                GameAction::Fail { reason: FailReason::PlayerNotFound },
            ),
            (JoinTeamStage::AwaitOldTeam, GameEvent::Team(t)) => self.after_team(
                t,
                JoinTeamStage::AwaitOldRole,
            ),
            (JoinTeamStage::AwaitOldRole, GameEvent::Role(Some(r))) => {
                let task = role_grant_task(guild, user_id, r.discord_id, false);
                (
                    JoinTeamFlow { stage: JoinTeamStage::AwaitRemoval, ..self },
                    GameAction::RunTask { task },
                )
            },
            (JoinTeamStage::AwaitRemoval, GameEvent::TaskDone(_)) => {
                let id = self.joining_team_id.0;
                (
                    JoinTeamFlow { stage: JoinTeamStage::AwaitNewTeam, ..self },
                    GameAction::FindTeam { id },
                )
            },
            (JoinTeamStage::AwaitNewTeam, GameEvent::Team(t)) => self.after_team(
                t,
                JoinTeamStage::AwaitNewRole,
            ),
            (JoinTeamStage::AwaitNewRole, GameEvent::Role(Some(r))) => {
                let task = role_grant_task(guild, user_id, r.discord_id, true);
                (
                    JoinTeamFlow { stage: JoinTeamStage::AwaitAddition, ..self },
                    GameAction::RunTask { task },
                )
            },
            (JoinTeamStage::AwaitOldRole, GameEvent::Role(None)) | (
                JoinTeamStage::AwaitNewRole,
                GameEvent::Role(None),
            ) => (
                JoinTeamFlow { stage: JoinTeamStage::Failed, ..self },
                GameAction::Fail { reason: FailReason::RoleNotFound },
            ),
            (JoinTeamStage::AwaitAddition, GameEvent::TaskDone(_)) => {
                let moved = match &self.player {
                    Some(p) => Some(
                        PlayerRecord {
                            id: p.id,
                            discord_id: p.discord_id,
                            fk_guild_id: p.fk_guild_id,
                            name: p.name.clone(),
                            fk_team_id: Some(self.joining_team_id.0),
                        },
                    ),
                    None => None,
                };
                match moved {
                    Some(player) => (
                        JoinTeamFlow { stage: JoinTeamStage::AwaitPlayerUpdate, ..self },
                        GameAction::UpdatePlayer { player },
                    ),
                    None => (JoinTeamFlow { stage: JoinTeamStage::Failed, ..self }, unexpected),
                }
            },
            (JoinTeamStage::AwaitPlayerUpdate, GameEvent::Stored) => {
                let task = plain_message_task(
                    guild,
                    self.channel_id,
                    String::from_str("Comms opened!"),
                );
                (
                    JoinTeamFlow { stage: JoinTeamStage::AwaitMessage, ..self },
                    GameAction::RunTask { task },
                )
            },
            (JoinTeamStage::AwaitMessage, GameEvent::TaskDone(_)) => (
                JoinTeamFlow { stage: JoinTeamStage::Finished, ..self },
                GameAction::Done,
            ),
            _ => (JoinTeamFlow { stage: JoinTeamStage::Failed, ..self }, unexpected),
        }
    }
}


// ---------------------------------------------------------------------------
// Team change menu
// ---------------------------------------------------------------------------

/// Whether `t` posts the team change menu in a channel: one Join button per
/// team, in the order of `teams`, each of which moves the presser to its team.
pub open spec fn is_team_change_task(
    t: TaskType,
    guild: DiscordId,
    channel: DiscordId,
    teams: Seq<TeamRecord>,
) -> bool {
    match t {
        TaskType::MessageHandler(h) => {
            &&& h.guild_id == guild
            &&& match h.task {
                MessageTasks::SendChannelMessage(m) => {
                    &&& m.channel_id == channel
                    &&& m.message@ == "Choose the team you'd like to join"@
                    &&& m.select_menu is None
                    &&& m.buttons@.len() == teams.len()
                    &&& forall|i: int|
                        0 <= i < teams.len() ==> #[trigger] is_menu_entry(
                            m.buttons@[i],
                            "Join "@ + teams[i].name@,
                            "\u{1F44B}"@,
                            menu_item(
                                guild,
                                MenuJobs::JoinTeam {
                                    channel_id: channel,
                                    joining_team_id: DatabaseId(teams[i].id),
                                },
                            ),
                        )
                },
            }
        },
        _ => false,
    }
}

/// The task that posts the team change menu in a channel.
pub fn team_change_task(guild: DiscordId, channel: DiscordId, teams: &Vec<TeamRecord>) -> (t: TaskType)
    ensures
        is_team_change_task(t, guild, channel, teams@),
{
    let mut buttons: Vec<MessageComponent<ButtonSpec>> = Vec::new();
    let mut i: usize = 0;
    while i < teams.len()
        invariant
            i <= teams.len(),
            buttons@.len() == i,
            forall|j: int|
                0 <= j < i ==> #[trigger] is_menu_entry(
                    buttons@[j],
                    "Join "@ + teams@[j].name@,
                    "\u{1F44B}"@,
                    menu_item(
                        guild,
                        MenuJobs::JoinTeam {
                            channel_id: channel,
                            joining_team_id: DatabaseId(teams@[j].id),
                        },
                    ),
                ),
        decreases teams.len() - i,
    {
        let team = &teams[i];
        let mut label = String::from_str("Join ");
        label.append(team.name.as_str());
        let data = Some(
            MessageData::Function(
                MechanicFunction::Menu(
                    MenuMechanicsHandler {
                        guild_id: guild,
                        task: MenuJobs::JoinTeam {
                            channel_id: channel,
                            joining_team_id: DatabaseId(team.id),
                        },
                    },
                ),
            ),
        );
        buttons.push(menu_button(label, String::from_str("\u{1F44B}"), data));
        i = i + 1;
    }
    TaskType::MessageHandler(
        MessageHandler {
            guild_id: guild,
            task: MessageTasks::SendChannelMessage(
                SendChannelMessage {
                    channel_id: channel,
                    message: String::from_str("Choose the team you'd like to join"),
                    select_menu: None,
                    buttons,
                },
            ),
        },
    )
}

#[derive(Clone, Copy, Debug, PartialEq, Eq, Structural)]
pub enum TeamChangeStage {
    AwaitTeam,
    AwaitChannel,
    AwaitMessage,
    Finished,
    Failed,
}

/// The team change menu: each named team is looked up, in order; then a
/// "team-change" channel is made and the menu is posted in it.
#[derive(Clone, Debug)]
pub struct TeamChangeMenuFlow {
    pub guild_id: DiscordId,
    pub team_names: Vec<String>,
    pub teams: Vec<TeamRecord>,
    pub stage: TeamChangeStage,
}

/// Whether `a` makes the "team-change" text channel of a guild.
pub open spec fn is_team_change_channel_action(a: GameAction, guild: DiscordId) -> bool {
    a matches GameAction::RunTask { task } && is_channel_create_task(
        task,
        guild,
        "team-change"@,
        None,
        ChannelKind::Text,
    )
}

/// One step of the team change menu.
pub open spec fn team_change_step(
    f: TeamChangeMenuFlow,
    e: GameEvent,
    g: TeamChangeMenuFlow,
    a: GameAction,
) -> bool {
    let fail_unexpected = g.stage == TeamChangeStage::Failed && a == (GameAction::Fail {
        reason: FailReason::UnexpectedEvent,
    });
    &&& g.guild_id == f.guild_id
    &&& g.team_names@ == f.team_names@
    &&& match f.stage {
        TeamChangeStage::AwaitTeam => match e {
            GameEvent::Team(Some(t)) => {
                &&& g.teams@ == f.teams@.push(t)
                &&& if g.teams@.len() < f.team_names@.len() {
                    &&& g.stage == TeamChangeStage::AwaitTeam
                    &&& a matches GameAction::FindTeamByName { name }
                    &&& name@ == f.team_names@[g.teams@.len() as int]@
                } else {
                    g.stage == TeamChangeStage::AwaitChannel && is_team_change_channel_action(
                        a,
                        f.guild_id,
                    )
                }
            },
            GameEvent::Team(None) => g.teams@ == f.teams@ && g.stage == TeamChangeStage::Failed
                && a == (GameAction::Fail { reason: FailReason::TeamNotFound }),
            _ => g.teams@ == f.teams@ && fail_unexpected,
        },
        TeamChangeStage::AwaitChannel => {
            &&& g.teams@ == f.teams@
            &&& match e {
                GameEvent::TaskDone(TaskResult::Completed(TaskReturnData::ChannelModel(ch))) => {
                    &&& g.stage == TeamChangeStage::AwaitMessage
                    &&& a matches GameAction::RunTask { task }
                    &&& is_team_change_task(task, f.guild_id, ch.discord_id, f.teams@)
                },
                GameEvent::TaskDone(_) => g.stage == TeamChangeStage::Failed && a == (
                GameAction::Fail { reason: FailReason::TeamChangeChannelNotCreated }),
                _ => fail_unexpected,
            }
        },
        TeamChangeStage::AwaitMessage => g.teams@ == f.teams@ && match e {
            GameEvent::TaskDone(_) => g.stage == TeamChangeStage::Finished && a == GameAction::Done,
            _ => fail_unexpected,
        },
        TeamChangeStage::Finished => g.teams@ == f.teams@ && g.stage == TeamChangeStage::Finished
            && a == GameAction::Done,
        TeamChangeStage::Failed => g.teams@ == f.teams@ && fail_unexpected,
    }
}

/// The team change menu after `i` teams were found, in order.
proof fn lemma_team_change_prefix(
    f: Seq<TeamChangeMenuFlow>,
    a: Seq<GameAction>,
    teams: Seq<TeamRecord>,
    i: int,
)
    requires
        teams.len() > 0,
        f.len() >= teams.len() + 1,
        a.len() >= teams.len() + 1,
        0 <= i <= teams.len(),
        f[0].stage == TeamChangeStage::AwaitTeam,
        f[0].teams@.len() == 0,
        f[0].team_names@.len() == teams.len(),
        forall|j: int|
            0 <= j < teams.len() ==> #[trigger] team_change_step(
                f[j],
                GameEvent::Team(Some(teams[j])),
                f[j + 1],
                a[j + 1],
            ),
    ensures
        f[i].guild_id == f[0].guild_id,
        f[i].team_names@ == f[0].team_names@,
        f[i].teams@ == teams.subrange(0, i),
        i < teams.len() ==> f[i].stage == TeamChangeStage::AwaitTeam,
        i == teams.len() ==> f[i].stage == TeamChangeStage::AwaitChannel,
        0 < i < teams.len() ==> (a[i] matches GameAction::FindTeamByName { name } && name@
            == f[0].team_names@[i]@),
        i == teams.len() ==> is_team_change_channel_action(a[i], f[0].guild_id),
    decreases i,
{
    if i == 0 {
        assert(teams.subrange(0, 0) =~= Seq::<TeamRecord>::empty());
    } else {
        lemma_team_change_prefix(f, a, teams, i - 1);
        let j = i - 1;
        assert(team_change_step(f[j], GameEvent::Team(Some(teams[j])), f[j + 1], a[j + 1]));
        assert(teams.subrange(0, i - 1).push(teams[i - 1]) =~= teams.subrange(0, i));
    }
}

/// When every named team is found, the team change menu looks them up in
/// the order of the names, then makes the "team-change" channel, and posts
/// in it one Join button per team, in the same order, each leading to its
/// team.
pub proof fn lemma_team_change_menu(
    f: Seq<TeamChangeMenuFlow>,
    a: Seq<GameAction>,
    teams: Seq<TeamRecord>,
    channel: crate::records::ChannelRecord,
)
    requires
        teams.len() > 0,
        f.len() == teams.len() + 2,
        a.len() == teams.len() + 2,
        f[0].stage == TeamChangeStage::AwaitTeam,
        f[0].teams@.len() == 0,
        f[0].team_names@.len() == teams.len(),
        forall|j: int|
            0 <= j < teams.len() ==> #[trigger] team_change_step(
                f[j],
                GameEvent::Team(Some(teams[j])),
                f[j + 1],
                a[j + 1],
            ),
        team_change_step(
            f[teams.len() as int],
            GameEvent::TaskDone(TaskResult::Completed(TaskReturnData::ChannelModel(channel))),
            f[teams.len() + 1int],
            a[teams.len() + 1int],
        ),
    ensures
        forall|i: int|
            0 < i < teams.len() ==> (#[trigger] a[i] matches GameAction::FindTeamByName { name }
                && name@ == f[0].team_names@[i]@),
        is_team_change_channel_action(a[teams.len() as int], f[0].guild_id),
        a[teams.len() + 1int] matches GameAction::RunTask { task } && is_team_change_task(
            task,
            f[0].guild_id,
            channel.discord_id,
            teams,
        ),
        f[teams.len() + 1int].stage == TeamChangeStage::AwaitMessage,
{
    let n = teams.len() as int;
    assert forall|i: int|
        0 < i < teams.len() implies (#[trigger] a[i] matches GameAction::FindTeamByName { name }
        && name@ == f[0].team_names@[i]@) by {
        lemma_team_change_prefix(f, a, teams, i);
    }
    lemma_team_change_prefix(f, a, teams, n);
    assert(teams.subrange(0, n) =~= teams);
}

impl TeamChangeMenuFlow {
    /// Starts the team change menu: the first named team is looked up, or,
    /// with no names, the channel is made at once.
    pub fn start(guild_id: DiscordId, team_names: Vec<String>) -> (r: (TeamChangeMenuFlow, GameAction))
        ensures
            r.0.guild_id == guild_id,
            r.0.team_names@ == team_names@,
            r.0.teams@.len() == 0,
            if team_names@.len() > 0 {
                &&& r.0.stage == TeamChangeStage::AwaitTeam
                &&& r.1 matches GameAction::FindTeamByName { name }
                &&& name@ == team_names@[0]@
            } else {
                r.0.stage == TeamChangeStage::AwaitChannel && is_team_change_channel_action(
                    r.1,
                    guild_id,
                )
            },
    {
        if team_names.len() > 0 {
            let name = team_names[0].clone();
            (
                TeamChangeMenuFlow {
                    guild_id,
                    team_names,
                    teams: Vec::new(),
                    stage: TeamChangeStage::AwaitTeam,
                },
                GameAction::FindTeamByName { name },
            )
        } else {
            let task = channel_create_task(
                guild_id,
                String::from_str("team-change"),
                None,
                ChannelKind::Text,
            );
            (
                TeamChangeMenuFlow {
                    guild_id,
                    team_names,
                    teams: Vec::new(),
                    stage: TeamChangeStage::AwaitChannel,
                },
                GameAction::RunTask { task },
            )
        }
    }

    /// Takes the answer to the last piece of work and names the next one.
    pub fn resume(self, e: GameEvent) -> (r: (TeamChangeMenuFlow, GameAction))
        ensures
            team_change_step(self, e, r.0, r.1),
    {
        let unexpected = GameAction::Fail { reason: FailReason::UnexpectedEvent };
        match self.stage {
            TeamChangeStage::AwaitTeam => match e {
                GameEvent::Team(Some(t)) => {
                    let mut teams = self.teams;
                    teams.push(t);
                    if teams.len() < self.team_names.len() {
                        let name = self.team_names[teams.len()].clone();
                        (
                            TeamChangeMenuFlow {
                                guild_id: self.guild_id,
                                team_names: self.team_names,
                                teams,
                                stage: TeamChangeStage::AwaitTeam,
                            },
                            GameAction::FindTeamByName { name },
                        )
                    } else {
                        let task = channel_create_task(
                            self.guild_id,
                            String::from_str("team-change"),
                            None,
                            ChannelKind::Text,
                        );
                        (
                            TeamChangeMenuFlow {
                                guild_id: self.guild_id,
                                team_names: self.team_names,
                                teams,
                                stage: TeamChangeStage::AwaitChannel,
                            },
                            GameAction::RunTask { task },
                        )
                    }
                },
                GameEvent::Team(None) => (
                    TeamChangeMenuFlow { stage: TeamChangeStage::Failed, ..self },
                    GameAction::Fail { reason: FailReason::TeamNotFound },
                ),
                _ => (TeamChangeMenuFlow { stage: TeamChangeStage::Failed, ..self }, unexpected),
            },
            TeamChangeStage::AwaitChannel => match e {
                GameEvent::TaskDone(TaskResult::Completed(TaskReturnData::ChannelModel(ch))) => {
                    let task = team_change_task(self.guild_id, ch.discord_id, &self.teams);
                    (
                        TeamChangeMenuFlow { stage: TeamChangeStage::AwaitMessage, ..self },
                        GameAction::RunTask { task },
                    )
                },
                GameEvent::TaskDone(_) => (
                    TeamChangeMenuFlow { stage: TeamChangeStage::Failed, ..self },
                    GameAction::Fail { reason: FailReason::TeamChangeChannelNotCreated },
                ),
                _ => (TeamChangeMenuFlow { stage: TeamChangeStage::Failed, ..self }, unexpected),
            },
            TeamChangeStage::AwaitMessage => match e {
                GameEvent::TaskDone(_) => (
                    TeamChangeMenuFlow { stage: TeamChangeStage::Finished, ..self },
                    GameAction::Done,
                ),
                _ => (TeamChangeMenuFlow { stage: TeamChangeStage::Failed, ..self }, unexpected),
            },
            TeamChangeStage::Finished => (
                TeamChangeMenuFlow { stage: TeamChangeStage::Finished, ..self },
                GameAction::Done,
            ),
            TeamChangeStage::Failed => (
                TeamChangeMenuFlow { stage: TeamChangeStage::Failed, ..self },
                unexpected,
            ),
        }
    }
}

} // verus!
