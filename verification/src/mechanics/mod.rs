//! Game mechanics. Each mechanic is a flow that alternates outside work (a
//! database lookup, a queued task, a database write) with decisions: the flow
//! names the next piece of work as a `GameAction`, and the driver hands back
//! what came of it as a `GameEvent`.
use vstd::prelude::*;

use crate::ids::{DatabaseId, DiscordId};
use crate::records::{GameDatabaseError, GuildRecord, PlayerRecord, RoleRecord, TeamRecord};
use crate::results::TaskResult;
use crate::tasks::TaskType;

pub mod menu;
pub mod team;

use menu::{
    join_team_step, open_comms_step, start_trade_step, team_change_step, JoinTeamFlow, JoinTeamStage,
    MenuJobs, MenuMechanicsHandler, OpenCommsFlow, StartTradeFlow, StartTradeStage,
    TeamChangeMenuFlow,
};
use team::{create_team_step, CreateTeamFlow, CreateTeamStage, TeamJobs, TeamMechanicsHandler};

verus! {

/// A game mechanic, run when a component that carries it is pressed.
#[derive(Clone, Debug)]
pub enum MechanicFunction {
    Team(TeamMechanicsHandler),
    Menu(MenuMechanicsHandler),
}

/// The member who pressed the component that started a mechanic.
#[derive(Clone, Debug)]
pub struct Interactor {
    pub user_id: DiscordId,
    pub name: String,
}

/// The next piece of outside work of a mechanic.
#[derive(Debug)]
pub enum GameAction {
    /// Look the guild up in the cache and in the database, adding it to the
    /// database if it is missing; answered by `Guild`.
    LoadGuild { guild_id: DiscordId },
    /// Find a player by Discord id; answered by `Player`.
    FindPlayer { discord_id: DiscordId },
    /// Find a player by Discord id, adding it if it is missing; answered by
    /// `Player`.
    GetOrCreatePlayer { guild_id: DiscordId, player_id: DiscordId, name: String },
    /// Find a team by its id; answered by `Team`.
    FindTeam { id: i32 },
    /// Find a team by its name; answered by `Team`.
    FindTeamByName { name: String },
    /// Find a role by its primary key, given as the value that a team keeps in
    /// `fk_team_role_id`; answered by `Role`.
    FindRoleByKey { key: DiscordId },
    /// Add a team to the database; answered by `Team`.
    InsertTeam { name: String, fk_guild_id: DiscordId },
    /// Write a team back to the database; answered by `Stored`.
    UpdateTeam { team: TeamRecord },
    /// Write a player back to the database; answered by `Stored`.
    UpdatePlayer { player: PlayerRecord },
    /// Queue a task and wait for it to finish; answered by `TaskDone`.
    RunTask { task: TaskType },
    /// The mechanic cannot go on.
    Fail { reason: FailReason },
    /// The mechanic has finished.
    Done,
}

/// What came of a piece of outside work.
#[derive(Debug)]
pub enum GameEvent {
    Guild(GuildRecord),
    Player(Option<PlayerRecord>),
    Team(Option<TeamRecord>),
    Role(Option<RoleRecord>),
    TaskDone(TaskResult),
    Stored,
}

/// Why a mechanic stopped.
#[derive(Clone, Copy, Debug, PartialEq, Eq, Structural)]
pub enum FailReason {
    /// The mechanic needs the member who pressed a component, and there is none.
    NoInteractor,
    RoleNotCreated,
    CategoryNotCreated,
    ChannelNotCreated,
    TeamChangeChannelNotCreated,
    PlayerNotFound,
    TeamNotFound,
    TeamHasNoRole,
    RoleNotFound,
    /// The team of the player could not be found.
    PlayerTeam(GameDatabaseError),
    /// The event does not answer the action that the mechanic is waiting on.
    UnexpectedEvent,
}


/// A mechanic under way.
#[derive(Debug)]
pub enum MechanicFlow {
    CreateTeam(CreateTeamFlow),
    StartTrade(StartTradeFlow),
    OpenComms(OpenCommsFlow),
    JoinTeam(JoinTeamFlow),
    TeamChange(TeamChangeMenuFlow),
    /// A mechanic with nothing to do.
    Finished,
}

/// One step of a mechanic under way: the step of the mechanic it is.
pub open spec fn mechanic_step(f: MechanicFlow, e: GameEvent, g: MechanicFlow, a: GameAction) -> bool {
    match f {
        MechanicFlow::CreateTeam(x) => g matches MechanicFlow::CreateTeam(y) && create_team_step(
            x,
            e,
            y,
            a,
        ),
        MechanicFlow::StartTrade(x) => g matches MechanicFlow::StartTrade(y) && start_trade_step(
            x,
            e,
            y,
            a,
        ),
        MechanicFlow::OpenComms(x) => g matches MechanicFlow::OpenComms(y) && open_comms_step(
            x,
            e,
            y,
            a,
        ),
        MechanicFlow::JoinTeam(x) => g matches MechanicFlow::JoinTeam(y) && join_team_step(x, e, y, a),
        MechanicFlow::TeamChange(x) => g matches MechanicFlow::TeamChange(y) && team_change_step(
            x,
            e,
            y,
            a,
        ),
        MechanicFlow::Finished => g == MechanicFlow::Finished && a == GameAction::Done,
    }
}

impl MechanicFlow {
    /// Takes the answer to the last piece of work and names the next one.
    pub fn resume(self, e: GameEvent) -> (r: (MechanicFlow, GameAction))
        ensures
            mechanic_step(self, e, r.0, r.1),
    {
        match self {
            MechanicFlow::CreateTeam(x) => {
                let (y, a) = x.resume(e);
                (MechanicFlow::CreateTeam(y), a)
            },
            MechanicFlow::StartTrade(x) => {
                let (y, a) = x.resume(e);
                (MechanicFlow::StartTrade(y), a)
            },
            MechanicFlow::OpenComms(x) => {
                let (y, a) = x.resume(e);
                (MechanicFlow::OpenComms(y), a)
            },
            MechanicFlow::JoinTeam(x) => {
                let (y, a) = x.resume(e);
                (MechanicFlow::JoinTeam(y), a)
            },
            MechanicFlow::TeamChange(x) => {
                let (y, a) = x.resume(e);
                (MechanicFlow::TeamChange(y), a)
            },
            MechanicFlow::Finished => (MechanicFlow::Finished, GameAction::Done),
        }
    }
}

/// How a team job starts: making a team starts its flow, which looks the
/// guild up; the other jobs have nothing to do.
pub open spec fn team_job_started(h: TeamMechanicsHandler, r: (MechanicFlow, GameAction)) -> bool {
    match h.task {
        TeamJobs::CreateTeam { name } => {
            &&& r.0 matches MechanicFlow::CreateTeam(f)
            &&& f.guild_id == h.guild_id
            &&& f.name == name
            &&& f.stage == CreateTeamStage::AwaitGuild
            &&& r.1 == (GameAction::LoadGuild { guild_id: h.guild_id })
        },
        _ => r.0 == MechanicFlow::Finished && r.1 == GameAction::Done,
    }
}

/// How a menu job starts for the member who pressed its button.
pub open spec fn menu_job_started(
    h: MenuMechanicsHandler,
    interactor: Option<Interactor>,
    r: (MechanicFlow, GameAction),
) -> bool {
    match h.task {
        MenuJobs::StartTradeMenu { channel_id } => {
            &&& r.0 matches MechanicFlow::StartTrade(f)
            &&& f == (StartTradeFlow {
                guild_id: h.guild_id,
                channel_id,
                interactor,
                stage: StartTradeStage::AwaitMessage,
            })
            &&& r.1 matches GameAction::RunTask { task }
            &&& crate::messages::is_plain_message_task(
                task,
                h.guild_id,
                channel_id,
                "Trade started!"@,
            )
        },
        MenuJobs::OpenComms { channel_id } => {
            &&& r.0 matches MechanicFlow::OpenComms(f)
            &&& f.guild_id == h.guild_id
            &&& f.channel_id == channel_id
            &&& match interactor {
                Some(u) => f.stage == menu::OpenCommsStage::AwaitPlayer && r.1 == (
                GameAction::FindPlayer { discord_id: u.user_id }),
                None => f.stage == menu::OpenCommsStage::Failed && r.1 == (
                GameAction::Fail { reason: FailReason::NoInteractor }),
            }
        },
        MenuJobs::JoinTeam { channel_id, joining_team_id } => {
            &&& r.0 matches MechanicFlow::JoinTeam(f)
            &&& f == (JoinTeamFlow {
                guild_id: h.guild_id,
                channel_id,
                joining_team_id,
                interactor,
                player: None,
                stage: JoinTeamStage::AwaitGuild,
            })
            &&& r.1 == (GameAction::LoadGuild { guild_id: h.guild_id })
        },
        MenuJobs::RoleChangeMenu { team_names } => {
            &&& r.0 matches MechanicFlow::TeamChange(f)
            &&& f.guild_id == h.guild_id
            &&& f.team_names@ == team_names@
            &&& f.teams@.len() == 0
            &&& if team_names@.len() > 0 {
                &&& f.stage == menu::TeamChangeStage::AwaitTeam
                &&& r.1 matches GameAction::FindTeamByName { name }
                &&& name@ == team_names@[0]@
            } else {
                f.stage == menu::TeamChangeStage::AwaitChannel
                    && menu::is_team_change_channel_action(r.1, h.guild_id)
            }
        },
    }
}

impl TeamMechanicsHandler {
    /// Starts the team job: making a team starts its flow; the other jobs
    /// have nothing to do.
    pub fn handle(&self) -> (r: (MechanicFlow, GameAction))
        ensures
            team_job_started(*self, r),
    {
        match &self.task {
            TeamJobs::CreateTeam { name } => {
                let (f, a) = CreateTeamFlow::start(self.guild_id, name.clone());
                (MechanicFlow::CreateTeam(f), a)
            },
            _ => (MechanicFlow::Finished, GameAction::Done),
        }
    }
}

impl MenuMechanicsHandler {
    /// Starts the menu job for the member who pressed its button.
    pub fn handle(&self, interactor: Option<Interactor>) -> (r: (MechanicFlow, GameAction))
        ensures
            menu_job_started(*self, interactor, r),
    {
        match &self.task {
            MenuJobs::StartTradeMenu { channel_id } => {
                let (f, a) = StartTradeFlow::start(self.guild_id, *channel_id, interactor);
                (MechanicFlow::StartTrade(f), a)
            },
            MenuJobs::OpenComms { channel_id } => {
                let (f, a) = OpenCommsFlow::start(self.guild_id, *channel_id, interactor);
                (MechanicFlow::OpenComms(f), a)
            },
            MenuJobs::JoinTeam { channel_id, joining_team_id } => {
                let (f, a) = JoinTeamFlow::start(
                    self.guild_id,
                    *channel_id,
                    *joining_team_id,
                    interactor,
                );
                (MechanicFlow::JoinTeam(f), a)
            },
            MenuJobs::RoleChangeMenu { team_names } => {
                let names = team_names.clone();
                assert(names@ =~= team_names@);
                let (f, a) = TeamChangeMenuFlow::start(self.guild_id, names);
                (MechanicFlow::TeamChange(f), a)
            },
        }
    }
}

impl MechanicFunction {
    /// Starts the mechanic for the member who pressed its button (making a
    /// team needs none).
    pub fn handle(&self, interactor: Option<Interactor>) -> (r: (MechanicFlow, GameAction))
        ensures
            match self {
                MechanicFunction::Team(h) => team_job_started(*h, r),
                MechanicFunction::Menu(h) => menu_job_started(*h, interactor, r),
            },
    {
        match self {
            MechanicFunction::Team(h) => h.handle(),
            MechanicFunction::Menu(h) => h.handle(interactor),
        }
    }
}

/// Making a team through its job names everything after the job's name:
/// started from `CreateTeam { name }`, the guild of the job is looked up;
/// when the guild is found, the row is added and every task hands back what
/// was asked for, the team row, its role, its category and its text channel
/// are all made under `name`, in the job's guild.
pub proof fn lemma_team_job_names_the_team(
    h: TeamMechanicsHandler,
    name: String,
    f0: CreateTeamFlow,
    a0: GameAction,
    guild: GuildRecord,
    team: TeamRecord,
    role: RoleRecord,
    category: crate::records::CategoryRecord,
    channel: crate::records::ChannelRecord,
    welcome_result: TaskResult,
    menu_result: TaskResult,
    f1: CreateTeamFlow,
    f2: CreateTeamFlow,
    f3: CreateTeamFlow,
    f4: CreateTeamFlow,
    f5: CreateTeamFlow,
    f6: CreateTeamFlow,
    f7: CreateTeamFlow,
    f8: CreateTeamFlow,
    a1: GameAction,
    a2: GameAction,
    a3: GameAction,
    a4: GameAction,
    a5: GameAction,
    a6: GameAction,
    a7: GameAction,
    a8: GameAction,
)
    requires
        h.task == (TeamJobs::CreateTeam { name }),
        team_job_started(h, (MechanicFlow::CreateTeam(f0), a0)),
        create_team_step(f0, GameEvent::Guild(guild), f1, a1),
        create_team_step(f1, GameEvent::Team(Some(team)), f2, a2),
        create_team_step(
            f2,
            GameEvent::TaskDone(TaskResult::Completed(crate::results::TaskReturnData::RoleModel(role))),
            f3,
            a3,
        ),
        create_team_step(
            f3,
            GameEvent::TaskDone(TaskResult::Completed(crate::results::TaskReturnData::CategoryModel(category))),
            f4,
            a4,
        ),
        create_team_step(
            f4,
            GameEvent::TaskDone(TaskResult::Completed(crate::results::TaskReturnData::ChannelModel(channel))),
            f5,
            a5,
        ),
        create_team_step(f5, GameEvent::TaskDone(welcome_result), f6, a6),
        create_team_step(f6, GameEvent::TaskDone(menu_result), f7, a7),
        create_team_step(f7, GameEvent::Stored, f8, a8),
    ensures
        a0 == (GameAction::LoadGuild { guild_id: h.guild_id }),
        a1 matches GameAction::InsertTeam { name: n, fk_guild_id } && n@ == name@ && fk_guild_id
            == guild.discord_id,
        a2 matches GameAction::RunTask { task } && crate::tasks::is_role_create_task(
            task,
            h.guild_id,
            name@,
            crate::tasks::TEAM_ROLE_COLOR,
        ),
        a3 matches GameAction::RunTask { task } && crate::tasks::is_category_create_task(
            task,
            h.guild_id,
            name@,
        ),
        a4 matches GameAction::RunTask { task } && crate::tasks::is_channel_create_task(
            task,
            h.guild_id,
            name@,
            Some(category.discord_id),
            crate::tasks::ChannelKind::Text,
        ),
{
    team::lemma_create_team_success(
        f0,
        guild,
        team,
        role,
        category,
        channel,
        welcome_result,
        menu_result,
        f1,
        f2,
        f3,
        f4,
        f5,
        f6,
        f7,
        f8,
        a1,
        a2,
        a3,
        a4,
        a5,
        a6,
        a7,
        a8,
    );
}

/// The team change menu of a job lists every team it names: started from
/// `RoleChangeMenu { team_names }`, when every named team is found and the
/// channel is made, the teams are looked up by the job's names, in order,
/// and the menu posted in the new channel holds one Join button for each of
/// those teams, in the same order.
pub proof fn lemma_team_change_job_lists_every_team(
    h: MenuMechanicsHandler,
    team_names: Vec<String>,
    interactor: Option<Interactor>,
    a0: GameAction,
    f: Seq<TeamChangeMenuFlow>,
    a: Seq<GameAction>,
    teams: Seq<TeamRecord>,
    channel: crate::records::ChannelRecord,
)
    requires
        h.task == (MenuJobs::RoleChangeMenu { team_names }),
        teams.len() == team_names@.len(),
        teams.len() > 0,
        f.len() == teams.len() + 2,
        a.len() == teams.len() + 2,
        menu_job_started(h, interactor, (MechanicFlow::TeamChange(f[0]), a0)),
        forall|j: int|
            0 <= j < teams.len() ==> #[trigger] team_change_step(
                f[j],
                GameEvent::Team(Some(teams[j])),
                f[j + 1],
                a[j + 1],
            ),
        team_change_step(
            f[teams.len() as int],
            GameEvent::TaskDone(TaskResult::Completed(crate::results::TaskReturnData::ChannelModel(channel))),
            f[teams.len() + 1int],
            a[teams.len() + 1int],
        ),
    ensures
        a0 matches GameAction::FindTeamByName { name } && name@ == team_names@[0]@,
        forall|i: int|
            0 < i < teams.len() ==> (#[trigger] a[i] matches GameAction::FindTeamByName { name }
                && name@ == team_names@[i]@),
        menu::is_team_change_channel_action(a[teams.len() as int], h.guild_id),
        a[teams.len() + 1int] matches GameAction::RunTask { task } && menu::is_team_change_task(
            task,
            h.guild_id,
            channel.discord_id,
            teams,
        ),
{
    menu::lemma_team_change_menu(f, a, teams, channel);
}

/// Open Comms answers the member who pressed it: with a member, the player
/// looked up is that member, and once found, "Comms opened!" is sent to the
/// job's channel in the job's guild. Only without a member does it stop.
pub proof fn lemma_open_comms_job_answers_member(
    h: MenuMechanicsHandler,
    channel_id: DiscordId,
    interactor: Option<Interactor>,
    f0: OpenCommsFlow,
    a0: GameAction,
    player: PlayerRecord,
    f1: OpenCommsFlow,
    a1: GameAction,
)
    requires
        h.task == (MenuJobs::OpenComms { channel_id }),
        menu_job_started(h, interactor, (MechanicFlow::OpenComms(f0), a0)),
        open_comms_step(f0, GameEvent::Player(Some(player)), f1, a1),
    ensures
        interactor matches Some(u) ==> a0 == (GameAction::FindPlayer { discord_id: u.user_id }),
        interactor is Some ==> (a1 matches GameAction::RunTask { task }
            && crate::messages::is_plain_message_task(task, h.guild_id, channel_id, "Comms opened!"@)),
        interactor is None <==> a0 == (GameAction::Fail { reason: FailReason::NoInteractor }),
{
}

/// Join Team moves the presser to the job's team, whatever the answers: in
/// every run started from `JoinTeam { channel_id, joining_team_id }`, the
/// flow keeps the job's team, channel and member; the team looked up to be
/// joined is the job's team; and the player's row written back is on the
/// job's team.
pub proof fn lemma_join_team_job_moves_to_its_team(
    h: MenuMechanicsHandler,
    channel_id: DiscordId,
    joining_team_id: DatabaseId,
    interactor: Option<Interactor>,
    f: Seq<JoinTeamFlow>,
    a: Seq<GameAction>,
    e: Seq<GameEvent>,
)
    requires
        h.task == (MenuJobs::JoinTeam { channel_id, joining_team_id }),
        f.len() >= 1,
        a.len() == f.len(),
        e.len() + 1 == f.len(),
        menu_job_started(h, interactor, (MechanicFlow::JoinTeam(f[0]), a[0])),
        forall|i: int| #![trigger e[i]] 0 <= i < e.len() ==> join_team_step(f[i], e[i], f[i + 1], a[i + 1]),
    ensures
        forall|i: int|
            0 <= i < f.len() ==> #[trigger] f[i].joining_team_id == joining_team_id
                && f[i].channel_id == channel_id && f[i].interactor == interactor,
        forall|i: int|
            0 <= i < a.len() ==> (#[trigger] a[i] matches GameAction::UpdatePlayer { player }
                ==> player.fk_team_id == Some(joining_team_id.0)),
        forall|i: int|
            0 < i < a.len() ==> (f[i].stage == JoinTeamStage::AwaitNewTeam ==> (#[trigger] a[i] matches GameAction::FindTeam { id }
                && id == joining_team_id.0)),
{
    assert forall|i: int|
        0 <= i < f.len() implies #[trigger] f[i].joining_team_id == joining_team_id
            && f[i].channel_id == channel_id && f[i].interactor == interactor by {
        lemma_join_team_keeps_job(f, a, e, i);
    }
    assert forall|i: int|
        0 <= i < a.len() implies (#[trigger] a[i] matches GameAction::UpdatePlayer { player }
            ==> player.fk_team_id == Some(joining_team_id.0)) by {
        if i > 0 {
            lemma_join_team_keeps_job(f, a, e, i - 1);
            let _ev = e[i - 1];
            let _ev = e[i - 1];
        assert(join_team_step(f[i - 1], e[i - 1], f[i], a[i]));
        }
    }
    assert forall|i: int|
        0 < i < a.len() implies (f[i].stage == JoinTeamStage::AwaitNewTeam ==> (#[trigger] a[i] matches GameAction::FindTeam { id }
            && id == joining_team_id.0)) by {
        lemma_join_team_keeps_job(f, a, e, i - 1);
        let _ev = e[i - 1];
        assert(join_team_step(f[i - 1], e[i - 1], f[i], a[i]));
    }
}

/// Every flow of a Join Team run keeps the team, channel and member of its
/// first flow.
proof fn lemma_join_team_keeps_job(f: Seq<JoinTeamFlow>, a: Seq<GameAction>, e: Seq<GameEvent>, k: int)
    requires
        0 <= k < f.len(),
        a.len() == f.len(),
        e.len() + 1 == f.len(),
        forall|i: int| #![trigger e[i]] 0 <= i < e.len() ==> join_team_step(f[i], e[i], f[i + 1], a[i + 1]),
    ensures
        f[k].joining_team_id == f[0].joining_team_id,
        f[k].channel_id == f[0].channel_id,
        f[k].interactor == f[0].interactor,
    decreases k,
{
    if k > 0 {
        lemma_join_team_keeps_job(f, a, e, k - 1);
        let _ev = e[k - 1];
        assert(join_team_step(f[k - 1], e[k - 1], f[k], a[k]));
    }
}

/// Start Trade announces the trade in the job's channel and then finds the
/// team of the member who pressed it: started from `StartTradeMenu
/// { channel_id }` with a member, "Trade started!" is sent to the job's
/// channel in the job's guild; once sent, the job's guild is looked up, then
/// the member's player, then the player's team; a team of that guild
/// finishes the mechanic.
pub proof fn lemma_start_trade_job_finds_member_team(
    h: MenuMechanicsHandler,
    channel_id: DiscordId,
    u: Interactor,
    f0: StartTradeFlow,
    a0: GameAction,
    sent: TaskResult,
    guild: GuildRecord,
    player: PlayerRecord,
    team: TeamRecord,
    f: Seq<StartTradeFlow>,
    a: Seq<GameAction>,
)
    requires
        h.task == (MenuJobs::StartTradeMenu { channel_id }),
        menu_job_started(h, Some(u), (MechanicFlow::StartTrade(f0), a0)),
        f.len() == 5,
        a.len() == 5,
        f[0] == f0,
        player.fk_team_id is Some,
        team.fk_guild_id == guild.discord_id,
        start_trade_step(f[0], GameEvent::TaskDone(sent), f[1], a[1]),
        start_trade_step(f[1], GameEvent::Guild(guild), f[2], a[2]),
        start_trade_step(f[2], GameEvent::Player(Some(player)), f[3], a[3]),
        start_trade_step(f[3], GameEvent::Team(Some(team)), f[4], a[4]),
    ensures
        a0 matches GameAction::RunTask { task } && crate::messages::is_plain_message_task(
            task,
            h.guild_id,
            channel_id,
            "Trade started!"@,
        ),
        a[1] == (GameAction::LoadGuild { guild_id: h.guild_id }),
        a[2] == (GameAction::FindPlayer { discord_id: u.user_id }),
        a[3] == (GameAction::FindTeam { id: player.fk_team_id->0 }),
        a[4] == GameAction::Done,
{
}

} // verus!
