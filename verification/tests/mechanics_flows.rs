use megagame::components::MessageData;
use megagame::ids::{DatabaseId, DiscordId};
use megagame::mechanics::menu::{
    JoinTeamFlow, JoinTeamStage, MenuJobs, MenuMechanicsHandler, OpenCommsFlow, StartTradeFlow,
    TeamChangeMenuFlow, TeamChangeStage,
};
use megagame::mechanics::team::{CreateTeamFlow, CreateTeamStage, TeamJobs, TeamMechanicsHandler};
use megagame::mechanics::{FailReason, GameAction, GameEvent, Interactor, MechanicFlow, MechanicFunction};
use megagame::records::{
    guild_lookup, player_lookup, player_team, CategoryRecord, ChannelRecord, GameDatabaseError,
    GuildLookup, GuildRecord, PlayerLookup, PlayerRecord, RoleRecord, TeamRecord,
};
use megagame::results::{TaskResult, TaskReturnData};
use megagame::tasks::{
    CategoryTasks, ChannelKind, ChannelTasks, CreateRoleTasks, MessageTasks, RoleTasks, TaskType,
};

const GUILD: DiscordId = DiscordId(100);

fn guild() -> GuildRecord {
    GuildRecord { id: 1, discord_id: GUILD }
}

fn team(id: i32, name: &str, role: Option<u64>) -> TeamRecord {
    TeamRecord {
        id,
        name: name.to_string(),
        fk_guild_id: GUILD,
        fk_team_role_id: role.map(DiscordId),
        fk_menu_channel_id: None,
    }
}

fn player(team_id: Option<i32>) -> PlayerRecord {
    PlayerRecord { id: 3, discord_id: DiscordId(55), fk_guild_id: GUILD, name: "ann".to_string(), fk_team_id: team_id }
}

fn role(id: u64) -> RoleRecord {
    RoleRecord { id: 9, discord_id: DiscordId(id), name: "r".to_string() }
}

fn done(data: TaskReturnData) -> GameEvent {
    GameEvent::TaskDone(TaskResult::Completed(data))
}

fn me() -> Option<Interactor> {
    Some(Interactor { user_id: DiscordId(55), name: "ann".to_string() })
}

fn message_of(a: &GameAction) -> &megagame::tasks::SendChannelMessage {
    match a {
        GameAction::RunTask { task: TaskType::MessageHandler(h) } => {
            let MessageTasks::SendChannelMessage(m) = &h.task;
            m
        }
        other => panic!("not a message: {:?}", other),
    }
}

#[test]
fn create_team_runs_every_step_in_order() {
    let (f, a) = CreateTeamFlow::start(GUILD, "Airship-1".to_string());
    assert!(matches!(a, GameAction::LoadGuild { guild_id: GUILD }));
    let (f, a) = f.resume(GameEvent::Guild(guild()));
    match &a {
        GameAction::InsertTeam { name, fk_guild_id } => {
            assert_eq!(name, "Airship-1");
            assert_eq!(*fk_guild_id, GUILD);
        }
        other => panic!("{:?}", other),
    }
    let (f, a) = f.resume(GameEvent::Team(Some(team(7, "Airship-1", None))));
    match &a {
        GameAction::RunTask { task: TaskType::RoleHandler(h) } => match &h.task {
            RoleTasks::Create(CreateRoleTasks::Role { name, color }) => {
                assert_eq!(name, "Airship-1");
                assert_eq!(*color, 0x00ff00);
            }
            other => panic!("{:?}", other),
        },
        other => panic!("{:?}", other),
    }
    let (f, a) = f.resume(done(TaskReturnData::RoleModel(role(300))));
    assert!(matches!(
        &a,
        GameAction::RunTask { task: TaskType::CategoryHandler(h) }
            if matches!(&h.task, CategoryTasks::Create { name } if name == "Airship-1")
    ));
    let category = CategoryRecord { id: 1, discord_id: DiscordId(400), fk_guild_id: Some(GUILD), name: "c".to_string() };
    let (f, a) = f.resume(done(TaskReturnData::CategoryModel(category)));
    match &a {
        GameAction::RunTask { task: TaskType::ChannelHandler(h) } => match &h.task {
            ChannelTasks::Create(d) => {
                assert_eq!(d.name, "Airship-1");
                assert_eq!(d.category_id, Some(DiscordId(400)));
                assert_eq!(d.kind, ChannelKind::Text);
            }
            other => panic!("{:?}", other),
        },
        other => panic!("{:?}", other),
    }
    let channel = ChannelRecord { id: 2, discord_id: DiscordId(500), guild_fk_id: Some(1), name: "x".to_string() };
    let (f, a) = f.resume(done(TaskReturnData::ChannelModel(channel)));
    let m = message_of(&a);
    assert_eq!(m.channel_id, DiscordId(500));
    assert_eq!(m.message, "Welcome to the team <@&300>!");
    assert!(m.select_menu.is_none() && m.buttons.is_empty());
    let (f, a) = f.resume(done(TaskReturnData::MessageId(DiscordId(1))));
    let m = message_of(&a);
    assert_eq!(m.message, "Welcome to the team <@&300>!");
    assert!(m.select_menu.is_some());
    let labels: Vec<&str> = m.buttons.iter().map(|b| b.component.label.as_deref().unwrap()).collect();
    assert_eq!(labels, vec!["Start Trade", "Open Comms", "Update Bank", "Join Team"]);
    assert!(m.buttons[2].data.is_none());
    match &*m.buttons[3].data {
        Some(MessageData::Function(MechanicFunction::Menu(h))) => match &h.task {
            MenuJobs::JoinTeam { channel_id, joining_team_id } => {
                assert_eq!(*channel_id, DiscordId(500));
                assert_eq!(*joining_team_id, DatabaseId(7));
            }
            other => panic!("{:?}", other),
        },
        other => panic!("{:?}", other),
    }
    let (f, a) = f.resume(done(TaskReturnData::MessageId(DiscordId(2))));
    match &a {
        GameAction::UpdateTeam { team } => {
            assert_eq!(team.id, 7);
            assert_eq!(team.fk_team_role_id, Some(DiscordId(300)));
            assert_eq!(team.fk_menu_channel_id, Some(DiscordId(500)));
        }
        other => panic!("{:?}", other),
    }
    let (f, a) = f.resume(GameEvent::Stored);
    assert!(matches!(a, GameAction::Done));
    assert!(matches!(f.stage, CreateTeamStage::Finished));
}

#[test]
fn create_team_stops_when_the_role_is_not_made() {
    let (f, _) = CreateTeamFlow::start(GUILD, "T".to_string());
    let (f, _) = f.resume(GameEvent::Guild(guild()));
    let (f, _) = f.resume(GameEvent::Team(Some(team(1, "T", None))));
    let (f, a) = f.resume(GameEvent::TaskDone(TaskResult::Pending));
    assert!(matches!(a, GameAction::Fail { reason: FailReason::RoleNotCreated }));
    assert!(matches!(f.stage, CreateTeamStage::Failed));
}

#[test]
fn create_team_refuses_an_answer_out_of_turn() {
    let (f, _) = CreateTeamFlow::start(GUILD, "T".to_string());
    let (f, a) = f.resume(GameEvent::Stored);
    assert!(matches!(a, GameAction::Fail { reason: FailReason::UnexpectedEvent }));
    assert!(matches!(f.stage, CreateTeamStage::Failed));
}

#[test]
fn join_team_from_an_old_team() {
    let (f, a) = JoinTeamFlow::start(GUILD, DiscordId(600), DatabaseId(8), me());
    assert!(matches!(a, GameAction::LoadGuild { guild_id: GUILD }));
    let (f, a) = f.resume(GameEvent::Guild(guild()));
    assert!(matches!(&a, GameAction::GetOrCreatePlayer { player_id: DiscordId(55), name, .. } if name == "ann"));
    let (f, a) = f.resume(GameEvent::Player(Some(player(Some(4)))));
    assert!(matches!(a, GameAction::FindTeam { id: 4 }));
    let (f, a) = f.resume(GameEvent::Team(Some(team(4, "old", Some(40)))));
    assert!(matches!(a, GameAction::FindRoleByKey { key: DiscordId(40) }));
    let (f, a) = f.resume(GameEvent::Role(Some(role(40))));
    match &a {
        GameAction::RunTask { task: TaskType::RoleHandler(h) } => {
            assert!(matches!(h.task, RoleTasks::RemoveRoleFromUser(r) if r.user_id == DiscordId(55) && r.role_id == DiscordId(40)));
        }
        other => panic!("{:?}", other),
    }
    let (f, a) = f.resume(done(TaskReturnData::Empty));
    assert!(matches!(a, GameAction::FindTeam { id: 8 }));
    let (f, a) = f.resume(GameEvent::Team(Some(team(8, "new", Some(80)))));
    assert!(matches!(a, GameAction::FindRoleByKey { key: DiscordId(80) }));
    let (f, a) = f.resume(GameEvent::Role(Some(role(80))));
    match &a {
        GameAction::RunTask { task: TaskType::RoleHandler(h) } => {
            assert!(matches!(h.task, RoleTasks::AddRoleToUser(r) if r.user_id == DiscordId(55) && r.role_id == DiscordId(80)));
        }
        other => panic!("{:?}", other),
    }
    let (f, a) = f.resume(done(TaskReturnData::Empty));
    match &a {
        GameAction::UpdatePlayer { player } => {
            assert_eq!(player.id, 3);
            assert_eq!(player.discord_id, DiscordId(55));
            assert_eq!(player.fk_guild_id, GUILD);
            assert_eq!(player.name, "ann");
            assert_eq!(player.fk_team_id, Some(8));
        }
        other => panic!("{:?}", other),
    }
    let (f, a) = f.resume(GameEvent::Stored);
    let m = message_of(&a);
    assert_eq!(m.channel_id, DiscordId(600));
    assert_eq!(m.message, "Comms opened!");
    let (f, a) = f.resume(done(TaskReturnData::Empty));
    assert!(matches!(a, GameAction::Done));
    assert_eq!(f.stage, JoinTeamStage::Finished);
}

#[test]
fn join_team_without_a_team_moves_the_player() {
    let (f, _) = JoinTeamFlow::start(GUILD, DiscordId(600), DatabaseId(8), me());
    let (f, _) = f.resume(GameEvent::Guild(guild()));
    let (f, a) = f.resume(GameEvent::Player(Some(player(None))));
    assert!(matches!(a, GameAction::FindTeam { id: 8 }));
    let (f, a) = f.resume(GameEvent::Team(Some(team(8, "new", Some(80)))));
    assert!(matches!(a, GameAction::FindRoleByKey { key: DiscordId(80) }));
    let (f, _) = f.resume(GameEvent::Role(Some(role(80))));
    let (f, a) = f.resume(done(TaskReturnData::Empty));
    assert!(matches!(&a, GameAction::UpdatePlayer { player } if player.fk_team_id == Some(8) && player.id == 3));
    let (f, a) = f.resume(GameEvent::Stored);
    assert_eq!(message_of(&a).message, "Comms opened!");
    let (f, a) = f.resume(done(TaskReturnData::Empty));
    assert!(matches!(a, GameAction::Done));
    assert_eq!(f.stage, JoinTeamStage::Finished);
}

#[test]
fn join_team_without_a_member_stops_after_the_guild() {
    let (f, _) = JoinTeamFlow::start(GUILD, DiscordId(600), DatabaseId(8), None);
    let (_, a) = f.resume(GameEvent::Guild(guild()));
    assert!(matches!(a, GameAction::Fail { reason: FailReason::NoInteractor }));
}

#[test]
fn join_team_stops_on_a_team_without_role() {
    let (f, _) = JoinTeamFlow::start(GUILD, DiscordId(600), DatabaseId(8), me());
    let (f, _) = f.resume(GameEvent::Guild(guild()));
    let (f, a) = f.resume(GameEvent::Player(Some(player(None))));
    assert!(matches!(a, GameAction::FindTeam { id: 8 }));
    let (_, a) = f.resume(GameEvent::Team(Some(team(8, "new", None))));
    assert!(matches!(a, GameAction::Fail { reason: FailReason::TeamHasNoRole }));
}

#[test]
fn start_trade_reports_why_the_team_is_missing() {
    let start = || {
        let (f, a) = StartTradeFlow::start(GUILD, DiscordId(700), me());
        assert_eq!(message_of(&a).message, "Trade started!");
        let (f, a) = f.resume(done(TaskReturnData::Empty));
        assert!(matches!(a, GameAction::LoadGuild { .. }));
        let (f, a) = f.resume(GameEvent::Guild(guild()));
        assert!(matches!(a, GameAction::FindPlayer { discord_id: DiscordId(55) }));
        f
    };
    let (_, a) = start().resume(GameEvent::Player(None));
    assert!(matches!(a, GameAction::Fail { reason: FailReason::PlayerTeam(GameDatabaseError::PlayerNotFound) }));
    let (_, a) = start().resume(GameEvent::Player(Some(player(None))));
    assert!(matches!(a, GameAction::Fail { reason: FailReason::PlayerTeam(GameDatabaseError::TeamNotFound) }));
    let (f, a) = start().resume(GameEvent::Player(Some(player(Some(4)))));
    assert!(matches!(a, GameAction::FindTeam { id: 4 }));
    let mut other_guild = team(4, "t", None);
    other_guild.fk_guild_id = DiscordId(999);
    let (_, a) = f.resume(GameEvent::Team(Some(other_guild)));
    assert!(matches!(a, GameAction::Fail { reason: FailReason::PlayerTeam(GameDatabaseError::GuildNotFound) }));
    let (f, _) = start().resume(GameEvent::Player(Some(player(Some(4)))));
    let (_, a) = f.resume(GameEvent::Team(Some(team(4, "t", None))));
    assert!(matches!(a, GameAction::Done));
}

#[test]
fn start_trade_without_a_member() {
    let (f, _) = StartTradeFlow::start(GUILD, DiscordId(700), None);
    let (_, a) = f.resume(done(TaskReturnData::Empty));
    assert!(matches!(a, GameAction::Fail { reason: FailReason::NoInteractor }));
}

#[test]
fn open_comms_needs_a_player() {
    let (f, a) = OpenCommsFlow::start(GUILD, DiscordId(800), me());
    assert!(matches!(a, GameAction::FindPlayer { discord_id: DiscordId(55) }));
    let (f, a) = f.resume(GameEvent::Player(Some(player(None))));
    assert_eq!(message_of(&a).message, "Comms opened!");
    assert_eq!(message_of(&a).channel_id, DiscordId(800));
    let (_, a) = f.resume(done(TaskReturnData::Empty));
    assert!(matches!(a, GameAction::Done));
    let (f, _) = OpenCommsFlow::start(GUILD, DiscordId(800), me());
    let (_, a) = f.resume(GameEvent::Player(None));
    assert!(matches!(a, GameAction::Fail { reason: FailReason::PlayerNotFound }));
    let (_, a) = OpenCommsFlow::start(GUILD, DiscordId(800), None);
    assert!(matches!(a, GameAction::Fail { reason: FailReason::NoInteractor }));
}

#[test]
fn team_change_menu_has_one_button_per_team_in_order() {
    let names = vec!["A-1".to_string(), "B-2".to_string()];
    let (f, a) = TeamChangeMenuFlow::start(GUILD, names);
    assert!(matches!(&a, GameAction::FindTeamByName { name } if name == "A-1"));
    let (f, a) = f.resume(GameEvent::Team(Some(team(1, "A-1", Some(10)))));
    assert!(matches!(&a, GameAction::FindTeamByName { name } if name == "B-2"));
    let (f, a) = f.resume(GameEvent::Team(Some(team(2, "B-2", Some(20)))));
    match &a {
        GameAction::RunTask { task: TaskType::ChannelHandler(h) } => match &h.task {
            ChannelTasks::Create(d) => {
                assert_eq!(d.name, "team-change");
                assert_eq!(d.category_id, None);
            }
            other => panic!("{:?}", other),
        },
        other => panic!("{:?}", other),
    }
    let channel = ChannelRecord { id: 3, discord_id: DiscordId(900), guild_fk_id: None, name: "team-change".to_string() };
    let (f, a) = f.resume(done(TaskReturnData::ChannelModel(channel)));
    let m = message_of(&a);
    assert_eq!(m.message, "Choose the team you'd like to join");
    assert_eq!(m.channel_id, DiscordId(900));
    let labels: Vec<&str> = m.buttons.iter().map(|b| b.component.label.as_deref().unwrap()).collect();
    assert_eq!(labels, vec!["Join A-1", "Join B-2"]);
    match &*m.buttons[1].data {
        Some(MessageData::Function(MechanicFunction::Menu(h))) => {
            assert!(matches!(h.task, MenuJobs::JoinTeam { channel_id: DiscordId(900), joining_team_id: DatabaseId(2) }))
        }
        other => panic!("{:?}", other),
    }
    let (f, a) = f.resume(done(TaskReturnData::Empty));
    assert!(matches!(a, GameAction::Done));
    assert_eq!(f.stage, TeamChangeStage::Finished);
}

#[test]
fn team_change_menu_stops_without_its_channel() {
    let (f, a) = TeamChangeMenuFlow::start(GUILD, Vec::new());
    assert!(matches!(a, GameAction::RunTask { .. }));
    let (_, a) = f.resume(done(TaskReturnData::Empty));
    assert!(matches!(a, GameAction::Fail { reason: FailReason::TeamChangeChannelNotCreated }));
    let (f, _) = TeamChangeMenuFlow::start(GUILD, vec!["gone".to_string()]);
    let (_, a) = f.resume(GameEvent::Team(None));
    assert!(matches!(a, GameAction::Fail { reason: FailReason::TeamNotFound }));
}

#[test]
fn mechanic_function_starts_the_right_flow() {
    let make = MechanicFunction::Team(TeamMechanicsHandler {
        guild_id: GUILD,
        task: TeamJobs::CreateTeam { name: "Z".to_string() },
    });
    let (flow, a) = make.handle(None);
    assert!(matches!(flow, MechanicFlow::CreateTeam(_)));
    assert!(matches!(a, GameAction::LoadGuild { guild_id: GUILD }));
    let idle = MechanicFunction::Team(TeamMechanicsHandler { guild_id: GUILD, task: TeamJobs::DeleteTeam });
    let (flow, a) = idle.handle(None);
    assert!(matches!(flow, MechanicFlow::Finished));
    assert!(matches!(a, GameAction::Done));
    let join = MechanicFunction::Menu(MenuMechanicsHandler {
        guild_id: GUILD,
        task: MenuJobs::JoinTeam { channel_id: DiscordId(1), joining_team_id: DatabaseId(2) },
    });
    let (flow, a) = join.handle(me());
    assert!(matches!(a, GameAction::LoadGuild { .. }));
    let (flow, a) = flow.resume(GameEvent::Guild(guild()));
    assert!(matches!(a, GameAction::GetOrCreatePlayer { .. }));
    assert!(matches!(flow, MechanicFlow::JoinTeam(_)));
}

#[test]
fn player_team_decisions() {
    let g = guild();
    assert!(matches!(player_team(&g, None, None), Err(GameDatabaseError::PlayerNotFound)));
    assert!(matches!(player_team(&g, Some(player(Some(1))), None), Err(GameDatabaseError::TeamNotFound)));
    let mut t = team(1, "t", None);
    t.fk_guild_id = DiscordId(1);
    assert!(matches!(player_team(&g, Some(player(Some(1))), Some(t)), Err(GameDatabaseError::GuildNotFound)));
    assert!(matches!(player_team(&g, Some(player(Some(1))), Some(team(1, "t", None))), Ok(t) if t.id == 1));
}

#[test]
fn lookups_add_what_is_missing() {
    assert_eq!(guild_lookup(None, DiscordId(5)), GuildLookup::Insert { discord_id: DiscordId(5) });
    assert_eq!(guild_lookup(Some(guild()), DiscordId(5)), GuildLookup::Found(guild()));
    match player_lookup(None, GUILD, DiscordId(6), "bo".to_string()) {
        PlayerLookup::Insert(p) => {
            assert_eq!(p.discord_id, DiscordId(6));
            assert_eq!(p.fk_guild_id, GUILD);
            assert_eq!(p.name, "bo");
        }
        other => panic!("{:?}", other),
    }
    assert!(matches!(player_lookup(Some(player(None)), GUILD, DiscordId(6), "bo".to_string()), PlayerLookup::Found(p) if p.id == 3));
}
