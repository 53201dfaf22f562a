use megagame::commands::{all_commands, CommandOptionKind, FakeTrade, InitializeGame, Nuke, TEST_GUILD_ID};
use megagame::components::MessageData;
use megagame::handler::{cache_ready, command_acknowledgement, command_for, component_action, str_eq, CommandKind, ComponentAction};
use megagame::ids::DiscordId;
use megagame::mechanics::menu::MenuJobs;
use megagame::mechanics::team::TeamJobs;
use megagame::mechanics::MechanicFunction;
use megagame::queue::MemoryTaskQueue;
use megagame::tasks::{channel_delete_task, CategoryTasks, ChannelTasks, TaskType};

#[test]
fn commands_are_registered_with_their_names() {
    let c = FakeTrade::register();
    assert_eq!((c.name.as_str(), c.description.as_str()), ("trade", "Start a test trade"));
    assert!(c.options.is_empty());
    let c = InitializeGame::register();
    assert_eq!((c.name.as_str(), c.description.as_str()), ("initialize", "Initialize the game"));
    let c = Nuke::register();
    assert_eq!((c.name.as_str(), c.description.as_str()), ("reset", "Nuke the server"));
    assert_eq!(c.options.len(), 1);
    assert_eq!(c.options[0].kind, CommandOptionKind::String);
    assert_eq!(c.options[0].name, "password");
    assert_eq!(c.options[0].description, "Confirm that you want to nuke the server");
    let names: Vec<String> = all_commands().into_iter().map(|c| c.name).collect();
    assert_eq!(names, vec!["trade", "initialize", "reset"]);
}

#[test]
fn registered_commands_are_answered() {
    for c in all_commands() {
        assert!(command_for(&c.name).is_some());
    }
    assert_eq!(command_for("trade"), Some(CommandKind::Trade));
    assert_eq!(command_for("initialize"), Some(CommandKind::Initialize));
    assert_eq!(command_for("reset"), Some(CommandKind::Reset));
    assert_eq!(command_for("Trade"), None);
    assert_eq!(command_for(""), None);
    assert_eq!(command_acknowledgement(), "Handling command...");
}

#[test]
fn str_eq_compares_characters() {
    assert!(str_eq("abc", "abc"));
    assert!(!str_eq("abc", "abd"));
    assert!(!str_eq("abc", "ab"));
    assert!(str_eq("", ""));
}

#[test]
fn fake_trade_queues_a_test_category() {
    let (task, reply) = FakeTrade::run();
    assert_eq!(reply, "Hey, I'm alive!");
    match task {
        TaskType::CategoryHandler(h) => {
            assert_eq!(h.guild_id, DiscordId(TEST_GUILD_ID));
            assert!(matches!(h.task, CategoryTasks::Create { name } if name == "test"));
        }
        other => panic!("{:?}", other),
    }
    assert_eq!(TEST_GUILD_ID, 345993194322001923);
}

#[test]
fn initialize_plan_names_three_teams() {
    let p = InitializeGame::plan(DiscordId(5), vec![1, 65535, 0]);
    assert_eq!(p.team_names, vec!["Airship-1", "Galleon-65535", "Submarine-0"]);
    assert_eq!(p.reply, "Made a team!");
    assert_eq!(p.mechanics.len(), 4);
    for (i, m) in p.mechanics.iter().take(3).enumerate() {
        match m {
            MechanicFunction::Team(h) => {
                assert_eq!(h.guild_id, DiscordId(5));
                assert!(matches!(&h.task, TeamJobs::CreateTeam { name } if *name == p.team_names[i]));
            }
            other => panic!("{:?}", other),
        }
    }
    match &p.mechanics[3] {
        MechanicFunction::Menu(h) => {
            assert!(matches!(&h.task, MenuJobs::RoleChangeMenu { team_names } if *team_names == p.team_names));
        }
        other => panic!("{:?}", other),
    }
}

#[test]
fn initialize_run_draws_a_number_per_team() {
    let p = InitializeGame::run(DiscordId(5));
    assert_eq!(p.suffixes.len(), 3);
    for (i, base) in ["Airship", "Galleon", "Submarine"].iter().enumerate() {
        assert_eq!(p.team_names[i], format!("{}-{}", base, p.suffixes[i]));
    }
}

#[test]
fn nuke_deletes_every_channel_in_order() {
    let (tasks, reply) = Nuke::run(DiscordId(3), &vec![DiscordId(10), DiscordId(20)]);
    assert_eq!(reply, "Nuked the server!");
    let ids: Vec<u64> = tasks
        .iter()
        .map(|t| match t {
            TaskType::ChannelHandler(h) => match h.task {
                ChannelTasks::Delete { id } => id.0,
                _ => panic!("not a deletion"),
            },
            _ => panic!("not a channel task"),
        })
        .collect();
    assert_eq!(ids, vec![10, 20]);
    let (tasks, _) = Nuke::run(DiscordId(3), &Vec::new());
    assert!(tasks.is_empty());
}

#[test]
fn pressed_components_are_dispatched() {
    assert!(matches!(component_action(None, true), ComponentAction::ReplyEmpty { reply } if reply == "That interaction is empty!"));
    assert!(matches!(component_action(None, false), ComponentAction::ReplyEmpty { .. }));
    let t = MessageData::Task(channel_delete_task(DiscordId(1), DiscordId(2)));
    assert!(matches!(component_action(Some(t), true), ComponentAction::RunTask { .. }));
    let t = MessageData::Task(channel_delete_task(DiscordId(1), DiscordId(2)));
    assert!(matches!(component_action(Some(t), false), ComponentAction::Ignore));
    let m = MessageData::Function(MechanicFunction::Team(megagame::mechanics::team::TeamMechanicsHandler {
        guild_id: DiscordId(1),
        task: TeamJobs::DeleteTeam,
    }));
    assert!(matches!(component_action(Some(m), true), ComponentAction::RunMechanic { .. }));
}

#[test]
fn cache_ready_starts_the_loop_once() {
    let first = cache_ready(false, true);
    assert!(first.start_runner && first.start_tests && first.loop_running);
    let first = cache_ready(false, false);
    assert!(first.start_runner && !first.start_tests);
    let again = cache_ready(true, true);
    assert!(!again.start_runner && !again.start_tests && again.loop_running);
}

#[test]
fn memory_queue_hands_out_each_task_once() {
    let mut q = MemoryTaskQueue::new();
    q.add_task(channel_delete_task(DiscordId(1), DiscordId(2)));
    q.add_task(channel_delete_task(DiscordId(1), DiscordId(3)));
    let taken = q.get_available_tasks();
    assert_eq!(taken.len(), 2);
    assert!(matches!(&taken[1], TaskType::ChannelHandler(h) if matches!(h.task, ChannelTasks::Delete { id: DiscordId(3) })));
    assert!(q.get_available_tasks().is_empty());
}
