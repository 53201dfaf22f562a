use megagame::create_tasks::{ActionRow, Animal, CreateChannel, CreateDropdown};
use megagame::components::SelectOption;
use megagame::ids::DiscordId;
use megagame::records::{CategoryRecord, TeamRecord};
use megagame::results::{TaskResult, TaskReturnData};
use megagame::tasks::{CategoryTasks, ChannelKind, TaskType};
use megagame::testing::{
    assert_not_error, CachedChannel, CategoryCheck, CategoryCreateError, ChannelCheck, DatabaseStatus,
    DiscordConstruct, DiscordStatus, TestAction, TestEvent, TestHelpers,
};

fn team(name: &str) -> TeamRecord {
    TeamRecord { id: 1, name: name.to_string(), fk_guild_id: DiscordId(1), fk_team_role_id: None, fk_menu_channel_id: None }
}

fn category(id: u64) -> CategoryRecord {
    CategoryRecord { id: 2, discord_id: DiscordId(id), fk_guild_id: None, name: "c".to_string() }
}

#[test]
fn random_names_are_twenty_letters_or_digits() {
    let n = TestHelpers::generate_name();
    assert_eq!(n.chars().count(), 20);
    assert!(n.chars().all(|c| c.is_ascii_alphanumeric()));
}

#[test]
fn discord_status_needs_exactly_one_category() {
    let cat = |name: &str| CachedChannel { kind: ChannelKind::Category, name: name.to_string() };
    let text = |name: &str| CachedChannel { kind: ChannelKind::Text, name: name.to_string() };
    let look = DiscordConstruct::Category { name: "red".to_string() };
    assert_eq!(TestHelpers::check_discord_status(&vec![cat("red"), text("red")], &look), DiscordStatus::Exists);
    assert_eq!(TestHelpers::check_discord_status(&vec![text("red")], &look), DiscordStatus::DoesNotExist);
    assert_eq!(TestHelpers::check_discord_status(&vec![cat("red"), cat("red")], &look), DiscordStatus::DoesNotExist);
    assert_eq!(TestHelpers::check_discord_status(&Vec::new(), &look), DiscordStatus::DoesNotExist);
    assert_eq!(TestHelpers::check_database_status(Some(category(1))), DatabaseStatus::Exists);
    assert_eq!(TestHelpers::check_database_status(None), DatabaseStatus::DoesNotExist);
}

#[test]
fn category_check_passes_when_all_is_found() {
    let (c, a) = CategoryCheck::start();
    assert!(matches!(a, TestAction::GenerateTeam));
    let (c, a) = c.resume(TestEvent::Team(team("blue")));
    assert!(matches!(&a, TestAction::RunTask { task: TaskType::CategoryHandler(h) } if matches!(&h.task, CategoryTasks::Create { name } if name == "blue")));
    let (c, a) = c.resume(TestEvent::TaskDone(TaskResult::Completed(TaskReturnData::CategoryModel(category(77)))));
    assert!(matches!(&a, TestAction::CheckDiscord { construct: DiscordConstruct::Category { name } } if name == "blue"));
    let (c, a) = c.resume(TestEvent::Discord(DiscordStatus::Exists));
    assert!(matches!(a, TestAction::CheckDatabase { .. }));
    let (c, a) = c.resume(TestEvent::Database(DatabaseStatus::Exists));
    assert!(matches!(&a, TestAction::RunTask { task: TaskType::CategoryHandler(h) } if matches!(h.task, CategoryTasks::Delete { discord_id: DiscordId(77) })));
    let (c, a) = c.resume(TestEvent::TaskDone(TaskResult::Completed(TaskReturnData::Empty)));
    assert!(matches!(a, TestAction::CheckDiscord { .. }));
    let (_, a) = c.resume(TestEvent::Discord(DiscordStatus::DoesNotExist));
    match a {
        TestAction::Finish { result } => assert_not_error(result),
        other => panic!("{:?}", other),
    }
}

#[test]
fn category_check_reports_each_failure() {
    let to_saved = || {
        let (c, _) = CategoryCheck::start();
        let (c, _) = c.resume(TestEvent::Team(team("x")));
        let (c, _) = c.resume(TestEvent::TaskDone(TaskResult::Completed(TaskReturnData::CategoryModel(category(1)))));
        c
    };
    let (c, _) = CategoryCheck::start();
    let (c, _) = c.resume(TestEvent::Team(team("x")));
    let (_, a) = c.resume(TestEvent::TaskDone(TaskResult::Pending));
    assert!(matches!(a, TestAction::Finish { result: Err(CategoryCreateError::CategoryNotCreated) }));
    let (_, a) = to_saved().resume(TestEvent::Discord(DiscordStatus::DoesNotExist));
    assert!(matches!(a, TestAction::Finish { result: Err(CategoryCreateError::CategoryNotCreated) }));
    let (c, _) = to_saved().resume(TestEvent::Discord(DiscordStatus::Exists));
    let (_, a) = c.resume(TestEvent::Database(DatabaseStatus::DoesNotExist));
    assert!(matches!(a, TestAction::Finish { result: Err(CategoryCreateError::CategoryNotSaved) }));
    let (c, _) = to_saved().resume(TestEvent::Discord(DiscordStatus::Exists));
    let (c, _) = c.resume(TestEvent::Database(DatabaseStatus::Exists));
    let (c, _) = c.resume(TestEvent::TaskDone(TaskResult::Pending));
    let (_, a) = c.resume(TestEvent::Discord(DiscordStatus::Exists));
    assert!(matches!(a, TestAction::Finish { result: Err(CategoryCreateError::CategoryNotDeleted) }));
}

#[test]
fn channel_check_looks_for_the_category_of_the_team() {
    let (c, _) = ChannelCheck::start();
    let (c, a) = c.resume(TestEvent::Team(team("green")));
    assert!(matches!(&a, TestAction::RunTask { task: TaskType::ChannelHandler(_) }));
    let (c, a) = c.resume(TestEvent::TaskDone(TaskResult::Pending));
    assert!(matches!(&a, TestAction::CheckDiscord { construct: DiscordConstruct::Category { name } } if name == "green"));
    let (c, _) = c.resume(TestEvent::Discord(DiscordStatus::Exists));
    let (_, a) = c.resume(TestEvent::Database(DatabaseStatus::DoesNotExist));
    assert!(matches!(a, TestAction::Finish { result: Err(CategoryCreateError::CategoryNotInDatabase) }));
    let (c, _) = ChannelCheck::start();
    let (c, _) = c.resume(TestEvent::Team(team("green")));
    let (c, _) = c.resume(TestEvent::TaskDone(TaskResult::Pending));
    let (_, a) = c.resume(TestEvent::Discord(DiscordStatus::DoesNotExist));
    assert!(matches!(a, TestAction::Finish { result: Err(CategoryCreateError::CategoryNotCreated) }));
}

#[test]
fn dropdown_menu_adds_the_animals() {
    let d = CreateDropdown {
        guild_id: 1,
        channel_id: 2,
        custom_id: "id".to_string(),
        options: vec![SelectOption { label: "Fish".to_string(), value: "fish".to_string() }],
    };
    let m = d.select_menu();
    assert_eq!(m.custom_id, "animal_select");
    assert_eq!(m.placeholder.as_deref(), Some("No animal selected"));
    let values: Vec<&str> = m.options.iter().map(|o| o.value.as_str()).collect();
    assert_eq!(values, vec!["fish", "cat", "dog", "horse", "alpaca"]);
    assert_eq!(CreateDropdown::menu_option(Animal::Horse).label, "\u{1F40E} Horse");
    assert!(matches!(d.action_row(), ActionRow::SelectMenu(m) if m.options.len() == 5));
    let (channel, text, row) = d.handle();
    assert_eq!(channel, 2);
    assert_eq!(text, "Hello, world!");
    assert!(matches!(&row, ActionRow::Buttons(b) if b.len() == 1 && b[0].label.as_deref() == Some("test1")));
    match row {
        ActionRow::Buttons(b) => {
            assert_eq!(b[0].custom_id, "");
            assert!(b[0].emoji.is_none());
            assert_eq!(b[0].style, megagame::components::ButtonStyle::Primary);
            assert!(!b[0].disabled);
        }
        ActionRow::SelectMenu(_) => panic!("a button row was expected"),
    }
}

#[test]
fn create_channel_asks_for_a_text_channel_in_its_category() {
    let c = CreateChannel { guild_id: 1, category_id: 42, channel_name: "ops".to_string() };
    let r = c.handle();
    assert_eq!(r.name, "ops");
    assert_eq!(r.kind, ChannelKind::Text);
    assert_eq!(r.category, Some(DiscordId(42)));
}
