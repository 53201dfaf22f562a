use megagame::create_tasks::{
    CategoryGuildRow, CategoryRow, CategoryTaskAction, CategoryTaskEvent, CategoryTaskFailure,
    CategoryTaskStage, CategoryTeamRow, CreateCategory, CreateCategoryFlow, CreateCategoryKind,
};
use megagame::ids::DiscordId;
use megagame::runner::{SEND_TTS_MESSAGES, VIEW_CHANNEL};
use megagame::tasks::ChannelKind;

fn task(kind: CreateCategoryKind) -> CreateCategory {
    CreateCategory { guild_id: 345993194322001923, category_name: "Blue".to_string(), kind }
}

fn team_row() -> CategoryTeamRow {
    CategoryTeamRow { id: 7, name: "Old name".to_string(), category_id: None }
}

fn step(f: CreateCategoryFlow, e: CategoryTaskEvent) -> (CreateCategoryFlow, CategoryTaskAction) {
    f.resume(e)
}

#[test]
fn public_category_is_made_and_not_recorded() {
    let (f, a) = task(CreateCategoryKind::Public).handle();
    assert!(matches!(a, CategoryTaskAction::FindEveryoneRole { guild_id: 345993194322001923 }));
    let (f, a) = step(f, CategoryTaskEvent::EveryoneRole(Some(DiscordId(11))));
    match &a {
        CategoryTaskAction::MakeCategory { guild_id, request } => {
            assert_eq!(*guild_id, 345993194322001923);
            assert_eq!(request.name, "Blue");
            assert_eq!(request.kind, ChannelKind::Category);
            assert!(request.category.is_none());
            assert_eq!(request.permissions.len(), 1);
            assert_eq!(request.permissions[0].allow, VIEW_CHANNEL);
            assert_eq!(request.permissions[0].deny, SEND_TTS_MESSAGES);
            assert_eq!(request.permissions[0].role, DiscordId(11));
        }
        other => panic!("unexpected {:?}", other),
    }
    let (f, a) = step(f, CategoryTaskEvent::CategoryMade(Some(DiscordId(500))));
    assert!(matches!(a, CategoryTaskAction::Done));
    assert!(matches!(f.stage, CategoryTaskStage::Finished));
}

#[test]
fn team_category_is_named_after_the_team_row_and_recorded() {
    let (f, _) = task(CreateCategoryKind::Team { team_id: 7 }).handle();
    let (f, a) = step(f, CategoryTaskEvent::EveryoneRole(Some(DiscordId(11))));
    assert!(matches!(a, CategoryTaskAction::FindTeam { id: 7 }));
    let (f, a) = step(f, CategoryTaskEvent::Team(Some(team_row())));
    match &a {
        CategoryTaskAction::MakeCategory { request, .. } => assert_eq!(request.name, "Old name"),
        other => panic!("unexpected {:?}", other),
    }
    let (f, a) = step(f, CategoryTaskEvent::CategoryMade(Some(DiscordId(500))));
    assert!(matches!(a, CategoryTaskAction::FindTeam { id: 7 }));
    let (f, a) = step(f, CategoryTaskEvent::Team(Some(team_row())));
    // The guild's Discord id is cut to 32 bits on its way to the database.
    assert!(matches!(a, CategoryTaskAction::FindGuild { discord_id } if discord_id == 345993194322001923u64 as i32));
    let (f, a) = step(f, CategoryTaskEvent::Guild(None));
    assert!(matches!(a, CategoryTaskAction::InsertGuild { .. }));
    let (f, a) = step(f, CategoryTaskEvent::Guild(Some(CategoryGuildRow { id: 3, discord_id: 1 })));
    assert!(matches!(a, CategoryTaskAction::FindCategory { discord_id: 500 }));
    let (f, a) = step(f, CategoryTaskEvent::Category(None));
    match &a {
        CategoryTaskAction::InsertCategory { name, discord_id, guild_id } => {
            assert_eq!(name, "Blue");
            assert_eq!(*discord_id, 500);
            assert_eq!(*guild_id, Some(3));
        }
        other => panic!("unexpected {:?}", other),
    }
    let row = CategoryRow { id: 40, name: "Blue".to_string(), discord_id: 500, guild_id: Some(3) };
    let (f, a) = step(f, CategoryTaskEvent::Category(Some(row)));
    match &a {
        CategoryTaskAction::UpdateTeam { team } => {
            assert_eq!(team.id, 7);
            assert_eq!(team.name, "Blue");
            assert_eq!(team.category_id, Some(40));
        }
        other => panic!("unexpected {:?}", other),
    }
    let (f, a) = step(f, CategoryTaskEvent::Stored);
    assert!(matches!(a, CategoryTaskAction::Done));
    assert!(matches!(f.stage, CategoryTaskStage::Finished));
}

#[test]
fn missing_team_stops_the_category_task() {
    let (f, _) = task(CreateCategoryKind::Team { team_id: 7 }).handle();
    let (f, _) = step(f, CategoryTaskEvent::EveryoneRole(Some(DiscordId(11))));
    let (f, a) = step(f, CategoryTaskEvent::Team(None));
    assert!(matches!(a, CategoryTaskAction::Fail { reason: CategoryTaskFailure::TeamNotFound }));
    assert!(matches!(f.stage, CategoryTaskStage::Failed));
}

#[test]
fn missing_everyone_role_and_refused_category_stop_the_task() {
    let (f, _) = task(CreateCategoryKind::Public).handle();
    let (_, a) = step(f, CategoryTaskEvent::EveryoneRole(None));
    assert!(matches!(a, CategoryTaskAction::Fail { reason: CategoryTaskFailure::EveryoneRoleMissing }));
    let (f, _) = task(CreateCategoryKind::Public).handle();
    let (f, _) = step(f, CategoryTaskEvent::EveryoneRole(Some(DiscordId(1))));
    let (_, a) = step(f, CategoryTaskEvent::CategoryMade(None));
    assert!(matches!(a, CategoryTaskAction::Fail { reason: CategoryTaskFailure::CategoryNotCreated }));
}

#[test]
fn existing_rows_are_reused() {
    let (f, _) = task(CreateCategoryKind::Team { team_id: 7 }).handle();
    let (f, _) = step(f, CategoryTaskEvent::EveryoneRole(Some(DiscordId(11))));
    let (f, _) = step(f, CategoryTaskEvent::Team(Some(team_row())));
    let (f, _) = step(f, CategoryTaskEvent::CategoryMade(Some(DiscordId(500))));
    let (f, _) = step(f, CategoryTaskEvent::Team(Some(team_row())));
    let (f, a) = step(f, CategoryTaskEvent::Guild(Some(CategoryGuildRow { id: 3, discord_id: 1 })));
    assert!(matches!(a, CategoryTaskAction::FindCategory { discord_id: 500 }));
    let row = CategoryRow { id: 41, name: "Blue".to_string(), discord_id: 500, guild_id: Some(3) };
    let (_, a) = step(f, CategoryTaskEvent::Category(Some(row)));
    assert!(matches!(a, CategoryTaskAction::UpdateTeam { ref team } if team.category_id == Some(41)));
}
