use megagame::components::{parse_custom_id, ButtonSpec, ButtonStyle, MessageComponent, MessageData, SelectMenuSpec};
use megagame::ids::DiscordId;
use megagame::records::{GuildRecord, TaskRecord};
use megagame::results::{TaskResult, TaskReturnData};
use megagame::runner::{
    await_step, category_request, channel_request, new_category, new_channel, pending_tasks, AwaitStep,
    TaskPlan, SEND_TTS_MESSAGES, VIEW_CHANNEL,
};
use megagame::tasks::{
    channel_delete_task, role_create_task, role_grant_task, ButtonHandler, ButtonTasks, ChannelCreateData,
    ChannelKind, CreateButtonTasks, MessageHandler, MessageTasks, SendChannelMessage, TaskType,
};

fn button(label: &str) -> ButtonSpec {
    ButtonSpec {
        custom_id: String::new(),
        label: Some(label.to_string()),
        emoji: None,
        style: ButtonStyle::Primary,
        disabled: false,
    }
}

fn is_hyphenated_uuid(s: &str) -> bool {
    s.len() == 36
        && s.chars().enumerate().all(|(i, c)| {
            if [8, 13, 18, 23].contains(&i) {
                c == '-'
            } else {
                c.is_ascii_hexdigit() && !c.is_ascii_uppercase()
            }
        })
}

#[test]
fn built_component_custom_id_reads_back_as_its_row() {
    let c = MessageComponent::new(button("Go"), None);
    let (finished, row) = c.build();
    assert!(is_hyphenated_uuid(&finished.custom_id));
    assert_eq!(parse_custom_id(&finished.custom_id), Some(row.id));
    assert_eq!((row.id >> 76) & 0xf, 4);
    assert_eq!((row.id >> 62) & 0x3, 2);
    assert_eq!(finished.label.as_deref(), Some("Go"));
    assert!(row.data.is_none());
}

#[test]
fn two_builds_get_different_ids() {
    let (a, ra) = MessageComponent::new(button("A"), None).build();
    let (b, rb) = MessageComponent::new(button("B"), None).build();
    assert_ne!(ra.id, rb.id);
    assert_ne!(a.custom_id, b.custom_id);
}

#[test]
fn parse_custom_id_reads_hyphenated_text() {
    let s = "a1a2a3a4-b1b2-c1c2-d1d2-d3d4d5d6d7d8".to_string();
    assert_eq!(parse_custom_id(&s), Some(0xa1a2a3a4b1b2c1c2d1d2d3d4d5d6d7d8));
    assert_eq!(parse_custom_id(&"not a uuid".to_string()), None);
    assert_eq!(parse_custom_id(&String::new()), None);
}

#[test]
fn build_components_menu_first_then_buttons_in_order() {
    let menu = SelectMenuSpec { custom_id: String::new(), options: Vec::new(), placeholder: None };
    let data = MessageData::Task(channel_delete_task(DiscordId(1), DiscordId(2)));
    let m = SendChannelMessage {
        channel_id: DiscordId(9),
        message: "text".to_string(),
        select_menu: Some(MessageComponent::new(menu, None)),
        buttons: vec![MessageComponent::new(button("one"), Some(data)), MessageComponent::new(button("two"), None)],
    };
    let built = m.build_components();
    assert_eq!(built.channel_id, DiscordId(9));
    assert_eq!(built.content, "text");
    assert_eq!(built.rows.len(), 3);
    assert_eq!(parse_custom_id(&built.select_menu.unwrap().custom_id), Some(built.rows[0].id));
    assert_eq!(built.buttons[0].label.as_deref(), Some("one"));
    assert_eq!(parse_custom_id(&built.buttons[0].custom_id), Some(built.rows[1].id));
    assert!(matches!(built.rows[1].data, Some(MessageData::Task(TaskType::ChannelHandler(_)))));
    assert_eq!(parse_custom_id(&built.buttons[1].custom_id), Some(built.rows[2].id));
    assert!(built.rows[2].data.is_none());
}

#[test]
fn build_components_without_menu() {
    let m = SendChannelMessage::default();
    assert_eq!(m.channel_id, DiscordId(0));
    let built = m.build_components();
    assert!(built.select_menu.is_none());
    assert!(built.buttons.is_empty());
    assert!(built.rows.is_empty());
}

#[test]
fn route_names_the_outside_work() {
    match channel_delete_task(DiscordId(3), DiscordId(4)).route() {
        TaskPlan::DeleteChannel { guild_id, id } => {
            assert_eq!(guild_id, DiscordId(3));
            assert_eq!(id, DiscordId(4));
        }
        other => panic!("{:?}", other),
    }
    match role_create_task(DiscordId(3), "Red".to_string(), 7).route() {
        TaskPlan::CreateRole { guild_id, name } => {
            assert_eq!(guild_id, DiscordId(3));
            assert_eq!(name, "Red");
        }
        other => panic!("{:?}", other),
    }
    assert!(matches!(
        role_grant_task(DiscordId(3), DiscordId(5), DiscordId(6), true).route(),
        TaskPlan::GrantRole { user_id: DiscordId(5), role_id: DiscordId(6), .. }
    ));
    assert!(matches!(
        role_grant_task(DiscordId(3), DiscordId(5), DiscordId(6), false).route(),
        TaskPlan::RevokeRole { user_id: DiscordId(5), role_id: DiscordId(6), .. }
    ));
    let button_task = TaskType::ButtonHandler(ButtonHandler {
        guild_id: 1,
        category_id: 2,
        task: ButtonTasks::Create(CreateButtonTasks::TeamButton { team_id: 1, channel_db_id: 2 }),
    });
    assert!(matches!(button_task.route(), TaskPlan::NoHandler));
    let message = TaskType::MessageHandler(MessageHandler {
        guild_id: DiscordId(8),
        task: MessageTasks::SendChannelMessage(SendChannelMessage::default()),
    });
    assert!(matches!(message.route(), TaskPlan::SendMessage { guild_id: DiscordId(8), .. }));
}

#[test]
fn await_step_waits_on_pending_only() {
    assert!(matches!(await_step(TaskResult::Pending), AwaitStep::Wait));
    assert!(matches!(
        await_step(TaskResult::Completed(TaskReturnData::Empty)),
        AwaitStep::Finished(TaskResult::Completed(TaskReturnData::Empty))
    ));
}

fn record(id: i32, completed: bool) -> TaskRecord {
    TaskRecord { id, payload: format!("p{}", id), status: String::new(), completed }
}

#[test]
fn completed_tasks_are_not_run_again() {
    let mut records = vec![record(1, false), record(2, true), record(3, false)];
    let pending: Vec<i32> = pending_tasks(&records).iter().map(|r| r.id).collect();
    assert_eq!(pending, vec![1, 3]);
    let done = records[0].clone().mark_completed();
    assert!(done.completed);
    assert_eq!(done.payload, "p1");
    records[0] = done;
    let pending: Vec<i32> = pending_tasks(&records).iter().map(|r| r.id).collect();
    assert_eq!(pending, vec![3]);
}

#[test]
fn category_request_lets_everyone_see_it() {
    let r = category_request("Team".to_string(), DiscordId(11));
    assert_eq!(r.name, "Team");
    assert_eq!(r.kind, ChannelKind::Category);
    assert!(r.category.is_none());
    assert_eq!(r.permissions.len(), 1);
    assert_eq!(r.permissions[0].allow, VIEW_CHANNEL);
    assert_eq!(r.permissions[0].deny, SEND_TTS_MESSAGES);
    assert_eq!(r.permissions[0].role, DiscordId(11));
    assert_eq!(VIEW_CHANNEL, 1 << 10);
    assert_eq!(SEND_TTS_MESSAGES, 1 << 12);
}

#[test]
fn channel_request_and_rows() {
    let r = channel_request(ChannelCreateData {
        name: "general".to_string(),
        category_id: Some(DiscordId(5)),
        kind: ChannelKind::Text,
    });
    assert_eq!(r.name, "general");
    assert_eq!(r.category, Some(DiscordId(5)));
    assert!(r.permissions.is_empty());
    let guild = GuildRecord { id: 4, discord_id: DiscordId(400) };
    let c = new_category("cat".to_string(), DiscordId(6), &guild);
    assert_eq!(c.fk_guild_id, Some(DiscordId(400)));
    let ch = new_channel(DiscordId(7), &guild, "chan".to_string());
    assert_eq!(ch.guild_fk_id, Some(4));
    assert_eq!(ch.discord_id, DiscordId(7));
}
