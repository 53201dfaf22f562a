//! The tasks that the bot queues in its database. Each variant of `TaskType`
//! names a handler and holds the data that the handler needs.
use vstd::prelude::*;

use crate::components::{ButtonSpec, MessageComponent, SelectMenuSpec};
use crate::ids::DiscordId;

verus! {

/// A direct message to send to the user with id `player_id`.
#[derive(Clone, Debug)]
pub struct MessageUser {
    pub player_id: u64,
    pub message: String,
}

/// A queued task together with the id of its database row.
#[derive(Debug)]
pub struct DbTask {
    pub id: i32,
    pub task: TaskType,
}

/// The different tasks the bot can do.
#[derive(Debug)]
pub enum TaskType {
    ButtonHandler(ButtonHandler),
    CategoryHandler(CategoryHandler),
    ChannelHandler(ChannelHandler),
    DropdownHandler(DropdownHandler),
    MessageHandler(MessageHandler),
    RoleHandler(RoleHandler),
    ThreadHandler(ThreadHandler),
}

/// Buttons of a team channel.
#[derive(Clone, Debug)]
pub struct ButtonHandler {
    pub guild_id: u64,
    pub category_id: u64,
    pub task: ButtonTasks,
}

#[derive(Clone, Debug)]
pub enum ButtonTasks {
    Create(CreateButtonTasks),
    Delete(DeleteButtonTasks),
}

#[derive(Clone, Copy, Debug, PartialEq, Eq, Structural)]
pub enum CreateButtonTasks {
    TeamButton { team_id: u64, channel_db_id: u64 },
}

#[derive(Clone, Copy, Debug, PartialEq, Eq, Structural)]
pub enum DeleteButtonTasks {
    TeamChannel { team_id: u64 },
    PublicChannel { id: u64 },
}

/// Creating and deleting channel categories.
#[derive(Clone, Debug)]
pub struct CategoryHandler {
    pub guild_id: DiscordId,
    pub task: CategoryTasks,
}

#[derive(Clone, Debug)]
pub enum CategoryTasks {
    Create { name: String },
    Delete { discord_id: DiscordId },
}

/// The kinds of Discord channel that the bot creates.
#[derive(Clone, Copy, Debug, PartialEq, Eq, Structural)]
pub enum ChannelKind {
    Text,
    Voice,
    Category,
}

/// Creating and deleting channels.
#[derive(Clone, Debug)]
pub struct ChannelHandler {
    pub guild_id: DiscordId,
    pub task: ChannelTasks,
}

#[derive(Clone, Debug)]
pub enum ChannelTasks {
    Create(ChannelCreateData),
    Delete { id: DiscordId },
}

/// What a new channel is: its name, the category it sits in, and its kind.
#[derive(Clone, Debug)]
pub struct ChannelCreateData {
    pub name: String,
    pub category_id: Option<DiscordId>,
    pub kind: ChannelKind,
}

/// Dropdown menus of a team channel.
#[derive(Clone, Debug)]
pub struct DropdownHandler {
    pub guild_id: u64,
    pub category_id: u64,
    pub task: DropdownTasks,
}

#[derive(Clone, Debug)]
pub enum DropdownTasks {
    Create(CreateDropdownTasks),
    Delete(DeleteDropdownTasks),
}

#[derive(Clone, Copy, Debug, PartialEq, Eq, Structural)]
pub enum CreateDropdownTasks {
    TeamDropdown { team_id: u64, channel_db_id: u64 },
}

#[derive(Clone, Copy, Debug, PartialEq, Eq, Structural)]
pub enum DeleteDropdownTasks {
    TeamChannel { team_id: u64 },
    PublicChannel { id: u64 },
}

/// Sending messages.
#[derive(Debug)]
pub struct MessageHandler {
    pub guild_id: DiscordId,
    pub task: MessageTasks,
}

#[derive(Debug)]
pub enum MessageTasks {
    SendChannelMessage(SendChannelMessage),
}

/// A message to a channel, with an optional select menu and buttons.
#[derive(Debug)]
pub struct SendChannelMessage {
    pub channel_id: DiscordId,
    pub message: String,
    pub select_menu: Option<MessageComponent<SelectMenuSpec>>,
    pub buttons: Vec<MessageComponent<ButtonSpec>>,
}

impl Default for SendChannelMessage {
    fn default() -> (r: Self)
        ensures
            r.channel_id == DiscordId(0),
            r.message@ == Seq::<char>::empty(),
            r.select_menu is None,
            r.buttons@ == Seq::<MessageComponent<ButtonSpec>>::empty(),
    {
        SendChannelMessage {
            channel_id: DiscordId(0),
            message: String::new(),
            select_menu: None,
            buttons: Vec::new(),
        }
    }
}

/// Creating, deleting, granting and taking away roles.
#[derive(Clone, Debug)]
pub struct RoleHandler {
    pub guild_id: DiscordId,
    pub task: RoleTasks,
}

#[derive(Clone, Debug)]
pub enum RoleTasks {
    Create(CreateRoleTasks),
    Delete(DeleteRoleTasks),
    AddRoleToUser(AddRoleToUser),
    RemoveRoleFromUser(RemoveRoleFromUser),
}

#[derive(Clone, Debug)]
pub enum CreateRoleTasks {
    TeamRole { team_id: u64, channel_db_id: u64 },
    Role { name: String, color: u32 },
}

#[derive(Clone, Copy, Debug, PartialEq, Eq, Structural)]
pub enum DeleteRoleTasks {
    TeamChannel { team_id: u64 },
    PublicChannel { id: u64 },
}

/// Grant a role to a user.
#[derive(Clone, Copy, Debug, PartialEq, Eq, Structural)]
pub struct AddRoleToUser {
    pub user_id: DiscordId,
    pub role_id: DiscordId,
}

/// Take a role away from a user.
#[derive(Clone, Copy, Debug, PartialEq, Eq, Structural)]
pub struct RemoveRoleFromUser {
    pub user_id: DiscordId,
    pub role_id: DiscordId,
}

/// Threads of a team channel.
#[derive(Clone, Debug)]
pub struct ThreadHandler {
    pub guild_id: u64,
    pub category_id: u64,
    pub task: ThreadTasks,
}

#[derive(Clone, Debug)]
pub enum ThreadTasks {
    Create(CreateThreadTasks),
    Delete(DeleteThreadTasks),
}

#[derive(Clone, Copy, Debug, PartialEq, Eq, Structural)]
pub enum CreateThreadTasks {
    TeamThread { team_id: u64, channel_db_id: u64 },
}

#[derive(Clone, Copy, Debug, PartialEq, Eq, Structural)]
pub enum DeleteThreadTasks {
    TeamChannel { team_id: u64 },
    PublicChannel { id: u64 },
}

} // verus!

verus! {

/// The colour given to a team's role.
pub const TEAM_ROLE_COLOR: u32 = 0x00ff00;

/// Whether `t` creates a role named `name`, of colour `color`, in a guild.
pub open spec fn is_role_create_task(t: TaskType, guild: DiscordId, name: Seq<char>, color: u32) -> bool {
    match t {
        TaskType::RoleHandler(h) => h.guild_id == guild && match h.task {
            RoleTasks::Create(CreateRoleTasks::Role { name: n, color: c }) => n@ == name && c == color,
            _ => false,
        },
        _ => false,
    }
}

/// The task that creates a role named `name`, of colour `color`, in a guild.
pub fn role_create_task(guild: DiscordId, name: String, color: u32) -> (t: TaskType)
    ensures
        is_role_create_task(t, guild, name@, color),
{
    TaskType::RoleHandler(
        RoleHandler { guild_id: guild, task: RoleTasks::Create(CreateRoleTasks::Role { name, color }) },
    )
}

/// Whether `t` grants (when `add`) or takes away a role from a user.
pub open spec fn is_role_grant_task(
    t: TaskType,
    guild: DiscordId,
    user: DiscordId,
    role: DiscordId,
    add: bool,
) -> bool {
    match t {
        TaskType::RoleHandler(h) => h.guild_id == guild && match h.task {
            RoleTasks::AddRoleToUser(r) => add && r.user_id == user && r.role_id == role,
            RoleTasks::RemoveRoleFromUser(r) => !add && r.user_id == user && r.role_id == role,
            _ => false,
        },
        _ => false,
    }
}

/// The task that grants (when `add`) or takes away a role from a user.
pub fn role_grant_task(guild: DiscordId, user: DiscordId, role: DiscordId, add: bool) -> (t:
    TaskType)
    ensures
        is_role_grant_task(t, guild, user, role, add),
{
    let task = if add {
        RoleTasks::AddRoleToUser(AddRoleToUser { user_id: user, role_id: role })
    } else {
        RoleTasks::RemoveRoleFromUser(RemoveRoleFromUser { user_id: user, role_id: role })
    };
    TaskType::RoleHandler(RoleHandler { guild_id: guild, task })
}

/// Whether `t` creates a channel category named `name` in a guild.
pub open spec fn is_category_create_task(t: TaskType, guild: DiscordId, name: Seq<char>) -> bool {
    match t {
        TaskType::CategoryHandler(h) => h.guild_id == guild && match h.task {
            CategoryTasks::Create { name: n } => n@ == name,
            _ => false,
        },
        _ => false,
    }
}

/// The task that creates a channel category named `name` in a guild.
pub fn category_create_task(guild: DiscordId, name: String) -> (t: TaskType)
    ensures
        is_category_create_task(t, guild, name@),
{
    TaskType::CategoryHandler(CategoryHandler { guild_id: guild, task: CategoryTasks::Create { name } })
}

/// Whether `t` creates a channel of a guild named `name`, of kind `kind`, in
/// the category `category`.
pub open spec fn is_channel_create_task(
    t: TaskType,
    guild: DiscordId,
    name: Seq<char>,
    category: Option<DiscordId>,
    kind: ChannelKind,
) -> bool {
    match t {
        TaskType::ChannelHandler(h) => h.guild_id == guild && match h.task {
            ChannelTasks::Create(d) => d.name@ == name && d.category_id == category && d.kind == kind,
            _ => false,
        },
        _ => false,
    }
}

/// The task that creates a channel of a guild named `name`, of kind `kind`,
/// in the category `category`.
pub fn channel_create_task(
    guild: DiscordId,
    name: String,
    category: Option<DiscordId>,
    kind: ChannelKind,
) -> (t: TaskType)
    ensures
        is_channel_create_task(t, guild, name@, category, kind),
{
    TaskType::ChannelHandler(
        ChannelHandler {
            guild_id: guild,
            task: ChannelTasks::Create(ChannelCreateData { name, category_id: category, kind }),
        },
    )
}

/// Whether `t` deletes the channel `channel` of a guild.
pub open spec fn is_channel_delete_task(t: TaskType, guild: DiscordId, channel: DiscordId) -> bool {
    match t {
        TaskType::ChannelHandler(h) => h.guild_id == guild && match h.task {
            ChannelTasks::Delete { id } => id == channel,
            _ => false,
        },
        _ => false,
    }
}

/// The task that deletes the channel `channel` of a guild.
pub fn channel_delete_task(guild: DiscordId, channel: DiscordId) -> (t: TaskType)
    ensures
        is_channel_delete_task(t, guild, channel),
{
    TaskType::ChannelHandler(ChannelHandler { guild_id: guild, task: ChannelTasks::Delete { id: channel } })
}

} // verus!
