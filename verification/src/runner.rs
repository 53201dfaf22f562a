//! Running queued tasks: what outside work each task calls for, how its
//! result is recorded, and how a caller waits for it.
use vstd::prelude::*;

use crate::components::{
    is_random_uuid, uuid_text, ButtonSpec, ComponentData, MessageComponent, SelectMenuSpec,
    SerenityComponent,
};
use crate::ids::DiscordId;
use crate::records::{GuildRecord, TaskRecord};
use crate::results::TaskResult;
use crate::tasks::{
    CategoryTasks, ChannelCreateData, ChannelKind, ChannelTasks,
    CreateRoleTasks, DropdownTasks, MessageTasks, RoleTasks, SendChannelMessage, TaskType,
};

verus! {

/// The outside work that a task calls for.
#[derive(Debug)]
pub enum TaskPlan {
    /// Make a category in the guild and record it.
    CreateCategory { guild_id: DiscordId, name: String },
    /// Delete a category from the guild and from the records.
    DeleteCategory { guild_id: DiscordId, discord_id: DiscordId },
    /// Make a channel in the guild and record it.
    CreateChannel { guild_id: DiscordId, data: ChannelCreateData },
    /// Delete a channel from the guild and from the records.
    DeleteChannel { guild_id: DiscordId, id: DiscordId },
    /// Make a role in the guild and record it.
    CreateRole { guild_id: DiscordId, name: String },
    /// Grant a role to a member.
    GrantRole { guild_id: DiscordId, user_id: DiscordId, role_id: DiscordId },
    /// Take a role away from a member.
    RevokeRole { guild_id: DiscordId, user_id: DiscordId, role_id: DiscordId },
    /// Send a message to a channel.
    SendMessage { guild_id: DiscordId, message: SendChannelMessage },
    /// Look the guild up in the cache only.
    LookUpGuild { guild_id: u64 },
    /// No outside work.
    NoHandler,
}

impl TaskType {
    /// The outside work that the task calls for. The handlers of buttons
    /// and threads, of team roles, of role deletion and of dropdown deletion
    /// are missing; a new dropdown only looks the guild up.
    pub fn route(self) -> (r: TaskPlan)
        ensures
            match self {
                TaskType::CategoryHandler(h) => match h.task {
                    CategoryTasks::Create { name } => r == (TaskPlan::CreateCategory {
                        guild_id: h.guild_id,
                        name,
                    }),
                    CategoryTasks::Delete { discord_id } => r == (TaskPlan::DeleteCategory {
                        guild_id: h.guild_id,
                        discord_id,
                    }),
                },
                TaskType::ChannelHandler(h) => match h.task {
                    ChannelTasks::Create(data) => r == (TaskPlan::CreateChannel {
                        guild_id: h.guild_id,
                        data,
                    }),
                    ChannelTasks::Delete { id } => r == (TaskPlan::DeleteChannel {
                        guild_id: h.guild_id,
                        id,
                    }),
                },
                TaskType::RoleHandler(h) => match h.task {
                    RoleTasks::Create(CreateRoleTasks::Role { name, color: _ }) => r == (
                    TaskPlan::CreateRole { guild_id: h.guild_id, name }),
                    RoleTasks::AddRoleToUser(a) => r == (TaskPlan::GrantRole {
                        guild_id: h.guild_id,
                        user_id: a.user_id,
                        role_id: a.role_id,
                    }),
                    RoleTasks::RemoveRoleFromUser(a) => r == (TaskPlan::RevokeRole {
                        guild_id: h.guild_id,
                        user_id: a.user_id,
                        role_id: a.role_id,
                    }),
                    _ => r == TaskPlan::NoHandler,
                },
                TaskType::MessageHandler(h) => match h.task {
                    MessageTasks::SendChannelMessage(m) => r == (TaskPlan::SendMessage {
                        guild_id: h.guild_id,
                        message: m,
                    }),
                },
                TaskType::DropdownHandler(h) => match h.task {
                    DropdownTasks::Create(_) => r == (TaskPlan::LookUpGuild {
                        guild_id: h.guild_id,
                    }),
                    DropdownTasks::Delete(_) => r == TaskPlan::NoHandler,
                },
                TaskType::ButtonHandler(_) => r == TaskPlan::NoHandler,
                TaskType::ThreadHandler(_) => r == TaskPlan::NoHandler,
            },
    {
        match self {
            TaskType::CategoryHandler(h) => match h.task {
                CategoryTasks::Create { name } => TaskPlan::CreateCategory {
                    guild_id: h.guild_id,
                    name,
                },
                CategoryTasks::Delete { discord_id } => TaskPlan::DeleteCategory {
                    guild_id: h.guild_id,
                    discord_id,
                },
            },
            TaskType::ChannelHandler(h) => match h.task {
                ChannelTasks::Create(data) => TaskPlan::CreateChannel { guild_id: h.guild_id, data },
                ChannelTasks::Delete { id } => TaskPlan::DeleteChannel { guild_id: h.guild_id, id },
            },
            TaskType::RoleHandler(h) => match h.task {
                RoleTasks::Create(CreateRoleTasks::Role { name, color: _ }) => TaskPlan::CreateRole {
                    guild_id: h.guild_id,
                    name,
                },
                RoleTasks::AddRoleToUser(a) => TaskPlan::GrantRole {
                    guild_id: h.guild_id,
                    user_id: a.user_id,
                    role_id: a.role_id,
                },
                RoleTasks::RemoveRoleFromUser(a) => TaskPlan::RevokeRole {
                    guild_id: h.guild_id,
                    user_id: a.user_id,
                    role_id: a.role_id,
                },
                _ => TaskPlan::NoHandler,
            },
            TaskType::MessageHandler(h) => match h.task {
                MessageTasks::SendChannelMessage(m) => TaskPlan::SendMessage {
                    guild_id: h.guild_id,
                    message: m,
                },
            },
            TaskType::DropdownHandler(h) => match h.task {
                DropdownTasks::Create(_) => TaskPlan::LookUpGuild { guild_id: h.guild_id },
                DropdownTasks::Delete(_) => TaskPlan::NoHandler,
            },
            TaskType::ButtonHandler(_) => TaskPlan::NoHandler,
            TaskType::ThreadHandler(_) => TaskPlan::NoHandler,
        }
    }
}

/// What a caller waiting on a task does with the status it read.
#[derive(Debug)]
pub enum AwaitStep {
    /// The task is still pending: read its status again later.
    Wait,
    /// The task is done: this is what it handed back.
    Finished(TaskResult),
}

/// What a caller waiting on a task does with the status it read: a pending
/// task is waited on; any other status is the answer.
pub fn await_step(status: TaskResult) -> (r: AwaitStep)
    ensures
        match status {
            TaskResult::Pending => r matches AwaitStep::Wait,
            _ => r == AwaitStep::Finished(status),
        },
{
    match status {
        TaskResult::Pending => AwaitStep::Wait,
        _ => AwaitStep::Finished(status),
    }
}

/// The rows of the task table that are still to run, in order.
pub open spec fn pending_spec(records: Seq<TaskRecord>) -> Seq<TaskRecord> {
    records.filter(|r: TaskRecord| !r.completed)
}

/// The tasks that are still to run, in order.
pub fn pending_tasks(records: &Vec<TaskRecord>) -> (r: Vec<TaskRecord>)
    ensures
        r@ == pending_spec(records@),
{
    let mut r: Vec<TaskRecord> = Vec::new();
    let mut i: usize = 0;
    while i < records.len()
        invariant
            i <= records@.len(),
            r@ == pending_spec(records@.subrange(0, i as int)),
        decreases records.len() - i,
    {
        let rec = &records[i];
        proof {
            let s = records@.subrange(0, i as int + 1);
            assert(s.drop_last() =~= records@.subrange(0, i as int));
            assert(s.last() == records@[i as int]);
            reveal(Seq::filter);
        }
        if !rec.completed {
            r.push(rec.duplicate());
        }
        i = i + 1;
    }
    assert(records@.subrange(0, records@.len() as int) =~= records@);
    r
}

impl TaskRecord {
    /// A copy of the row.
    pub fn duplicate(&self) -> (r: TaskRecord)
        ensures
            r == *self,
    {
        TaskRecord {
            id: self.id,
            payload: self.payload.clone(),
            status: self.status.clone(),
            completed: self.completed,
        }
    }

    /// The row of a task that has run.
    pub fn mark_completed(self) -> (r: TaskRecord)
        ensures
            r == (TaskRecord { completed: true, ..self }),
    {
        TaskRecord { completed: true, ..self }
    }
}

/// A task that has run is no longer among the tasks to run, and the others
/// stay as they were: marking row `i` as completed removes it, and only it,
/// from the pending rows.
pub proof fn lemma_completed_task_not_rerun(records: Seq<TaskRecord>, i: int)
    requires
        0 <= i < records.len(),
        !records[i].completed,
    ensures
        ({
            let after = records.update(i, TaskRecord { completed: true, ..records[i] });
            &&& pending_spec(after).len() + 1 == pending_spec(records).len()
            &&& forall|r: TaskRecord| #[trigger]
                pending_spec(after).contains(r) ==> pending_spec(records).contains(r)
        }),
{
    let after = records.update(i, TaskRecord { completed: true, ..records[i] });
    let keep = |r: TaskRecord| !r.completed;
    let prefix = records.subrange(0, i);
    let suffix = records.subrange(i + 1, records.len() as int);
    assert(records =~= prefix + seq![records[i]] + suffix);
    assert(after =~= prefix + seq![after[i]] + suffix);
    Seq::filter_distributes_over_add(prefix + seq![records[i]], suffix, keep);
    Seq::filter_distributes_over_add(prefix, seq![records[i]], keep);
    Seq::filter_distributes_over_add(prefix + seq![after[i]], suffix, keep);
    Seq::filter_distributes_over_add(prefix, seq![after[i]], keep);
    reveal(Seq::filter);
    assert(seq![records[i]].filter(keep) =~= seq![records[i]]) by {
        assert(seq![records[i]].drop_last() =~= Seq::<TaskRecord>::empty());
    }
    assert(seq![after[i]].filter(keep) =~= Seq::<TaskRecord>::empty()) by {
        assert(seq![after[i]].drop_last() =~= Seq::<TaskRecord>::empty());
    }
    assert forall|r: TaskRecord| #[trigger] pending_spec(after).contains(r) implies pending_spec(
        records,
    ).contains(r) by {
        let j = choose|j: int| 0 <= j < pending_spec(after).len() && pending_spec(after)[j] == r;
        let pa = prefix.filter(keep);
        let sa = suffix.filter(keep);
        assert(pending_spec(after) =~= pa + sa);
        assert(pending_spec(records) =~= pa + seq![records[i]] + sa);
        if j < pa.len() {
            assert(pending_spec(records)[j] == r);
        } else {
            assert(pending_spec(records)[j + 1] == r);
        }
    }
}


/// The permission to see a channel.
pub const VIEW_CHANNEL: u64 = 1024;

/// The permission to send text-to-speech messages.
pub const SEND_TTS_MESSAGES: u64 = 4096;

/// The permissions that a channel grants and denies to a role.
#[derive(Clone, Copy, Debug, PartialEq, Eq, Structural)]
pub struct PermissionOverwrite {
    pub allow: u64,
    pub deny: u64,
    pub role: DiscordId,
}

/// A channel to make on Discord.
#[derive(Clone, Debug)]
pub struct ChannelRequest {
    pub name: String,
    pub kind: ChannelKind,
    pub category: Option<DiscordId>,
    pub permissions: Vec<PermissionOverwrite>,
}

/// The category that a category task makes: everyone may see it, and no one
/// may send text-to-speech messages in it.
pub fn category_request(name: String, everyone_role: DiscordId) -> (r: ChannelRequest)
    ensures
        r.name == name,
        r.kind == ChannelKind::Category,
        r.category is None,
        r.permissions@ == seq![
            PermissionOverwrite { allow: VIEW_CHANNEL, deny: SEND_TTS_MESSAGES, role: everyone_role },
        ],
{
    let mut permissions: Vec<PermissionOverwrite> = Vec::new();
    permissions.push(
        PermissionOverwrite { allow: VIEW_CHANNEL, deny: SEND_TTS_MESSAGES, role: everyone_role },
    );
    ChannelRequest { name, kind: ChannelKind::Category, category: None, permissions }
}

/// The channel that a channel task makes: its name, kind and category, with
/// no special permissions.
pub fn channel_request(data: ChannelCreateData) -> (r: ChannelRequest)
    ensures
        r.name == data.name,
        r.kind == data.kind,
        r.category == data.category_id,
        r.permissions@.len() == 0,
{
    ChannelRequest {
        name: data.name,
        kind: data.kind,
        category: data.category_id,
        permissions: Vec::new(),
    }
}

/// The row that records a category made on Discord.
#[derive(Clone, Debug)]
pub struct NewCategory {
    pub name: String,
    pub discord_id: DiscordId,
    pub fk_guild_id: Option<DiscordId>,
}

/// The row that records a category made on Discord: the name and id that
/// Discord gave it, and the Discord id of its guild.
pub fn new_category(name: String, discord_id: DiscordId, guild: &GuildRecord) -> (r: NewCategory)
    ensures
        r.name == name,
        r.discord_id == discord_id,
        r.fk_guild_id == Some(guild.discord_id),
{
    NewCategory { name, discord_id, fk_guild_id: Some(guild.discord_id) }
}

/// The row that records a channel made on Discord.
#[derive(Clone, Debug)]
pub struct NewChannel {
    pub discord_id: DiscordId,
    pub guild_fk_id: Option<i32>,
    pub name: String,
}

/// The row that records a channel made on Discord: the id that Discord gave
/// it, the database id of its guild, and the name that was asked for.
pub fn new_channel(discord_id: DiscordId, guild: &GuildRecord, name: String) -> (r: NewChannel)
    ensures
        r.discord_id == discord_id,
        r.guild_fk_id == Some(guild.id),
        r.name == name,
{
    NewChannel { discord_id, guild_fk_id: Some(guild.id), name }
}

/// A message ready to send: its text, its finished components, and the rows
/// under which the data of those components is to be stored.
#[derive(Debug)]
pub struct BuiltMessage {
    pub channel_id: DiscordId,
    pub content: String,
    pub select_menu: Option<SelectMenuSpec>,
    pub buttons: Vec<ButtonSpec>,
    pub rows: Vec<ComponentData>,
}

/// Whether `finished` is `c` built under the row `row`.
pub open spec fn built_from<C: SerenityComponent>(c: MessageComponent<C>, finished: C, row: ComponentData) -> bool {
    &&& finished.custom_id_of() == uuid_text(row.id)
    &&& c.component.same_but_id(&finished)
    &&& is_random_uuid(row.id)
    &&& row.data == *c.data
}

impl SendChannelMessage {
    /// Finishes the components of the message, the select menu first, then
    /// the buttons in order: each gets a new UUID as its custom id, and a row
    /// that stores its data under that UUID.
    pub fn build_components(self) -> (r: BuiltMessage)
        ensures
            r.channel_id == self.channel_id,
            r.content == self.message,
            r.buttons@.len() == self.buttons@.len(),
            match self.select_menu {
                Some(menu) => {
                    &&& r.rows@.len() == self.buttons@.len() + 1
                    &&& r.select_menu is Some
                    &&& built_from(menu, r.select_menu->0, r.rows@[0])
                    &&& forall|i: int|
                        0 <= i < self.buttons@.len() ==> #[trigger] built_from(
                            self.buttons@[i],
                            r.buttons@[i],
                            r.rows@[i + 1],
                        )
                },
                None => {
                    &&& r.rows@.len() == self.buttons@.len()
                    &&& r.select_menu is None
                    &&& forall|i: int|
                        0 <= i < self.buttons@.len() ==> #[trigger] built_from(
                            self.buttons@[i],
                            r.buttons@[i],
                            r.rows@[i],
                        )
                },
            },
    {
        let ghost old_buttons = self.buttons@;
        let mut rows: Vec<ComponentData> = Vec::new();
        let select_menu = match self.select_menu {
            Some(menu) => {
                let (finished, row) = menu.build();
                rows.push(row);
                Some(finished)
            },
            None => None,
        };
        let ghost k = rows@.len();
        let ghost first_rows = rows@;
        let mut pending = self.buttons;
        let mut buttons: Vec<ButtonSpec> = Vec::new();
        while pending.len() > 0
            invariant
                k == first_rows.len(),
                rows@.len() == k + buttons@.len(),
                rows@.subrange(0, k as int) == first_rows,
                buttons@.len() + pending@.len() == old_buttons.len(),
                pending@ == old_buttons.subrange(buttons@.len() as int, old_buttons.len() as int),
                forall|i: int|
                    0 <= i < buttons@.len() ==> #[trigger] built_from(
                        old_buttons[i],
                        buttons@[i],
                        rows@[k + i],
                    ),
            decreases pending@.len(),
        {
            let c = pending.remove(0);
            let (finished, row) = c.build();
            let ghost n = buttons@.len();
            buttons.push(finished);
            rows.push(row);
            assert(rows@.subrange(0, k as int) =~= first_rows);
            assert(built_from(old_buttons[n as int], buttons@[n as int], rows@[(k + n) as int]));
            assert(pending@ =~= old_buttons.subrange(buttons@.len() as int, old_buttons.len() as int));
        }
        proof {
            if k > 0 {
                assert(rows@.subrange(0, k as int)[0] == rows@[0]);
                assert(rows@[0] == first_rows[0]);
            }
            assert forall|i: int| 0 <= i < old_buttons.len() implies #[trigger] built_from(
                old_buttons[i],
                buttons@[i],
                rows@[i + k],
            ) by {
                assert(built_from(old_buttons[i], buttons@[i], rows@[k + i]));
            }
        }
        BuiltMessage { channel_id: self.channel_id, content: self.message, select_menu, buttons, rows }
    }
}

} // verus!
