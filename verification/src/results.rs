//! What a queued task reports when it has run.
use vstd::prelude::*;

use crate::ids::{DatabaseId, DiscordId};
use crate::records::{CategoryRecord, ChannelRecord, RoleRecord};

verus! {

/// The status of a queued task.
#[derive(Clone, Debug)]
pub enum TaskResult {
    Pending,
    Completed(TaskReturnData),
}

/// What a completed task hands back.
#[derive(Clone, Debug)]
pub enum TaskReturnData {
    ChannelModel(ChannelRecord),
    CategoryModel(CategoryRecord),
    TeamId(DatabaseId),
    UserId(DatabaseId),
    RoleModel(RoleRecord),
    MessageId(DiscordId),
    Empty,
}

} // verus!
