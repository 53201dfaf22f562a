//! The bot's own checks against a live guild: a category and a channel are
//! made through the task queue, then looked for on Discord and in the
//! database.
use vstd::prelude::*;

use crate::commands::TEST_GUILD_ID;
use crate::ids::DiscordId;
use crate::records::{CategoryRecord, TeamRecord};
use crate::results::{TaskResult, TaskReturnData};
use crate::tasks::{
    category_create_task, channel_create_task, is_category_create_task, is_channel_create_task,
    CategoryHandler, CategoryTasks, ChannelKind, TaskType,
};

verus! {

/// What a check looks for on Discord.
#[derive(Clone, Debug)]
pub enum DiscordConstruct {
    Channel { name: String },
    Category { name: String },
}

/// What a check looks for in the database.
#[derive(Clone, Debug)]
pub enum DatabaseConstruct {
    Team { id: i32 },
    Category { name: String },
}

/// Whether a construct exists on Discord.
#[derive(Clone, Copy, Debug, PartialEq, Eq, Structural)]
pub enum DiscordStatus {
    Exists,
    DoesNotExist,
}

/// Whether a construct exists in the database.
#[derive(Clone, Copy, Debug, PartialEq, Eq, Structural)]
pub enum DatabaseStatus {
    Exists,
    DoesNotExist,
}

/// Why a check of categories and channels failed.
#[derive(Clone, Copy, Debug, PartialEq, Eq, Structural)]
pub enum CategoryCreateError {
    CategoryAlreadyExists,
    CategoryNotCreated,
    CategoryNotInDatabase,
    CategoryNotDeleted,
    CategoryNotSaved,
}

/// Stops on a failed check.
pub fn assert_not_error(result: Result<(), CategoryCreateError>)
    requires
        result is Ok,
{
}

/// A channel of the guild as the cache holds it.
#[derive(Clone, Debug)]
pub struct CachedChannel {
    pub kind: ChannelKind,
    pub name: String,
}

/// Whether a cached channel is a category named `name`.
pub open spec fn is_category_named(c: CachedChannel, name: Seq<char>) -> bool {
    c.kind == ChannelKind::Category && c.name@ == name
}

/// How many cached channels are categories named `name`.
pub open spec fn count_categories(channels: Seq<CachedChannel>, name: Seq<char>) -> nat
    decreases channels.len(),
{
    if channels.len() == 0 {
        0
    } else {
        count_categories(channels.drop_last(), name) + if is_category_named(channels.last(), name) {
            1nat
        } else {
            0nat
        }
    }
}

/// `rand::distributions::Alphanumeric` sampled once with `rand::thread_rng`:
/// one of the ASCII letters or digits, drawn at random.
#[verifier::external_body]
fn random_alphanumeric() -> (c: char)
    ensures
        ('a' <= c <= 'z') || ('A' <= c <= 'Z') || ('0' <= c <= '9'),
{
    char::from(rand::Rng::sample(&mut rand::thread_rng(), rand::distributions::Alphanumeric))
}

/// `String::from(char)`: the text made of that one character.
#[verifier::external_body]
fn char_text(c: char) -> (s: String)
    ensures
        s@ == seq![c],
{
    String::from(c)
}

/// Helpers of the checks.
pub struct TestHelpers;

impl TestHelpers {
    /// A random name of 20 ASCII letters and digits.
    pub fn generate_name() -> (s: String)
        ensures
            s@.len() == 20,
            forall|i: int|
                0 <= i < 20 ==> ('a' <= #[trigger] s@[i] <= 'z') || ('A' <= s@[i] <= 'Z') || ('0'
                    <= s@[i] <= '9'),
    {
        let mut s = String::new();
        let mut i: usize = 0;
        while i < 20
            invariant
                i <= 20,
                s@.len() == i,
                forall|j: int|
                    0 <= j < i ==> ('a' <= #[trigger] s@[j] <= 'z') || ('A' <= s@[j] <= 'Z') || (
                    '0' <= s@[j] <= '9'),
            decreases 20 - i,
        {
            let c = random_alphanumeric();
            let t = char_text(c);
            s.append(t.as_str());
            i = i + 1;
        }
        s
    }

    /// Whether a construct exists on Discord, from the channels of the
    /// guild in the cache: a category exists when exactly one cached
    /// category has its name. Looking for a channel is not supported.
    pub fn check_discord_status(channels: &Vec<CachedChannel>, construct: &DiscordConstruct) -> (r:
        DiscordStatus)
        requires
            construct is Category,
        ensures
            r == (if count_categories(channels@, construct->Category_name@) == 1 {
                DiscordStatus::Exists
            } else {
                DiscordStatus::DoesNotExist
            }),
    {
        let name = match construct {
            DiscordConstruct::Category { name } => name,
            DiscordConstruct::Channel { name } => name,
        };
        let mut count: usize = 0;
        let mut i: usize = 0;
        while i < channels.len()
            invariant
                i <= channels@.len(),
                count == count_categories(channels@.subrange(0, i as int), name@),
                count <= i,
            decreases channels.len() - i,
        {
            let c = &channels[i];
            proof {
                let s = channels@.subrange(0, i as int + 1);
                assert(s.drop_last() =~= channels@.subrange(0, i as int));
                assert(s.last() == channels@[i as int]);
            }
            let same_kind = match c.kind {
                ChannelKind::Category => true,
                _ => false,
            };
            if same_kind && crate::handler::str_eq(c.name.as_str(), name.as_str()) {
                count = count + 1;
            }
            i = i + 1;
        }
        assert(channels@.subrange(0, channels@.len() as int) =~= channels@);
        if count == 1 {
            DiscordStatus::Exists
        } else {
            DiscordStatus::DoesNotExist
        }
    }

    /// Whether a construct exists in the database, from whether the lookup
    /// (a category by name) found a row.
    pub fn check_database_status(found: Option<CategoryRecord>) -> (r: DatabaseStatus)
        ensures
            r == (if found is Some {
                DatabaseStatus::Exists
            } else {
                DatabaseStatus::DoesNotExist
            }),
    {
        match found {
            Some(_) => DatabaseStatus::Exists,
            None => DatabaseStatus::DoesNotExist,
        }
    }
}

/// The next piece of outside work of a check.
#[derive(Debug)]
pub enum TestAction {
    /// Add a team with a random name; answered by `Team`.
    GenerateTeam,
    /// Queue a task and wait for it; answered by `TaskDone`.
    RunTask { task: TaskType },
    /// Look for a construct on Discord; answered by `Discord`.
    CheckDiscord { construct: DiscordConstruct },
    /// Look for a construct in the database; answered by `Database`.
    CheckDatabase { construct: DatabaseConstruct },
    /// The check is over.
    Finish { result: Result<(), CategoryCreateError> },
}

/// What came of a piece of outside work of a check.
#[derive(Debug)]
pub enum TestEvent {
    Team(TeamRecord),
    TaskDone(TaskResult),
    Discord(DiscordStatus),
    Database(DatabaseStatus),
}


#[derive(Clone, Debug)]
pub enum CategoryCheckStage {
    AwaitTeam,
    AwaitCreate { name: String },
    AwaitCreatedOnDiscord { name: String, category: CategoryRecord },
    AwaitSaved { name: String, category: CategoryRecord },
    AwaitDelete { name: String },
    AwaitDeletedOnDiscord,
    Over,
}

/// The check of categories: a category named after a new team is made
/// through the queue; it must come back, be on Discord and be in the
/// database; then it is deleted through the queue and must be gone from
/// Discord.
#[derive(Clone, Debug)]
pub struct CategoryCheck {
    pub stage: CategoryCheckStage,
}

/// Whether `a` ends a check with `result`.
pub open spec fn finishes(a: TestAction, result: Result<(), CategoryCreateError>) -> bool {
    a == (TestAction::Finish { result })
}

/// Whether `a` looks on Discord for a category named `name`.
pub open spec fn checks_discord_category(a: TestAction, name: Seq<char>) -> bool {
    match a {
        TestAction::CheckDiscord { construct: DiscordConstruct::Category { name: n } } => n@ == name,
        _ => false,
    }
}

/// Whether `a` looks in the database for a category named `name`.
pub open spec fn checks_database_category(a: TestAction, name: Seq<char>) -> bool {
    match a {
        TestAction::CheckDatabase { construct: DatabaseConstruct::Category { name: n } } => n@
            == name,
        _ => false,
    }
}

/// Whether `t` deletes the category `category` of a guild.
pub open spec fn is_category_delete_task(t: TaskType, guild: DiscordId, category: DiscordId) -> bool {
    match t {
        TaskType::CategoryHandler(h) => h.guild_id == guild && match h.task {
            CategoryTasks::Delete { discord_id } => discord_id == category,
            _ => false,
        },
        _ => false,
    }
}

/// One step of the check of categories.
pub open spec fn category_check_step(f: CategoryCheck, e: TestEvent, g: CategoryCheck, a: TestAction) -> bool {
    let unexpected = g.stage == CategoryCheckStage::Over && finishes(
        a,
        Err(CategoryCreateError::CategoryNotCreated),
    );
    match f.stage {
        CategoryCheckStage::AwaitTeam => match e {
            TestEvent::Team(t) => {
                &&& g.stage == (CategoryCheckStage::AwaitCreate { name: t.name })
                &&& a matches TestAction::RunTask { task }
                &&& is_category_create_task(task, DiscordId(TEST_GUILD_ID), t.name@)
            },
            _ => unexpected,
        },
        CategoryCheckStage::AwaitCreate { name } => match e {
            TestEvent::TaskDone(TaskResult::Completed(TaskReturnData::CategoryModel(c))) => {
                &&& g.stage == (CategoryCheckStage::AwaitCreatedOnDiscord { name, category: c })
                &&& checks_discord_category(a, name@)
            },
            _ => g.stage == CategoryCheckStage::Over && finishes(
                a,
                Err(CategoryCreateError::CategoryNotCreated),
            ),
        },
        CategoryCheckStage::AwaitCreatedOnDiscord { name, category } => match e {
            TestEvent::Discord(DiscordStatus::Exists) => {
                &&& g.stage == (CategoryCheckStage::AwaitSaved { name, category })
                &&& checks_database_category(a, name@)
            },
            TestEvent::Discord(DiscordStatus::DoesNotExist) => g.stage == CategoryCheckStage::Over
                && finishes(a, Err(CategoryCreateError::CategoryNotCreated)),
            _ => unexpected,
        },
        CategoryCheckStage::AwaitSaved { name, category } => match e {
            TestEvent::Database(DatabaseStatus::Exists) => {
                &&& g.stage == (CategoryCheckStage::AwaitDelete { name })
                &&& a matches TestAction::RunTask { task }
                &&& is_category_delete_task(task, DiscordId(TEST_GUILD_ID), category.discord_id)
            },
            TestEvent::Database(DatabaseStatus::DoesNotExist) => g.stage == CategoryCheckStage::Over
                && finishes(a, Err(CategoryCreateError::CategoryNotSaved)),
            _ => unexpected,
        },
        CategoryCheckStage::AwaitDelete { name } => match e {
            TestEvent::TaskDone(_) => g.stage == CategoryCheckStage::AwaitDeletedOnDiscord
                && checks_discord_category(a, name@),
            _ => unexpected,
        },
        CategoryCheckStage::AwaitDeletedOnDiscord => match e {
            TestEvent::Discord(DiscordStatus::Exists) => g.stage == CategoryCheckStage::Over
                && finishes(a, Err(CategoryCreateError::CategoryNotDeleted)),
            TestEvent::Discord(DiscordStatus::DoesNotExist) => g.stage == CategoryCheckStage::Over
                && finishes(a, Ok(())),
            _ => unexpected,
        },
        CategoryCheckStage::Over => unexpected,
    }
}

impl CategoryCheck {
    /// Starts the check of categories: a team is made first.
    pub fn start() -> (r: (CategoryCheck, TestAction))
        ensures
            r.0.stage == CategoryCheckStage::AwaitTeam,
            r.1 == TestAction::GenerateTeam,
    {
        (CategoryCheck { stage: CategoryCheckStage::AwaitTeam }, TestAction::GenerateTeam)
    }

    /// Takes the answer to the last piece of work and names the next one.
    pub fn resume(self, e: TestEvent) -> (r: (CategoryCheck, TestAction))
        ensures
            category_check_step(self, e, r.0, r.1),
    {
        let over = CategoryCheck { stage: CategoryCheckStage::Over };
        let unexpected = TestAction::Finish { result: Err(CategoryCreateError::CategoryNotCreated) };
        match self.stage {
            CategoryCheckStage::AwaitTeam => match e {
                TestEvent::Team(t) => {
                    let task = category_create_task(DiscordId(TEST_GUILD_ID), t.name.clone());
                    (
                        CategoryCheck { stage: CategoryCheckStage::AwaitCreate { name: t.name } },
                        TestAction::RunTask { task },
                    )
                },
                _ => (over, unexpected),
            },
            CategoryCheckStage::AwaitCreate { name } => match e {
                TestEvent::TaskDone(TaskResult::Completed(TaskReturnData::CategoryModel(c))) => {
                    let construct = DiscordConstruct::Category { name: name.clone() };
                    (
                        CategoryCheck {
                            stage: CategoryCheckStage::AwaitCreatedOnDiscord { name, category: c },
                        },
                        TestAction::CheckDiscord { construct },
                    )
                },
                _ => (over, unexpected),
            },
            CategoryCheckStage::AwaitCreatedOnDiscord { name, category } => match e {
                TestEvent::Discord(DiscordStatus::Exists) => {
                    let construct = DatabaseConstruct::Category { name: name.clone() };
                    (
                        CategoryCheck { stage: CategoryCheckStage::AwaitSaved { name, category } },
                        TestAction::CheckDatabase { construct },
                    )
                },
                TestEvent::Discord(DiscordStatus::DoesNotExist) => (over, unexpected),
                _ => (over, unexpected),
            },
            CategoryCheckStage::AwaitSaved { name, category } => match e {
                TestEvent::Database(DatabaseStatus::Exists) => {
                    let task = TaskType::CategoryHandler(
                        CategoryHandler {
                            guild_id: DiscordId(TEST_GUILD_ID),
                            task: CategoryTasks::Delete { discord_id: category.discord_id },
                        },
                    );
                    (
                        CategoryCheck { stage: CategoryCheckStage::AwaitDelete { name } },
                        TestAction::RunTask { task },
                    )
                },
                TestEvent::Database(DatabaseStatus::DoesNotExist) => (
                    over,
                    TestAction::Finish { result: Err(CategoryCreateError::CategoryNotSaved) },
                ),
                _ => (over, unexpected),
            },
            CategoryCheckStage::AwaitDelete { name } => match e {
                TestEvent::TaskDone(_) => (
                    CategoryCheck { stage: CategoryCheckStage::AwaitDeletedOnDiscord },
                    TestAction::CheckDiscord { construct: DiscordConstruct::Category { name } },
                ),
                _ => (over, unexpected),
            },
            CategoryCheckStage::AwaitDeletedOnDiscord => match e {
                TestEvent::Discord(DiscordStatus::Exists) => (
                    over,
                    TestAction::Finish { result: Err(CategoryCreateError::CategoryNotDeleted) },
                ),
                TestEvent::Discord(DiscordStatus::DoesNotExist) => (
                    over,
                    TestAction::Finish { result: Ok(()) },
                ),
                _ => (over, unexpected),
            },
            CategoryCheckStage::Over => (over, unexpected),
        }
    }
}

#[derive(Clone, Debug)]
pub enum ChannelCheckStage {
    AwaitTeam,
    AwaitCreate { name: String },
    AwaitOnDiscord { name: String },
    AwaitSaved,
    Over,
}

/// The check of channels: a text channel named after a new team is made
/// through the queue; then exactly one category of that name must be on
/// Discord, and a category of that name must be in the database.
#[derive(Clone, Debug)]
pub struct ChannelCheck {
    pub stage: ChannelCheckStage,
}

/// One step of the check of channels.
pub open spec fn channel_check_step(f: ChannelCheck, e: TestEvent, g: ChannelCheck, a: TestAction) -> bool {
    let unexpected = g.stage == ChannelCheckStage::Over && finishes(
        a,
        Err(CategoryCreateError::CategoryNotCreated),
    );
    match f.stage {
        ChannelCheckStage::AwaitTeam => match e {
            TestEvent::Team(t) => {
                &&& g.stage == (ChannelCheckStage::AwaitCreate { name: t.name })
                &&& a matches TestAction::RunTask { task }
                &&& is_channel_create_task(
                    task,
                    DiscordId(TEST_GUILD_ID),
                    t.name@,
                    None,
                    ChannelKind::Text,
                )
            },
            _ => unexpected,
        },
        ChannelCheckStage::AwaitCreate { name } => match e {
            TestEvent::TaskDone(_) => g.stage == (ChannelCheckStage::AwaitOnDiscord { name })
                && checks_discord_category(a, name@),
            _ => unexpected,
        },
        ChannelCheckStage::AwaitOnDiscord { name } => match e {
            TestEvent::Discord(DiscordStatus::Exists) => g.stage == ChannelCheckStage::AwaitSaved
                && checks_database_category(a, name@),
            _ => unexpected,
        },
        ChannelCheckStage::AwaitSaved => match e {
            TestEvent::Database(DatabaseStatus::Exists) => g.stage == ChannelCheckStage::Over
                && finishes(a, Ok(())),
            TestEvent::Database(DatabaseStatus::DoesNotExist) => g.stage == ChannelCheckStage::Over
                && finishes(a, Err(CategoryCreateError::CategoryNotInDatabase)),
            _ => unexpected,
        },
        ChannelCheckStage::Over => unexpected,
    }
}

impl ChannelCheck {
    /// Starts the check of channels: a team is made first.
    pub fn start() -> (r: (ChannelCheck, TestAction))
        ensures
            r.0.stage == ChannelCheckStage::AwaitTeam,
            r.1 == TestAction::GenerateTeam,
    {
        (ChannelCheck { stage: ChannelCheckStage::AwaitTeam }, TestAction::GenerateTeam)
    }

    /// Takes the answer to the last piece of work and names the next one.
    pub fn resume(self, e: TestEvent) -> (r: (ChannelCheck, TestAction))
        ensures
            channel_check_step(self, e, r.0, r.1),
    {
        let over = ChannelCheck { stage: ChannelCheckStage::Over };
        let unexpected = TestAction::Finish { result: Err(CategoryCreateError::CategoryNotCreated) };
        match self.stage {
            ChannelCheckStage::AwaitTeam => match e {
                TestEvent::Team(t) => {
                    let task = channel_create_task(
                        DiscordId(TEST_GUILD_ID),
                        t.name.clone(),
                        None,
                        ChannelKind::Text,
                    );
                    (
                        ChannelCheck { stage: ChannelCheckStage::AwaitCreate { name: t.name } },
                        TestAction::RunTask { task },
                    )
                },
                _ => (over, unexpected),
            },
            ChannelCheckStage::AwaitCreate { name } => match e {
                TestEvent::TaskDone(_) => {
                    let construct = DiscordConstruct::Category { name: name.clone() };
                    (
                        ChannelCheck { stage: ChannelCheckStage::AwaitOnDiscord { name } },
                        TestAction::CheckDiscord { construct },
                    )
                },
                _ => (over, unexpected),
            },
            ChannelCheckStage::AwaitOnDiscord { name } => match e {
                TestEvent::Discord(DiscordStatus::Exists) => (
                    ChannelCheck { stage: ChannelCheckStage::AwaitSaved },
                    TestAction::CheckDatabase { construct: DatabaseConstruct::Category { name } },
                ),
                _ => (over, unexpected),
            },
            ChannelCheckStage::AwaitSaved => match e {
                TestEvent::Database(DatabaseStatus::Exists) => (
                    over,
                    TestAction::Finish { result: Ok(()) },
                ),
                TestEvent::Database(DatabaseStatus::DoesNotExist) => (
                    over,
                    TestAction::Finish { result: Err(CategoryCreateError::CategoryNotInDatabase) },
                ),
                _ => (over, unexpected),
            },
            ChannelCheckStage::Over => (over, unexpected),
        }
    }
}

} // verus!
