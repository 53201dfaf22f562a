//! The rows of the bot's database that the game logic reads and writes.
use vstd::prelude::*;

use crate::ids::DiscordId;

verus! {

/// A guild (Discord server) known to the game.
#[derive(Clone, Copy, Debug, PartialEq, Eq, Structural)]
pub struct GuildRecord {
    pub id: i32,
    pub discord_id: DiscordId,
}

/// A text or voice channel that the bot created.
#[derive(Clone, Debug)]
pub struct ChannelRecord {
    pub id: i32,
    pub discord_id: DiscordId,
    pub guild_fk_id: Option<i32>,
    pub name: String,
}

/// A channel category that the bot created.
#[derive(Clone, Debug)]
pub struct CategoryRecord {
    pub id: i32,
    pub discord_id: DiscordId,
    pub fk_guild_id: Option<DiscordId>,
    pub name: String,
}

/// A role that the bot created.
#[derive(Clone, Debug)]
pub struct RoleRecord {
    pub id: i32,
    pub discord_id: DiscordId,
    pub name: String,
}

/// A team of the game, with the Discord objects that belong to it.
#[derive(Clone, Debug)]
pub struct TeamRecord {
    pub id: i32,
    pub name: String,
    pub fk_guild_id: DiscordId,
    pub fk_team_role_id: Option<DiscordId>,
    pub fk_menu_channel_id: Option<DiscordId>,
}

/// A player of the game.
#[derive(Clone, Debug)]
pub struct PlayerRecord {
    pub id: i32,
    pub discord_id: DiscordId,
    pub fk_guild_id: DiscordId,
    pub name: String,
    pub fk_team_id: Option<i32>,
}

/// A queued task: its serialized payload and status, and whether it ran.
#[derive(Clone, Debug)]
pub struct TaskRecord {
    pub id: i32,
    pub payload: String,
    pub status: String,
    pub completed: bool,
}

/// What to do about a guild after looking it up by Discord id: use the row
/// that was found, or add a row for it.
#[derive(Clone, Copy, Debug, PartialEq, Eq, Structural)]
pub enum GuildLookup {
    Found(GuildRecord),
    Insert { discord_id: DiscordId },
}

/// What to do about a guild after looking it up: use the row found, or add
/// one for it.
pub open spec fn guild_lookup_spec(found: Option<GuildRecord>, guild_id: DiscordId) -> GuildLookup {
    match found {
        Some(g) => GuildLookup::Found(g),
        None => GuildLookup::Insert { discord_id: guild_id },
    }
}

/// A guild missing from the database is added.
pub fn guild_lookup(found: Option<GuildRecord>, guild_id: DiscordId) -> (r: GuildLookup)
    ensures
        r == guild_lookup_spec(found, guild_id),
{
    match found {
        Some(g) => GuildLookup::Found(g),
        None => GuildLookup::Insert { discord_id: guild_id },
    }
}

/// The first row of the guild table with the given Discord id, as a lookup
/// by Discord id finds it.
pub open spec fn find_guild(rows: Seq<GuildRecord>, guild_id: DiscordId) -> Option<GuildRecord>
    decreases rows.len(),
{
    if rows.len() == 0 {
        None
    } else if rows[0].discord_id == guild_id {
        Some(rows[0])
    } else {
        find_guild(rows.drop_first(), guild_id)
    }
}

/// Getting a guild from a guild table: it is looked up by Discord id, and,
/// where it is missing, a row with that Discord id is added under the id
/// `new_id` that the database hands out. Gives the table afterwards and the
/// guild's row.
pub open spec fn get_guild_in(rows: Seq<GuildRecord>, guild_id: DiscordId, new_id: i32) -> (
    Seq<GuildRecord>,
    GuildRecord,
) {
    match guild_lookup_spec(find_guild(rows, guild_id), guild_id) {
        GuildLookup::Found(g) => (rows, g),
        GuildLookup::Insert { discord_id } => {
            let g = GuildRecord { id: new_id, discord_id };
            (rows.push(g), g)
        },
    }
}

/// A row added at the end of a table without the Discord id is the one a
/// lookup finds.
proof fn lemma_find_guild_after_push(rows: Seq<GuildRecord>, g: GuildRecord)
    requires
        find_guild(rows, g.discord_id) is None,
    ensures
        find_guild(rows.push(g), g.discord_id) == Some(g),
    decreases rows.len(),
{
    if rows.len() > 0 {
        assert(rows.push(g).drop_first() =~= rows.drop_first().push(g));
        lemma_find_guild_after_push(rows.drop_first(), g);
    }
}

/// Getting a guild twice gives the same row, and the second time leaves the
/// table as the first left it: a guild is never added twice.
pub proof fn lemma_get_guild_idempotent(rows: Seq<GuildRecord>, guild_id: DiscordId, first_id: i32, second_id: i32)
    ensures
        ({
            let (rows1, g1) = get_guild_in(rows, guild_id, first_id);
            let (rows2, g2) = get_guild_in(rows1, guild_id, second_id);
            &&& g1.discord_id == guild_id
            &&& g2 == g1
            &&& rows2 == rows1
        }),
{
    lemma_find_guild_found(rows, guild_id);
    match find_guild(rows, guild_id) {
        Some(_) => {},
        None => {
            lemma_find_guild_after_push(rows, GuildRecord { id: first_id, discord_id: guild_id });
        },
    }
}

/// A row that a lookup finds has the Discord id looked for.
proof fn lemma_find_guild_found(rows: Seq<GuildRecord>, guild_id: DiscordId)
    ensures
        find_guild(rows, guild_id) matches Some(g) ==> g.discord_id == guild_id,
    decreases rows.len(),
{
    if rows.len() > 0 {
        lemma_find_guild_found(rows.drop_first(), guild_id);
    }
}

/// The row of a new player: its Discord id, its guild and its name; it has
/// no team.
#[derive(Clone, Debug)]
pub struct NewPlayer {
    pub discord_id: DiscordId,
    pub fk_guild_id: DiscordId,
    pub name: String,
}

/// What to do about a player after looking it up by Discord id: use the row
/// that was found, or add a row for it.
#[derive(Clone, Debug)]
pub enum PlayerLookup {
    Found(PlayerRecord),
    Insert(NewPlayer),
}

/// A player missing from the database is added, in the given guild and
/// under the given name.
pub fn player_lookup(
    found: Option<PlayerRecord>,
    guild_id: DiscordId,
    player_id: DiscordId,
    name: String,
) -> (r: PlayerLookup)
    ensures
        r == (match found {
            Some(p) => PlayerLookup::Found(p),
            None => PlayerLookup::Insert(
                NewPlayer { discord_id: player_id, fk_guild_id: guild_id, name },
            ),
        }),
{
    match found {
        Some(p) => PlayerLookup::Found(p),
        None => PlayerLookup::Insert(NewPlayer { discord_id: player_id, fk_guild_id: guild_id, name }),
    }
}

/// Why the team of a player could not be found.
#[derive(Clone, Copy, Debug, PartialEq, Eq, Structural)]
pub enum GameDatabaseError {
    PlayerNotFound,
    TeamNotFound,
    GuildNotFound,
}

/// The team of a player, given what the lookups found: the player by Discord
/// id, then the team by the player's team id; the team must belong to the
/// guild.
pub open spec fn player_team_spec(
    guild: GuildRecord,
    player: Option<PlayerRecord>,
    team: Option<TeamRecord>,
) -> Result<TeamRecord, GameDatabaseError> {
    match player {
        None => Err(GameDatabaseError::PlayerNotFound),
        Some(_) => match team {
            None => Err(GameDatabaseError::TeamNotFound),
            Some(t) => if t.fk_guild_id == guild.discord_id {
                Ok(t)
            } else {
                Err(GameDatabaseError::GuildNotFound)
            },
        },
    }
}

/// Decides the team of a player from the guild, the player found by Discord id
/// and the team found by the player's team id.
pub fn player_team(guild: &GuildRecord, player: Option<PlayerRecord>, team: Option<TeamRecord>) -> (r:
    Result<TeamRecord, GameDatabaseError>)
    ensures
        r == player_team_spec(*guild, player, team),
{
    match player {
        None => Err(GameDatabaseError::PlayerNotFound),
        Some(_) => match team {
            None => Err(GameDatabaseError::TeamNotFound),
            Some(t) => {
                if t.fk_guild_id.0 == guild.discord_id.0 {
                    Ok(t)
                } else {
                    Err(GameDatabaseError::GuildNotFound)
                }
            },
        },
    }
}

} // verus!
