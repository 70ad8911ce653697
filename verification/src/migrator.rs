//! The names of the database's tables and columns that the schema
//! migrations create and change.

use vstd::prelude::*;

verus! {

/// The `guild` table and its columns.
#[derive(Debug, PartialEq, Eq)]
pub enum Guild {
    Table,
    Id,
    DiscordId,
    Name,
    LogoUrl,
}

impl Guild {
    /// The table's name for `Table`, else the column's name.
    pub open spec fn iden_text(&self) -> Seq<char> {
        match self {
            Guild::Table => "guild"@,
            Guild::Id => "id"@,
            Guild::DiscordId => "discord_id"@,
            Guild::Name => "name"@,
            Guild::LogoUrl => "logo_url"@,
        }
    }

    /// The identifier that the schema uses for the table or column.
    pub fn iden(&self) -> (r: &'static str)
        ensures
            r@ == self.iden_text(),
            *self is Table ==> r@ == "guild"@,
            *self is Id ==> r@ == "id"@,
            *self is DiscordId ==> r@ == "discord_id"@,
            *self is Name ==> r@ == "name"@,
            *self is LogoUrl ==> r@ == "logo_url"@,
    {
        match self {
            Guild::Table => "guild",
            Guild::Id => "id",
            Guild::DiscordId => "discord_id",
            Guild::Name => "name",
            Guild::LogoUrl => "logo_url",
        }
    }
}

/// The `channel` table and its columns.
#[derive(Debug, PartialEq, Eq)]
pub enum Channel {
    Table,
    Id,
    GuildId,
    DiscordId,
    Name,
    ResetDay,
    ResetMessage,
    ResetSchedule,
    AllowReset,
}

impl Channel {
    /// The table's name for `Table`, else the column's name.
    pub open spec fn iden_text(&self) -> Seq<char> {
        match self {
            Channel::Table => "channel"@,
            Channel::Id => "id"@,
            Channel::GuildId => "guild_id"@,
            Channel::DiscordId => "discord_id"@,
            Channel::Name => "name"@,
            Channel::ResetDay => "reset_day"@,
            Channel::ResetMessage => "reset_message"@,
            Channel::ResetSchedule => "reset_schedule"@,
            Channel::AllowReset => "allow_reset"@,
        }
    }

    /// The identifier that the schema uses for the table or column.
    pub fn iden(&self) -> (r: &'static str)
        ensures
            r@ == self.iden_text(),
            *self is Table ==> r@ == "channel"@,
            *self is Id ==> r@ == "id"@,
            *self is GuildId ==> r@ == "guild_id"@,
            *self is DiscordId ==> r@ == "discord_id"@,
            *self is Name ==> r@ == "name"@,
            *self is ResetDay ==> r@ == "reset_day"@,
            *self is ResetMessage ==> r@ == "reset_message"@,
            *self is ResetSchedule ==> r@ == "reset_schedule"@,
            *self is AllowReset ==> r@ == "allow_reset"@,
    {
        match self {
            Channel::Table => "channel",
            Channel::Id => "id",
            Channel::GuildId => "guild_id",
            Channel::DiscordId => "discord_id",
            Channel::Name => "name",
            Channel::ResetDay => "reset_day",
            Channel::ResetMessage => "reset_message",
            Channel::ResetSchedule => "reset_schedule",
            Channel::AllowReset => "allow_reset",
        }
    }
}

/// The `user` table and its columns.
#[derive(Debug, PartialEq, Eq)]
pub enum User {
    Table,
    Id,
    Name,
    Password,
    Email,
    DiscordId,
}

impl User {
    /// The table's name for `Table`, else the column's name.
    pub open spec fn iden_text(&self) -> Seq<char> {
        match self {
            User::Table => "user"@,
            User::Id => "id"@,
            User::Name => "name"@,
            User::Password => "password"@,
            User::Email => "email"@,
            User::DiscordId => "discord_id"@,
        }
    }

    /// The identifier that the schema uses for the table or column.
    pub fn iden(&self) -> (r: &'static str)
        ensures
            r@ == self.iden_text(),
            *self is Table ==> r@ == "user"@,
            *self is Id ==> r@ == "id"@,
            *self is Name ==> r@ == "name"@,
            *self is Password ==> r@ == "password"@,
            *self is Email ==> r@ == "email"@,
            *self is DiscordId ==> r@ == "discord_id"@,
    {
        match self {
            User::Table => "user",
            User::Id => "id",
            User::Name => "name",
            User::Password => "password",
            User::Email => "email",
            User::DiscordId => "discord_id",
        }
    }
}

/// The `session` table and its columns.
#[derive(Debug, PartialEq, Eq)]
pub enum Session {
    Table,
    Id,
    Data,
    ExpiryDate,
}

impl Session {
    /// The table's name for `Table`, else the column's name.
    pub open spec fn iden_text(&self) -> Seq<char> {
        match self {
            Session::Table => "session"@,
            Session::Id => "id"@,
            Session::Data => "data"@,
            Session::ExpiryDate => "expiry_date"@,
        }
    }

    /// The identifier that the schema uses for the table or column.
    pub fn iden(&self) -> (r: &'static str)
        ensures
            r@ == self.iden_text(),
            *self is Table ==> r@ == "session"@,
            *self is Id ==> r@ == "id"@,
            *self is Data ==> r@ == "data"@,
            *self is ExpiryDate ==> r@ == "expiry_date"@,
    {
        match self {
            Session::Table => "session",
            Session::Id => "id",
            Session::Data => "data",
            Session::ExpiryDate => "expiry_date",
        }
    }
}

/// The `guild_access` table and its columns.
#[derive(Debug, PartialEq, Eq)]
pub enum GuildAccess {
    Table,
    GuildId,
    UserId,
    IsOwner,
    IsAdministrator,
    Roles,
}

impl GuildAccess {
    /// The table's name for `Table`, else the column's name.
    pub open spec fn iden_text(&self) -> Seq<char> {
        match self {
            GuildAccess::Table => "guild_access"@,
            GuildAccess::GuildId => "guild_id"@,
            GuildAccess::UserId => "user_id"@,
            GuildAccess::IsOwner => "is_owner"@,
            GuildAccess::IsAdministrator => "is_administrator"@,
            GuildAccess::Roles => "roles"@,
        }
    }

    /// The identifier that the schema uses for the table or column.
    pub fn iden(&self) -> (r: &'static str)
        ensures
            r@ == self.iden_text(),
            *self is Table ==> r@ == "guild_access"@,
            *self is GuildId ==> r@ == "guild_id"@,
            *self is UserId ==> r@ == "user_id"@,
            *self is IsOwner ==> r@ == "is_owner"@,
            *self is IsAdministrator ==> r@ == "is_administrator"@,
            *self is Roles ==> r@ == "roles"@,
    {
        match self {
            GuildAccess::Table => "guild_access",
            GuildAccess::GuildId => "guild_id",
            GuildAccess::UserId => "user_id",
            GuildAccess::IsOwner => "is_owner",
            GuildAccess::IsAdministrator => "is_administrator",
            GuildAccess::Roles => "roles",
        }
    }
}

/// The identifiers of the `guild` table and its columns are pairwise different.
pub proof fn lemma_guild_idens_distinct(a: Guild, b: Guild)
    requires
        a != b,
    ensures
        a.iden_text() != b.iden_text(),
{
    reveal_strlit("guild");
    reveal_strlit("id");
    reveal_strlit("discord_id");
    reveal_strlit("name");
    reveal_strlit("logo_url");
    if a.iden_text() == b.iden_text() {
        assert(a.iden_text().len() == b.iden_text().len());
        if 0 < a.iden_text().len() {
            assert(a.iden_text()[0] == b.iden_text()[0]);
        }
        if 1 < a.iden_text().len() {
            assert(a.iden_text()[1] == b.iden_text()[1]);
        }
        if 2 < a.iden_text().len() {
            assert(a.iden_text()[2] == b.iden_text()[2]);
        }
        if 3 < a.iden_text().len() {
            assert(a.iden_text()[3] == b.iden_text()[3]);
        }
        if 4 < a.iden_text().len() {
            assert(a.iden_text()[4] == b.iden_text()[4]);
        }
        if 5 < a.iden_text().len() {
            assert(a.iden_text()[5] == b.iden_text()[5]);
        }
        if 6 < a.iden_text().len() {
            assert(a.iden_text()[6] == b.iden_text()[6]);
        }
        if 7 < a.iden_text().len() {
            assert(a.iden_text()[7] == b.iden_text()[7]);
        }
        if 8 < a.iden_text().len() {
            assert(a.iden_text()[8] == b.iden_text()[8]);
        }
        if 9 < a.iden_text().len() {
            assert(a.iden_text()[9] == b.iden_text()[9]);
        }
        if 10 < a.iden_text().len() {
            assert(a.iden_text()[10] == b.iden_text()[10]);
        }
        if 11 < a.iden_text().len() {
            assert(a.iden_text()[11] == b.iden_text()[11]);
        }
        if 12 < a.iden_text().len() {
            assert(a.iden_text()[12] == b.iden_text()[12]);
        }
        if 13 < a.iden_text().len() {
            assert(a.iden_text()[13] == b.iden_text()[13]);
        }
        if 14 < a.iden_text().len() {
            assert(a.iden_text()[14] == b.iden_text()[14]);
        }
        if 15 < a.iden_text().len() {
            assert(a.iden_text()[15] == b.iden_text()[15]);
        }
    }
}

/// The identifiers of the `channel` table and its columns are pairwise different.
pub proof fn lemma_channel_idens_distinct(a: Channel, b: Channel)
    requires
        a != b,
    ensures
        a.iden_text() != b.iden_text(),
{
    reveal_strlit("channel");
    reveal_strlit("id");
    reveal_strlit("guild_id");
    reveal_strlit("discord_id");
    reveal_strlit("name");
    reveal_strlit("reset_day");
    reveal_strlit("reset_message");
    reveal_strlit("reset_schedule");
    reveal_strlit("allow_reset");
    if a.iden_text() == b.iden_text() {
        assert(a.iden_text().len() == b.iden_text().len());
        if 0 < a.iden_text().len() {
            assert(a.iden_text()[0] == b.iden_text()[0]);
        }
        if 1 < a.iden_text().len() {
            assert(a.iden_text()[1] == b.iden_text()[1]);
        }
        if 2 < a.iden_text().len() {
            assert(a.iden_text()[2] == b.iden_text()[2]);
        }
        if 3 < a.iden_text().len() {
            assert(a.iden_text()[3] == b.iden_text()[3]);
        }
        if 4 < a.iden_text().len() {
            assert(a.iden_text()[4] == b.iden_text()[4]);
        }
        if 5 < a.iden_text().len() {
            assert(a.iden_text()[5] == b.iden_text()[5]);
        }
        if 6 < a.iden_text().len() {
            assert(a.iden_text()[6] == b.iden_text()[6]);
        }
        if 7 < a.iden_text().len() {
            assert(a.iden_text()[7] == b.iden_text()[7]);
        }
        if 8 < a.iden_text().len() {
            assert(a.iden_text()[8] == b.iden_text()[8]);
        }
        if 9 < a.iden_text().len() {
            assert(a.iden_text()[9] == b.iden_text()[9]);
        }
        if 10 < a.iden_text().len() {
            assert(a.iden_text()[10] == b.iden_text()[10]);
        }
        if 11 < a.iden_text().len() {
            assert(a.iden_text()[11] == b.iden_text()[11]);
        }
        if 12 < a.iden_text().len() {
            assert(a.iden_text()[12] == b.iden_text()[12]);
        }
        if 13 < a.iden_text().len() {
            assert(a.iden_text()[13] == b.iden_text()[13]);
        }
        if 14 < a.iden_text().len() {
            assert(a.iden_text()[14] == b.iden_text()[14]);
        }
        if 15 < a.iden_text().len() {
            assert(a.iden_text()[15] == b.iden_text()[15]);
        }
    }
}

/// The identifiers of the `user` table and its columns are pairwise different.
pub proof fn lemma_user_idens_distinct(a: User, b: User)
    requires
        a != b,
    ensures
        a.iden_text() != b.iden_text(),
{
    reveal_strlit("user");
    reveal_strlit("id");
    reveal_strlit("name");
    reveal_strlit("password");
    reveal_strlit("email");
    reveal_strlit("discord_id");
    if a.iden_text() == b.iden_text() {
        assert(a.iden_text().len() == b.iden_text().len());
        if 0 < a.iden_text().len() {
            assert(a.iden_text()[0] == b.iden_text()[0]);
        }
        if 1 < a.iden_text().len() {
            assert(a.iden_text()[1] == b.iden_text()[1]);
        }
        if 2 < a.iden_text().len() {
            assert(a.iden_text()[2] == b.iden_text()[2]);
        }
        if 3 < a.iden_text().len() {
            assert(a.iden_text()[3] == b.iden_text()[3]);
        }
        if 4 < a.iden_text().len() {
            assert(a.iden_text()[4] == b.iden_text()[4]);
        }
        if 5 < a.iden_text().len() {
            assert(a.iden_text()[5] == b.iden_text()[5]);
        }
        if 6 < a.iden_text().len() {
            assert(a.iden_text()[6] == b.iden_text()[6]);
        }
        if 7 < a.iden_text().len() {
            assert(a.iden_text()[7] == b.iden_text()[7]);
        }
        if 8 < a.iden_text().len() {
            assert(a.iden_text()[8] == b.iden_text()[8]);
        }
        if 9 < a.iden_text().len() {
            assert(a.iden_text()[9] == b.iden_text()[9]);
        }
        if 10 < a.iden_text().len() {
            assert(a.iden_text()[10] == b.iden_text()[10]);
        }
        if 11 < a.iden_text().len() {
            assert(a.iden_text()[11] == b.iden_text()[11]);
        }
        if 12 < a.iden_text().len() {
            assert(a.iden_text()[12] == b.iden_text()[12]);
        }
        if 13 < a.iden_text().len() {
            assert(a.iden_text()[13] == b.iden_text()[13]);
        }
        if 14 < a.iden_text().len() {
            assert(a.iden_text()[14] == b.iden_text()[14]);
        }
        if 15 < a.iden_text().len() {
            assert(a.iden_text()[15] == b.iden_text()[15]);
        }
    }
}

/// The identifiers of the `session` table and its columns are pairwise different.
pub proof fn lemma_session_idens_distinct(a: Session, b: Session)
    requires
        a != b,
    ensures
        a.iden_text() != b.iden_text(),
{
    reveal_strlit("session");
    reveal_strlit("id");
    reveal_strlit("data");
    reveal_strlit("expiry_date");
    if a.iden_text() == b.iden_text() {
        assert(a.iden_text().len() == b.iden_text().len());
        if 0 < a.iden_text().len() {
            assert(a.iden_text()[0] == b.iden_text()[0]);
        }
        if 1 < a.iden_text().len() {
            assert(a.iden_text()[1] == b.iden_text()[1]);
        }
        if 2 < a.iden_text().len() {
            assert(a.iden_text()[2] == b.iden_text()[2]);
        }
        if 3 < a.iden_text().len() {
            assert(a.iden_text()[3] == b.iden_text()[3]);
        }
        if 4 < a.iden_text().len() {
            assert(a.iden_text()[4] == b.iden_text()[4]);
        }
        if 5 < a.iden_text().len() {
            assert(a.iden_text()[5] == b.iden_text()[5]);
        }
        if 6 < a.iden_text().len() {
            assert(a.iden_text()[6] == b.iden_text()[6]);
        }
        if 7 < a.iden_text().len() {
            assert(a.iden_text()[7] == b.iden_text()[7]);
        }
        if 8 < a.iden_text().len() {
            assert(a.iden_text()[8] == b.iden_text()[8]);
        }
        if 9 < a.iden_text().len() {
            assert(a.iden_text()[9] == b.iden_text()[9]);
        }
        if 10 < a.iden_text().len() {
            assert(a.iden_text()[10] == b.iden_text()[10]);
        }
        if 11 < a.iden_text().len() {
            assert(a.iden_text()[11] == b.iden_text()[11]);
        }
        if 12 < a.iden_text().len() {
            assert(a.iden_text()[12] == b.iden_text()[12]);
        }
        if 13 < a.iden_text().len() {
            assert(a.iden_text()[13] == b.iden_text()[13]);
        }
        if 14 < a.iden_text().len() {
            assert(a.iden_text()[14] == b.iden_text()[14]);
        }
        if 15 < a.iden_text().len() {
            assert(a.iden_text()[15] == b.iden_text()[15]);
        }
    }
}

/// The identifiers of the `guild_access` table and its columns are pairwise different.
pub proof fn lemma_guild_access_idens_distinct(a: GuildAccess, b: GuildAccess)
    requires
        a != b,
    ensures
        a.iden_text() != b.iden_text(),
{
    reveal_strlit("guild_access");
    reveal_strlit("guild_id");
    reveal_strlit("user_id");
    reveal_strlit("is_owner");
    reveal_strlit("is_administrator");
    reveal_strlit("roles");
    if a.iden_text() == b.iden_text() {
        assert(a.iden_text().len() == b.iden_text().len());
        if 0 < a.iden_text().len() {
            assert(a.iden_text()[0] == b.iden_text()[0]);
        }
        if 1 < a.iden_text().len() {
            assert(a.iden_text()[1] == b.iden_text()[1]);
        }
        if 2 < a.iden_text().len() {
            assert(a.iden_text()[2] == b.iden_text()[2]);
        }
        if 3 < a.iden_text().len() {
            assert(a.iden_text()[3] == b.iden_text()[3]);
        }
        if 4 < a.iden_text().len() {
            assert(a.iden_text()[4] == b.iden_text()[4]);
        }
        if 5 < a.iden_text().len() {
            assert(a.iden_text()[5] == b.iden_text()[5]);
        }
        if 6 < a.iden_text().len() {
            assert(a.iden_text()[6] == b.iden_text()[6]);
        }
        if 7 < a.iden_text().len() {
            assert(a.iden_text()[7] == b.iden_text()[7]);
        }
        if 8 < a.iden_text().len() {
            assert(a.iden_text()[8] == b.iden_text()[8]);
        }
        if 9 < a.iden_text().len() {
            assert(a.iden_text()[9] == b.iden_text()[9]);
        }
        if 10 < a.iden_text().len() {
            assert(a.iden_text()[10] == b.iden_text()[10]);
        }
        if 11 < a.iden_text().len() {
            assert(a.iden_text()[11] == b.iden_text()[11]);
        }
        if 12 < a.iden_text().len() {
            assert(a.iden_text()[12] == b.iden_text()[12]);
        }
        if 13 < a.iden_text().len() {
            assert(a.iden_text()[13] == b.iden_text()[13]);
        }
        if 14 < a.iden_text().len() {
            assert(a.iden_text()[14] == b.iden_text()[14]);
        }
        if 15 < a.iden_text().len() {
            assert(a.iden_text()[15] == b.iden_text()[15]);
        }
    }
}

} // verus!
