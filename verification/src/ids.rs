//! Discord snowflake ids as plain integers.
use vstd::prelude::*;

verus! {

/// A guild (server) id.
#[derive(Debug, Clone, Copy, PartialEq, Eq, Structural, Hash)]
pub struct GuildId(pub u64);

/// A voice or text channel id inside a guild.
#[derive(Debug, Clone, Copy, PartialEq, Eq, Structural, Hash)]
pub struct ChannelId(pub u64);

/// Any channel a message can be posted to: guild channels and threads.
#[derive(Debug, Clone, Copy, PartialEq, Eq, Structural, Hash)]
pub struct GenericChannelId(pub u64);

/// A role id. The `@everyone` role has the id of its guild.
#[derive(Debug, Clone, Copy, PartialEq, Eq, Structural, Hash)]
pub struct RoleId(pub u64);

/// A user id.
#[derive(Debug, Clone, Copy, PartialEq, Eq, Structural, Hash)]
pub struct UserId(pub u64);

/// A message id. Discord ids grow with time, so a larger id is a newer message.
#[derive(Debug, Clone, Copy, PartialEq, Eq, Structural, Hash)]
pub struct MessageId(pub u64);

impl GuildId {
    pub fn new(id: u64) -> (r: Self)
        ensures
            r.0 == id,
    {
        GuildId(id)
    }

    pub fn get(self) -> (r: u64)
        ensures
            r == self.0,
    {
        self.0
    }
}

impl ChannelId {
    pub fn new(id: u64) -> (r: Self)
        ensures
            r.0 == id,
    {
        ChannelId(id)
    }

    pub fn get(self) -> (r: u64)
        ensures
            r == self.0,
    {
        self.0
    }

    /// The same channel, as a channel messages can be posted to.
    pub fn widen(self) -> (r: GenericChannelId)
        ensures
            r.0 == self.0,
    {
        GenericChannelId(self.0)
    }
}

impl GenericChannelId {
    pub fn new(id: u64) -> (r: Self)
        ensures
            r.0 == id,
    {
        GenericChannelId(id)
    }

    pub fn get(self) -> (r: u64)
        ensures
            r == self.0,
    {
        self.0
    }
}

impl Default for GenericChannelId {
    fn default() -> (r: Self)
        ensures
            r.0 == 0,
    {
        GenericChannelId(0)
    }
}

impl RoleId {
    pub fn new(id: u64) -> (r: Self)
        ensures
            r.0 == id,
    {
        RoleId(id)
    }

    pub fn get(self) -> (r: u64)
        ensures
            r == self.0,
    {
        self.0
    }
}

impl UserId {
    pub fn new(id: u64) -> (r: Self)
        ensures
            r.0 == id,
    {
        UserId(id)
    }

    pub fn get(self) -> (r: u64)
        ensures
            r == self.0,
    {
        self.0
    }
}

impl MessageId {
    pub fn new(id: u64) -> (r: Self)
        ensures
            r.0 == id,
    {
        MessageId(id)
    }

    pub fn get(self) -> (r: u64)
        ensures
            r == self.0,
    {
        self.0
    }
}

} // verus!
