//! Per-guild playback ownership.
//!
//! Who owns playback in a guild is long-lived and declarative: claimed when a
//! game starts, released when it ends, and checked cheaply before every queue
//! mutation, where a caller who is not the owner is refused at once instead of
//! waiting on the guild's queue lock.
use vstd::prelude::*;
use dashmap::DashMap;
use crate::errors::CrackedError;
use crate::ids::GuildId;

verus! {

/// Who owns playback in a guild.
#[derive(Debug, Clone, Copy, PartialEq, Eq, Structural)]
pub enum PlaybackOwner {
    /// Nobody owns playback; ordinary music commands may mutate the queue.
    Free,
    /// A game owns playback for the duration of the game.
    Game,
}

impl Default for PlaybackOwner {
    fn default() -> (r: Self)
        ensures
            r == PlaybackOwner::Free,
    {
        PlaybackOwner::Free
    }
}

#[verifier::external_type_specification]
#[verifier::external_body]
#[verifier::reject_recursive_types(K)]
#[verifier::reject_recursive_types(V)]
#[verifier::reject_recursive_types(S)]
pub struct ExDashMap<K, V, S>(DashMap<K, V, S>);

/// What a guild-to-owner map holds.
pub uninterp spec fn owners_of(m: DashMap<u64, PlaybackOwner>) -> Map<u64, PlaybackOwner>;

/// `DashMap::new`: an empty map.
#[verifier::external_body]
fn owners_new() -> (r: DashMap<u64, PlaybackOwner>)
    ensures
        owners_of(r) =~= Map::empty(),
{
    DashMap::new()
}

/// `DashMap::get`, copying the owner out: the value stored under `guild`, if
/// any.
#[verifier::external_body]
fn owners_get(m: &DashMap<u64, PlaybackOwner>, guild: u64) -> (r: Option<PlaybackOwner>)
    ensures
        r == (if owners_of(*m).contains_key(guild) {
            Some(owners_of(*m)[guild])
        } else {
            None
        }),
{
    m.get(&guild).map(|owner| *owner)
}

/// `DashMap::insert`: afterwards `guild` maps to `owner`, everything else is
/// unchanged.
#[verifier::external_body]
fn owners_insert(m: &mut DashMap<u64, PlaybackOwner>, guild: u64, owner: PlaybackOwner)
    ensures
        owners_of(*final(m)) == owners_of(*old(m)).insert(guild, owner),
{
    m.insert(guild, owner);
}

/// `DashMap::remove`: afterwards `guild` maps to nothing, everything else is
/// unchanged.
#[verifier::external_body]
fn owners_remove(m: &mut DashMap<u64, PlaybackOwner>, guild: u64)
    ensures
        owners_of(*final(m)) == owners_of(*old(m)).remove(guild),
{
    m.remove(&guild);
}

/// Playback ownership for every guild.
pub struct PlaybackLeases {
    owners: DashMap<u64, PlaybackOwner>,
}

/// The owner a guild is seen to have: its claim, or `Free` when it has none.
pub open spec fn owner_in(m: Map<u64, PlaybackOwner>, guild: GuildId) -> PlaybackOwner {
    if m.contains_key(guild.0) {
        m[guild.0]
    } else {
        PlaybackOwner::Free
    }
}

impl PlaybackLeases {
    /// The claims, by guild id.
    pub closed spec fn view(&self) -> Map<u64, PlaybackOwner> {
        owners_of(self.owners)
    }

    /// No guild has a claim.
    pub fn new() -> (r: Self)
        ensures
            r.view() == Map::<u64, PlaybackOwner>::empty(),
    {
        PlaybackLeases { owners: owners_new() }
    }

    /// Who owns playback in this guild. A guild with no claim is `Free`.
    pub fn playback_owner(&self, guild_id: GuildId) -> (r: PlaybackOwner)
        ensures
            r == owner_in(self.view(), guild_id),
    {
        match owners_get(&self.owners, guild_id.get()) {
            Some(owner) => owner,
            None => PlaybackOwner::Free,
        }
    }

    /// Take ownership of playback in a guild. Refused with `GameInProgress`
    /// when a different owner holds it; a guild that is free (no claim, or a
    /// claim by nobody) is taken, and re-claiming as the current owner
    /// succeeds and changes nothing.
    pub fn claim_playback(&mut self, guild_id: GuildId, owner: PlaybackOwner) -> (r: Result<
        (),
        CrackedError,
    >)
        ensures
            r is Ok <==> may_lock(owner_in(old(self).view(), guild_id), owner),
            r is Ok ==> final(self).view() == old(self).view().insert(guild_id.0, owner),
            r is Err ==> r == Err::<(), CrackedError>(CrackedError::GameInProgress),
            r is Err ==> final(self).view() == old(self).view(),
    {
        match owners_get(&self.owners, guild_id.get()) {
            None => {
                owners_insert(&mut self.owners, guild_id.get(), owner);
                Ok(())
            },
            Some(held) => if held == owner {
                assert(old(self).view().insert(guild_id.0, owner) =~= old(self).view());
                Ok(())
            } else if held == PlaybackOwner::Free {
                owners_insert(&mut self.owners, guild_id.get(), owner);
                Ok(())
            } else {
                Err(CrackedError::GameInProgress)
            },
        }
    }

    /// Give up ownership of playback in a guild. Infallible and idempotent.
    pub fn release_playback(&mut self, guild_id: GuildId)
        ensures
            final(self).view() == old(self).view().remove(guild_id.0),
    {
        owners_remove(&mut self.owners, guild_id.get());
    }

    /// Whether `as_` may take this guild's queue lock: refused with
    /// `GameInProgress` when someone other than `as_` owns playback. Checked
    /// before the lock, so a refused caller never waits on it.
    pub fn check_queue_access(&self, guild_id: GuildId, as_: PlaybackOwner) -> (r: Result<
        (),
        CrackedError,
    >)
        ensures
            r is Ok <==> may_lock(owner_in(self.view(), guild_id), as_),
            r is Err ==> r == Err::<(), CrackedError>(CrackedError::GameInProgress),
    {
        let owner = self.playback_owner(guild_id);
        if owner != PlaybackOwner::Free && owner != as_ {
            Err(CrackedError::GameInProgress)
        } else {
            Ok(())
        }
    }
}

/// A caller may mutate the queue when nobody owns playback or it is the owner.
pub open spec fn may_lock(owner: PlaybackOwner, as_: PlaybackOwner) -> bool {
    owner == PlaybackOwner::Free || owner == as_
}

} // verus!

verus! {

/// A guild nobody has claimed is free.
pub proof fn an_unclaimed_guild_is_free(claims: Map<u64, PlaybackOwner>, guild: GuildId)
    requires
        !claims.contains_key(guild.0),
    ensures
        owner_in(claims, guild) == PlaybackOwner::Free,
{
}

/// Claiming a free guild and then releasing it leaves the claims as they
/// were.
pub proof fn claim_then_release_round_trips(claims: Map<u64, PlaybackOwner>, guild: GuildId, owner: PlaybackOwner)
    requires
        !claims.contains_key(guild.0),
    ensures
        claims.insert(guild.0, owner).remove(guild.0) == claims,
        owner_in(claims.insert(guild.0, owner).remove(guild.0), guild) == PlaybackOwner::Free,
{
    assert(claims.insert(guild.0, owner).remove(guild.0) =~= claims);
}

/// Releasing twice is releasing once; releasing a guild that owns nothing
/// changes nothing.
pub proof fn release_is_idempotent(claims: Map<u64, PlaybackOwner>, guild: GuildId)
    ensures
        claims.remove(guild.0).remove(guild.0) == claims.remove(guild.0),
        !claims.contains_key(guild.0) ==> claims.remove(guild.0) == claims,
{
    assert(claims.remove(guild.0).remove(guild.0) =~= claims.remove(guild.0));
    if !claims.contains_key(guild.0) {
        assert(claims.remove(guild.0) =~= claims);
    }
}

/// A claim is per guild: claiming one guild changes no other guild's owner.
pub proof fn a_claim_is_per_guild(claims: Map<u64, PlaybackOwner>, guild: GuildId, other: GuildId, owner: PlaybackOwner)
    requires
        guild != other,
    ensures
        owner_in(claims.insert(guild.0, owner), other) == owner_in(claims, other),
        owner_in(claims.remove(guild.0), other) == owner_in(claims, other),
{
}

/// While a game owns a guild, the game may lock its queue and nobody else
/// may; once the guild is released, anyone may.
pub proof fn only_the_owner_locks_an_owned_queue(claims: Map<u64, PlaybackOwner>, guild: GuildId)
    ensures
        may_lock(owner_in(claims.insert(guild.0, PlaybackOwner::Game), guild), PlaybackOwner::Game),
        !may_lock(owner_in(claims.insert(guild.0, PlaybackOwner::Game), guild), PlaybackOwner::Free),
        may_lock(owner_in(claims.remove(guild.0), guild), PlaybackOwner::Free),
{
}

/// A guild claimed for nobody stays free: anyone's claim or lock on it
/// goes through.
pub proof fn a_claim_for_nobody_keeps_the_guild_free(
    claims: Map<u64, PlaybackOwner>,
    guild: GuildId,
    anyone: PlaybackOwner,
)
    ensures
        owner_in(claims.insert(guild.0, PlaybackOwner::Free), guild) == PlaybackOwner::Free,
        may_lock(owner_in(claims.insert(guild.0, PlaybackOwner::Free), guild), anyone),
{
}

} // verus!
