//! What the music commands need from Discord, and whether we have it.
//!
//! Two tiers: the voice permissions in [`VOICE_REQUIRED`] block a join (Discord
//! silently drops a join without them), while the text permissions in
//! [`TEXT_REQUIRED`] only degrade the bot: it still plays, it just cannot
//! announce.
use vstd::prelude::*;
use crate::errors::{CrackedError, PermScope};
use crate::ids::{ChannelId, GenericChannelId, GuildId, RoleId, UserId};

verus! {

/// A set of Discord permissions, as Discord's bitset.
#[derive(Debug, Clone, Copy, PartialEq, Eq, Structural, Hash)]
pub struct Permissions {
    pub bits: u64,
}

pub const VIEW_CHANNEL_BIT: u64 = 0x400;
pub const SEND_MESSAGES_BIT: u64 = 0x800;
pub const EMBED_LINKS_BIT: u64 = 0x4000;
pub const CONNECT_BIT: u64 = 0x10_0000;
pub const SPEAK_BIT: u64 = 0x20_0000;

/// The bits of [`text_required`].
pub const TEXT_REQUIRED_BITS: u64 = 0x4C00;

/// The bits of [`voice_required`].
pub const VOICE_REQUIRED_BITS: u64 = 0x30_0000;

/// Text permissions the now-playing posts need: View Channel, Send Messages
/// and Embed Links. Missing any of these degrades the bot; it never blocks it.
pub fn text_required() -> (r: Permissions)
    ensures
        r.bits == TEXT_REQUIRED_BITS,
{
    Permissions { bits: TEXT_REQUIRED_BITS }
}

/// Voice permissions a join needs: Connect and Speak. Missing either blocks
/// playback outright.
pub fn voice_required() -> (r: Permissions)
    ensures
        r.bits == VOICE_REQUIRED_BITS,
{
    Permissions { bits: VOICE_REQUIRED_BITS }
}

/// `a` with every bit of `b` cleared.
pub open spec fn bits_minus(a: u64, b: u64) -> u64 {
    a & !b
}

/// Whether every bit of `b` is set in `a`.
pub open spec fn bits_contain(a: u64, b: u64) -> bool {
    a & b == b
}

impl Permissions {
    pub fn view_channel() -> (r: Self)
        ensures
            r.bits == VIEW_CHANNEL_BIT,
    {
        Permissions { bits: VIEW_CHANNEL_BIT }
    }

    pub fn send_messages() -> (r: Self)
        ensures
            r.bits == SEND_MESSAGES_BIT,
    {
        Permissions { bits: SEND_MESSAGES_BIT }
    }

    pub fn embed_links() -> (r: Self)
        ensures
            r.bits == EMBED_LINKS_BIT,
    {
        Permissions { bits: EMBED_LINKS_BIT }
    }

    pub fn connect() -> (r: Self)
        ensures
            r.bits == CONNECT_BIT,
    {
        Permissions { bits: CONNECT_BIT }
    }

    pub fn speak() -> (r: Self)
        ensures
            r.bits == SPEAK_BIT,
    {
        Permissions { bits: SPEAK_BIT }
    }

    /// No permissions at all.
    pub fn empty() -> (r: Self)
        ensures
            r.bits == 0,
    {
        Permissions { bits: 0 }
    }

    /// The set with exactly these bits.
    pub fn from_bits(bits: u64) -> (r: Self)
        ensures
            r.bits == bits,
    {
        Permissions { bits }
    }

    pub fn is_empty(&self) -> (r: bool)
        ensures
            r == (self.bits == 0),
    {
        self.bits == 0
    }

    /// Whether every permission in `other` is in `self`.
    pub fn contains(&self, other: Permissions) -> (r: bool)
        ensures
            r == bits_contain(self.bits, other.bits),
    {
        self.bits & other.bits == other.bits
    }

    pub fn union(self, other: Permissions) -> (r: Permissions)
        ensures
            r.bits == self.bits | other.bits,
    {
        Permissions { bits: self.bits | other.bits }
    }

    /// The permissions of `self` that are not in `other`.
    pub fn difference(self, other: Permissions) -> (r: Permissions)
        ensures
            r.bits == bits_minus(self.bits, other.bits),
    {
        Permissions { bits: self.bits & !other.bits }
    }

    /// The names of the permissions in this set, comma separated, in Discord's
    /// order. Only the five permissions the music gate speaks of have names
    /// here; other bits are left unnamed.
    pub fn names(&self) -> (s: String)
        ensures
            s@ == permission_names(*self),
    {
        let mut s = String::new();
        let mut first = true;
        let ghost b = self.bits;
        proof {
            reveal_strlit("View Channel");
            reveal_strlit("Send Messages");
            reveal_strlit("Embed Links");
            reveal_strlit("Connect");
            reveal_strlit("Speak");
            assert(names_upto(b, 0) =~= Seq::<char>::empty());
        }
        if self.bits & VIEW_CHANNEL_BIT != 0 {
            s.append("View Channel");
            first = false;
        }
        assert(s@ =~= names_upto(b, 1));
        assert(first == (s@.len() == 0));
        if self.bits & SEND_MESSAGES_BIT != 0 {
            if !first {
                s.append(", ");
            }
            s.append("Send Messages");
            first = false;
        }
        assert(s@ =~= names_upto(b, 2));
        assert(first == (s@.len() == 0));
        if self.bits & EMBED_LINKS_BIT != 0 {
            if !first {
                s.append(", ");
            }
            s.append("Embed Links");
            first = false;
        }
        assert(s@ =~= names_upto(b, 3));
        assert(first == (s@.len() == 0));
        if self.bits & CONNECT_BIT != 0 {
            if !first {
                s.append(", ");
            }
            s.append("Connect");
            first = false;
        }
        assert(s@ =~= names_upto(b, 4));
        assert(first == (s@.len() == 0));
        if self.bits & SPEAK_BIT != 0 {
            if !first {
                s.append(", ");
            }
            s.append("Speak");
        }
        assert(s@ =~= names_upto(b, 5));
        s
    }
}

/// The named permission flags, in Discord's order.
pub open spec fn flag_bit(i: int) -> u64 {
    if i == 0 { VIEW_CHANNEL_BIT }
    else if i == 1 { SEND_MESSAGES_BIT }
    else if i == 2 { EMBED_LINKS_BIT }
    else if i == 3 { CONNECT_BIT }
    else { SPEAK_BIT }
}

pub open spec fn flag_name(i: int) -> Seq<char> {
    if i == 0 { "View Channel"@ }
    else if i == 1 { "Send Messages"@ }
    else if i == 2 { "Embed Links"@ }
    else if i == 3 { "Connect"@ }
    else { "Speak"@ }
}

/// The comma-separated names of the flags among the first `n` that are set.
pub open spec fn names_upto(bits: u64, n: int) -> Seq<char>
    decreases n,
{
    if n <= 0 {
        Seq::empty()
    } else {
        let before = names_upto(bits, n - 1);
        if bits & flag_bit(n - 1) != 0 {
            if before.len() == 0 {
                flag_name(n - 1)
            } else {
                before + ", "@ + flag_name(n - 1)
            }
        } else {
            before
        }
    }
}

/// How a permission set renders in a message.
pub open spec fn permission_names(p: Permissions) -> Seq<char> {
    names_upto(p.bits, 5)
}

impl core::ops::Sub for Permissions {
    type Output = Permissions;

    fn sub(self, rhs: Permissions) -> (r: Permissions) {
        self.difference(rhs)
    }
}

impl vstd::std_specs::ops::SubSpecImpl for Permissions {
    open spec fn obeys_sub_spec() -> bool {
        true
    }

    open spec fn sub_req(self, rhs: Permissions) -> bool {
        true
    }

    open spec fn sub_spec(self, rhs: Permissions) -> Permissions {
        Permissions { bits: bits_minus(self.bits, rhs.bits) }
    }
}

} // verus!

verus! {

/// The bot's permissions as they bear on playing music in one guild.
#[derive(Debug, Clone, Copy, PartialEq, Eq, Structural)]
pub struct MusicPermissions {
    pub text: TextPerms,
    pub voice: VoiceCheck,
}

/// What could be learned about the voice channel the author is sitting in.
///
/// Three states, not two: "in a channel the bot cannot see" is not "in no
/// channel". Discord omits channels the bot lacks View Channel on, so such a
/// channel is simply absent from the guild's channel list.
#[derive(Debug, Clone, Copy, PartialEq, Eq, Structural)]
pub enum VoiceCheck {
    /// The author is in no voice channel. Not a denial.
    NotInVoice,
    /// The author is in a channel absent from an already-cached guild.
    Unreadable(ChannelId),
    /// Read successfully.
    Resolved(VoicePerms),
}

/// What the bot may do in the channel a command was invoked in.
#[derive(Debug, Clone, Copy, PartialEq, Eq, Structural)]
pub struct TextPerms {
    pub channel: GenericChannelId,
    pub granted: Permissions,
}

/// What the bot may do in the voice channel it would join.
#[derive(Debug, Clone, Copy, PartialEq, Eq, Structural)]
pub struct VoicePerms {
    pub channel: ChannelId,
    pub granted: Permissions,
}

impl VoiceCheck {
    /// The resolved permissions, if the channel was read. `None` both for "in
    /// no channel" and for "in a channel we cannot see"; callers that must tell
    /// those apart match instead.
    pub fn perms(&self) -> (r: Option<&VoicePerms>)
        ensures
            match *self {
                VoiceCheck::Resolved(v) => r == Some(&v),
                _ => r is None,
            },
    {
        match self {
            VoiceCheck::Resolved(v) => Some(v),
            VoiceCheck::NotInVoice | VoiceCheck::Unreadable(_) => None,
        }
    }

    /// The resolved case, from a raw bitset.
    pub fn resolved(channel: ChannelId, granted: Permissions) -> (r: Self)
        ensures
            r == VoiceCheck::Resolved(VoicePerms { channel, granted }),
    {
        VoiceCheck::Resolved(VoicePerms { channel, granted })
    }
}

impl TextPerms {
    /// The part of [`text_required`] the bot does not have.
    pub fn missing(&self) -> (r: Permissions)
        ensures
            r.bits == bits_minus(TEXT_REQUIRED_BITS, self.granted.bits),
    {
        text_required().difference(self.granted)
    }

    /// Whether nothing in [`text_required`] is missing.
    pub fn is_whole(&self) -> (r: bool)
        ensures
            r == (bits_minus(TEXT_REQUIRED_BITS, self.granted.bits) == 0),
            r == bits_contain(self.granted.bits, TEXT_REQUIRED_BITS),
    {
        let m = self.missing();
        proof {
            lemma_minus_empty_iff_contains(TEXT_REQUIRED_BITS, self.granted.bits);
        }
        m.is_empty()
    }

    pub fn view(&self) -> (r: bool)
        ensures
            r == bits_contain(self.granted.bits, VIEW_CHANNEL_BIT),
    {
        self.granted.contains(Permissions::view_channel())
    }

    pub fn send(&self) -> (r: bool)
        ensures
            r == bits_contain(self.granted.bits, SEND_MESSAGES_BIT),
    {
        self.granted.contains(Permissions::send_messages())
    }

    pub fn embed(&self) -> (r: bool)
        ensures
            r == bits_contain(self.granted.bits, EMBED_LINKS_BIT),
    {
        self.granted.contains(Permissions::embed_links())
    }
}

impl VoicePerms {
    /// The part of [`voice_required`] the bot does not have.
    pub fn missing(&self) -> (r: Permissions)
        ensures
            r.bits == bits_minus(VOICE_REQUIRED_BITS, self.granted.bits),
    {
        voice_required().difference(self.granted)
    }

    /// Whether a join can work: both Connect and Speak are granted.
    pub fn can_join(&self) -> (r: bool)
        ensures
            r == (bits_minus(VOICE_REQUIRED_BITS, self.granted.bits) == 0),
            r == bits_contain(self.granted.bits, VOICE_REQUIRED_BITS),
    {
        let m = self.missing();
        proof {
            lemma_minus_empty_iff_contains(VOICE_REQUIRED_BITS, self.granted.bits);
        }
        m.is_empty()
    }

    pub fn connect(&self) -> (r: bool)
        ensures
            r == bits_contain(self.granted.bits, CONNECT_BIT),
    {
        self.granted.contains(Permissions::connect())
    }

    pub fn speak(&self) -> (r: bool)
        ensures
            r == bits_contain(self.granted.bits, SPEAK_BIT),
    {
        self.granted.contains(Permissions::speak())
    }
}

/// `required - granted` is empty exactly when `granted` holds all of `required`.
pub proof fn lemma_minus_empty_iff_contains(required: u64, granted: u64)
    ensures
        (bits_minus(required, granted) == 0) == bits_contain(granted, required),
{
    assert((required & !granted == 0) == (granted & required == required)) by (bit_vector);
}

/// Build the permission picture from already-resolved bitsets.
pub fn compute(
    text_channel: GenericChannelId,
    text_granted: Permissions,
    voice: VoiceCheck,
) -> (r: MusicPermissions)
    ensures
        r == (MusicPermissions {
            text: TextPerms { channel: text_channel, granted: text_granted },
            voice,
        }),
{
    MusicPermissions { text: TextPerms { channel: text_channel, granted: text_granted }, voice }
}

/// Whether every role the permission math depends on is known: the guild's
/// `@everyone` role (whose id is the guild id), then each of the member's
/// roles. An unknown role would make the computed bitset under-report.
pub fn roles_resolvable(
    guild_id: GuildId,
    member_roles: &[RoleId],
    is_known: impl Fn(RoleId) -> bool,
) -> (r: bool)
    requires
        forall|role: RoleId| is_known.requires((role,)),
    ensures
        r ==> is_known.ensures((RoleId(guild_id.0),), true),
        r ==> forall|i: int|
            0 <= i < member_roles@.len() ==> is_known.ensures((member_roles@[i],), true),
        !r ==> (is_known.ensures((RoleId(guild_id.0),), false) || exists|i: int|
            0 <= i < member_roles@.len() && is_known.ensures((member_roles@[i],), false)),
{
    if !is_known(RoleId::new(guild_id.get())) {
        return false;
    }
    let mut i: usize = 0;
    while i < member_roles.len()
        invariant
            i <= member_roles@.len(),
            forall|role: RoleId| is_known.requires((role,)),
            is_known.ensures((RoleId(guild_id.0),), true),
            forall|j: int| 0 <= j < i ==> is_known.ensures((member_roles@[j],), true),
        decreases member_roles@.len() - i,
    {
        if !is_known(member_roles[i]) {
            return false;
        }
        i = i + 1;
    }
    true
}

/// Classify the author's voice situation: in no channel, in a channel the
/// guild does not list (unreadable), or in a listed one with its bitset.
/// `granted_in` is consulted only for a channel `channel_known` accepted.
pub fn classify_voice(
    author_channel: Option<ChannelId>,
    channel_known: impl Fn(ChannelId) -> bool,
    granted_in: impl Fn(ChannelId) -> Permissions,
) -> (r: VoiceCheck)
    requires
        forall|c: ChannelId| channel_known.requires((c,)),
        forall|c: ChannelId| #[trigger] channel_known.ensures((c,), true) ==> granted_in.requires((c,)),
    ensures
        author_channel is None ==> r == VoiceCheck::NotInVoice,
        author_channel matches Some(c) ==> match r {
            VoiceCheck::NotInVoice => false,
            VoiceCheck::Unreadable(u) => u == c && channel_known.ensures((c,), false),
            VoiceCheck::Resolved(v) => v.channel == c && channel_known.ensures((c,), true)
                && granted_in.ensures((c,), v.granted),
        },
{
    let cid = match author_channel {
        None => return VoiceCheck::NotInVoice,
        Some(cid) => cid,
    };
    if !channel_known(cid) {
        return VoiceCheck::Unreadable(cid);
    }
    VoiceCheck::resolved(cid, granted_in(cid))
}

/// What the cache was able to say about the channel a join is aimed at.
///
/// "We know nothing" and "we know Discord withheld this channel" demand
/// opposite answers, so they are two states rather than one `None`.
#[derive(Debug, Clone, Copy, PartialEq, Eq, Structural)]
pub enum JoinLookup {
    /// Genuine ignorance: the guild, the bot's member or one of its roles is
    /// not cached.
    Unknown,
    /// The guild is cached and the channel is absent from it.
    Withheld,
    /// Resolved.
    Granted(Permissions),
}

/// Classify a join target. `guild_readable` is false when nothing is known;
/// `granted_in` is consulted only for a channel `channel_known` accepted.
pub fn classify_join(
    channel: ChannelId,
    guild_readable: bool,
    channel_known: impl Fn(ChannelId) -> bool,
    granted_in: impl Fn(ChannelId) -> Permissions,
) -> (r: JoinLookup)
    requires
        forall|c: ChannelId| channel_known.requires((c,)),
        forall|c: ChannelId| #[trigger] channel_known.ensures((c,), true) ==> granted_in.requires((c,)),
    ensures
        !guild_readable ==> r == JoinLookup::Unknown,
        guild_readable ==> match r {
            JoinLookup::Unknown => false,
            JoinLookup::Withheld => channel_known.ensures((channel,), false),
            JoinLookup::Granted(p) => channel_known.ensures((channel,), true)
                && granted_in.ensures((channel,), p),
        },
{
    if !guild_readable {
        return JoinLookup::Unknown;
    }
    if !channel_known(channel) {
        return JoinLookup::Withheld;
    }
    JoinLookup::Granted(granted_in(channel))
}

/// The refusal a set of granted voice permissions earns: none when Connect and
/// Speak are both granted, otherwise one naming exactly what is missing.
pub fn voice_refusal(channel: ChannelId, granted: Permissions) -> (r: Option<CrackedError>)
    ensures
        r == voice_refusal_spec(channel, granted),
{
    let missing = voice_required().difference(granted);
    if missing.is_empty() {
        None
    } else {
        Some(
            CrackedError::MissingBotPermissions {
                scope: PermScope::Voice,
                channel: channel.widen(),
                missing,
            },
        )
    }
}

pub open spec fn voice_refusal_spec(channel: ChannelId, granted: Permissions) -> Option<
    CrackedError,
> {
    let missing = bits_minus(VOICE_REQUIRED_BITS, granted.bits);
    if missing == 0 {
        None
    } else {
        Some(
            CrackedError::MissingBotPermissions {
                scope: PermScope::Voice,
                channel: GenericChannelId(channel.0),
                missing: Permissions { bits: missing },
            },
        )
    }
}

/// The refusal for a voice channel the bot cannot even see. It names View
/// Channel and nothing else: Connect and Speak are unknown there, not missing.
pub fn unreadable_refusal(channel: ChannelId) -> (r: CrackedError)
    ensures
        r == unreadable_refusal_spec(channel),
{
    CrackedError::MissingBotPermissions {
        scope: PermScope::Voice,
        channel: channel.widen(),
        missing: Permissions::view_channel(),
    }
}

pub open spec fn unreadable_refusal_spec(channel: ChannelId) -> CrackedError {
    CrackedError::MissingBotPermissions {
        scope: PermScope::Voice,
        channel: GenericChannelId(channel.0),
        missing: Permissions { bits: VIEW_CHANNEL_BIT },
    }
}

/// The decision the join gate makes once the cache has had its say: fail open
/// on ignorance, refuse for View Channel on a withheld channel, and otherwise
/// defer to the voice bitset.
pub fn join_refusal(channel: ChannelId, lookup: JoinLookup) -> (r: Option<CrackedError>)
    ensures
        r == join_refusal_spec(channel, lookup),
{
    match lookup {
        JoinLookup::Unknown => None,
        JoinLookup::Withheld => Some(unreadable_refusal(channel)),
        JoinLookup::Granted(granted) => voice_refusal(channel, granted),
    }
}

pub open spec fn join_refusal_spec(channel: ChannelId, lookup: JoinLookup) -> Option<CrackedError> {
    match lookup {
        JoinLookup::Unknown => None,
        JoinLookup::Withheld => Some(unreadable_refusal_spec(channel)),
        JoinLookup::Granted(granted) => voice_refusal_spec(channel, granted),
    }
}

} // verus!

verus! {

/// One channel the guild lists, with the permissions the bot's roles and the
/// channel's overwrites give it there.
#[derive(Debug, Clone, Copy, PartialEq, Eq, Structural)]
pub struct ChannelGrant {
    pub channel: u64,
    pub granted: Permissions,
}

/// Where one member of the guild sits in voice, if anywhere.
#[derive(Debug, Clone, Copy, PartialEq, Eq, Structural)]
pub struct VoiceSeat {
    pub user: UserId,
    pub channel: Option<ChannelId>,
}

/// What the cache holds about one guild, as far as the permission gate reads
/// it: the bot's own roles (absent when the bot's member is not cached), the
/// roles and channels the guild lists, and the members' voice seats.
#[derive(Debug, Clone)]
pub struct GuildFacts {
    pub bot_roles: Option<Vec<RoleId>>,
    pub roles: Vec<RoleId>,
    pub channels: Vec<ChannelGrant>,
    pub voice_seats: Vec<VoiceSeat>,
}

/// The permissions listed for channel `c`: the first entry for it, if any.
pub open spec fn grant_of(s: Seq<ChannelGrant>, c: u64) -> Option<Permissions>
    decreases s.len(),
{
    if s.len() == 0 {
        None
    } else if s[0].channel == c {
        Some(s[0].granted)
    } else {
        grant_of(s.drop_first(), c)
    }
}

/// Where `user` sits: the first seat listed for them, if any.
pub open spec fn seat_of(s: Seq<VoiceSeat>, user: UserId) -> Option<ChannelId>
    decreases s.len(),
{
    if s.len() == 0 {
        None
    } else if s[0].user == user {
        s[0].channel
    } else {
        seat_of(s.drop_first(), user)
    }
}

/// Whether every role the bot's permission math needs is listed.
pub open spec fn roles_known(f: GuildFacts, guild_id: GuildId) -> bool {
    &&& f.bot_roles is Some
    &&& f.roles@.contains(RoleId(guild_id.0))
    &&& forall|i: int|
        0 <= i < f.bot_roles->0@.len() ==> f.roles@.contains(#[trigger] f.bot_roles->0@[i])
}

/// The author's voice situation, read from a cached guild.
pub open spec fn voice_check_of(f: GuildFacts, author: UserId) -> VoiceCheck {
    match seat_of(f.voice_seats@, author) {
        None => VoiceCheck::NotInVoice,
        Some(c) => match grant_of(f.channels@, c.0) {
            None => VoiceCheck::Unreadable(c),
            Some(p) => VoiceCheck::Resolved(VoicePerms { channel: c, granted: p }),
        },
    }
}

/// What [`resolve`] answers.
pub open spec fn resolve_spec(
    guild: Option<GuildFacts>,
    guild_id: GuildId,
    text_channel: GenericChannelId,
    author: UserId,
) -> Option<MusicPermissions> {
    match guild {
        None => None,
        Some(f) => if !roles_known(f, guild_id) {
            None
        } else {
            match grant_of(f.channels@, text_channel.0) {
                None => None,
                Some(text_granted) => Some(
                    MusicPermissions {
                        text: TextPerms { channel: text_channel, granted: text_granted },
                        voice: voice_check_of(f, author),
                    },
                ),
            }
        },
    }
}

/// What [`join_lookup`] answers.
pub open spec fn join_lookup_spec(guild: Option<GuildFacts>, guild_id: GuildId, channel: ChannelId) -> JoinLookup {
    match guild {
        None => JoinLookup::Unknown,
        Some(f) => if !roles_known(f, guild_id) {
            JoinLookup::Unknown
        } else {
            match grant_of(f.channels@, channel.0) {
                None => JoinLookup::Withheld,
                Some(p) => JoinLookup::Granted(p),
            }
        },
    }
}

fn find_grant(channels: &Vec<ChannelGrant>, c: u64) -> (r: Option<Permissions>)
    ensures
        r == grant_of(channels@, c),
{
    let mut i: usize = 0;
    assert(channels@.skip(0) =~= channels@);
    while i < channels.len()
        invariant
            i <= channels@.len(),
            grant_of(channels@, c) == grant_of(channels@.skip(i as int), c),
        decreases channels@.len() - i,
    {
        assert(channels@.skip(i as int)[0] == channels@[i as int]);
        if channels[i].channel == c {
            return Some(channels[i].granted);
        }
        assert(channels@.skip(i as int).drop_first() =~= channels@.skip(i + 1));
        i = i + 1;
    }
    assert(channels@.skip(i as int).len() == 0);
    None
}

fn find_seat(seats: &Vec<VoiceSeat>, user: UserId) -> (r: Option<ChannelId>)
    ensures
        r == seat_of(seats@, user),
{
    let mut i: usize = 0;
    assert(seats@.skip(0) =~= seats@);
    while i < seats.len()
        invariant
            i <= seats@.len(),
            seat_of(seats@, user) == seat_of(seats@.skip(i as int), user),
        decreases seats@.len() - i,
    {
        assert(seats@.skip(i as int)[0] == seats@[i as int]);
        if seats[i].user == user {
            return seats[i].channel;
        }
        assert(seats@.skip(i as int).drop_first() =~= seats@.skip(i + 1));
        i = i + 1;
    }
    assert(seats@.skip(i as int).len() == 0);
    None
}

fn role_listed(roles: &Vec<RoleId>, r: RoleId) -> (b: bool)
    ensures
        b == roles@.contains(r),
{
    let mut i: usize = 0;
    while i < roles.len()
        invariant
            i <= roles@.len(),
            forall|j: int| 0 <= j < i ==> roles@[j] != r,
        decreases roles@.len() - i,
    {
        if roles[i] == r {
            assert(roles@[i as int] == r);
            return true;
        }
        i = i + 1;
    }
    false
}

/// Whether the bot's roles all resolve in this cached guild.
fn bot_roles_known(f: &GuildFacts, guild_id: GuildId) -> (b: bool)
    ensures
        b == roles_known(*f, guild_id),
{
    match &f.bot_roles {
        None => false,
        Some(bot_roles) => {
            let is_known = |role: RoleId| -> (k: bool)
                ensures
                    k == f.roles@.contains(role),
                { role_listed(&f.roles, role) };
            let b = roles_resolvable(guild_id, bot_roles.as_slice(), is_known);
            proof {
                if b {
                    assert forall|i: int| 0 <= i < bot_roles@.len() implies f.roles@.contains(
                        #[trigger] bot_roles@[i],
                    ) by {
                        assert(is_known.ensures((bot_roles@[i],), true));
                    }
                }
            }
            b
        },
    }
}

/// Read the bot's permissions out of a cached guild. `None` when the guild or
/// the bot's own member is not cached, when one of the bot's roles cannot be
/// resolved (the bitset would under-report), or when the text channel is not
/// listed: callers treat that as "assume fine".
pub fn resolve(
    guild: Option<&GuildFacts>,
    guild_id: GuildId,
    text_channel: GenericChannelId,
    author: UserId,
) -> (r: Option<MusicPermissions>)
    ensures
        r == resolve_spec(
            match guild {
                Some(f) => Some(*f),
                None => None,
            },
            guild_id,
            text_channel,
            author,
        ),
{
    let f = match guild {
        None => return None,
        Some(f) => f,
    };
    if !bot_roles_known(f, guild_id) {
        return None;
    }
    let text_granted = match find_grant(&f.channels, text_channel.get()) {
        None => return None,
        Some(p) => p,
    };
    let known = |c: ChannelId| -> (k: bool)
        ensures
            k == (grant_of(f.channels@, c.0) is Some),
        { find_grant(&f.channels, c.get()).is_some() };
    let granted_in = |c: ChannelId| -> (p: Permissions)
        ensures
            grant_of(f.channels@, c.0) matches Some(g) ==> p == g,
        {
            match find_grant(&f.channels, c.get()) {
                Some(p) => p,
                None => Permissions::empty(),
            }
        };
    let seat = find_seat(&f.voice_seats, author);
    let voice = classify_voice(seat, known, granted_in);
    proof {
        match seat {
            None => {},
            Some(c) => {
                match voice {
                    VoiceCheck::Resolved(v) => {
                        assert(known.ensures((c,), true));
                        assert(granted_in.ensures((c,), v.granted));
                    },
                    _ => {},
                }
            },
        }
    }
    Some(compute(text_channel, text_granted, voice))
}

/// Ask a cached guild what it knows about a join target.
pub fn join_lookup(guild: Option<&GuildFacts>, guild_id: GuildId, channel_id: ChannelId) -> (r:
    JoinLookup)
    ensures
        r == join_lookup_spec(
            match guild {
                Some(f) => Some(*f),
                None => None,
            },
            guild_id,
            channel_id,
        ),
{
    let f = match guild {
        None => return JoinLookup::Unknown,
        Some(f) => f,
    };
    let readable = bot_roles_known(f, guild_id);
    let known = |c: ChannelId| -> (k: bool)
        ensures
            k == (grant_of(f.channels@, c.0) is Some),
        { find_grant(&f.channels, c.get()).is_some() };
    let granted_in = |c: ChannelId| -> (p: Permissions)
        ensures
            grant_of(f.channels@, c.0) matches Some(g) ==> p == g,
        {
            match find_grant(&f.channels, c.get()) {
                Some(p) => p,
                None => Permissions::empty(),
            }
        };
    classify_join(channel_id, readable, known, granted_in)
}

/// The blocking gate: refuse a join Discord would silently drop. Call this
/// immediately before every voice join.
pub fn ensure_can_join(guild: Option<&GuildFacts>, guild_id: GuildId, channel_id: ChannelId) -> (r:
    Result<(), CrackedError>)
    ensures
        ({
            let refusal = join_refusal_spec(
                channel_id,
                join_lookup_spec(
                    match guild {
                        Some(f) => Some(*f),
                        None => None,
                    },
                    guild_id,
                    channel_id,
                ),
            );
            match refusal {
                Some(e) => r == Err::<(), CrackedError>(e),
                None => r is Ok,
            }
        }),
{
    match join_refusal(channel_id, join_lookup(guild, guild_id, channel_id)) {
        Some(err) => Err(err),
        None => Ok(()),
    }
}

} // verus!

verus! {

/// The join gate fails open: with nothing cached about the guild, no join is
/// refused.
pub proof fn an_uncached_guild_never_refuses_a_join(guild_id: GuildId, channel: ChannelId)
    ensures
        join_refusal_spec(channel, join_lookup_spec(None, guild_id, channel)) is None,
{
}

/// The join gate fails open on an under-reported bitset too: when one of the bot's
/// roles (or the guild's `@everyone` role) cannot be resolved, or the bot's
/// own member is not cached, no join is refused.
pub proof fn unresolvable_roles_never_refuse_a_join(f: GuildFacts, guild_id: GuildId, channel: ChannelId)
    requires
        !roles_known(f, guild_id),
    ensures
        join_refusal_spec(channel, join_lookup_spec(Some(f), guild_id, channel)) is None,
{
}

/// A channel Discord withheld from a readable guild is refused for View
/// Channel and for nothing else.
pub proof fn a_withheld_channel_is_refused_for_view_channel_alone(f: GuildFacts, guild_id: GuildId, channel: ChannelId)
    requires
        roles_known(f, guild_id),
        grant_of(f.channels@, channel.0) is None,
    ensures
        join_refusal_spec(channel, join_lookup_spec(Some(f), guild_id, channel)) == Some(
            CrackedError::MissingBotPermissions {
                scope: PermScope::Voice,
                channel: GenericChannelId(channel.0),
                missing: Permissions { bits: VIEW_CHANNEL_BIT },
            },
        ),
{
}

/// With the channel's permissions known, a join is refused exactly when
/// Connect or Speak is not granted, and the refusal names exactly the
/// missing ones: each named permission is required and not granted, and
/// each required permission not granted is named.
pub proof fn a_refusal_names_exactly_what_is_missing(channel: ChannelId, granted: Permissions)
    ensures
        (join_refusal_spec(channel, JoinLookup::Granted(granted)) is Some) <==> !bits_contain(
            granted.bits,
            VOICE_REQUIRED_BITS,
        ),
        join_refusal_spec(channel, JoinLookup::Granted(granted)) matches Some(
            CrackedError::MissingBotPermissions { scope, channel: c, missing },
        ) ==> {
            &&& scope == PermScope::Voice
            &&& c == GenericChannelId(channel.0)
            &&& missing.bits & VOICE_REQUIRED_BITS == missing.bits
            &&& missing.bits & granted.bits == 0
            &&& VOICE_REQUIRED_BITS & !granted.bits == missing.bits
        },
{
    lemma_minus_empty_iff_contains(VOICE_REQUIRED_BITS, granted.bits);
    let g = granted.bits;
    assert((VOICE_REQUIRED_BITS & !g) & VOICE_REQUIRED_BITS == VOICE_REQUIRED_BITS & !g) by (bit_vector);
    assert((VOICE_REQUIRED_BITS & !g) & g == 0) by (bit_vector);
}

/// Text permissions never block: every refusal the join gate can give is about
/// the voice channel and names only Connect, Speak or View Channel.
pub proof fn refusals_are_only_about_voice(channel: ChannelId, lookup: JoinLookup)
    ensures
        join_refusal_spec(channel, lookup) matches Some(
            CrackedError::MissingBotPermissions { scope, missing, .. },
        ) ==> scope == PermScope::Voice && missing.bits & (VOICE_REQUIRED_BITS | VIEW_CHANNEL_BIT)
            == missing.bits,
{
    match lookup {
        JoinLookup::Granted(granted) => {
            let g = granted.bits;
            assert((VOICE_REQUIRED_BITS & !g) & (VOICE_REQUIRED_BITS | VIEW_CHANNEL_BIT)
                == VOICE_REQUIRED_BITS & !g) by (bit_vector);
        },
        JoinLookup::Withheld => {
            assert(VIEW_CHANNEL_BIT & (VOICE_REQUIRED_BITS | VIEW_CHANNEL_BIT) == VIEW_CHANNEL_BIT)
                by (bit_vector);
        },
        JoinLookup::Unknown => {},
    }
}

/// Someone sitting in a voice channel the cached guild does not list is in a
/// channel the bot cannot see, never "not in voice".
pub proof fn an_unseen_channel_is_not_no_channel(f: GuildFacts, author: UserId, channel: ChannelId)
    requires
        seat_of(f.voice_seats@, author) == Some(channel),
        grant_of(f.channels@, channel.0) is None,
    ensures
        voice_check_of(f, author) == VoiceCheck::Unreadable(channel),
{
}


/// The permissions granted outside guilds: reading and writing in direct
/// messages, without text-to-speech or managing messages.
pub const DM_GRANTED_BITS: u64 = 0b111_1100_1000_0000_0000_0111_1111_1000_0100_0000;
pub const SEND_TTS_MESSAGES_BIT: u64 = 0x1000;
pub const MANAGE_MESSAGES_BIT: u64 = 0x2000;

/// What a command's author may do outside a guild: the direct-message
/// grant, with Send Messages, less Send TTS Messages and Manage Messages.
pub fn dm_permissions() -> (r: Permissions)
    ensures
        r.bits == bits_minus(
            bits_minus(DM_GRANTED_BITS | SEND_MESSAGES_BIT, SEND_TTS_MESSAGES_BIT),
            MANAGE_MESSAGES_BIT,
        ),
{
    Permissions::from_bits(DM_GRANTED_BITS).union(Permissions::from_bits(SEND_MESSAGES_BIT)).difference(
        Permissions::from_bits(SEND_TTS_MESSAGES_BIT),
    ).difference(Permissions::from_bits(MANAGE_MESSAGES_BIT))
}

} // verus!
