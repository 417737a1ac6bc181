//! Guild settings and the in-memory cache of them that the bot keeps for
//! every guild it is in.

use vstd::prelude::*;
use std::collections::HashMap;

verus! {

broadcast use vstd::std_specs::hash::group_hash_axioms;

/// The settings row of one guild. Bit strings of the database are held as
/// vectors of bits; user and guild ids as their numbers.
#[derive(Clone, Debug)]
pub struct GuildSettings {
    pub id: u64,
    pub prefix: Option<String>,
    pub language: String,
    pub tags: HashMap<String, String>,
    pub channels_announcement_id: Option<i64>,
    pub channels_greeting_id: Option<i64>,
    pub channels_farewell_id: Option<i64>,
    pub channels_member_logs_id: Option<i64>,
    pub channels_message_logs_id: Option<i64>,
    pub channels_nsfw_message_logs_id: Option<i64>,
    pub channels_moderation_logs_id: Option<i64>,
    pub channels_roles_id: Option<i64>,
    pub channels_spam_id: Option<i64>,
    pub command_autodelete: HashMap<i64, u32>,
    pub disabled_channels: Vec<i64>,
    pub disabled_command_channels: HashMap<u64, Vec<String>>,
    pub events_ban_add: bool,
    pub events_ban_remove: bool,
    pub events_member_add: bool,
    pub events_member_remove: bool,
    pub events_message_add: bool,
    pub events_message_remove: bool,
    pub filter_level_enabled: Vec<bool>,
    pub filter_raw: Vec<String>,
    pub messages_farewell: Option<String>,
    pub messages_greeting: Option<String>,
    pub messages_join_dm: Option<String>,
    pub messages_warnings: bool,
    pub messages_ignore_channels: Vec<i64>,
    pub sticky_roles: HashMap<u64, Vec<i64>>,
    pub roles_administrator_id: Option<i64>,
    pub roles_moderator_id: Option<i64>,
    pub roles_staff_id: Option<i64>,
    pub roles_automatic: HashMap<i64, u32>,
    pub roles_initial: Option<i64>,
    pub roles_mute_id: Option<i64>,
    pub roles_public: Vec<i64>,
    pub roles_reactions: HashMap<String, i64>,
    pub roles_remove_initial: bool,
    pub roles_subscriber_id: Option<i64>,
    pub roles_unique_role_sets: HashMap<String, Vec<String>>,
    pub selfmod_attachment: bool,
    pub selfmod_attachment_maximum: i16,
    pub selfmod_attachment_duration: i32,
    pub selfmod_attachment_action: i16,
    pub selfmod_attachment_punishment_duration: Option<i32>,
    pub selfmod_caps_enabled: Vec<bool>,
    pub selfmod_caps_minimum: i16,
    pub selfmod_caps_threshold: i16,
    pub selfmod_invitelinks_enabled: Vec<bool>,
    pub selfmod_raid_enabled: Vec<bool>,
    pub selfmod_raid_threshold: i16,
    pub selfmod_ignore_channels: Vec<i64>,
    pub nms_enabled: bool,
    pub nms_alert_enabled: bool,
    pub nms_allowed_mention_count: i16,
    pub nms_refresh_time: i16,
    pub social_achievement_enabled: bool,
    pub social_achievement_message: Option<String>,
    pub social_ignore_channels: Vec<i64>,
    pub starboard_channel: Option<i64>,
    pub starboard_emoji: Option<String>,
    pub starboard_minimum_count: i16,
    pub starboard_ignore_channels: Vec<i64>,
    pub trigger_alias: HashMap<String, String>,
    pub trigger_includes: HashMap<String, String>,
}

impl GuildSettings {
    /// Every field but `id` and `language` holds its empty value.
    pub open spec fn is_blank(self) -> bool {
        &&& self.prefix is None
        &&& self.tags@ == Map::<String, String>::empty()
        &&& self.channels_announcement_id is None
        &&& self.channels_greeting_id is None
        &&& self.channels_farewell_id is None
        &&& self.channels_member_logs_id is None
        &&& self.channels_message_logs_id is None
        &&& self.channels_nsfw_message_logs_id is None
        &&& self.channels_moderation_logs_id is None
        &&& self.channels_roles_id is None
        &&& self.channels_spam_id is None
        &&& self.command_autodelete@ == Map::<i64, u32>::empty()
        &&& self.disabled_channels@.len() == 0
        &&& self.disabled_command_channels@ == Map::<u64, Vec<String>>::empty()
        &&& !self.events_ban_add
        &&& !self.events_ban_remove
        &&& !self.events_member_add
        &&& !self.events_member_remove
        &&& !self.events_message_add
        &&& !self.events_message_remove
        &&& self.filter_level_enabled@.len() == 0
        &&& self.filter_raw@.len() == 0
        &&& self.messages_farewell is None
        &&& self.messages_greeting is None
        &&& self.messages_join_dm is None
        &&& !self.messages_warnings
        &&& self.messages_ignore_channels@.len() == 0
        &&& self.sticky_roles@ == Map::<u64, Vec<i64>>::empty()
        &&& self.roles_administrator_id is None
        &&& self.roles_moderator_id is None
        &&& self.roles_staff_id is None
        &&& self.roles_automatic@ == Map::<i64, u32>::empty()
        &&& self.roles_initial is None
        &&& self.roles_mute_id is None
        &&& self.roles_public@.len() == 0
        &&& self.roles_reactions@ == Map::<String, i64>::empty()
        &&& !self.roles_remove_initial
        &&& self.roles_subscriber_id is None
        &&& self.roles_unique_role_sets@ == Map::<String, Vec<String>>::empty()
        &&& !self.selfmod_attachment
        &&& self.selfmod_attachment_maximum == 0
        &&& self.selfmod_attachment_duration == 0
        &&& self.selfmod_attachment_action == 0
        &&& self.selfmod_attachment_punishment_duration is None
        &&& self.selfmod_caps_enabled@.len() == 0
        &&& self.selfmod_caps_minimum == 0
        &&& self.selfmod_caps_threshold == 0
        &&& self.selfmod_invitelinks_enabled@.len() == 0
        &&& self.selfmod_raid_enabled@.len() == 0
        &&& self.selfmod_raid_threshold == 0
        &&& self.selfmod_ignore_channels@.len() == 0
        &&& !self.nms_enabled
        &&& !self.nms_alert_enabled
        &&& self.nms_allowed_mention_count == 0
        &&& self.nms_refresh_time == 0
        &&& !self.social_achievement_enabled
        &&& self.social_achievement_message is None
        &&& self.social_ignore_channels@.len() == 0
        &&& self.starboard_channel is None
        &&& self.starboard_emoji is None
        &&& self.starboard_minimum_count == 0
        &&& self.starboard_ignore_channels@.len() == 0
        &&& self.trigger_alias@ == Map::<String, String>::empty()
        &&& self.trigger_includes@ == Map::<String, String>::empty()
    }

    /// The settings `fetch` hands out for a guild without a stored row:
    /// empty everywhere, in the `en_us` language.
    pub fn for_missing_guild(id: u64) -> (s: GuildSettings)
        ensures
            s.id == id,
            s.language@ == "en_us"@,
            s.is_blank(),
    {
        GuildSettings { id, language: "en_us".to_owned(), ..GuildSettings::default() }
    }
}

impl Default for GuildSettings {
    fn default() -> (s: GuildSettings)
        ensures
            s.id == 0,
            s.language@.len() == 0,
            s.prefix is None,
            s.is_blank(),
    {
        GuildSettings {
            id: 0,
            prefix: None,
            language: String::new(),
            tags: HashMap::new(),
            channels_announcement_id: None,
            channels_greeting_id: None,
            channels_farewell_id: None,
            channels_member_logs_id: None,
            channels_message_logs_id: None,
            channels_nsfw_message_logs_id: None,
            channels_moderation_logs_id: None,
            channels_roles_id: None,
            channels_spam_id: None,
            command_autodelete: HashMap::new(),
            disabled_channels: Vec::new(),
            disabled_command_channels: HashMap::new(),
            events_ban_add: false,
            events_ban_remove: false,
            events_member_add: false,
            events_member_remove: false,
            events_message_add: false,
            events_message_remove: false,
            filter_level_enabled: Vec::new(),
            filter_raw: Vec::new(),
            messages_farewell: None,
            messages_greeting: None,
            messages_join_dm: None,
            messages_warnings: false,
            messages_ignore_channels: Vec::new(),
            sticky_roles: HashMap::new(),
            roles_administrator_id: None,
            roles_moderator_id: None,
            roles_staff_id: None,
            roles_automatic: HashMap::new(),
            roles_initial: None,
            roles_mute_id: None,
            roles_public: Vec::new(),
            roles_reactions: HashMap::new(),
            roles_remove_initial: false,
            roles_subscriber_id: None,
            roles_unique_role_sets: HashMap::new(),
            selfmod_attachment: false,
            selfmod_attachment_maximum: 0,
            selfmod_attachment_duration: 0,
            selfmod_attachment_action: 0,
            selfmod_attachment_punishment_duration: None,
            selfmod_caps_enabled: Vec::new(),
            selfmod_caps_minimum: 0,
            selfmod_caps_threshold: 0,
            selfmod_invitelinks_enabled: Vec::new(),
            selfmod_raid_enabled: Vec::new(),
            selfmod_raid_threshold: 0,
            selfmod_ignore_channels: Vec::new(),
            nms_enabled: false,
            nms_alert_enabled: false,
            nms_allowed_mention_count: 0,
            nms_refresh_time: 0,
            social_achievement_enabled: false,
            social_achievement_message: None,
            social_ignore_channels: Vec::new(),
            starboard_channel: None,
            starboard_emoji: None,
            starboard_minimum_count: 0,
            starboard_ignore_channels: Vec::new(),
            trigger_alias: HashMap::new(),
            trigger_includes: HashMap::new(),
        }
    }
}

/// The settings of the guilds the bot is in, by guild id.
pub struct GuildSettingsHandler {
    cache: HashMap<u64, GuildSettings>,
}

impl View for GuildSettingsHandler {
    type V = Map<u64, GuildSettings>;

    closed spec fn view(&self) -> Map<u64, GuildSettings> {
        self.cache@
    }
}

/// The settings a cache `m` holds for guild `id`, if any.
pub open spec fn cached(m: Map<u64, GuildSettings>, id: u64) -> Option<GuildSettings> {
    if m.contains_key(id) {
        Some(m[id])
    } else {
        None
    }
}

/// The command prefix a message gets: the prefix its guild configured, none
/// outside guilds or for guilds without settings.
pub open spec fn prefix_of(m: Map<u64, GuildSettings>, guild: Option<u64>) -> Option<Seq<char>> {
    match guild {
        Some(g) => match cached(m, g) {
            Some(s) => match s.prefix {
                Some(p) => Some(p@),
                None => None,
            },
            None => None,
        },
        None => None,
    }
}

/// The language a message is answered in: its guild's language, `en_us`
/// outside guilds or for guilds without settings.
pub open spec fn language_of(m: Map<u64, GuildSettings>, guild: Option<u64>) -> Seq<char> {
    match guild {
        Some(g) => match cached(m, g) {
            Some(s) => s.language@,
            None => "en_us"@,
        },
        None => "en_us"@,
    }
}

impl GuildSettingsHandler {
    /// An empty cache.
    pub fn new() -> (h: GuildSettingsHandler)
        ensures
            h@ == Map::<u64, GuildSettings>::empty(),
    {
        GuildSettingsHandler { cache: HashMap::new() }
    }

    /// The cached settings of guild `id`.
    pub fn get(&self, id: u64) -> (r: Option<&GuildSettings>)
        ensures
            r matches Some(s) ==> cached(self@, id) == Some(*s),
            r is None ==> cached(self@, id) is None,
    {
        self.cache.get(&id)
    }

    /// Caches `settings` under its guild id, handing back the settings it replaces.
    pub fn add(&mut self, settings: GuildSettings) -> (previous: Option<GuildSettings>)
        ensures
            final(self)@ == old(self)@.insert(settings.id, settings),
            previous == cached(old(self)@, settings.id),
    {
        let id = settings.id;
        self.cache.insert(id, settings)
    }

    /// Drops the cached settings of guild `id`, handing them back.
    pub fn remove(&mut self, id: u64) -> (previous: Option<GuildSettings>)
        ensures
            final(self)@ == old(self)@.remove(id),
            previous == cached(old(self)@, id),
    {
        self.cache.remove(&id)
    }

    /// The prefix for a message sent in `guild` (`None` for direct messages).
    pub fn prefix_for(&self, guild: Option<u64>) -> (r: Option<String>)
        ensures
            r matches Some(p) ==> prefix_of(self@, guild) == Some(p@),
            r is None ==> prefix_of(self@, guild) is None,
    {
        match guild {
            Some(g) => match self.get(g) {
                Some(s) => match &s.prefix {
                    Some(p) => Some(p.clone()),
                    None => None,
                },
                None => None,
            },
            None => None,
        }
    }

    /// The language for a message sent in `guild` (`None` for direct messages).
    pub fn language_for(&self, guild: Option<u64>) -> (r: String)
        ensures
            r@ == language_of(self@, guild),
    {
        match guild {
            Some(g) => match self.get(g) {
                Some(s) => s.language.clone(),
                None => "en_us".to_owned(),
            },
            None => "en_us".to_owned(),
        }
    }
}

/// Reading a guild after caching settings for it gives those settings; the
/// other guilds keep what they had.
pub proof fn lemma_get_after_add(m: Map<u64, GuildSettings>, s: GuildSettings, id: u64)
    ensures
        cached(m.insert(s.id, s), id) == if id == s.id { Some(s) } else { cached(m, id) },
{
}

/// Reading a guild after dropping it finds nothing; the other guilds keep what they had.
pub proof fn lemma_get_after_remove(m: Map<u64, GuildSettings>, removed: u64, id: u64)
    ensures
        cached(m.remove(removed), id) == if id == removed { None } else { cached(m, id) },
{
}

/// Caching settings and then dropping them leaves the cache as it was before,
/// when the guild had no settings cached.
pub proof fn lemma_remove_undoes_add(m: Map<u64, GuildSettings>, s: GuildSettings)
    requires
        cached(m, s.id) is None,
    ensures
        m.insert(s.id, s).remove(s.id) == m,
{
    assert(m.insert(s.id, s).remove(s.id) =~= m);
}

/// A message is answered in the language of the guild's cached settings once
/// they are cached, and in `en_us` when its guild has none or it has no guild.
pub proof fn lemma_language_after_add(m: Map<u64, GuildSettings>, s: GuildSettings)
    ensures
        language_of(m.insert(s.id, s), Some(s.id)) == s.language@,
        language_of(m, None) == "en_us"@,
        language_of(m.remove(s.id), Some(s.id)) == "en_us"@,
{
}

/// A guild whose settings were cached from a missing row is answered in
/// `en_us` with the default prefix.
pub proof fn lemma_missing_guild_defaults(m: Map<u64, GuildSettings>, s: GuildSettings)
    requires
        s.language@ == "en_us"@,
        s.is_blank(),
    ensures
        language_of(m.insert(s.id, s), Some(s.id)) == "en_us"@,
        prefix_of(m.insert(s.id, s), Some(s.id)) is None,
{
}

} // verus!
