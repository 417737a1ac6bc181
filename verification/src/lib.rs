//! Verified core of the Lyrch Discord bot: message texts, settings caches,
//! rate-limit buckets, cooldown decisions and the small parsers the commands use.

pub mod bucket;
pub mod clock;
pub mod framework;
pub mod fun;
pub mod guilds;
pub mod i18n;
pub mod logger;
pub mod manga;
pub mod moderation;
pub mod resolvers;
pub mod schedule;
pub mod social;
pub mod sql;
pub mod stats;
pub mod text;
pub mod users;
pub mod weeb;
