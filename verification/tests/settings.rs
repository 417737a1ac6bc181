use lyrch::guilds::{GuildSettings, GuildSettingsHandler};
use lyrch::sql::{
    create_index_query, create_table_query, insert_query, select_query, update_increase_query,
    update_query,
};
use lyrch::users::{money_count_from, UserSettings};

fn guild(id: u64, prefix: Option<&str>, language: &str) -> GuildSettings {
    GuildSettings {
        id,
        prefix: prefix.map(|p| p.to_owned()),
        language: language.to_owned(),
        ..GuildSettings::default()
    }
}

#[test]
fn guild_cache_add_get_remove() {
    let mut h = GuildSettingsHandler::new();
    assert!(h.get(1).is_none());
    assert!(h.add(guild(1, Some("?"), "es_es")).is_none());
    assert_eq!(h.get(1).unwrap().language, "es_es");
    let previous = h.add(guild(1, None, "el_gr")).unwrap();
    assert_eq!(previous.language, "es_es");
    assert_eq!(h.get(1).unwrap().language, "el_gr");
    assert!(h.add(guild(2, Some("!"), "en_us")).is_none());
    let removed = h.remove(1).unwrap();
    assert_eq!(removed.language, "el_gr");
    assert!(h.get(1).is_none());
    assert_eq!(h.get(2).unwrap().prefix.as_deref(), Some("!"));
    assert!(h.remove(1).is_none());
}

#[test]
fn guild_prefix_and_language() {
    let mut h = GuildSettingsHandler::new();
    h.add(guild(10, Some("$$"), "es_es"));
    h.add(guild(11, None, "el_gr"));
    assert_eq!(h.prefix_for(Some(10)).as_deref(), Some("$$"));
    assert_eq!(h.prefix_for(Some(11)), None);
    assert_eq!(h.prefix_for(Some(12)), None);
    assert_eq!(h.prefix_for(None), None);
    assert_eq!(h.language_for(Some(10)), "es_es");
    assert_eq!(h.language_for(Some(11)), "el_gr");
    assert_eq!(h.language_for(Some(12)), "en_us");
    assert_eq!(h.language_for(None), "en_us");
    h.remove(10);
    assert_eq!(h.language_for(Some(10)), "en_us");
}

#[test]
fn missing_guild_defaults() {
    let g = GuildSettings::for_missing_guild(99);
    assert_eq!(g.id, 99);
    assert_eq!(g.language, "en_us");
    assert_eq!(g.prefix, None);
    assert!(g.tags.is_empty());
    assert!(g.filter_level_enabled.is_empty());
    assert_eq!(g.selfmod_attachment_maximum, 0);
    assert!(!g.nms_enabled);
    let mut h = GuildSettingsHandler::new();
    h.add(g);
    assert_eq!(h.language_for(Some(99)), "en_us");
    assert_eq!(h.prefix_for(Some(99)), None);
    let d = GuildSettings::default();
    assert_eq!(d.id, 0);
    assert_eq!(d.language, "");
}

#[test]
fn missing_user_defaults() {
    let u = UserSettings::for_missing_user(5);
    assert_eq!(u.id, 5);
    assert_eq!(u.banner_set, None);
    assert!(u.badge_list.is_empty());
    assert_eq!(u.money_count, 0);
    assert_eq!(u.point_count, 0);
    assert!(u.next_daily.is_none());
}

#[test]
fn money_count_reinterpreted() {
    assert_eq!(money_count_from(None), 0);
    assert_eq!(money_count_from(Some(0)), 0);
    assert_eq!(money_count_from(Some(200)), 200);
    assert_eq!(money_count_from(Some(-1)), u32::MAX);
    assert_eq!(money_count_from(Some(i32::MIN)), 0x8000_0000);
}

#[test]
fn insert_statement() {
    assert_eq!(
        insert_query("reminders", &["user_id", "content"]),
        "INSERT INTO reminders (id, user_id, content)\n                        VALUES ($1, $2, $3);"
    );
    assert_eq!(
        insert_query("guilds", &["prefix"]),
        "INSERT INTO guilds (id, prefix)\n                        VALUES ($1, $2);"
    );
    assert_eq!(
        insert_query("guilds", &[]),
        "INSERT INTO guilds (id, )\n                        VALUES ($1, );"
    );
    let many: Vec<&str> = vec!["k"; 11];
    let q = insert_query("t", &many);
    assert!(q.ends_with("$10, $11, $12);"));
}

#[test]
fn update_statements() {
    assert_eq!(
        update_query("users", "color"),
        "INSERT INTO users (id, color)\n                        VALUES ($1, $2)\n                    ON CONFLICT (id)\n                    DO UPDATE SET color = $2;"
    );
    assert_eq!(
        update_increase_query("guilds", "point_count"),
        "INSERT INTO guilds (id, point_count)\n                        VALUES ($1, $2)\n                    ON CONFLICT (id)\n                    DO UPDATE SET point_count = users.point_count + $2;"
    );
}

#[test]
fn schema_statements() {
    assert_eq!(
        create_table_query("reminders", "id BIGINT PRIMARY KEY"),
        "CREATE TABLE IF NOT EXISTS reminders (\nid BIGINT PRIMARY KEY\n)"
    );
    assert_eq!(
        create_index_query("points", "users", "point_count DESC"),
        "CREATE INDEX IF NOT EXISTS points ON ONLY users (\npoint_count DESC\n)"
    );
    assert_eq!(select_query("guilds"), "SELECT * FROM guilds WHERE id = $1");
}

#[test]
fn command_counts() {
    let mut c = lyrch::stats::CommandCounter::new();
    assert_eq!(c.get("ping"), 0);
    c.increment("ping");
    c.increment("daily");
    c.increment("ping");
    assert_eq!(c.get("ping"), 2);
    assert_eq!(c.get("daily"), 1);
    assert_eq!(c.get("profile"), 0);
    assert!(c.has_room("ping"));
}
