use music_bot::config::{
    database, database_host, database_port, database_user, default_discord_config,
    default_postgres_config, default_tracing_config, default_true, default_voice_config,
    env_or_empty, tracing_level, voice_host, voice_port, LogLevel,
};

#[test]
fn scalar_defaults() {
    assert!(default_true());
    assert_eq!(tracing_level(), "info");
    assert_eq!(database_host(), "db");
    assert_eq!(database_port(), 5432);
    assert_eq!(database_user(), "postgres");
    assert_eq!(database(), "postgres");
    assert_eq!(voice_host(), "127.0.0.1");
    assert_eq!(voice_port(), 8080);
}

#[test]
fn environment_values_or_empty() {
    assert_eq!(env_or_empty(Some("abc".to_string())), "abc");
    assert_eq!(env_or_empty(None), "");
}

#[test]
fn default_tables() {
    let d = default_discord_config(Some("SECRET-REDACTED".to_string()));
    assert_eq!(d.token, "SECRET-REDACTED");
    assert_eq!(default_discord_config(None).token, "");

    let t = default_tracing_config();
    assert!(t.enabled);
    assert_eq!(t.tracing_level, "info");

    let p = default_postgres_config(Some("pw".to_string()));
    assert_eq!(p.host, "db");
    assert_eq!(p.port, 5432);
    assert_eq!(p.user, "postgres");
    assert_eq!(p.password, "pw");
    assert_eq!(p.database, "postgres");
    assert_eq!(default_postgres_config(None).password, "");

    let v = default_voice_config(None);
    assert_eq!(v.host, "127.0.0.1");
    assert_eq!(v.port, 8080);
    assert_eq!(v.password, "");
    assert_eq!(default_voice_config(Some("lava".to_string())).password, "lava");
}

#[test]
fn level_names() {
    assert_eq!(LogLevel::from_name("error"), LogLevel::Error);
    assert_eq!(LogLevel::from_name("warn"), LogLevel::Warn);
    assert_eq!(LogLevel::from_name("info"), LogLevel::Info);
    assert_eq!(LogLevel::from_name("debug"), LogLevel::Debug);
    assert_eq!(LogLevel::from_name("trace"), LogLevel::Trace);
}

#[test]
fn unknown_level_names_fall_back_to_info() {
    assert_eq!(LogLevel::from_name("ERROR"), LogLevel::Info);
    assert_eq!(LogLevel::from_name(""), LogLevel::Info);
    assert_eq!(LogLevel::from_name("verbose"), LogLevel::Info);
    assert_eq!(LogLevel::from_name("warning"), LogLevel::Info);
}

#[test]
fn default_level_is_info() {
    let t = default_tracing_config();
    assert_eq!(LogLevel::from_name(&t.tracing_level), LogLevel::Info);
}
