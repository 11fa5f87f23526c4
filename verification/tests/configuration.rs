use backend::config::{BackendConfig, Lookups, CONFIG_FILE, ENV_PREFIX, ENV_SEPARATOR};
use backend::error::Error;

const FILE: &str = r#"
addr = "127.0.0.1:8080"

[database]
dsn = "postgres://file/db"
slow_statements_logging_threshold = 250
max_connections = 10
migrate = true
"#;

fn env(pairs: &[(&str, &str)]) -> Vec<(String, String)> {
    pairs.iter().map(|(k, v)| (k.to_string(), v.to_string())).collect()
}

fn not_found(key: &str) -> config::ConfigError {
    config::ConfigError::NotFound(key.to_string())
}

fn bad(text: &str) -> config::ConfigError {
    config::ConfigError::Message(text.to_string())
}

fn complete() -> Lookups {
    Lookups {
        addr: Ok("127.0.0.1:8080".to_string()),
        database: Ok(5),
        dsn: Ok("postgres://file/db".to_string()),
        slow_statements_logging_threshold: Ok(250),
        max_connections: Ok(10),
        min_connections: Ok(1),
        migrate: Ok(true),
    }
}

fn nothing() -> Lookups {
    Lookups {
        addr: Err(not_found("addr")),
        database: Err(not_found("database")),
        dsn: Err(not_found("database.dsn")),
        slow_statements_logging_threshold: Err(not_found(
            "database.slow_statements_logging_threshold",
        )),
        max_connections: Err(not_found("database.max_connections")),
        min_connections: Err(not_found("database.min_connections")),
        migrate: Err(not_found("database.migrate")),
    }
}

fn missing(r: Result<BackendConfig, Error>) -> String {
    match r {
        Err(Error::Conf(config::ConfigError::NotFound(key))) => key,
        _ => panic!("a missing key was expected"),
    }
}

fn message(r: Result<BackendConfig, Error>) -> String {
    match r {
        Err(Error::Conf(config::ConfigError::Message(text))) => text,
        _ => panic!("a message was expected"),
    }
}

#[test]
fn names_of_the_sources() {
    assert_eq!(CONFIG_FILE, "config.toml");
    assert_eq!(ENV_PREFIX, "BACKEND");
    assert_eq!(ENV_SEPARATOR, "_");
}

#[test]
fn file_alone_is_enough() {
    let c = BackendConfig::new(FILE, Vec::new()).unwrap();
    assert_eq!(c.addr, "127.0.0.1:8080");
    assert_eq!(c.database.dsn, "postgres://file/db");
    assert_eq!(c.database.slow_statements_logging_threshold, Some(250));
    assert_eq!(c.database.max_connections, Some(10));
    assert_eq!(c.database.min_connections, None);
    assert_eq!(c.database.migrate, true);
}

#[test]
fn environment_overrides_the_address() {
    let c = BackendConfig::new(FILE, env(&[("BACKEND_ADDR", "0.0.0.0:9090")])).unwrap();
    assert_eq!(c.addr, "0.0.0.0:9090");
    assert_eq!(c.database.dsn, "postgres://file/db");
    assert_eq!(c.database.slow_statements_logging_threshold, Some(250));
    assert_eq!(c.database.max_connections, Some(10));
    assert_eq!(c.database.min_connections, None);
    assert_eq!(c.database.migrate, true);
}

#[test]
fn environment_overrides_a_nested_key_and_keeps_the_others() {
    let vars = env(&[("BACKEND_DATABASE_DSN", "postgres://env/db"), ("BACKEND_DATABASE_MIGRATE", "false")]);
    let c = BackendConfig::new(FILE, vars).unwrap();
    assert_eq!(c.addr, "127.0.0.1:8080");
    assert_eq!(c.database.dsn, "postgres://env/db");
    assert_eq!(c.database.max_connections, Some(10));
    assert_eq!(c.database.migrate, false);
}

#[test]
fn variables_without_the_prefix_are_not_read() {
    let vars = env(&[("ADDR", "0.0.0.0:1"), ("OTHER_ADDR", "0.0.0.0:2"), ("BACKENDADDR", "0.0.0.0:3")]);
    let c = BackendConfig::new(FILE, vars).unwrap();
    assert_eq!(c.addr, "127.0.0.1:8080");
}

#[test]
fn environment_can_supply_what_the_file_lacks() {
    let file = "[database]\ndsn = \"d\"\n";
    let vars = env(&[("BACKEND_ADDR", "[::]:80"), ("BACKEND_DATABASE_MIGRATE", "true")]);
    let c = BackendConfig::new(file, vars).unwrap();
    assert_eq!(c.addr, "[::]:80");
    assert_eq!(c.database.dsn, "d");
    assert_eq!(c.database.migrate, true);
    assert_eq!(c.database.slow_statements_logging_threshold, None);
    assert_eq!(c.database.max_connections, None);
    assert_eq!(c.database.min_connections, None);
}

#[test]
fn missing_address_is_a_configuration_error() {
    let file = "[database]\ndsn = \"d\"\nmigrate = false\n";
    assert_eq!(missing(BackendConfig::new(file, Vec::new())), "addr");
}

#[test]
fn missing_database_is_a_configuration_error() {
    assert_eq!(missing(BackendConfig::new("addr = \"a:1\"\n", Vec::new())), "database");
}

#[test]
fn missing_dsn_is_a_configuration_error() {
    let file = "addr = \"a:1\"\n[database]\nmigrate = false\n";
    assert_eq!(missing(BackendConfig::new(file, Vec::new())), "database.dsn");
}

#[test]
fn missing_migrate_is_a_configuration_error() {
    let file = "addr = \"a:1\"\n[database]\ndsn = \"d\"\n";
    assert_eq!(missing(BackendConfig::new(file, Vec::new())), "database.migrate");
}

#[test]
fn empty_sources_miss_the_address_first() {
    assert_eq!(missing(BackendConfig::new("", Vec::new())), "addr");
}

#[test]
fn value_of_the_wrong_kind_is_a_configuration_error() {
    let file = "addr = \"a:1\"\n[database]\ndsn = \"d\"\nmigrate = false\nmax_connections = \"many\"\n";
    let r = BackendConfig::new(file, Vec::new());
    assert!(matches!(r, Err(Error::Conf(ref e)) if !matches!(e, config::ConfigError::NotFound(_))));
}

#[test]
fn text_that_is_not_toml_is_a_configuration_error() {
    let r = BackendConfig::new("addr = = 3", Vec::new());
    assert!(matches!(r, Err(Error::Conf(_))));
}

#[test]
fn lookups_that_all_succeed_give_the_configuration() {
    let c = BackendConfig::from_lookups(complete()).unwrap();
    assert_eq!(c.addr, "127.0.0.1:8080");
    assert_eq!(c.database.dsn, "postgres://file/db");
    assert_eq!(c.database.slow_statements_logging_threshold, Some(250));
    assert_eq!(c.database.max_connections, Some(10));
    assert_eq!(c.database.min_connections, Some(1));
    assert_eq!(c.database.migrate, true);
}

#[test]
fn absent_tuning_values_are_left_out() {
    let found = Lookups {
        slow_statements_logging_threshold: Err(not_found("s")),
        max_connections: Err(not_found("m")),
        min_connections: Err(not_found("n")),
        ..complete()
    };
    let c = BackendConfig::from_lookups(found).unwrap();
    assert_eq!(c.database.slow_statements_logging_threshold, None);
    assert_eq!(c.database.max_connections, None);
    assert_eq!(c.database.min_connections, None);
}

#[test]
fn tuning_value_that_cannot_be_read_is_refused() {
    let found = Lookups { max_connections: Err(bad("not a number")), ..complete() };
    assert_eq!(message(BackendConfig::from_lookups(found)), "not a number");
    let found = Lookups { min_connections: Err(bad("min")), ..complete() };
    assert_eq!(message(BackendConfig::from_lookups(found)), "min");
    let found = Lookups { slow_statements_logging_threshold: Err(bad("slow")), ..complete() };
    assert_eq!(message(BackendConfig::from_lookups(found)), "slow");
}

#[test]
fn mandatory_keys_are_asked_for() {
    let found = Lookups { addr: Err(not_found("addr")), ..complete() };
    assert_eq!(missing(BackendConfig::from_lookups(found)), "addr");
    let found = Lookups { dsn: Err(not_found("database.dsn")), ..complete() };
    assert_eq!(missing(BackendConfig::from_lookups(found)), "database.dsn");
    let found = Lookups { migrate: Err(not_found("database.migrate")), ..complete() };
    assert_eq!(missing(BackendConfig::from_lookups(found)), "database.migrate");
    let found = Lookups { database: Err(not_found("database")), ..nothing() };
    let found = Lookups { addr: Ok("a".to_string()), ..found };
    assert_eq!(missing(BackendConfig::from_lookups(found)), "database");
    assert_eq!(missing(BackendConfig::from_lookups(nothing())), "addr");
}

#[test]
fn unreadable_value_comes_before_an_absent_key() {
    let found = Lookups { addr: Err(not_found("addr")), migrate: Err(bad("maybe")), ..complete() };
    assert_eq!(message(BackendConfig::from_lookups(found)), "maybe");
    let found = Lookups {
        addr: Err(bad("first")),
        database: Err(bad("second")),
        dsn: Err(bad("third")),
        ..complete()
    };
    assert_eq!(message(BackendConfig::from_lookups(found)), "first");
    let found = Lookups { database: Err(bad("second")), dsn: Err(bad("third")), ..complete() };
    assert_eq!(message(BackendConfig::from_lookups(found)), "second");
}

#[test]
fn keys_of_the_database_come_before_the_address() {
    let found = Lookups {
        addr: Err(not_found("addr")),
        dsn: Err(not_found("database.dsn")),
        migrate: Err(not_found("database.migrate")),
        ..complete()
    };
    assert_eq!(missing(BackendConfig::from_lookups(found)), "database.dsn");
    let found = Lookups {
        addr: Err(not_found("addr")),
        migrate: Err(not_found("database.migrate")),
        ..complete()
    };
    assert_eq!(missing(BackendConfig::from_lookups(found)), "database.migrate");
}

#[test]
fn settings_are_read_key_by_key() {
    let settings = config::Config::builder()
        .set_override("addr", "10.0.0.1:443")
        .unwrap()
        .set_override("database.dsn", "sqlite::memory:")
        .unwrap()
        .set_override("database.migrate", false)
        .unwrap()
        .set_override("database.min_connections", 3)
        .unwrap()
        .build()
        .unwrap();
    let c = BackendConfig::from_settings(&settings).unwrap();
    assert_eq!(c.addr, "10.0.0.1:443");
    assert_eq!(c.database.dsn, "sqlite::memory:");
    assert_eq!(c.database.migrate, false);
    assert_eq!(c.database.min_connections, Some(3));
    assert_eq!(c.database.max_connections, None);
    assert_eq!(c.database.slow_statements_logging_threshold, None);
}

#[test]
fn settings_without_keys_miss_the_address() {
    let settings = config::Config::builder().build().unwrap();
    assert_eq!(missing(BackendConfig::from_settings(&settings)), "addr");
}

#[test]
fn failed_merge_is_a_configuration_error() {
    let r = BackendConfig::from_merged(Err(bad("no such file")));
    assert_eq!(message(r), "no such file");
    let settings = config::Config::builder()
        .set_override("addr", "a:1")
        .unwrap()
        .build()
        .unwrap();
    assert_eq!(missing(BackendConfig::from_merged(Ok(settings))), "database");
}

#[test]
fn numbers_and_flags_in_the_environment_are_read_as_such() {
    let file = "addr = \"a:1\"\n[database]\ndsn = \"d\"\nmigrate = false\nslow_statements_logging_threshold = 7\n";
    let c = BackendConfig::new(file, env(&[("BACKEND_DATABASE_MIGRATE", "true")])).unwrap();
    assert_eq!(c.database.migrate, true);
    assert_eq!(c.database.slow_statements_logging_threshold, Some(7));
}
