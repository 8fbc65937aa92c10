use selene_bot::config::BotConfig;
use selene_bot::error::Error;
use selene_bot::store::StoreError;

fn env(pairs: &[(&str, &str)]) -> Vec<(String, String)> {
    pairs.iter().map(|(k, v)| (k.to_string(), v.to_string())).collect()
}

#[test]
fn defaults() {
    let c = BotConfig::default();
    assert_eq!(c.pg.host, "localhost");
    assert_eq!(c.pg.port, 5432);
    assert_eq!(c.pg.db, "selene_bot");
    assert_eq!(c.influxdb.url, "http://localhost:8086");
    assert_eq!(c.surreal.port, 8080);
    assert_eq!(c.surreal.namespace, "selene_bot");
    assert_eq!(c.sdk.app_id, "");
}

#[test]
fn env_values_read_as_toml_documents() {
    // A bare value is no TOML document, so such a variable leaves the field empty.
    let c = BotConfig::load_from_env(&env(&[
        ("PGCONFIG_HOST", "\"db.example\""),
        ("PGCONFIG_PORT", "6543"),
    ]));
    assert_eq!(c.pg.host, "");
    assert_eq!(c.pg.port, 0);
    assert_eq!(c.surreal.host, "");
}

#[test]
fn error_texts() {
    let e = Error::Store(StoreError::DuplicateKey("m1".to_string()));
    assert_eq!(e.message(), "duplicate key: m1");
    assert_eq!(Error::Internal("boom".to_string()).message(), "boom");
}
