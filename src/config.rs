use vstd::prelude::*;

use crate::text::{same_text, text_of};

verus! {

/// The value that `toml::from_str` reads as a string from a text, if any.
pub uninterp spec fn toml_text(s: Seq<char>) -> Option<Seq<char>>;

/// The value that `toml::from_str` reads as a `u16` from a text, if any.
pub uninterp spec fn toml_port(s: Seq<char>) -> Option<u16>;

/// Relies on `toml::from_str::<String>`: the result depends on the text alone.
#[verifier::external_body]
fn parse_toml_text(s: &str) -> (r: Option<String>)
    ensures
        match r {
            Some(t) => toml_text(s@) == Some(t@),
            None => toml_text(s@) is None,
        },
{
    toml::from_str::<String>(s).ok()
}

/// Relies on `toml::from_str::<u16>`: the result depends on the text alone.
#[verifier::external_body]
fn parse_toml_port(s: &str) -> (r: Option<u16>)
    ensures
        r == toml_port(s@),
{
    toml::from_str::<u16>(s).ok()
}

/// The value of the first variable named `key`.
pub open spec fn env_lookup(env: Seq<(String, String)>, key: Seq<char>) -> Option<Seq<char>>
    decreases env.len(),
{
    if env.len() == 0 {
        None
    } else if env[0].0@ == key {
        Some(env[0].1@)
    } else {
        env_lookup(env.drop_first(), key)
    }
}

/// A text setting: the variable's value read as TOML, or empty where the
/// variable is missing or does not read.
pub open spec fn text_setting(env: Seq<(String, String)>, key: Seq<char>) -> Seq<char> {
    match env_lookup(env, key) {
        Some(v) => match toml_text(v) {
            Some(t) => t,
            None => Seq::empty(),
        },
        None => Seq::empty(),
    }
}

/// A port setting: the variable's value read as TOML, or 0 where the variable
/// is missing or does not read.
pub open spec fn port_setting(env: Seq<(String, String)>, key: Seq<char>) -> u16 {
    match env_lookup(env, key) {
        Some(v) => match toml_port(v) {
            Some(p) => p,
            None => 0,
        },
        None => 0,
    }
}

fn lookup<'a>(env: &'a Vec<(String, String)>, key: &str) -> (r: Option<&'a String>)
    ensures
        match r {
            Some(v) => env_lookup(env@, key@) == Some(v@),
            None => env_lookup(env@, key@) is None,
        },
{
    let mut i: usize = 0;
    assert(env@.skip(0) =~= env@);
    while i < env.len()
        invariant
            0 <= i <= env.len(),
            env_lookup(env@, key@) == env_lookup(env@.skip(i as int), key@),
        decreases env.len() - i,
    {
        assert(env@.skip(i as int).drop_first() =~= env@.skip(i + 1));
        assert(env@.skip(i as int)[0] == env@[i as int]);
        if same_text(env[i].0.as_str(), key) {
            return Some(&env[i].1);
        }
        i = i + 1;
    }
    None
}

fn text_from_env(env: &Vec<(String, String)>, key: &str) -> (r: String)
    ensures
        r@ == text_setting(env@, key@),
{
    match lookup(env, key) {
        Some(v) => match parse_toml_text(v.as_str()) {
            Some(t) => t,
            None => String::new(),
        },
        None => String::new(),
    }
}

fn port_from_env(env: &Vec<(String, String)>, key: &str) -> (r: u16)
    ensures
        r == port_setting(env@, key@),
{
    match lookup(env, key) {
        Some(v) => match parse_toml_port(v.as_str()) {
            Some(p) => p,
            None => 0,
        },
        None => 0,
    }
}

/// Connection settings of PostgreSQL.
#[derive(Clone, Debug)]
pub struct PgConfig {
    pub host: String,
    pub port: u16,
    pub db: String,
    pub user: String,
    pub password: String,
}

/// Connection settings of InfluxDB.
#[derive(Clone, Debug)]
pub struct InfluxDbConfig {
    pub url: String,
    pub database: String,
}

/// Credentials of the bot on the chat platform.
#[derive(Clone, Debug)]
pub struct SdkConfig {
    pub app_id: String,
    pub secret: String,
}

/// Connection settings of SurrealDB.
#[derive(Clone, Debug)]
pub struct SurrealConfig {
    pub host: String,
    pub port: u16,
    pub namespace: String,
    pub username: String,
    pub password: String,
}

/// All settings of the bot.
#[derive(Clone, Debug)]
pub struct BotConfig {
    pub influxdb: InfluxDbConfig,
    pub pg: PgConfig,
    pub sdk: SdkConfig,
    pub surreal: SurrealConfig,
}

impl Default for PgConfig {
    fn default() -> (r: Self)
        ensures
            r.host@ == "localhost"@,
            r.port == 5432,
            r.db@ == "selene_bot"@,
            r.user@ == "postgres"@,
            r.password@ == "postgres"@,
    {
        PgConfig {
            host: text_of("localhost"),
            port: 5432,
            db: text_of("selene_bot"),
            user: text_of("postgres"),
            password: text_of("postgres"),
        }
    }
}

impl Default for InfluxDbConfig {
    fn default() -> (r: Self)
        ensures
            r.url@ == "http://localhost:8086"@,
            r.database@ == "selene_bot"@,
    {
        InfluxDbConfig { url: text_of("http://localhost:8086"), database: text_of("selene_bot") }
    }
}

impl Default for SdkConfig {
    fn default() -> (r: Self)
        ensures
            r.app_id@ == Seq::<char>::empty(),
            r.secret@ == Seq::<char>::empty(),
    {
        SdkConfig { app_id: String::new(), secret: String::new() }
    }
}

impl Default for SurrealConfig {
    fn default() -> (r: Self)
        ensures
            r.host@ == "localhost"@,
            r.port == 8080,
            r.namespace@ == "selene_bot"@,
            r.username@ == "selene_bot"@,
            r.password@ == "selene_bot"@,
    {
        SurrealConfig {
            host: text_of("localhost"),
            port: 8080,
            namespace: text_of("selene_bot"),
            username: text_of("selene_bot"),
            password: text_of("selene_bot"),
        }
    }
}

impl Default for BotConfig {
    fn default() -> (r: Self)
        ensures
            r.pg.host@ == "localhost"@,
            r.pg.port == 5432,
            r.influxdb.url@ == "http://localhost:8086"@,
            r.sdk.app_id@ == Seq::<char>::empty(),
            r.surreal.host@ == "localhost"@,
            r.surreal.port == 8080,
    {
        BotConfig {
            influxdb: InfluxDbConfig::default(),
            pg: PgConfig::default(),
            sdk: SdkConfig::default(),
            surreal: SurrealConfig::default(),
        }
    }
}

impl BotConfig {
    /// Reads every setting from the variable `<SECTION>_<FIELD>` (for example
    /// `PGCONFIG_HOST`) of the given environment, as TOML; a missing or
    /// unreadable variable leaves the field empty, or 0 for a port.
    pub fn load_from_env(env: &Vec<(String, String)>) -> (r: Self)
        ensures
            r.influxdb.url@ == text_setting(env@, "INFLUXDBCONFIG_URL"@),
            r.influxdb.database@ == text_setting(env@, "INFLUXDBCONFIG_DATABASE"@),
            r.pg.host@ == text_setting(env@, "PGCONFIG_HOST"@),
            r.pg.port == port_setting(env@, "PGCONFIG_PORT"@),
            r.pg.db@ == text_setting(env@, "PGCONFIG_DB"@),
            r.pg.user@ == text_setting(env@, "PGCONFIG_USER"@),
            r.pg.password@ == text_setting(env@, "PGCONFIG_PASSWORD"@),
            r.sdk.app_id@ == text_setting(env@, "SDKCONFIG_APP_ID"@),
            r.sdk.secret@ == text_setting(env@, "SDKCONFIG_SECRET"@),
            r.surreal.host@ == text_setting(env@, "SURREALCONFIG_HOST"@),
            r.surreal.port == port_setting(env@, "SURREALCONFIG_PORT"@),
            r.surreal.namespace@ == text_setting(env@, "SURREALCONFIG_NAMESPACE"@),
            r.surreal.username@ == text_setting(env@, "SURREALCONFIG_USERNAME"@),
            r.surreal.password@ == text_setting(env@, "SURREALCONFIG_PASSWORD"@),
    {
        BotConfig {
            influxdb: InfluxDbConfig {
                url: text_from_env(env, "INFLUXDBCONFIG_URL"),
                database: text_from_env(env, "INFLUXDBCONFIG_DATABASE"),
            },
            pg: PgConfig {
                host: text_from_env(env, "PGCONFIG_HOST"),
                port: port_from_env(env, "PGCONFIG_PORT"),
                db: text_from_env(env, "PGCONFIG_DB"),
                user: text_from_env(env, "PGCONFIG_USER"),
                password: text_from_env(env, "PGCONFIG_PASSWORD"),
            },
            sdk: SdkConfig {
                app_id: text_from_env(env, "SDKCONFIG_APP_ID"),
                secret: text_from_env(env, "SDKCONFIG_SECRET"),
            },
            surreal: SurrealConfig {
                host: text_from_env(env, "SURREALCONFIG_HOST"),
                port: port_from_env(env, "SURREALCONFIG_PORT"),
                namespace: text_from_env(env, "SURREALCONFIG_NAMESPACE"),
                username: text_from_env(env, "SURREALCONFIG_USERNAME"),
                password: text_from_env(env, "SURREALCONFIG_PASSWORD"),
            },
        }
    }
}

} // verus!
