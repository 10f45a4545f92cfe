use vstd::prelude::*;
use vstd::string::*;

verus! {

/// `config::ConfigError`, the error of the `config` crate. It is carried from
/// a lookup to the place that maps it, and nothing is read from it.
#[verifier::external_type_specification]
#[verifier::external_body]
pub struct ExConfigError(::config::ConfigError);

/// `config::Config`, a configuration that was built from its sources. It is
/// carried from the place that builds it to the lookups, and nothing is read
/// from it but through them.
#[verifier::external_type_specification]
#[verifier::external_body]
pub struct ExConfig(::config::Config);

/// Builds a `config::Config` from the document as its one source, a YAML
/// text (`Config::builder`, `File::from_str`, `ConfigBuilder::add_source`,
/// `ConfigBuilder::build`). Nothing is claimed of what is built: where a
/// document spells one key in two ways, the crate may merge them in either
/// order.
#[verifier::external_body]
fn build_document(document: &str) -> (built: Result<::config::Config, ::config::ConfigError>) {
    ::config::Config::builder()
        .add_source(::config::File::from_str(document, ::config::FileFormat::Yaml))
        .build()
}

/// Calls `Config::get_string`. Nothing is claimed of what it reads.
#[verifier::external_body]
fn text_in(built: &::config::Config, key: &str) -> (read: Result<String, ::config::ConfigError>) {
    built.get_string(key)
}

/// Calls `Config::get_int`. Nothing is claimed of what it reads.
#[verifier::external_body]
fn int_in(built: &::config::Config, key: &str) -> (read: Result<i64, ::config::ConfigError>) {
    built.get_int(key)
}

/// Where the store is reached.
#[derive(Debug)]
pub struct DatabaseConfig {
    pub url: String,
    pub driver: String,
    pub direct_url: String,
}

/// Where the cache is reached.
#[derive(Debug)]
pub struct RedisConfig {
    pub official_url: String,
    pub upstash_redis_url: String,
}

/// Where the service listens.
#[derive(Debug)]
pub struct Application {
    pub host: String,
    pub port: i16,
}

/// The settings of the service.
#[derive(Debug)]
pub struct AppConfig {
    pub name: String,
    pub version: String,
    pub description: String,
    pub database: DatabaseConfig,
    pub redis: RedisConfig,
    pub app: Application,
}

/// Why a document gives no settings.
#[derive(Debug)]
pub enum ConfigFault {
    /// The document is no YAML text that a configuration can be built from.
    Malformed,
    /// The document has no readable text at the key.
    Unreadable { key: String },
    /// The document has no readable integer at `app.port`.
    PortUnreadable,
    /// The port does not fit sixteen bits.
    PortOutOfRange { port: i64 },
}

/// The texts of the settings as they were read from a document, each under
/// the key it stands at.
#[derive(Debug)]
pub struct SettingTexts {
    /// `name`
    pub name: String,
    /// `version`
    pub version: String,
    /// `description`
    pub description: String,
    /// `database.url`
    pub database_url: String,
    /// `database.driver`
    pub database_driver: String,
    /// `database.direct_url`
    pub database_direct_url: String,
    /// `redis.official_url`
    pub redis_official_url: String,
    /// `redis.upstash_redis_url`
    pub redis_upstash_redis_url: String,
    /// `app.host`
    pub app_host: String,
}

/// Whether a port fits the sixteen signed bits it is kept in.
pub open spec fn port_fits(port: i64) -> bool {
    i16::MIN <= port <= i16::MAX
}

/// Whether a key is one of the nine text keys of the settings.
pub open spec fn is_text_key(key: Seq<char>) -> bool {
    ||| key == "name"@
    ||| key == "version"@
    ||| key == "description"@
    ||| key == "database.url"@
    ||| key == "database.driver"@
    ||| key == "database.direct_url"@
    ||| key == "redis.official_url"@
    ||| key == "redis.upstash_redis_url"@
    ||| key == "app.host"@
}

/// The settings made of the texts and the port that were read.
pub open spec fn settings_of(texts: SettingTexts, port: i16) -> AppConfig {
    AppConfig {
        name: texts.name,
        version: texts.version,
        description: texts.description,
        database: DatabaseConfig {
            url: texts.database_url,
            driver: texts.database_driver,
            direct_url: texts.database_direct_url,
        },
        redis: RedisConfig {
            official_url: texts.redis_official_url,
            upstash_redis_url: texts.redis_upstash_redis_url,
        },
        app: Application { host: texts.app_host, port },
    }
}

/// What a lookup of a text comes to: the text that was read, or the fault
/// that names the key where none was.
pub fn text_or_fault(key: &str, read: Result<String, ::config::ConfigError>) -> (found: Result<
    String,
    ConfigFault,
>)
    ensures
        match read {
            Ok(text) => found == Ok::<String, ConfigFault>(text),
            Err(_) => match found {
                Err(ConfigFault::Unreadable { key: named }) => named@ == key@,
                _ => false,
            },
        },
{
    match read {
        Ok(text) => Ok(text),
        Err(_) => Err(ConfigFault::Unreadable { key: String::from_str(key) }),
    }
}

fn text_or_key(built: &::config::Config, key: &str) -> (found: Result<String, String>)
    ensures
        found matches Err(named) ==> named@ == key@,
{
    match text_in(built, key) {
        Ok(text) => Ok(text),
        Err(_) => Err(String::from_str(key)),
    }
}

fn read_texts(built: &::config::Config) -> (texts: Result<SettingTexts, String>)
    ensures
        texts matches Err(key) ==> is_text_key(key@),
{
    let name = match text_or_key(built, "name") {
        Ok(t) => t,
        Err(key) => {
            return Err(key);
        },
    };
    let version = match text_or_key(built, "version") {
        Ok(t) => t,
        Err(key) => {
            return Err(key);
        },
    };
    let description = match text_or_key(built, "description") {
        Ok(t) => t,
        Err(key) => {
            return Err(key);
        },
    };
    let database_url = match text_or_key(built, "database.url") {
        Ok(t) => t,
        Err(key) => {
            return Err(key);
        },
    };
    let database_driver = match text_or_key(built, "database.driver") {
        Ok(t) => t,
        Err(key) => {
            return Err(key);
        },
    };
    let database_direct_url = match text_or_key(built, "database.direct_url") {
        Ok(t) => t,
        Err(key) => {
            return Err(key);
        },
    };
    let redis_official_url = match text_or_key(built, "redis.official_url") {
        Ok(t) => t,
        Err(key) => {
            return Err(key);
        },
    };
    let redis_upstash_redis_url = match text_or_key(built, "redis.upstash_redis_url") {
        Ok(t) => t,
        Err(key) => {
            return Err(key);
        },
    };
    let app_host = match text_or_key(built, "app.host") {
        Ok(t) => t,
        Err(key) => {
            return Err(key);
        },
    };
    Ok(
        SettingTexts {
            name,
            version,
            description,
            database_url,
            database_driver,
            database_direct_url,
            redis_official_url,
            redis_upstash_redis_url,
            app_host,
        },
    )
}

impl AppConfig {
    /// Narrows the port read from a document to the sixteen bits it is kept
    /// in.
    pub fn port_of(port: i64) -> (narrowed: Result<i16, ConfigFault>)
        ensures
            match narrowed {
                Ok(p) => port_fits(port) && p == port,
                Err(ConfigFault::PortOutOfRange { port: given }) => !port_fits(port) && given
                    == port,
                Err(_) => false,
            },
    {
        if port < i16::MIN as i64 || port > i16::MAX as i64 {
            Err(ConfigFault::PortOutOfRange { port })
        } else {
            Ok(port as i16)
        }
    }

    /// Makes the settings of what was read from a document.
    ///
    /// Where a text could not be read, the fault names its key. Where the
    /// texts were read but no port, the fault says so; where the port does
    /// not fit sixteen bits, the fault gives it. Otherwise the settings hold
    /// each text in its field, and the port.
    pub fn from_values(texts: Result<SettingTexts, String>, port: Option<i64>) -> (settings: Result<
        AppConfig,
        ConfigFault,
    >)
        ensures
            settings == (match texts {
                Err(key) => Err::<AppConfig, ConfigFault>(ConfigFault::Unreadable { key }),
                Ok(read) => match port {
                    None => Err::<AppConfig, ConfigFault>(ConfigFault::PortUnreadable),
                    Some(p) => if port_fits(p) {
                        Ok::<AppConfig, ConfigFault>(settings_of(read, p as i16))
                    } else {
                        Err::<AppConfig, ConfigFault>(ConfigFault::PortOutOfRange { port: p })
                    },
                },
            }),
    {
        let read = match texts {
            Ok(read) => read,
            Err(key) => {
                return Err(ConfigFault::Unreadable { key });
            },
        };
        let given = match port {
            Some(p) => p,
            None => {
                return Err(ConfigFault::PortUnreadable);
            },
        };
        let port = match AppConfig::port_of(given) {
            Ok(p) => p,
            Err(_) => {
                return Err(ConfigFault::PortOutOfRange { port: given });
            },
        };
        Ok(
            AppConfig {
                name: read.name,
                version: read.version,
                description: read.description,
                database: DatabaseConfig {
                    url: read.database_url,
                    driver: read.database_driver,
                    direct_url: read.database_direct_url,
                },
                redis: RedisConfig {
                    official_url: read.redis_official_url,
                    upstash_redis_url: read.redis_upstash_redis_url,
                },
                app: Application { host: read.app_host, port },
            },
        )
    }

    /// Reads the text at a dotted key of a YAML document.
    ///
    /// What is read is the `config` crate's to say. Whatever it says, a fault
    /// for want of a text names the key that was asked for, and no fault
    /// speaks of a port.
    pub fn get_key(path: &str, document: &str) -> (found: Result<String, ConfigFault>)
        ensures
            found matches Err(ConfigFault::Unreadable { key }) ==> key@ == path@,
            !(found matches Err(ConfigFault::PortUnreadable)),
            !(found matches Err(ConfigFault::PortOutOfRange { .. })),
    {
        match build_document(document) {
            Ok(built) => text_or_fault(path, text_in(&built, path)),
            Err(_) => Err(ConfigFault::Malformed),
        }
    }

    /// Reads the settings from a YAML document: the configuration is built
    /// once, the nine texts and the port are read from it, and the settings
    /// are made of them as `from_values` says.
    ///
    /// What is read is the `config` crate's to say. Whatever it says, a fault
    /// for want of a text names one of the nine text keys, and a port given
    /// as out of range does not fit sixteen bits.
    pub fn from_yaml(document: &str) -> (settings: Result<AppConfig, ConfigFault>)
        ensures
            settings matches Err(ConfigFault::Unreadable { key }) ==> is_text_key(key@),
            settings matches Err(ConfigFault::PortOutOfRange { port }) ==> !port_fits(port),
    {
        let built = match build_document(document) {
            Ok(built) => built,
            Err(_) => {
                return Err(ConfigFault::Malformed);
            },
        };
        let texts = read_texts(&built);
        let port = match int_in(&built, "app.port") {
            Ok(p) => Some(p),
            Err(_) => None,
        };
        AppConfig::from_values(texts, port)
    }
}

} // verus!
