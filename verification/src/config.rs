//! Configuration: the login identity, target channel and bot prefix read
//! from a TOML document. The document is parsed by the `toml` crate behind
//! trusted declarations; choosing the configuration from the table's
//! string entries is verified.

use vstd::prelude::*;

verus! {

/// Failures of reading the configuration file. The file-system kinds are
/// produced by the surrounding program; parsing here produces only
/// `InvalidSyntax`.
#[derive(Debug, Clone, Copy, PartialEq, Eq, Structural)]
pub enum ConfigReadError {
    FileNotFound,
    BadPermissions,
    InvalidEncoding,
    InvalidSyntax,
    OtherError,
}

/// The identity to authenticate with: configured credentials, or the
/// anonymous placeholder.
#[derive(Debug, Clone, PartialEq, Eq)]
pub enum TwitchLogin {
    Anonymous,
    Auth { username: String, token: String },
}

/// Spec-level twin of `TwitchLogin`.
pub enum TwitchLoginModel {
    Anonymous,
    Auth { username: Seq<char>, token: Seq<char> },
}

impl View for TwitchLogin {
    type V = TwitchLoginModel;

    open spec fn view(&self) -> TwitchLoginModel {
        match self {
            TwitchLogin::Anonymous => TwitchLoginModel::Anonymous,
            TwitchLogin::Auth { username, token } => TwitchLoginModel::Auth {
                username: username@,
                token: token@,
            },
        }
    }
}

/// Whether the bot-command evaluator runs, and on which prefix.
#[derive(Debug, Clone, PartialEq, Eq)]
pub enum BotMode {
    Off,
    WithPrefix(String),
}

/// Spec-level twin of `BotMode`.
pub enum BotModeModel {
    Off,
    WithPrefix(Seq<char>),
}

impl View for BotMode {
    type V = BotModeModel;

    open spec fn view(&self) -> BotModeModel {
        match self {
            BotMode::Off => BotModeModel::Off,
            BotMode::WithPrefix(prefix) => BotModeModel::WithPrefix(prefix@),
        }
    }
}

/// The configuration the program runs with.
#[derive(Debug, Clone, PartialEq, Eq)]
pub struct AppConfig {
    pub login: TwitchLogin,
    pub channel: Option<String>,
    pub bot_mode: BotMode,
}

/// Spec-level twin of `AppConfig`.
pub struct AppConfigModel {
    pub login: TwitchLoginModel,
    pub channel: Option<Seq<char>>,
    pub bot_mode: BotModeModel,
}

impl View for AppConfig {
    type V = AppConfigModel;

    open spec fn view(&self) -> AppConfigModel {
        AppConfigModel {
            login: self.login@,
            channel: match &self.channel {
                Some(c) => Some(c@),
                None => None,
            },
            bot_mode: self.bot_mode@,
        }
    }
}

#[verifier::external_type_specification]
#[verifier::external_body]
#[verifier::reject_recursive_types(K)]
#[verifier::reject_recursive_types(V)]
pub struct ExTomlMap<K, V>(toml::map::Map<K, V>);

#[verifier::external_type_specification]
#[verifier::external_body]
pub struct ExTomlValue(toml::Value);

#[verifier::external_type_specification]
#[verifier::external_body]
pub struct ExTomlDeError(toml::de::Error);

/// The string-valued top-level entries of a parsed TOML table, keyed by
/// entry name.
pub uninterp spec fn table_strings(t: toml::map::Map<String, toml::Value>) -> Map<
    Seq<char>,
    Seq<char>,
>;

/// The string-valued top-level entries of a TOML document, or `None` when
/// the document does not parse.
pub uninterp spec fn toml_string_entries(s: Seq<char>) -> Option<Map<Seq<char>, Seq<char>>>;

/// Relies on `<toml::Table as core::str::FromStr>::from_str`: parses a
/// TOML document into its top-level table; the table's string-valued
/// entries are a function of the document alone.
#[verifier::external_body]
fn toml_parse(s: &str) -> (r: Result<toml::Table, toml::de::Error>)
    ensures
        r is Ok <==> toml_string_entries(s@) is Some,
        r matches Ok(t) ==> Some(table_strings(t)) == toml_string_entries(s@),
{
    s.parse::<toml::Table>()
}

/// Relies on `toml::map::Map::get`: looks an entry up by key; the entry's
/// value is handed out when it is a string.
#[verifier::external_body]
fn toml_get_string(table: &toml::Table, key: &str) -> (r: Option<String>)
    ensures
        match r {
            Some(v) => table_strings(*table).contains_key(key@) && v@ == table_strings(
                *table,
            ).index(key@),
            None => !table_strings(*table).contains_key(key@),
        },
{
    match table.get(key) {
        Some(toml::Value::String(v)) => Some(v.clone()),
        _ => None,
    }
}

/// The configuration denoted by the string entries of a document's table:
/// credentials when both `username` and `token` are present, the
/// `channel` entry if any, and a bot prefix exactly when `bot_prefix` is
/// present.
pub open spec fn spec_config_of(m: Map<Seq<char>, Seq<char>>) -> AppConfigModel {
    AppConfigModel {
        login: if m.contains_key("username"@) && m.contains_key("token"@) {
            TwitchLoginModel::Auth { username: m["username"@], token: m["token"@] }
        } else {
            TwitchLoginModel::Anonymous
        },
        channel: if m.contains_key("channel"@) {
            Some(m["channel"@])
        } else {
            None
        },
        bot_mode: if m.contains_key("bot_prefix"@) {
            BotModeModel::WithPrefix(m["bot_prefix"@])
        } else {
            BotModeModel::Off
        },
    }
}

/// Reads a configuration from the text of a TOML document. Succeeds on
/// exactly the documents that parse, and then returns the configuration
/// their string entries denote; fails with `InvalidSyntax` otherwise.
pub fn parse_config(s: &str) -> (r: Result<AppConfig, ConfigReadError>)
    ensures
        match r {
            Ok(cfg) => toml_string_entries(s@) matches Some(m) && cfg@ == spec_config_of(m),
            Err(e) => toml_string_entries(s@) is None && e == ConfigReadError::InvalidSyntax,
        },
{
    let table = match toml_parse(s) {
        Ok(t) => t,
        Err(_) => {
            return Err(ConfigReadError::InvalidSyntax);
        },
    };
    let username = toml_get_string(&table, "username");
    let token = toml_get_string(&table, "token");
    let login = match (username, token) {
        (Some(username), Some(token)) => TwitchLogin::Auth { username, token },
        _ => TwitchLogin::Anonymous,
    };
    let channel = toml_get_string(&table, "channel");
    let bot_mode = match toml_get_string(&table, "bot_prefix") {
        Some(prefix) => BotMode::WithPrefix(prefix),
        None => BotMode::Off,
    };
    Ok(AppConfig { login, channel, bot_mode })
}

} // verus!
