//! The agent's settings and how they are resolved from a YAML document.

use vstd::prelude::*;
use vstd::string::StringExecFns;
use yaml_rust::Yaml;
use crate::yaml::{yaml_documents, string_entry, integer_entry, load_yaml, string_at, integer_at};

verus! {

/// Where the settings are read from when no location is given.
pub const DEFAULT_CONFIG_PATH: &'static str = "config.yaml";

/// The client identifier of an agent whose settings name none.
pub const DEFAULT_CLIENT_ID: &'static str = "kraken_edge_heartbeater";

/// The topic of an agent whose settings name none.
pub const DEFAULT_TOPIC: &'static str = "krakeniot";

/// The resolved settings of one agent. Built once, never changed.
#[derive(Debug, Clone, PartialEq, Eq)]
pub struct Config {
    pub broker_address: String,
    pub topic: String,
    pub client_id: String,
    pub interval_millis: u64,
}

/// The mathematical content of a [`Config`].
pub struct ConfigView {
    pub broker_address: Seq<char>,
    pub topic: Seq<char>,
    pub client_id: Seq<char>,
    pub interval_millis: u64,
}

impl View for Config {
    type V = ConfigView;

    open spec fn view(&self) -> ConfigView {
        ConfigView {
            broker_address: self.broker_address@,
            topic: self.topic@,
            client_id: self.client_id@,
            interval_millis: self.interval_millis,
        }
    }
}

/// Why no settings could be resolved.
#[derive(Debug, Clone, Copy, PartialEq, Eq)]
pub enum ConfigError {
    /// The text is not YAML.
    Unparseable,
    /// The text holds no document.
    NoDocument,
    /// `mqtt.host` is absent or no string.
    MissingHost,
    /// `client.interval` is absent or no integer.
    MissingInterval,
}

/// The interval that an integer of the document stands for: the integer
/// itself, a negative one read as the unsigned 64-bit number with the same
/// bits.
pub open spec fn interval_of(raw: i64) -> u64 {
    if raw >= 0 {
        raw as u64
    } else {
        (raw + 0x1_0000_0000_0000_0000) as u64
    }
}

/// The settings that four optional fields resolve to. The broker address and
/// the interval are required, in that order; a missing topic or client
/// identifier is replaced by its default.
pub open spec fn resolved(
    host: Option<Seq<char>>,
    topic: Option<Seq<char>>,
    client_id: Option<Seq<char>>,
    interval: Option<i64>,
) -> Result<ConfigView, ConfigError> {
    match (host, interval) {
        (None, _) => Err(ConfigError::MissingHost),
        (Some(_), None) => Err(ConfigError::MissingInterval),
        (Some(h), Some(i)) => Ok(
            ConfigView {
                broker_address: h,
                topic: match topic {
                    Some(t) => t,
                    None => DEFAULT_TOPIC@,
                },
                client_id: match client_id {
                    Some(c) => c,
                    None => DEFAULT_CLIENT_ID@,
                },
                interval_millis: interval_of(i),
            },
        ),
    }
}

/// The settings that one parsed document resolves to.
pub open spec fn document_config(doc: Yaml) -> Result<ConfigView, ConfigError> {
    resolved(
        string_entry(doc, "mqtt"@, "host"@),
        string_entry(doc, "mqtt"@, "topic"@),
        string_entry(doc, "client"@, "id"@),
        integer_entry(doc, "client"@, "interval"@),
    )
}

/// The settings that a YAML text resolves to: those of its first document.
pub open spec fn text_config(text: Seq<char>) -> Result<ConfigView, ConfigError> {
    match yaml_documents(text) {
        None => Err(ConfigError::Unparseable),
        Some(docs) => if docs.len() == 0 {
            Err(ConfigError::NoDocument)
        } else {
            document_config(docs[0])
        },
    }
}

/// Whether the outcome of resolving is the expected one: the same error, or
/// settings with the expected content.
pub open spec fn agrees(r: Result<Config, ConfigError>, expected: Result<ConfigView, ConfigError>) -> bool {
    match r {
        Ok(c) => expected == Ok::<ConfigView, ConfigError>(c@),
        Err(e) => expected == Err::<ConfigView, ConfigError>(e),
    }
}

fn interval_from(raw: i64) -> (r: u64)
    ensures
        r == interval_of(raw),
{
    if raw >= 0 {
        raw as u64
    } else {
        let below: u64 = ((raw + 1) + i64::MAX) as u64;
        below + 0x8000_0000_0000_0000u64
    }
}

impl Config {
    /// Resolves the settings from the four fields of a document, each as it
    /// was found there.
    pub fn resolve(
        host: Option<String>,
        topic: Option<String>,
        client_id: Option<String>,
        interval: Option<i64>,
    ) -> (r: Result<Config, ConfigError>)
        ensures
            agrees(
                r,
                resolved(
                    match host { Some(s) => Some(s@), None => None },
                    match topic { Some(s) => Some(s@), None => None },
                    match client_id { Some(s) => Some(s@), None => None },
                    interval,
                ),
            ),
    {
        let broker_address = match host {
            Some(h) => h,
            None => { return Err(ConfigError::MissingHost); },
        };
        let raw = match interval {
            Some(i) => i,
            None => { return Err(ConfigError::MissingInterval); },
        };
        let topic = match topic {
            Some(t) => t,
            None => String::from_str(DEFAULT_TOPIC),
        };
        let client_id = match client_id {
            Some(c) => c,
            None => String::from_str(DEFAULT_CLIENT_ID),
        };
        Ok(Config { broker_address, topic, client_id, interval_millis: interval_from(raw) })
    }

    /// Resolves the settings from one parsed document.
    fn from_document(doc: &Yaml) -> (r: Result<Config, ConfigError>)
        ensures
            agrees(r, document_config(*doc)),
    {
        let host = string_at(doc, "mqtt", "host");
        let topic = string_at(doc, "mqtt", "topic");
        let client_id = string_at(doc, "client", "id");
        let interval = integer_at(doc, "client", "interval");
        Config::resolve(host, topic, client_id, interval)
    }

    /// Resolves the settings from the text of a YAML file: parses it and
    /// reads its first document.
    pub fn from_yaml(text: &str) -> (r: Result<Config, ConfigError>)
        ensures
            agrees(r, text_config(text@)),
    {
        match load_yaml(text) {
            Err(_) => Err(ConfigError::Unparseable),
            Ok(docs) => {
                if docs.len() == 0 {
                    Err(ConfigError::NoDocument)
                } else {
                    Config::from_document(&docs[0])
                }
            },
        }
    }
}

/// Without a broker address or without an interval nothing is resolved,
/// whatever the other fields hold.
pub proof fn lemma_required_fields(
    host: Option<Seq<char>>,
    topic: Option<Seq<char>>,
    client_id: Option<Seq<char>>,
    interval: Option<i64>,
)
    ensures
        host is None ==> resolved(host, topic, client_id, interval) == Err::<ConfigView, ConfigError>(
            ConfigError::MissingHost,
        ),
        host is Some && interval is None ==> resolved(host, topic, client_id, interval) == Err::<
            ConfigView,
            ConfigError,
        >(ConfigError::MissingInterval),
        resolved(host, topic, client_id, interval) is Ok <==> host is Some && interval is Some,
{
}

/// A missing topic resolves to `krakeniot` and a missing client identifier
/// to `kraken_edge_heartbeater`; neither stops the resolving, and a field
/// that is there is kept as it is.
pub proof fn lemma_optional_fields_default(
    host: Seq<char>,
    topic: Option<Seq<char>>,
    client_id: Option<Seq<char>>,
    interval: i64,
)
    ensures
        resolved(Some(host), topic, client_id, Some(interval)) matches Ok(c) && {
            &&& c.broker_address == host
            &&& c.interval_millis == interval_of(interval)
            &&& topic is None ==> c.topic == "krakeniot"@
            &&& topic matches Some(t) ==> c.topic == t
            &&& client_id is None ==> c.client_id == "kraken_edge_heartbeater"@
            &&& client_id matches Some(i) ==> c.client_id == i
        },
{
}

/// A document resolves to settings exactly when it holds a string at
/// `mqtt.host` and an integer at `client.interval`; the topic and the client
/// identifier are those at `mqtt.topic` and `client.id`, or the defaults
/// where the document holds no string there.
pub proof fn lemma_document_fields(doc: Yaml)
    ensures
        document_config(doc) is Ok <==> string_entry(doc, "mqtt"@, "host"@) is Some && integer_entry(
            doc,
            "client"@,
            "interval"@,
        ) is Some,
        string_entry(doc, "mqtt"@, "host"@) is None ==> document_config(doc) == Err::<
            ConfigView,
            ConfigError,
        >(ConfigError::MissingHost),
        document_config(doc) matches Ok(c) ==> {
            &&& Some(c.broker_address) == string_entry(doc, "mqtt"@, "host"@)
            &&& c.topic == match string_entry(doc, "mqtt"@, "topic"@) {
                Some(t) => t,
                None => "krakeniot"@,
            }
            &&& c.client_id == match string_entry(doc, "client"@, "id"@) {
                Some(i) => i,
                None => "kraken_edge_heartbeater"@,
            }
        },
{
}

} // verus!
