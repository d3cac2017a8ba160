//! Settings of the relay, read from a list of named variables and validated.
use crate::text::{parse_port, port_of, same_text};
use vstd::prelude::*;

verus! {

/// Broker port used when no `MQTT_PORT` is given.
pub const DEFAULT_PORT: u16 = 1883;

/// Keep-alive interval of the broker connection, in seconds.
pub const KEEP_ALIVE_SECS: u64 = 5;

/// Why the settings cannot be used; checked in the order of the variants.
#[derive(Debug, Clone, Copy, PartialEq, Eq, Structural)]
pub enum ConfigError {
    /// An `MQTT_PORT` value is not a port number.
    InvalidPort,
    /// Neither `DISCORD_URL` nor `GOTIFY_URL` is given.
    NoWebhook,
    /// `CAMERA_URL` or `DISCORD_MESSAGE` is missing.
    MissingCameraOrMessage,
    /// `MQTT_ID` or `MQTT_HOST` is missing.
    MissingBrokerIdentity,
    /// `MQTT_TOPIC` is missing.
    MissingTopic,
}

impl ConfigError {
    /// The status the process exits with for this error; an invalid port makes
    /// the process abort instead, which has no status of its own.
    pub open spec fn exit_status(self) -> Option<i32> {
        match self {
            ConfigError::InvalidPort => None,
            ConfigError::NoWebhook => Some(2),
            ConfigError::MissingCameraOrMessage => Some(3),
            ConfigError::MissingBrokerIdentity => Some(4),
            ConfigError::MissingTopic => Some(5),
        }
    }

    pub fn exit_code(&self) -> (r: Option<i32>)
        ensures
            r == self.exit_status(),
    {
        match self {
            ConfigError::InvalidPort => None,
            ConfigError::NoWebhook => Some(2),
            ConfigError::MissingCameraOrMessage => Some(3),
            ConfigError::MissingBrokerIdentity => Some(4),
            ConfigError::MissingTopic => Some(5),
        }
    }

    /// The diagnostic line printed for this error.
    pub open spec fn diagnostic(self) -> Seq<char> {
        match self {
            ConfigError::InvalidPort => "ERROR: Port should be a number!"@,
            ConfigError::NoWebhook => "ERROR: You are missing either a DISCORD_URL or a GOTIFY_URL!"@,
            ConfigError::MissingCameraOrMessage => "ERROR: You need to provide either a CAMERA_URL or a DISCORD_MESSAGE"@,
            ConfigError::MissingBrokerIdentity => "ERROR: You are either missing MQTT_ID, MQTT_HOST for the MQTT connection!"@,
            ConfigError::MissingTopic => "ERROR: The MQTT_TOPIC is missing"@,
        }
    }

    pub fn message(&self) -> (r: String)
        ensures
            r@ == self.diagnostic(),
    {
        match self {
            ConfigError::InvalidPort => String::from_str("ERROR: Port should be a number!"),
            ConfigError::NoWebhook => String::from_str(
                "ERROR: You are missing either a DISCORD_URL or a GOTIFY_URL!",
            ),
            ConfigError::MissingCameraOrMessage => String::from_str(
                "ERROR: You need to provide either a CAMERA_URL or a DISCORD_MESSAGE",
            ),
            ConfigError::MissingBrokerIdentity => String::from_str(
                "ERROR: You are either missing MQTT_ID, MQTT_HOST for the MQTT connection!",
            ),
            ConfigError::MissingTopic => String::from_str("ERROR: The MQTT_TOPIC is missing"),
        }
    }
}

/// How to reach and subscribe to the broker.
pub struct BrokerSettings {
    pub client_id: String,
    pub host: String,
    pub port: u16,
    /// User name and password; set only when both were given.
    pub credentials: Option<(String, String)>,
    pub topic: String,
    pub keep_alive_secs: u64,
}

/// Where a snapshot comes from and where it goes.
pub struct WebhookTargets {
    /// Chat webhook, posted a multipart form.
    pub chat_url: Option<String>,
    /// Push-notification webhook, posted a JSON body.
    pub push_url: Option<String>,
    pub camera_url: String,
    pub message: String,
}

impl WebhookTargets {
    /// At least one webhook is configured.
    pub open spec fn wf(self) -> bool {
        self.chat_url is Some || self.push_url is Some
    }
}

/// The validated settings of the relay.
pub struct Config {
    pub broker: BrokerSettings,
    pub webhooks: WebhookTargets,
    /// When present, only telemetry with exactly this RF code is relayed.
    pub rf_code: Option<String>,
}

/// The characters of an optional string.
pub open spec fn opt_view(o: Option<String>) -> Option<Seq<char>> {
    match o {
        Some(s) => Some(s@),
        None => None,
    }
}

/// The value of the last variable named `key`, if any: later entries override
/// earlier ones.
pub open spec fn lookup(vars: Seq<(String, String)>, key: Seq<char>) -> Option<Seq<char>>
    decreases vars.len(),
{
    if vars.len() == 0 {
        None
    } else if vars.last().0@ == key {
        Some(vars.last().1@)
    } else {
        lookup(vars.drop_last(), key)
    }
}

/// Some `MQTT_PORT` entry holds a text that is not a port number.
pub open spec fn has_invalid_port(vars: Seq<(String, String)>) -> bool {
    exists|i: int|
        0 <= i < vars.len() && (#[trigger] vars[i]).0@ == "MQTT_PORT"@ && port_of(vars[i].1@) is None
}

/// The broker port that the variables select.
pub open spec fn port_setting(vars: Seq<(String, String)>) -> u16 {
    match lookup(vars, "MQTT_PORT"@) {
        Some(v) => match port_of(v) {
            Some(p) => p,
            None => DEFAULT_PORT,
        },
        None => DEFAULT_PORT,
    }
}

/// Whether the variables make usable settings, and if not, the first problem
/// in the order in which they are checked.
pub open spec fn config_check(vars: Seq<(String, String)>) -> Result<(), ConfigError> {
    if has_invalid_port(vars) {
        Err(ConfigError::InvalidPort)
    } else if lookup(vars, "DISCORD_URL"@) is None && lookup(vars, "GOTIFY_URL"@) is None {
        Err(ConfigError::NoWebhook)
    } else if lookup(vars, "CAMERA_URL"@) is None || lookup(vars, "DISCORD_MESSAGE"@) is None {
        Err(ConfigError::MissingCameraOrMessage)
    } else if lookup(vars, "MQTT_ID"@) is None || lookup(vars, "MQTT_HOST"@) is None {
        Err(ConfigError::MissingBrokerIdentity)
    } else if lookup(vars, "MQTT_TOPIC"@) is None {
        Err(ConfigError::MissingTopic)
    } else {
        Ok(())
    }
}

impl Config {
    /// Every setting is the one that the variables give.
    pub open spec fn loaded_from(self, vars: Seq<(String, String)>) -> bool {
        &&& lookup(vars, "MQTT_ID"@) == Some(self.broker.client_id@)
        &&& lookup(vars, "MQTT_HOST"@) == Some(self.broker.host@)
        &&& lookup(vars, "MQTT_TOPIC"@) == Some(self.broker.topic@)
        &&& self.broker.port == port_setting(vars)
        &&& self.broker.keep_alive_secs == KEEP_ALIVE_SECS
        &&& match (lookup(vars, "MQTT_USERNAME"@), lookup(vars, "MQTT_PASSWORD"@)) {
            (Some(u), Some(p)) => self.broker.credentials matches Some((cu, cp)) && cu@ == u
                && cp@ == p,
            _ => self.broker.credentials is None,
        }
        &&& opt_view(self.webhooks.chat_url) == lookup(vars, "DISCORD_URL"@)
        &&& opt_view(self.webhooks.push_url) == lookup(vars, "GOTIFY_URL"@)
        &&& lookup(vars, "CAMERA_URL"@) == Some(self.webhooks.camera_url@)
        &&& lookup(vars, "DISCORD_MESSAGE"@) == Some(self.webhooks.message@)
        &&& opt_view(self.rf_code) == lookup(vars, "RF_CODE"@)
    }

    pub open spec fn wf(self) -> bool {
        self.webhooks.wf()
    }
}

/// Settings that lack a required variable are always refused, and, unless an
/// invalid port aborts the process first, with an exit status between 2 and 5:
/// 2 for no webhook, 3 for no camera URL or message, 4 for no broker identity
/// or host, 5 for no topic.
pub proof fn lemma_missing_required_is_refused(vars: Seq<(String, String)>)
    requires
        (lookup(vars, "DISCORD_URL"@) is None && lookup(vars, "GOTIFY_URL"@) is None)
            || lookup(vars, "CAMERA_URL"@) is None || lookup(vars, "DISCORD_MESSAGE"@) is None
            || lookup(vars, "MQTT_ID"@) is None || lookup(vars, "MQTT_HOST"@) is None
            || lookup(vars, "MQTT_TOPIC"@) is None,
    ensures
        config_check(vars) is Err,
        config_check(vars) matches Err(e) && (e == ConfigError::InvalidPort || (
        e.exit_status() matches Some(c) && 2 <= c <= 5)),
        !has_invalid_port(vars) && lookup(vars, "DISCORD_URL"@) is None && lookup(
            vars,
            "GOTIFY_URL"@,
        ) is None ==> config_check(vars) == Err::<(), ConfigError>(ConfigError::NoWebhook),
{
}

proof fn lemma_lookup_step(vars: Seq<(String, String)>, i: int)
    requires
        0 <= i < vars.len(),
    ensures
        forall|key: Seq<char>|
            #[trigger] lookup(vars.subrange(0, i + 1), key) == if vars[i].0@ == key {
                Some(vars[i].1@)
            } else {
                lookup(vars.subrange(0, i), key)
            },
{
    assert(vars.subrange(0, i + 1).drop_last() =~= vars.subrange(0, i));
}

/// Sets `slot` to a copy of `value` when `name` is `key`.
fn take_if(slot: &mut Option<String>, name: &str, key: &str, value: &String)
    ensures
        name@ == key@ ==> opt_view(*final(slot)) == Some(value@),
        name@ != key@ ==> *final(slot) == *old(slot),
{
    if same_text(name, key) {
        *slot = Some(value.clone());
    }
}

/// Reads the settings from `(name, value)` pairs, such as the process
/// environment. Unknown names are ignored and a later pair overrides an earlier
/// one of the same name.
pub fn load_config(vars: &Vec<(String, String)>) -> (r: Result<Config, ConfigError>)
    ensures
        match r {
            Ok(c) => config_check(vars@) is Ok && c.loaded_from(vars@) && c.wf(),
            Err(e) => config_check(vars@) == Err::<(), ConfigError>(e),
        },
{
    let mut id: Option<String> = None;
    let mut host: Option<String> = None;
    let mut port: u16 = DEFAULT_PORT;
    let mut username: Option<String> = None;
    let mut password: Option<String> = None;
    let mut topic: Option<String> = None;
    let mut chat_url: Option<String> = None;
    let mut push_url: Option<String> = None;
    let mut camera_url: Option<String> = None;
    let mut message: Option<String> = None;
    let mut rf_code: Option<String> = None;
    let n = vars.len();
    let mut i: usize = 0;
    while i < n
        invariant
            n == vars@.len(),
            i <= n,
            opt_view(id) == lookup(vars@.subrange(0, i as int), "MQTT_ID"@),
            opt_view(host) == lookup(vars@.subrange(0, i as int), "MQTT_HOST"@),
            opt_view(username) == lookup(vars@.subrange(0, i as int), "MQTT_USERNAME"@),
            opt_view(password) == lookup(vars@.subrange(0, i as int), "MQTT_PASSWORD"@),
            opt_view(topic) == lookup(vars@.subrange(0, i as int), "MQTT_TOPIC"@),
            opt_view(chat_url) == lookup(vars@.subrange(0, i as int), "DISCORD_URL"@),
            opt_view(push_url) == lookup(vars@.subrange(0, i as int), "GOTIFY_URL"@),
            opt_view(camera_url) == lookup(vars@.subrange(0, i as int), "CAMERA_URL"@),
            opt_view(message) == lookup(vars@.subrange(0, i as int), "DISCORD_MESSAGE"@),
            opt_view(rf_code) == lookup(vars@.subrange(0, i as int), "RF_CODE"@),
            port == port_setting(vars@.subrange(0, i as int)),
            forall|j: int|
                0 <= j < i ==> !((#[trigger] vars@[j]).0@ == "MQTT_PORT"@ && port_of(
                    vars@[j].1@,
                ) is None),
        decreases n - i,
    {
        let entry = &vars[i];
        let name = entry.0.as_str();
        proof {
            lemma_lookup_step(vars@, i as int);
        }
        take_if(&mut id, name, "MQTT_ID", &entry.1);
        take_if(&mut host, name, "MQTT_HOST", &entry.1);
        take_if(&mut username, name, "MQTT_USERNAME", &entry.1);
        take_if(&mut password, name, "MQTT_PASSWORD", &entry.1);
        take_if(&mut topic, name, "MQTT_TOPIC", &entry.1);
        take_if(&mut chat_url, name, "DISCORD_URL", &entry.1);
        take_if(&mut push_url, name, "GOTIFY_URL", &entry.1);
        take_if(&mut camera_url, name, "CAMERA_URL", &entry.1);
        take_if(&mut message, name, "DISCORD_MESSAGE", &entry.1);
        take_if(&mut rf_code, name, "RF_CODE", &entry.1);
        if same_text(name, "MQTT_PORT") {
            match parse_port(entry.1.as_str()) {
                Some(p) => {
                    port = p;
                },
                None => {
                    assert(vars@[i as int].0@ == "MQTT_PORT"@);
                    assert(has_invalid_port(vars@));
                    return Err(ConfigError::InvalidPort);
                },
            }
        }
        i = i + 1;
    }
    proof {
        assert(vars@.subrange(0, n as int) =~= vars@);
        assert(!has_invalid_port(vars@));
    }
    if chat_url.is_none() && push_url.is_none() {
        return Err(ConfigError::NoWebhook);
    }
    let (camera_url, message) = match (camera_url, message) {
        (Some(c), Some(m)) => (c, m),
        _ => {
            return Err(ConfigError::MissingCameraOrMessage);
        },
    };
    let (client_id, host) = match (id, host) {
        (Some(a), Some(h)) => (a, h),
        _ => {
            return Err(ConfigError::MissingBrokerIdentity);
        },
    };
    let topic = match topic {
        Some(t) => t,
        None => {
            return Err(ConfigError::MissingTopic);
        },
    };
    let credentials = match (username, password) {
        (Some(u), Some(p)) => Some((u, p)),
        _ => None,
    };
    Ok(
        Config {
            broker: BrokerSettings {
                client_id,
                host,
                port,
                credentials,
                topic,
                keep_alive_secs: KEEP_ALIVE_SECS,
            },
            webhooks: WebhookTargets { chat_url, push_url, camera_url, message },
            rf_code,
        },
    )
}

} // verus!
