//! The operations offered to the user interface: the persisted settings, the
//! first-run setup, and the aggregate status.
//!
//! The settings live in a key/value store that the surrounding program opens,
//! reads and saves. The operations here work on [`StoredConfig`], the three
//! entries of that store that matter, as typed values.

use vstd::prelude::*;
use vstd::string::*;
use crate::config::{api_host, api_url, AppConfig, AppMode};
use crate::error::ServiceError;
use crate::oauth::{start_oauth_flow, AuthFlow, PendingAuth, RendezvousSlot, OAUTH_TIMEOUT_MILLIS};
use crate::protocol::{BACKEND_PORT, DATABASE_PORT};
use crate::server::{start_begun, start_services, stop_services, Orchestrator};
use crate::text::same_text;

verus! {

/// `serde_json::Value`, the type of the values in the store. Nothing of its
/// inside is known here; what it holds is read with the two functions below.
#[verifier::external_type_specification]
#[verifier::external_body]
pub struct ExJsonValue(serde_json::Value);

/// The text that a stored JSON value holds: `Some` if the value is a string, `None` if not.
pub uninterp spec fn json_text(value: serde_json::Value) -> Option<Seq<char>>;

/// The flag that a stored JSON value holds: `Some` if the value is a boolean, `None` if not.
pub uninterp spec fn json_flag(value: serde_json::Value) -> Option<bool>;

/// An optional string, as text.
pub open spec fn text_of(value: Option<String>) -> Option<Seq<char>> {
    match value {
        Some(text) => Some(text@),
        None => None,
    }
}

/// Reads a JSON value as a string with `serde_json::Value::as_str`. Trusted:
/// the result is that method's, copied into a `String`; it depends on the
/// value alone.
#[verifier::external_body]
fn value_as_text(value: &serde_json::Value) -> (text: Option<String>)
    ensures
        text_of(text) == json_text(*value),
{
    value.as_str().map(|text| text.to_string())
}

/// Reads a JSON value as a boolean with `serde_json::Value::as_bool`.
/// Trusted: the result is that method's; it depends on the value alone.
#[verifier::external_body]
fn value_as_flag(value: &serde_json::Value) -> (flag: Option<bool>)
    ensures
        flag == json_flag(*value),
{
    value.as_bool()
}

/// The key of the stored mode.
pub const MODE_KEY: &'static str = "mode";

/// The key of the stored server address.
pub const SERVER_IP_KEY: &'static str = "server_ip";

/// The key of the stored first-run flag.
pub const FIRST_RUN_KEY: &'static str = "first_run_complete";

/// The entries of the persisted settings that the application reads and
/// writes. `None` stands for an entry that is absent or holds a value of
/// another type.
#[derive(Debug, Clone, PartialEq, Eq)]
pub struct StoredConfig {
    /// The mode's name, `"server"` or `"client"`.
    pub mode: Option<String>,
    /// The address of the server to talk to in client mode.
    pub server_ip: Option<String>,
    /// Whether the first-run setup has been completed.
    pub first_run_complete: Option<bool>,
}

impl StoredConfig {
    /// The stored mode's name; `"client"` if none is stored.
    pub open spec fn mode_name(self) -> Seq<char> {
        match self.mode {
            Some(mode) => mode@,
            None => "client"@,
        }
    }

    /// The mode that the settings select.
    pub open spec fn app_mode(self) -> AppMode {
        AppMode::from_name_spec(self.mode_name())
    }

    /// Whether the first-run setup is still to be done.
    pub open spec fn first_run(self) -> bool {
        self.first_run_complete != Some(true)
    }

    /// The base address of the API that the settings lead to; the API's
    /// port is the backend's.
    pub open spec fn api_url_spec(self) -> Seq<char> {
        api_url(api_host(self.app_mode(), text_of(self.server_ip)), BACKEND_PORT)
    }

    /// Settings with no entries.
    pub fn empty() -> (stored: StoredConfig)
        ensures
            stored.mode is None,
            stored.server_ip is None,
            stored.first_run_complete is None,
    {
        StoredConfig { mode: None, server_ip: None, first_run_complete: None }
    }

    /// Reads the settings from the values under the three keys, each `None` if the key is absent.
    pub fn from_values(
        mode: Option<&serde_json::Value>,
        server_ip: Option<&serde_json::Value>,
        first_run_complete: Option<&serde_json::Value>,
    ) -> (stored: StoredConfig)
        ensures
            text_of(stored.mode) == (match mode {
                Some(value) => json_text(*value),
                None => None,
            }),
            text_of(stored.server_ip) == (match server_ip {
                Some(value) => json_text(*value),
                None => None,
            }),
            stored.first_run_complete == (match first_run_complete {
                Some(value) => json_flag(*value),
                None => None,
            }),
    {
        StoredConfig {
            mode: match mode {
                Some(value) => value_as_text(value),
                None => None,
            },
            server_ip: match server_ip {
                Some(value) => value_as_text(value),
                None => None,
            },
            first_run_complete: match first_run_complete {
                Some(value) => value_as_flag(value),
                None => None,
            },
        }
    }

    /// The configuration that the settings amount to, with the usual ports.
    pub fn to_config(&self) -> (config: AppConfig)
        ensures
            config.mode == self.app_mode(),
            config.server_ip == self.server_ip,
            config.server_port == BACKEND_PORT,
            config.db_port == DATABASE_PORT,
            config.first_run_complete == !self.first_run(),
    {
        let mode = match &self.mode {
            Some(name) => AppMode::from_name(name.as_str()),
            None => {
                proof {
                    crate::config::lemma_client_is_not_server();
                }
                AppMode::Client
            },
        };
        let complete = match self.first_run_complete {
            Some(flag) => flag,
            None => false,
        };
        AppConfig {
            mode,
            server_ip: get_server_ip(self),
            server_port: BACKEND_PORT,
            db_port: DATABASE_PORT,
            first_run_complete: complete,
        }
    }
}

/// The stored mode's name; `"client"` where none is stored.
pub fn get_app_mode_internal(stored: &StoredConfig) -> (mode: String)
    ensures
        mode@ == stored.mode_name(),
{
    match &stored.mode {
        Some(mode) => mode.clone(),
        None => String::from_str("client"),
    }
}

/// The stored mode's name; `"client"` where none is stored.
pub fn get_app_mode(stored: &StoredConfig) -> (mode: String)
    ensures
        mode@ == stored.mode_name(),
{
    get_app_mode_internal(stored)
}

/// Stores the mode's name; the other entries stay as they are.
pub fn set_app_mode(stored: &mut StoredConfig, mode: String)
    ensures
        final(stored).mode == Some(mode),
        final(stored).server_ip == old(stored).server_ip,
        final(stored).first_run_complete == old(stored).first_run_complete,
{
    stored.mode = Some(mode);
}

/// The stored server address, if one is stored.
pub fn get_server_ip(stored: &StoredConfig) -> (ip: Option<String>)
    ensures
        ip == stored.server_ip,
{
    match &stored.server_ip {
        Some(ip) => Some(ip.clone()),
        None => None,
    }
}

/// Stores the server address; the other entries stay as they are.
pub fn set_server_ip(stored: &mut StoredConfig, ip: String)
    ensures
        final(stored).server_ip == Some(ip),
        final(stored).mode == old(stored).mode,
        final(stored).first_run_complete == old(stored).first_run_complete,
{
    stored.server_ip = Some(ip);
}

/// Whether the first-run setup is still to be done: it is unless the
/// settings say that it was completed.
pub fn is_first_run(stored: &StoredConfig) -> (first_run: bool)
    ensures
        first_run == stored.first_run(),
{
    match stored.first_run_complete {
        Some(complete) => !complete,
        None => true,
    }
}

/// The settings after a first-run setup that chose `mode` and, maybe, a
/// server address: the mode is stored, the setup is marked as complete, and
/// the address is stored if one was given.
pub open spec fn setup_completed(
    before: StoredConfig,
    mode: String,
    server_ip: Option<String>,
) -> StoredConfig {
    StoredConfig {
        mode: Some(mode),
        server_ip: match server_ip {
            Some(ip) => Some(ip),
            None => before.server_ip,
        },
        first_run_complete: Some(true),
    }
}

/// Completes the first-run setup in the settings. Says whether the local
/// services have to be started now, which is so in server mode.
pub fn complete_setup(
    stored: &mut StoredConfig,
    mode: String,
    server_ip: Option<String>,
) -> (start: bool)
    ensures
        *final(stored) == setup_completed(*old(stored), mode, server_ip),
        start == (mode@ == "server"@),
{
    let start = same_text(mode.as_str(), "server");
    stored.mode = Some(mode);
    stored.first_run_complete = Some(true);
    match server_ip {
        Some(ip) => {
            stored.server_ip = Some(ip);
        },
        None => {},
    }
    start
}

/// Begins the start sequence of the local services.
pub fn start_server_services(orchestrator: Orchestrator) -> (starting: Orchestrator)
    ensures
        starting == start_begun(),
{
    start_services(orchestrator)
}

/// Begins the stop sequence of the local services.
pub fn stop_server_services(orchestrator: Orchestrator) -> (stopping: Orchestrator)
    ensures
        stopping == Orchestrator::StoppingBackend,
{
    stop_services(orchestrator)
}

/// The base address of the API that the settings lead to. This is where the
/// backend's health is probed.
pub fn resolve_api_url(stored: &StoredConfig) -> (url: String)
    ensures
        url@ == stored.api_url_spec(),
{
    stored.to_config().get_api_url()
}

/// Says whether a status query has to probe the local database: only the
/// server mode has one.
pub fn probes_database(stored: &StoredConfig) -> (probe: bool)
    ensures
        probe == (stored.app_mode() == AppMode::Server),
{
    stored.to_config().mode == AppMode::Server
}

/// A snapshot of the configuration and of the services' health.
#[derive(Debug, Clone, PartialEq, Eq)]
pub struct ServerStatus {
    /// The stored mode's name.
    pub mode: String,
    /// The server that a client talks to; not reported in server mode.
    pub server_ip: Option<String>,
    /// The base address of the API.
    pub api_url: String,
    /// Whether the local database runs; always `false` in client mode, which has none.
    pub postgres_running: bool,
    /// Whether the backend answers.
    pub backend_running: bool,
    /// Whether everything that the mode needs is healthy.
    pub all_services_running: bool,
}

/// What a status query has to report for the settings `stored` and the two
/// probes' results.
pub open spec fn status_reports(
    stored: StoredConfig,
    postgres_probe: bool,
    backend_probe: bool,
    status: ServerStatus,
) -> bool {
    let server = stored.app_mode() == AppMode::Server;
    &&& status.mode@ == stored.mode_name()
    &&& text_of(status.server_ip) == (if server {
        None
    } else {
        text_of(stored.server_ip)
    })
    &&& status.api_url@ == stored.api_url_spec()
    &&& status.postgres_running == (server && postgres_probe)
    &&& status.backend_running == backend_probe
    &&& status.all_services_running == (backend_probe && (server ==> postgres_probe))
}

/// Puts the aggregate status together from the settings and from what the
/// probes of the database and of the backend found. The database's probe
/// counts in server mode only; in client mode, where it is not made, any
/// value will do.
pub fn check_server_status(
    stored: &StoredConfig,
    postgres_probe: bool,
    backend_probe: bool,
) -> (status: ServerStatus)
    ensures
        status_reports(*stored, postgres_probe, backend_probe, status),
{
    let config = stored.to_config();
    let server = config.mode == AppMode::Server;
    let postgres_running = server && postgres_probe;
    ServerStatus {
        mode: get_app_mode_internal(stored),
        server_ip: if server {
            None
        } else {
            get_server_ip(stored)
        },
        api_url: config.get_api_url(),
        postgres_running,
        backend_running: backend_probe,
        all_services_running: if server {
            postgres_running && backend_probe
        } else {
            backend_probe
        },
    }
}

/// Reports this machine's address in the local network, or why it could not be found.
pub fn get_local_ip(lookup: Result<String, String>) -> (address: Result<String, String>)
    ensures
        match lookup {
            Ok(ip) => address == Ok::<String, String>(ip),
            Err(reason) => address is Err && address->Err_0@ == (ServiceError::AddressLookupFailed {
                reason,
            }).message_spec(),
        },
{
    match lookup {
        Ok(ip) => Ok(ip),
        Err(reason) => Err((ServiceError::AddressLookupFailed { reason }).message()),
    }
}

/// Begins a sign-in with Google's authorisation address.
pub fn start_google_oauth(oauth_url: String, id: u64, now: u64) -> (begun: (AuthFlow, PendingAuth))
    ensures
        begun.0 == (AuthFlow::Binding { oauth_url }),
        begun.1 == (PendingAuth {
            id,
            created_at: now,
            timeout_millis: OAUTH_TIMEOUT_MILLIS,
            resolver: RendezvousSlot::Open,
        }),
{
    start_oauth_flow(oauth_url, id, now)
}

/// A completed setup is never a first run again, whatever was stored before
/// and whatever was chosen, and it selects the server mode exactly when the
/// services are to be started.
pub proof fn lemma_setup_completes_first_run(
    before: StoredConfig,
    mode: String,
    server_ip: Option<String>,
)
    ensures
        !setup_completed(before, mode, server_ip).first_run(),
        setup_completed(before, mode, server_ip).mode_name() == mode@,
        setup_completed(before, mode, server_ip).app_mode() == AppMode::Server <==> mode@
            == "server"@,
{
}

/// The status never claims health that a probe did not find: "all running"
/// needs the backend's probe and, in server mode, the database's as well.
/// In server mode the API is on this machine whatever server address is
/// stored; in client mode it is on the stored server.
pub proof fn lemma_status_is_honest(
    stored: StoredConfig,
    postgres_probe: bool,
    backend_probe: bool,
    status: ServerStatus,
)
    requires
        status_reports(stored, postgres_probe, backend_probe, status),
    ensures
        status.all_services_running ==> status.backend_running && backend_probe,
        status.all_services_running && stored.app_mode() == AppMode::Server
            ==> status.postgres_running && postgres_probe,
        stored.app_mode() == AppMode::Server ==> status.api_url@ == "http://127.0.0.1:8000"@,
        stored.app_mode() == AppMode::Client && stored.server_ip is Some ==> status.api_url@
            == "http://"@ + stored.server_ip->0@ + ":8000"@,
{
    reveal_strlit("http://127.0.0.1:8000");
    reveal_strlit("http://");
    reveal_strlit("127.0.0.1");
    reveal_strlit(":");
    reveal_strlit(":8000");
    reveal_strlit("8000");
    crate::text::lemma_decimal_8000();
    let port = crate::text::decimal(8000);
    if stored.server_ip is Some {
        let ip = stored.server_ip->0@;
    }
}

} // verus!
