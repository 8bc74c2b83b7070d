//! The application's configuration and the address of the API that follows from it.

use vstd::prelude::*;
use vstd::string::*;
use crate::protocol::{BACKEND_PORT, DATABASE_PORT};
use crate::text::{joined, decimal, format_decimal, same_text};

verus! {

/// Whether this installation hosts the services itself or talks to another machine's.
#[derive(Debug, Clone, Copy, PartialEq, Eq, Structural)]
pub enum AppMode {
    Server,
    Client,
}

impl AppMode {
    /// The name under which the mode is persisted.
    pub open spec fn name_spec(self) -> Seq<char> {
        match self {
            AppMode::Server => "server"@,
            AppMode::Client => "client"@,
        }
    }

    /// The mode that a persisted name stands for: `"server"` is the server
    /// mode, everything else the client mode.
    pub open spec fn from_name_spec(name: Seq<char>) -> AppMode {
        if name == "server"@ {
            AppMode::Server
        } else {
            AppMode::Client
        }
    }

    /// The name under which the mode is persisted.
    pub fn name(&self) -> (name: &'static str)
        ensures
            name@ == self.name_spec(),
    {
        match self {
            AppMode::Server => "server",
            AppMode::Client => "client",
        }
    }

    /// The mode that a persisted name stands for.
    pub fn from_name(name: &str) -> (mode: AppMode)
        ensures
            mode == Self::from_name_spec(name@),
    {
        if same_text(name, "server") {
            AppMode::Server
        } else {
            AppMode::Client
        }
    }
}

/// The application's configuration.
#[derive(Debug, Clone, PartialEq, Eq)]
pub struct AppConfig {
    pub mode: AppMode,
    pub server_ip: Option<String>,
    pub server_port: u16,
    pub db_port: u16,
    pub first_run_complete: bool,
}

/// The host that API requests go to: in client mode the configured server,
/// if one is configured; this machine otherwise.
pub open spec fn api_host(mode: AppMode, server_ip: Option<Seq<char>>) -> Seq<char> {
    match server_ip {
        Some(ip) => if mode == AppMode::Client {
            ip
        } else {
            "127.0.0.1"@
        },
        None => "127.0.0.1"@,
    }
}

/// The base address of the API on `host` and `port`.
pub open spec fn api_url(host: Seq<char>, port: u16) -> Seq<char> {
    "http://"@ + host + ":"@ + decimal(port as nat)
}

/// Writes the base address of the API on `host` and `port`.
pub fn format_api_url(host: &str, port: u16) -> (url: String)
    ensures
        url@ == api_url(host@, port),
{
    let number = format_decimal(port as u64);
    let mut url = joined("http://", host);
    url.append(":");
    url.append(number.as_str());
    url
}

impl AppConfig {
    /// The configured server address, as text.
    pub open spec fn server_ip_spec(self) -> Option<Seq<char>> {
        match self.server_ip {
            Some(ip) => Some(ip@),
            None => None,
        }
    }

    /// The base address of the API for this configuration.
    pub open spec fn api_url_spec(self) -> Seq<char> {
        api_url(api_host(self.mode, self.server_ip_spec()), self.server_port)
    }

    /// The base address of the API: on this machine in server mode, on the
    /// configured server in client mode (on this machine if none is configured).
    pub fn get_api_url(&self) -> (url: String)
        ensures
            url@ == self.api_url_spec(),
    {
        match self.mode {
            AppMode::Server => format_api_url("127.0.0.1", self.server_port),
            AppMode::Client => match &self.server_ip {
                Some(ip) => format_api_url(ip.as_str(), self.server_port),
                None => format_api_url("127.0.0.1", self.server_port),
            },
        }
    }
}

impl Default for AppConfig {
    /// A client that has not been set up yet, with the usual ports.
    fn default() -> (config: AppConfig)
        ensures
            config.mode == AppMode::Client,
            config.server_ip is None,
            config.server_port == BACKEND_PORT,
            config.db_port == DATABASE_PORT,
            !config.first_run_complete,
    {
        AppConfig {
            mode: AppMode::Client,
            server_ip: None,
            server_port: BACKEND_PORT,
            db_port: DATABASE_PORT,
            first_run_complete: false,
        }
    }
}

/// The two modes' names differ, so a stored `"client"` never selects the server mode.
pub proof fn lemma_client_is_not_server()
    ensures
        "client"@ != "server"@,
        AppMode::from_name_spec("client"@) == AppMode::Client,
        AppMode::from_name_spec("server"@) == AppMode::Server,
{
    reveal_strlit("client");
    reveal_strlit("server");
    assert("client"@[0] != "server"@[0]);
}

/// In server mode the API is on this machine, whatever server address is
/// stored; in client mode it is on the stored server.
pub proof fn lemma_api_url_by_mode(config: AppConfig)
    ensures
        config.mode == AppMode::Server ==> config.api_url_spec() == "http://127.0.0.1:"@ + decimal(
            config.server_port as nat,
        ),
        config.mode == AppMode::Client && config.server_ip is Some ==> config.api_url_spec()
            == "http://"@ + config.server_ip->0@ + ":"@ + decimal(config.server_port as nat),
        config.mode == AppMode::Client && config.server_ip is None ==> config.api_url_spec()
            == "http://127.0.0.1:"@ + decimal(config.server_port as nat),
{
    reveal_strlit("http://127.0.0.1:");
    reveal_strlit("http://");
    reveal_strlit("127.0.0.1");
    reveal_strlit(":");
}

} // verus!
