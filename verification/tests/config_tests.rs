use bdent_desktop::config::{format_api_url, AppConfig, AppMode};

fn config(mode: AppMode, server_ip: Option<&str>, server_port: u16) -> AppConfig {
    AppConfig {
        mode,
        server_ip: server_ip.map(|ip| ip.to_string()),
        server_port,
        db_port: 5432,
        first_run_complete: true,
    }
}

#[test]
fn default_config_is_an_unconfigured_client() {
    let config = AppConfig::default();
    assert_eq!(config.mode, AppMode::Client);
    assert_eq!(config.server_ip, None);
    assert_eq!(config.server_port, 8000);
    assert_eq!(config.db_port, 5432);
    assert!(!config.first_run_complete);
}

#[test]
fn default_config_talks_to_this_machine() {
    assert_eq!(AppConfig::default().get_api_url(), "http://127.0.0.1:8000");
}

#[test]
fn client_uses_the_configured_server() {
    let config = config(AppMode::Client, Some("10.0.0.5"), 8000);
    assert_eq!(config.get_api_url(), "http://10.0.0.5:8000");
}

#[test]
fn client_without_server_uses_this_machine() {
    let config = config(AppMode::Client, None, 8000);
    assert_eq!(config.get_api_url(), "http://127.0.0.1:8000");
}

#[test]
fn server_ignores_the_configured_server() {
    let with_ip = config(AppMode::Server, Some("10.0.0.5"), 8000);
    let without_ip = config(AppMode::Server, None, 8000);
    assert_eq!(with_ip.get_api_url(), "http://127.0.0.1:8000");
    assert_eq!(without_ip.get_api_url(), with_ip.get_api_url());
}

#[test]
fn api_url_writes_the_port_in_decimal() {
    assert_eq!(config(AppMode::Server, None, 0).get_api_url(), "http://127.0.0.1:0");
    assert_eq!(config(AppMode::Server, None, 9).get_api_url(), "http://127.0.0.1:9");
    assert_eq!(config(AppMode::Server, None, 10).get_api_url(), "http://127.0.0.1:10");
    assert_eq!(config(AppMode::Server, None, 65535).get_api_url(), "http://127.0.0.1:65535");
    assert_eq!(config(AppMode::Client, Some("host"), 443).get_api_url(), "http://host:443");
}

#[test]
fn api_url_takes_the_host_as_it_is() {
    assert_eq!(format_api_url("", 80), "http://:80");
    assert_eq!(format_api_url("example.org", 8080), "http://example.org:8080");
    assert_eq!(config(AppMode::Client, Some(""), 8000).get_api_url(), "http://:8000");
}

#[test]
fn mode_names() {
    assert_eq!(AppMode::Server.name(), "server");
    assert_eq!(AppMode::Client.name(), "client");
    assert_eq!(AppMode::from_name("server"), AppMode::Server);
    assert_eq!(AppMode::from_name("client"), AppMode::Client);
}

#[test]
fn unknown_mode_names_mean_client() {
    assert_eq!(AppMode::from_name(""), AppMode::Client);
    assert_eq!(AppMode::from_name("Server"), AppMode::Client);
    assert_eq!(AppMode::from_name("server "), AppMode::Client);
    assert_eq!(AppMode::from_name("standalone"), AppMode::Client);
}

#[test]
fn mode_name_reads_back() {
    assert_eq!(AppMode::from_name(AppMode::Server.name()), AppMode::Server);
    assert_eq!(AppMode::from_name(AppMode::Client.name()), AppMode::Client);
}
