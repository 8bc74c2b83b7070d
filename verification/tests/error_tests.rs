use bdent_desktop::error::{InitStage, Process, Resource, ServiceError, StoreOperation};

fn reason() -> String {
    "it broke".to_string()
}

#[test]
fn store_messages() {
    let open = ServiceError::ConfigStoreError { operation: StoreOperation::Open, reason: reason() };
    let save = ServiceError::ConfigStoreError { operation: StoreOperation::Save, reason: reason() };
    assert_eq!(open.message(), "Failed to open store: it broke");
    assert_eq!(save.message(), "Failed to save store: it broke");
}

#[test]
fn port_messages() {
    assert_eq!(
        ServiceError::PortConflict { port: 5432 }.message(),
        "Port 5432 is in use by another application. Please close it and restart BDent."
    );
    assert_eq!(
        ServiceError::PortConflict { port: 8000 }.message(),
        "Port 8000 is in use by another application. Please close it and restart BDent."
    );
    assert_eq!(
        ServiceError::PortInUse { port: 8080, reason: reason() }.message(),
        "Failed to bind to 127.0.0.1:8080: it broke"
    );
}

#[test]
fn resource_messages() {
    assert_eq!(
        ServiceError::ResourceNotFound { resource: Resource::Initdb }.message(),
        "PostgreSQL initdb not found in resources"
    );
    assert_eq!(
        ServiceError::ResourceNotFound { resource: Resource::PgCtl }.message(),
        "PostgreSQL pg_ctl not found in resources"
    );
    assert_eq!(
        ServiceError::ResourceNotFound { resource: Resource::ResourceDir }.message(),
        "Resource directory not found"
    );
    assert_eq!(
        ServiceError::DataLocationUnavailable { reason: reason() }.message(),
        "Failed to get app data dir: it broke"
    );
}

#[test]
fn initialisation_messages() {
    assert_eq!(
        ServiceError::InitFailed { stage: InitStage::CreateDataDir, diagnostic: reason() }.message(),
        "Failed to create pgdata dir: it broke"
    );
    assert_eq!(
        ServiceError::InitFailed { stage: InitStage::Initdb, diagnostic: reason() }.message(),
        "initdb failed: it broke"
    );
    assert_eq!(
        ServiceError::InitFailed { stage: InitStage::Initdb, diagnostic: String::new() }.message(),
        "initdb failed: "
    );
}

#[test]
fn spawn_messages() {
    let cases = [
        (Process::Initdb, "Failed to run initdb: it broke"),
        (Process::PgCtl, "Failed to start PostgreSQL: it broke"),
        (Process::BackendSidecar, "Failed to create backend sidecar: it broke"),
        (Process::Backend, "Failed to spawn backend: it broke"),
        (Process::Browser, "Failed to open browser: it broke"),
    ];
    for (process, message) in cases {
        assert_eq!(ServiceError::ProcessSpawnError { process, reason: reason() }.message(), message);
    }
}

#[test]
fn sign_in_messages() {
    assert_eq!(ServiceError::Timeout.message(), "OAuth flow timed out after 5 minutes");
    assert_eq!(ServiceError::AlreadyCompleted.message(), "Token already received");
    assert_eq!(ServiceError::ChannelClosed.message(), "Callback channel closed");
}

#[test]
fn address_message() {
    assert_eq!(
        ServiceError::AddressLookupFailed { reason: reason() }.message(),
        "Failed to get local IP: it broke"
    );
}

#[test]
fn errors_copy_faithfully() {
    let errors = vec![
        ServiceError::ConfigStoreError { operation: StoreOperation::Save, reason: reason() },
        ServiceError::PortConflict { port: 1 },
        ServiceError::PortInUse { port: 2, reason: reason() },
        ServiceError::ResourceNotFound { resource: Resource::PgCtl },
        ServiceError::DataLocationUnavailable { reason: reason() },
        ServiceError::InitFailed { stage: InitStage::Initdb, diagnostic: reason() },
        ServiceError::ProcessSpawnError { process: Process::Backend, reason: reason() },
        ServiceError::Timeout,
        ServiceError::AlreadyCompleted,
        ServiceError::ChannelClosed,
        ServiceError::AddressLookupFailed { reason: reason() },
    ];
    for error in errors {
        assert_eq!(error.clone(), error);
    }
}
