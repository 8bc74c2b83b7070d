//! The failures that the service layer reports to its caller.

use vstd::prelude::*;
use vstd::string::*;
use crate::text::{joined, decimal, format_decimal};

verus! {

/// A bundled resource that a database operation needs on disk.
#[derive(Debug, Clone, Copy, PartialEq, Eq, Structural)]
pub enum Resource {
    /// The engine's initialisation binary.
    Initdb,
    /// The engine's control binary.
    PgCtl,
    /// The directory that holds the bundled resources.
    ResourceDir,
}

/// The part of database initialisation that went wrong.
#[derive(Debug, Clone, Copy, PartialEq, Eq, Structural)]
pub enum InitStage {
    /// Creating the data directory.
    CreateDataDir,
    /// Running the engine's initialisation routine.
    Initdb,
}

/// An external program that could not be launched.
#[derive(Debug, Clone, Copy, PartialEq, Eq, Structural)]
pub enum Process {
    /// The engine's initialisation binary.
    Initdb,
    /// The engine's control binary, asked to start the server.
    PgCtl,
    /// The backend's launch command, before it is spawned.
    BackendSidecar,
    /// The backend process itself.
    Backend,
    /// The system browser.
    Browser,
}

/// Which step of talking to the persisted configuration failed.
#[derive(Debug, Clone, Copy, PartialEq, Eq, Structural)]
pub enum StoreOperation {
    /// Opening the store.
    Open,
    /// Saving the store.
    Save,
}

/// Everything that can go wrong while starting services or signing in.
#[derive(Debug, PartialEq, Eq)]
pub enum ServiceError {
    /// The persisted configuration could not be opened or saved.
    ConfigStoreError { operation: StoreOperation, reason: String },
    /// A service port is busy and could not be freed.
    PortConflict { port: u16 },
    /// The sign-in listener could not bind its port.
    PortInUse { port: u16, reason: String },
    /// A required bundled resource is missing.
    ResourceNotFound { resource: Resource },
    /// The application's data directory could not be determined.
    DataLocationUnavailable { reason: String },
    /// Database initialisation failed; `diagnostic` is what the failing step reported.
    InitFailed { stage: InitStage, diagnostic: String },
    /// A process could not be launched.
    ProcessSpawnError { process: Process, reason: String },
    /// The sign-in callback did not arrive in time.
    Timeout,
    /// A second callback reached a slot that was already completed.
    AlreadyCompleted,
    /// The sign-in rendezvous was torn down before a callback arrived.
    ChannelClosed,
    /// The machine's local network address could not be determined.
    AddressLookupFailed { reason: String },
}

impl Clone for ServiceError {
    fn clone(&self) -> (copy: ServiceError)
        ensures
            copy == *self,
    {
        match self {
            ServiceError::ConfigStoreError { operation, reason } => ServiceError::ConfigStoreError {
                operation: *operation,
                reason: reason.clone(),
            },
            ServiceError::PortConflict { port } => ServiceError::PortConflict { port: *port },
            ServiceError::PortInUse { port, reason } => ServiceError::PortInUse {
                port: *port,
                reason: reason.clone(),
            },
            ServiceError::ResourceNotFound { resource } => ServiceError::ResourceNotFound {
                resource: *resource,
            },
            ServiceError::DataLocationUnavailable { reason } => {
                ServiceError::DataLocationUnavailable { reason: reason.clone() }
            },
            ServiceError::InitFailed { stage, diagnostic } => ServiceError::InitFailed {
                stage: *stage,
                diagnostic: diagnostic.clone(),
            },
            ServiceError::ProcessSpawnError { process, reason } => ServiceError::ProcessSpawnError {
                process: *process,
                reason: reason.clone(),
            },
            ServiceError::Timeout => ServiceError::Timeout,
            ServiceError::AlreadyCompleted => ServiceError::AlreadyCompleted,
            ServiceError::ChannelClosed => ServiceError::ChannelClosed,
            ServiceError::AddressLookupFailed { reason } => ServiceError::AddressLookupFailed {
                reason: reason.clone(),
            },
        }
    }
}


impl ServiceError {
    /// The message that tells a person what went wrong.
    pub open spec fn message_spec(self) -> Seq<char> {
        match self {
            ServiceError::ConfigStoreError { operation: StoreOperation::Open, reason } => {
                "Failed to open store: "@ + reason@
            },
            ServiceError::ConfigStoreError { operation: StoreOperation::Save, reason } => {
                "Failed to save store: "@ + reason@
            },
            ServiceError::PortConflict { port } => "Port "@ + decimal(port as nat)
                + " is in use by another application. Please close it and restart BDent."@,
            ServiceError::PortInUse { port, reason } => "Failed to bind to 127.0.0.1:"@ + decimal(
                port as nat,
            ) + ": "@ + reason@,
            ServiceError::ResourceNotFound { resource: Resource::Initdb } => {
                "PostgreSQL initdb not found in resources"@
            },
            ServiceError::ResourceNotFound { resource: Resource::PgCtl } => {
                "PostgreSQL pg_ctl not found in resources"@
            },
            ServiceError::ResourceNotFound { resource: Resource::ResourceDir } => {
                "Resource directory not found"@
            },
            ServiceError::DataLocationUnavailable { reason } => "Failed to get app data dir: "@
                + reason@,
            ServiceError::InitFailed { stage: InitStage::CreateDataDir, diagnostic } => {
                "Failed to create pgdata dir: "@ + diagnostic@
            },
            ServiceError::InitFailed { stage: InitStage::Initdb, diagnostic } => {
                "initdb failed: "@ + diagnostic@
            },
            ServiceError::ProcessSpawnError { process: Process::Initdb, reason } => {
                "Failed to run initdb: "@ + reason@
            },
            ServiceError::ProcessSpawnError { process: Process::PgCtl, reason } => {
                "Failed to start PostgreSQL: "@ + reason@
            },
            ServiceError::ProcessSpawnError { process: Process::BackendSidecar, reason } => {
                "Failed to create backend sidecar: "@ + reason@
            },
            ServiceError::ProcessSpawnError { process: Process::Backend, reason } => {
                "Failed to spawn backend: "@ + reason@
            },
            ServiceError::ProcessSpawnError { process: Process::Browser, reason } => {
                "Failed to open browser: "@ + reason@
            },
            ServiceError::Timeout => "OAuth flow timed out after 5 minutes"@,
            ServiceError::AlreadyCompleted => "Token already received"@,
            ServiceError::ChannelClosed => "Callback channel closed"@,
            ServiceError::AddressLookupFailed { reason } => "Failed to get local IP: "@ + reason@,
        }
    }

    /// Writes the message that tells a person what went wrong.
    pub fn message(&self) -> (text: String)
        ensures
            text@ == self.message_spec(),
    {
        match self {
            ServiceError::ConfigStoreError { operation, reason } => match operation {
                StoreOperation::Open => joined("Failed to open store: ", reason.as_str()),
                StoreOperation::Save => joined("Failed to save store: ", reason.as_str()),
            },
            ServiceError::PortConflict { port } => {
                let number = format_decimal(*port as u64);
                let mut text = joined("Port ", number.as_str());
                text.append(
                    " is in use by another application. Please close it and restart BDent.",
                );
                text
            },
            ServiceError::PortInUse { port, reason } => {
                let number = format_decimal(*port as u64);
                let mut text = joined("Failed to bind to 127.0.0.1:", number.as_str());
                text.append(": ");
                text.append(reason.as_str());
                text
            },
            ServiceError::ResourceNotFound { resource } => match resource {
                Resource::Initdb => String::from_str("PostgreSQL initdb not found in resources"),
                Resource::PgCtl => String::from_str("PostgreSQL pg_ctl not found in resources"),
                Resource::ResourceDir => String::from_str("Resource directory not found"),
            },
            ServiceError::DataLocationUnavailable { reason } => joined(
                "Failed to get app data dir: ",
                reason.as_str(),
            ),
            ServiceError::InitFailed { stage, diagnostic } => match stage {
                InitStage::CreateDataDir => joined(
                    "Failed to create pgdata dir: ",
                    diagnostic.as_str(),
                ),
                InitStage::Initdb => joined("initdb failed: ", diagnostic.as_str()),
            },
            ServiceError::ProcessSpawnError { process, reason } => match process {
                Process::Initdb => joined("Failed to run initdb: ", reason.as_str()),
                Process::PgCtl => joined("Failed to start PostgreSQL: ", reason.as_str()),
                Process::BackendSidecar => joined(
                    "Failed to create backend sidecar: ",
                    reason.as_str(),
                ),
                Process::Backend => joined("Failed to spawn backend: ", reason.as_str()),
                Process::Browser => joined("Failed to open browser: ", reason.as_str()),
            },
            ServiceError::Timeout => String::from_str("OAuth flow timed out after 5 minutes"),
            ServiceError::AlreadyCompleted => String::from_str("Token already received"),
            ServiceError::ChannelClosed => String::from_str("Callback channel closed"),
            ServiceError::AddressLookupFailed { reason } => joined(
                "Failed to get local IP: ",
                reason.as_str(),
            ),
        }
    }
}

} // verus!
