//! Error types: the general client error and the stage-scoped failure
//! taxonomy of the deployment pipeline.

use vstd::prelude::*;
use vstd::string::StringExecFns;
use crate::utils::{dec_of, u64_to_string};

verus! {

/// The client-wide error type. Every failure carries enough plain context
/// (message text, or server status and body) for an operator to diagnose it
/// without reading client source.
#[derive(Debug)]
pub enum AetherError {
    /// A configuration problem, such as unreadable local configuration.
    Config(String),
    /// A build failure (dependency install or build script), with the
    /// subprocess diagnostics.
    Build(String),
    /// A deployment failure reported while driving the pipeline.
    Deployment(String),
    /// An authentication failure.
    Auth(String),
    /// A non-success response from the control plane; status and body are
    /// preserved verbatim for user display.
    Api { status: u16, message: String },
    /// A file that was expected but absent.
    FileNotFound(String),
    /// A project that cannot be deployed as it stands (bad name, missing or
    /// malformed manifest).
    InvalidProject(String),
    /// A local input/output failure, as text.
    Io(String),
    /// A serialization failure, as text.
    Serialization(String),
    /// Any other failure, as text.
    Other(String),
}

/// The stage-scoped failure taxonomy of the deployment pipeline. Every
/// variant names the stage rule it breaks and carries the plain diagnostic
/// context that rule calls for.
#[derive(Debug)]
pub enum StageError {
    /// No auth token is configured; checked once before any stage runs.
    NotAuthenticated,
    /// The project directory holds no manifest file.
    MissingManifest,
    /// The manifest file is present but does not parse under the manifest
    /// schema.
    MalformedManifest,
    /// The application name breaks the naming rules.
    InvalidApplicationName,
    /// The package manager's install command exited non-zero; carries its
    /// diagnostics.
    DependencyInstallFailed { stderr: String },
    /// The build script exited non-zero; carries its diagnostics.
    BuildScriptFailed { stderr: String },
    /// A filesystem failure while reading project files or writing the
    /// archive.
    PackagingIoFailure { detail: String },
    /// The artifact transfer failed; the reason names the storage key and
    /// bucket, never a credential.
    UploadFailed { reason: String },
    /// The control plane rejected the deployment record; status and body
    /// are preserved verbatim.
    RegistrationFailed { status: u16, body: String },
}

/// The operator-facing text of a client error.
pub open spec fn spec_error_message(e: AetherError) -> Seq<char> {
    match e {
        AetherError::Config(m) => "Configuration error: "@ + m@,
        AetherError::Build(m) => "Build error: "@ + m@,
        AetherError::Deployment(m) => "Deployment error: "@ + m@,
        AetherError::Auth(m) => "Authentication error: "@ + m@,
        AetherError::Api { status, message } => "API error: "@ + dec_of(status as nat) + " - "@
            + message@,
        AetherError::FileNotFound(m) => "File not found: "@ + m@,
        AetherError::InvalidProject(m) => "Invalid project: "@ + m@,
        AetherError::Io(m) => "IO error: "@ + m@,
        AetherError::Serialization(m) => "Serialization error: "@ + m@,
        AetherError::Other(m) => m@,
    }
}

/// The operator-facing text of a stage failure, always naming the broken
/// rule and carrying the underlying diagnostics.
pub open spec fn spec_stage_error_message(e: StageError) -> Seq<char> {
    match e {
        StageError::NotAuthenticated => "Authentication required to deploy applications"@,
        StageError::MissingManifest => "No package.json found in project directory"@,
        StageError::MalformedManifest => "The project manifest is not a valid package manifest"@,
        StageError::InvalidApplicationName => "Invalid application name"@,
        StageError::DependencyInstallFailed { stderr } => "Failed to install dependencies: "@
            + stderr@,
        StageError::BuildScriptFailed { stderr } => "Build script failed: "@ + stderr@,
        StageError::PackagingIoFailure { detail } => "Failed to package artifact: "@ + detail@,
        StageError::UploadFailed { reason } => reason@,
        StageError::RegistrationFailed { status, body } => "API error: "@ + dec_of(status as nat)
            + " - "@ + body@,
    }
}

impl StageError {
    /// Renders the failure for the operator.
    pub fn message(&self) -> (r: String)
        ensures
            r@ == spec_stage_error_message(*self),
    {
        match self {
            StageError::NotAuthenticated => "Authentication required to deploy applications".to_owned(),
            StageError::MissingManifest => "No package.json found in project directory".to_owned(),
            StageError::MalformedManifest => "The project manifest is not a valid package manifest".to_owned(),
            StageError::InvalidApplicationName => "Invalid application name".to_owned(),
            StageError::DependencyInstallFailed { stderr } => {
                let mut s = String::from_str("Failed to install dependencies: ");
                s.append(stderr.as_str());
                s
            },
            StageError::BuildScriptFailed { stderr } => {
                let mut s = String::from_str("Build script failed: ");
                s.append(stderr.as_str());
                s
            },
            StageError::PackagingIoFailure { detail } => {
                let mut s = String::from_str("Failed to package artifact: ");
                s.append(detail.as_str());
                s
            },
            StageError::UploadFailed { reason } => reason.clone(),
            StageError::RegistrationFailed { status, body } => {
                let mut s = String::from_str("API error: ");
                s.append(u64_to_string(*status as u64).as_str());
                s.append(" - ");
                s.append(body.as_str());
                proof {
                    assert(s@ =~= spec_stage_error_message(*self));
                }
                s
            },
        }
    }
}

impl AetherError {
    /// Renders the error for the operator.
    pub fn message(&self) -> (r: String)
        ensures
            r@ == spec_error_message(*self),
    {
        match self {
            AetherError::Config(m) => {
                let mut s = String::from_str("Configuration error: ");
                s.append(m.as_str());
                s
            },
            AetherError::Build(m) => {
                let mut s = String::from_str("Build error: ");
                s.append(m.as_str());
                s
            },
            AetherError::Deployment(m) => {
                let mut s = String::from_str("Deployment error: ");
                s.append(m.as_str());
                s
            },
            AetherError::Auth(m) => {
                let mut s = String::from_str("Authentication error: ");
                s.append(m.as_str());
                s
            },
            AetherError::Api { status, message } => {
                let mut s = String::from_str("API error: ");
                s.append(u64_to_string(*status as u64).as_str());
                s.append(" - ");
                s.append(message.as_str());
                proof {
                    assert(s@ =~= spec_error_message(*self));
                }
                s
            },
            AetherError::FileNotFound(m) => {
                let mut s = String::from_str("File not found: ");
                s.append(m.as_str());
                s
            },
            AetherError::InvalidProject(m) => {
                let mut s = String::from_str("Invalid project: ");
                s.append(m.as_str());
                s
            },
            AetherError::Io(m) => {
                let mut s = String::from_str("IO error: ");
                s.append(m.as_str());
                s
            },
            AetherError::Serialization(m) => {
                let mut s = String::from_str("Serialization error: ");
                s.append(m.as_str());
                s
            },
            AetherError::Other(m) => m.clone(),
        }
    }

    pub fn config(msg: String) -> (r: AetherError)
        ensures
            r == AetherError::Config(msg),
    {
        AetherError::Config(msg)
    }

    pub fn build(msg: String) -> (r: AetherError)
        ensures
            r == AetherError::Build(msg),
    {
        AetherError::Build(msg)
    }

    pub fn deployment(msg: String) -> (r: AetherError)
        ensures
            r == AetherError::Deployment(msg),
    {
        AetherError::Deployment(msg)
    }

    pub fn auth(msg: String) -> (r: AetherError)
        ensures
            r == AetherError::Auth(msg),
    {
        AetherError::Auth(msg)
    }

    pub fn invalid_project(msg: String) -> (r: AetherError)
        ensures
            r == AetherError::InvalidProject(msg),
    {
        AetherError::InvalidProject(msg)
    }
}

} // verus!
