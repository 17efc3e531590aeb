//! The command-line surface, as plain data: what the operator asked for.
//! Argument parsing lives with the binary; it hands one of these values
//! to the library-driven flows.

use vstd::prelude::*;

verus! {

/// A parsed invocation.
pub struct Cli {
    pub command: Commands,
}

/// Every operation the client offers.
pub enum Commands {
    /// Register a new account.
    Register { email: Option<String>, password: Option<String>, endpoint: Option<String> },
    /// Login to an existing account.
    Login { email: Option<String>, password: Option<String>, endpoint: Option<String> },
    /// Logout and clear the authentication token.
    Logout,
    /// Deploy an application, with optional overrides for its name,
    /// runtime and project path, and a force flag to skip the redeploy
    /// confirmation.
    Deploy { name: Option<String>, runtime: Option<String>, path: Option<String>, force: bool },
    /// List deployed applications.
    List,
    /// View application logs, optionally following them.
    Logs { app: Option<String>, lines: u32, follow: bool },
    /// Delete an application.
    Delete { app: String, yes: bool },
    /// Show an application's status and recent deployments.
    Status { app: String },
    /// Interactive dashboard mode.
    Dashboard,
    /// Object-storage operations.
    S3 { action: S3Commands },
    /// Custom domain management.
    Domain { action: DomainCommands },
}

/// Storage subcommands.
pub enum S3Commands {
    Upload { file: String, app_name: String, version: String },
}

/// Custom-domain subcommands.
pub enum DomainCommands {
    Add { app: String, domain: String },
    List { app: String },
    Delete { app: String, domain: String, yes: bool },
}

} // verus!
