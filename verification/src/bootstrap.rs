//! Planning the one-time creation of the two bootstrap files.
//!
//! Given whether each file already exists, the plan says which files to
//! create. A file is created exactly when it is absent; an existing file is
//! left untouched. A freshly created secrets file is additionally restricted
//! to owner read/write, but only on platforms with POSIX-style permission
//! bits; elsewhere that step is skipped.

use vstd::prelude::*;
use vstd::string::StringExecFns;

verus! {

/// Owner read/write only: the permission bits put on a fresh secrets file.
pub const SECRETS_FILE_MODE: u32 = 0o600;

/// What the bootstrapper must do, given which files already exist.
pub struct BootstrapPlan {
    /// Create the (empty) config file: exactly when it is absent.
    pub create_config: bool,
    /// Create the (empty) secrets file: exactly when it is absent.
    pub create_secrets: bool,
    /// Restrict the secrets file to owner read/write: exactly when it is
    /// freshly created and the platform has POSIX-style permissions.
    pub restrict_secrets: bool,
}

/// The plan for a given filesystem state and platform capability.
pub open spec fn plan_of(config_exists: bool, secrets_exists: bool, posix: bool) -> BootstrapPlan {
    BootstrapPlan {
        create_config: !config_exists,
        create_secrets: !secrets_exists,
        restrict_secrets: !secrets_exists && posix,
    }
}

/// Decides what to create: each file exactly when absent, and the
/// owner-only permission tightening exactly for a fresh secrets file on a
/// POSIX-style platform.
pub fn plan_bootstrap(config_exists: bool, secrets_exists: bool, posix: bool) -> (p: BootstrapPlan)
    ensures
        p == plan_of(config_exists, secrets_exists, posix),
{
    BootstrapPlan {
        create_config: !config_exists,
        create_secrets: !secrets_exists,
        restrict_secrets: !secrets_exists && posix,
    }
}

/// The notice printed to standard error for a freshly created file.
pub open spec fn created_line(path: Seq<char>) -> Seq<char> {
    "Created "@ + path
}

/// Builds the `Created <path>` notice for a freshly created file.
pub fn created_notice(path: &str) -> (n: String)
    ensures
        n@ == created_line(path@),
{
    String::from_str("Created ").concat(path)
}

/// Law: bootstrapping is idempotent. On a fresh root the first run creates
/// both files; a second run, seeing both files present, creates nothing and
/// touches no permissions, whatever the platform.
pub proof fn lemma_bootstrap_idempotent(posix: bool)
    ensures
        plan_of(false, false, posix).create_config,
        plan_of(false, false, posix).create_secrets,
        !plan_of(true, true, posix).create_config,
        !plan_of(true, true, posix).create_secrets,
        !plan_of(true, true, posix).restrict_secrets,
{
}

/// Law: on a POSIX-style platform a freshly created secrets file is always
/// restricted, and the bits are owner read/write only; an already existing
/// secrets file is never touched.
pub proof fn lemma_fresh_secrets_restricted(config_exists: bool, posix: bool)
    ensures
        plan_of(config_exists, false, true).restrict_secrets,
        SECRETS_FILE_MODE == 0o600,
        !plan_of(config_exists, true, posix).restrict_secrets,
{
}

} // verus!
