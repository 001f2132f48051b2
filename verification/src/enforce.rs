//! Sandbox enforcer: per-process resource limits, and — when the process
//! is privileged — a filesystem jail and a drop to an unprivileged
//! identity.
//!
//! The limits are best-effort: some hosts forbid lowering hard limits, so
//! their failures are swallowed, as are failures to drop privileges.  Only
//! a failed root change (or the change of directory into the new root) is
//! fatal.  This layer runs synchronously, exactly once per invocation,
//! after unpack and before invocation.

use vstd::prelude::*;

verus! {

/// Why sandbox enforcement failed fatally.
#[derive(Debug, Clone)]
pub enum EnforceError {
    /// Changing the process root into the jail directory failed.
    ChrootFailed { message: String },
    /// Changing the working directory into the new root failed.
    ChdirFailed { message: String },
}

impl EnforceError {
    /// The error line the failure reports.
    pub fn message(&self) -> (r: String)
        ensures
            self matches EnforceError::ChrootFailed { message } ==> r@ == message@,
            self matches EnforceError::ChdirFailed { message } ==> r@ == message@,
    {
        match self {
            EnforceError::ChrootFailed { message } => message.clone(),
            EnforceError::ChdirFailed { message } => message.clone(),
        }
    }
}

/// Relies on `rlimit::setrlimit` with `Resource::CPU`: caps the process's
/// CPU seconds, soft and hard both set to `seconds`.  Best-effort: the
/// call's failure is ignored.
#[verifier::external_body]
fn set_cpu_time_limit(seconds: u64) {
    let _ = rlimit::setrlimit(rlimit::Resource::CPU, seconds, seconds);
}

/// Relies on `rlimit::setrlimit` with `Resource::AS`: caps the process's
/// address space in bytes, soft and hard.  Best-effort: the call's failure
/// is ignored.
#[verifier::external_body]
fn set_address_space_limit(bytes: u64) {
    let _ = rlimit::setrlimit(rlimit::Resource::AS, bytes, bytes);
}

/// Relies on `rlimit::setrlimit` with `Resource::FSIZE`: caps the largest
/// file the process may create, in bytes, soft and hard.  Best-effort: the
/// call's failure is ignored.
#[verifier::external_body]
fn set_file_size_limit(bytes: u64) {
    let _ = rlimit::setrlimit(rlimit::Resource::FSIZE, bytes, bytes);
}

/// Relies on `nix::unistd::chroot`: changes the process's root directory
/// to `dir`, or returns the system error's text.  Whether it succeeds
/// depends on the host and the process's privilege; nothing more is
/// promised of the outcome.
#[verifier::external_body]
fn chroot_into(dir: &str) -> Result<(), String> {
    nix::unistd::chroot(dir).map_err(|e| format!("{e}"))
}

/// Relies on `nix::unistd::chdir`: changes the working directory to `dir`,
/// or returns the system error's text.
#[verifier::external_body]
fn chdir_into(dir: &str) -> Result<(), String> {
    nix::unistd::chdir(dir).map_err(|e| format!("{e}"))
}

/// Relies on `nix::unistd::setgid` (with `Gid::from_raw`): switches the
/// real and effective group id.  Best-effort: the call's failure is
/// ignored.
#[verifier::external_body]
fn drop_group_id(gid: u32) {
    let _ = nix::unistd::setgid(nix::unistd::Gid::from_raw(gid));
}

/// Relies on `nix::unistd::setuid` (with `Uid::from_raw`): switches the
/// real and effective user id.  Best-effort: the call's failure is
/// ignored.
#[verifier::external_body]
fn drop_user_id(uid: u32) {
    let _ = nix::unistd::setuid(nix::unistd::Uid::from_raw(uid));
}

/// Relies on `nix::unistd::Uid::current` and `Uid::is_root`: whether the
/// process runs as the superuser.  The value depends on the environment;
/// nothing is promised of it.
#[verifier::external_body]
pub fn has_root_privilege() -> bool {
    nix::unistd::Uid::current().is_root()
}

/// The sandbox enforcer.  Applies the three resource limits best-effort;
/// then, if the process is privileged and a jail directory is given,
/// changes the root into the jail, moves into it, and drops the group and
/// user identity to the conventional unprivileged ids (65534).  Privilege
/// drops are best-effort; only the root and directory changes are fatal.
///
/// An unprivileged call, or one without a jail directory, always succeeds:
/// no fallible step runs.
pub fn apply_unix_sandbox(
    is_root: bool,
    chroot_dir: Option<&str>,
    cpu_time: u64,
    memory_limit: u64,
    size_limit: u64,
) -> (r: Result<(), EnforceError>)
    ensures
        !(is_root && chroot_dir is Some) ==> r is Ok,
        r is Err ==> is_root && chroot_dir is Some,
{
    set_cpu_time_limit(cpu_time);
    set_address_space_limit(memory_limit);
    set_file_size_limit(size_limit);
    if is_root {
        if let Some(dir) = chroot_dir {
            match chroot_into(dir) {
                Err(e) => {
                    let mut msg: String = String::from_str("chroot failed: ");
                    msg.append(e.as_str());
                    return Err(EnforceError::ChrootFailed { message: msg });
                },
                Ok(()) => {},
            }
            match chdir_into("/") {
                Err(e) => {
                    let mut msg: String = String::from_str("chdir failed: ");
                    msg.append(e.as_str());
                    return Err(EnforceError::ChdirFailed { message: msg });
                },
                Ok(()) => {},
            }
        }
        drop_group_id(65534);
        drop_user_id(65534);
    }
    Ok(())
}

} // verus!
