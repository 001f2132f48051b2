//! Execution engine: the per-invocation decisions of the pipeline.
//!
//! The engine owns the loaded configuration and decides, for each stage,
//! exactly what the host must do: which directories the unpack stage
//! touches and from where the sandbox is filled, which limits the enforcer
//! applies, how much fuel a WebAssembly invocation gets, what each log
//! line reads, and how a child's exit status is judged.  The host performs
//! the filesystem and process work those decisions call for.

use vstd::prelude::*;
use crate::config::{ZephirConfig, spec_sandbox_root, spec_cache_root};
use crate::paths::{
    spec_join, spec_decimal, join_path, get_artifact_cache, sandbox_path_at, u64_to_decimal,
};
use crate::enforce::{EnforceError, apply_unix_sandbox, has_root_privilege};

verus! {

/// Why an invocation failed.
#[derive(Debug, Clone)]
pub enum ZephirInvokationError {
    /// Disk, path or process-pipe trouble.
    Io { message: String },
    /// A WebAssembly trap, missing export, or fuel exhaustion.
    Wasm { message: String },
    /// A Lua runtime or syntax error.
    Lua { message: String },
    /// Anything else, such as a non-zero exit status.
    Other { message: String },
}

impl ZephirInvokationError {
    /// The single error line the failure prints, prefixed by its kind.
    pub fn message(&self) -> (r: String)
        ensures
            self matches ZephirInvokationError::Io { message } ==> r@ == "IO error: "@
                + message@,
            self matches ZephirInvokationError::Wasm { message } ==> r@
                == "WASM execution error: "@ + message@,
            self matches ZephirInvokationError::Lua { message } ==> r@
                == "Lua execution error: "@ + message@,
            self matches ZephirInvokationError::Other { message } ==> r@ == "Other error: "@
                + message@,
    {
        match self {
            ZephirInvokationError::Io { message } => String::from_str("IO error: ").concat(
                message.as_str(),
            ),
            ZephirInvokationError::Wasm { message } => String::from_str(
                "WASM execution error: ",
            ).concat(message.as_str()),
            ZephirInvokationError::Lua { message } => String::from_str(
                "Lua execution error: ",
            ).concat(message.as_str()),
            ZephirInvokationError::Other { message } => String::from_str("Other error: ").concat(
                message.as_str(),
            ),
        }
    }
}

/// Everything the unpack stage must do, decided up front: the two roots to
/// ensure, the artifact-cache and sandbox paths, where the bundle sits,
/// whether the cache must first be populated, and whether the sandbox is
/// filled straight from the bundle (`no_cache`) or copied from the cache.
#[derive(Debug, Clone)]
pub struct UnpackPlan {
    pub cache_root: String,
    pub sandbox_root: String,
    pub artifact_cache: String,
    pub sandbox_path: String,
    pub bundle_path: String,
    pub populate_cache: bool,
    pub extract_direct: bool,
}

/// The execution engine: the loaded, immutable configuration.
#[derive(Debug, Clone)]
pub struct ZephirEngine {
    pub config: ZephirConfig,
}

impl ZephirEngine {
    pub fn new(config: ZephirConfig) -> (r: Self)
        ensures
            r.config == config,
    {
        ZephirEngine { config }
    }

    /// The unpack stage, decided.  `cache_exists` reports whether the
    /// artifact cache is already a directory on disk; `unix_seconds` is the
    /// clock second naming this invocation's sandbox.
    ///
    /// The cache is populated only when it is wanted and missing; with the
    /// cache wanted and present, the sandbox is filled by copying the
    /// untouched cache, so its contents equal the cache's.
    pub fn unpack_plan(&self, no_cache: bool, cache_exists: bool, unix_seconds: u64) -> (r:
        UnpackPlan)
        ensures
            r.cache_root@ == spec_cache_root(&self.config),
            r.sandbox_root@ == spec_sandbox_root(&self.config),
            r.artifact_cache@ == spec_join(spec_cache_root(&self.config), "artifact-cache"@),
            r.sandbox_path@ == spec_join(
                spec_sandbox_root(&self.config),
                spec_decimal(unix_seconds as nat),
            ),
            r.bundle_path@ == self.config.function.bundle.packagePath@,
            r.populate_cache == (!no_cache && !cache_exists),
            r.extract_direct == no_cache,
    {
        let roots: (String, String) = self.config.effective_roots();
        let artifact_cache: String = get_artifact_cache(roots.1.as_str());
        let sandbox_path: String = sandbox_path_at(roots.0.as_str(), unix_seconds);
        UnpackPlan {
            cache_root: roots.1,
            sandbox_root: roots.0,
            artifact_cache,
            sandbox_path,
            bundle_path: self.config.function.bundle.packagePath.clone(),
            populate_cache: !no_cache && !cache_exists,
            extract_direct: no_cache,
        }
    }

    /// Apply sandbox restrictions for this invocation: the configured CPU,
    /// address-space and file-size caps, jailed into the sandbox directory
    /// when the process is privileged.  Whether the jail steps run depends
    /// on the process's privilege, which the environment decides.
    pub fn sandbox(&self, sandbox_path_str: &str) -> (r: Result<(), EnforceError>) {
        let is_root: bool = has_root_privilege();
        apply_unix_sandbox(
            is_root,
            Some(sandbox_path_str),
            self.config.function.resources.cpuLimit,
            self.config.function.resources.memory,
            self.config.function.resources.storage,
        )
    }

    /// Where the Lua backend finds its script: the entry path resolved
    /// inside the sandbox.  (Native and WASM entries resolve against the
    /// host filesystem instead; that asymmetry is deliberate.)
    pub fn script_path(&self, sandbox_path: &str) -> (r: String)
        ensures
            r@ == spec_join(sandbox_path@, self.config.function.app.entry@),
    {
        join_path(sandbox_path, self.config.function.app.entry.as_str())
    }
}

/// Fuel budget for a WebAssembly invocation: one million units per CPU
/// second.  A zero CPU limit disables metering altogether: the module may
/// run unbounded.
pub fn wasm_fuel(cpu_limit: u64) -> (r: Option<u64>)
    requires
        cpu_limit <= 18446744073709u64,
    ensures
        cpu_limit == 0 ==> r is None,
        cpu_limit > 0 ==> (r matches Some(f) && f == cpu_limit * 1000000),
{
    if cpu_limit > 0 {
        Some(cpu_limit * 1000000)
    } else {
        None
    }
}

/// The sign-aware decimal rendering of an integer.
pub open spec fn spec_signed_decimal(n: int) -> Seq<char> {
    if n < 0 {
        seq!['-'] + spec_decimal((-n) as nat)
    } else {
        spec_decimal(n as nat)
    }
}

/// The decimal rendering of an exit code, sign included.
pub fn i32_to_decimal(code: i32) -> (r: String)
    ensures
        r@ == spec_signed_decimal(code as int),
{
    if code < 0 {
        let wide: i64 = code as i64;
        let mag: u64 = (-wide) as u64;
        let mut s: String = String::from_str("-");
        proof {
            reveal_strlit("-");
            assert(s@ =~= seq!['-']);
        }
        let digits: String = u64_to_decimal(mag);
        s.append(digits.as_str());
        s
    } else {
        u64_to_decimal(code as u64)
    }
}

/// How a native child's exit status is judged: success exactly on status
/// zero; any other status fails with an error that names it.
pub fn native_exit_result(code: i32) -> (r: Result<(), ZephirInvokationError>)
    ensures
        r is Ok <==> code == 0,
        code != 0 ==> (r matches Err(ZephirInvokationError::Other { message }) && message@
            == "Native process exited with "@ + spec_signed_decimal(code as int)),
{
    if code == 0 {
        Ok(())
    } else {
        let digits: String = i32_to_decimal(code);
        let message: String = String::from_str("Native process exited with ").concat(
            digits.as_str(),
        );
        Err(ZephirInvokationError::Other { message })
    }
}

/// The log line a native child's stdout line gets.
pub fn native_stdout_line(name: &str, line: &str) -> (r: String)
    ensures
        r@ == "["@ + name@ + "_info] "@ + line@,
{
    String::from_str("[").concat(name).concat("_info] ").concat(line)
}

/// The log line a native child's stderr line gets.
pub fn native_stderr_line(name: &str, line: &str) -> (r: String)
    ensures
        r@ == "["@ + name@ + "_error] "@ + line@,
{
    String::from_str("[").concat(name).concat("_error] ").concat(line)
}

/// The line logged as a WebAssembly module starts.
pub fn wasm_start_message(name: &str) -> (r: String)
    ensures
        r@ == "["@ + name@ + "] Starting WASM module"@,
{
    String::from_str("[").concat(name).concat("] Starting WASM module")
}

/// The line logged as a WebAssembly module returns.
pub fn wasm_finish_message(name: &str) -> (r: String)
    ensures
        r@ == "["@ + name@ + "] WASM module finished"@,
{
    String::from_str("[").concat(name).concat("] WASM module finished")
}

/// The line logged as a Lua script starts.
pub fn lua_start_message(name: &str) -> (r: String)
    ensures
        r@ == "["@ + name@ + "] Starting Lua script"@,
{
    String::from_str("[").concat(name).concat("] Starting Lua script")
}

/// The line logged as a Lua script returns.
pub fn lua_finish_message(name: &str) -> (r: String)
    ensures
        r@ == "["@ + name@ + "] Lua script finished"@,
{
    String::from_str("[").concat(name).concat("] Lua script finished")
}

/// The log line the Lua `print` global emits for its argument.
pub fn lua_print_line(msg: &str) -> (r: String)
    ensures
        r@ == "[Lua] "@ + msg@,
{
    String::from_str("[Lua] ").concat(msg)
}

/// The line logged when a cancellation signal interrupts a verb.
pub fn graceful_shutdown_message() -> (r: String)
    ensures
        r@ == "Graceful shutdown requested. Cleaning up..."@,
{
    String::from_str("Graceful shutdown requested. Cleaning up...")
}

} // verus!
