//! Configuration model: the tree of settings that drives an invocation,
//! together with the documented defaults for every optional field.

use vstd::prelude::*;

verus! {

/// Where the artifact's entry point lives.  For native and WebAssembly
/// artifacts `entry` is resolved against the host filesystem; for Lua
/// scripts it is resolved inside the sandbox directory.
#[derive(Debug, Clone)]
pub struct ApplicationConfig {
    pub entry: String,
}

/// The three supported artifact kinds.
#[derive(Debug, Clone, Copy, PartialEq, Eq, Structural)]
#[allow(non_camel_case_types)]
pub enum ArtifactType {
    NATIVE,
    WASM,
    LUA,
}

/// The bundle: where the compressed archive sits and what it contains.
#[derive(Debug, Clone)]
#[allow(non_snake_case)]
pub struct ArtifactConfig {
    pub packagePath: String,
    pub artifactType: ArtifactType,
}

/// Per-invocation resource caps: address space and file size in bytes,
/// CPU budget in seconds.
#[derive(Debug, Clone, Copy)]
#[allow(non_snake_case)]
pub struct ResourceConfig {
    pub memory: u64,
    pub storage: u64,
    pub cpuLimit: u64,
}

/// Bundle, entry point and resource caps of one function.
#[derive(Debug, Clone)]
pub struct FunctionConfig {
    pub bundle: ArtifactConfig,
    pub app: ApplicationConfig,
    pub resources: ResourceConfig,
}

/// Roots for the shared cache and the per-invocation sandboxes.
#[derive(Debug, Clone)]
pub struct StorageConfig {
    pub sandbox: Option<String>,
    pub cache: Option<String>,
}

/// Logger settings; interpreted by the host around this library.
#[derive(Debug, Clone)]
#[allow(non_snake_case)]
pub struct LogConfig {
    pub toFile: bool,
    pub filePath: Option<String>,
    pub toStdout: bool,
    pub prefix: Option<String>,
    pub debugEnabled: bool,
}

/// The whole configuration tree.
#[derive(Debug, Clone)]
#[allow(non_snake_case)]
pub struct ZephirConfig {
    pub name: String,
    pub function: FunctionConfig,
    pub storage: Option<StorageConfig>,
    pub logConfig: Option<LogConfig>,
}

/// Default address-space cap: 128 MiB.
pub fn default_memory() -> (r: u64)
    ensures
        r == 134217728u64,
{
    128 * 1024 * 1024
}

/// Default file-size cap: 512 MiB.
pub fn default_storage() -> (r: u64)
    ensures
        r == 536870912u64,
{
    512 * 1024 * 1024
}

/// Default CPU budget in seconds.
pub fn default_cpu_time() -> (r: u64)
    ensures
        r == 10u64,
{
    10
}

/// Default function name.
pub fn default_name() -> (r: String)
    ensures
        r@ == "zephir-function"@,
{
    String::from_str("zephir-function")
}

impl StorageConfig {
    /// The documented storage defaults: `zephir-sandbox/` and `zephir-cache/`.
    pub fn sane_defaults() -> (r: StorageConfig)
        ensures
            r.sandbox is Some && r.sandbox->0@ == "zephir-sandbox/"@,
            r.cache is Some && r.cache->0@ == "zephir-cache/"@,
    {
        StorageConfig {
            sandbox: Some(String::from_str("zephir-sandbox/")),
            cache: Some(String::from_str("zephir-cache/")),
        }
    }

    /// The sandbox root actually in force: the configured one, or the default.
    pub fn effective_sandbox_root(&self) -> (r: String)
        ensures
            self.sandbox is Some ==> r@ == self.sandbox->0@,
            self.sandbox is None ==> r@ == "zephir-sandbox/"@,
    {
        match &self.sandbox {
            Some(s) => s.clone(),
            None => String::from_str("zephir-sandbox/"),
        }
    }

    /// The cache root actually in force: the configured one, or the default.
    pub fn effective_cache_root(&self) -> (r: String)
        ensures
            self.cache is Some ==> r@ == self.cache->0@,
            self.cache is None ==> r@ == "zephir-cache/"@,
    {
        match &self.cache {
            Some(s) => s.clone(),
            None => String::from_str("zephir-cache/"),
        }
    }
}

impl ZephirConfig {
    /// The complete default configuration tree: every optional field takes
    /// its documented default.
    pub fn sane_defaults() -> (r: ZephirConfig)
        ensures
            r.name@ == "zephir-function"@,
            r.function.app.entry@ == "./zephir-function"@,
            r.function.bundle.packagePath@ == "function.zephir"@,
            r.function.bundle.artifactType == ArtifactType::NATIVE,
            r.function.resources.memory == 134217728u64,
            r.function.resources.storage == 536870912u64,
            r.function.resources.cpuLimit == 10u64,
            r.storage is Some && r.storage->0.sandbox is Some
                && r.storage->0.sandbox->0@ == "zephir-sandbox/"@,
            r.storage->0.cache is Some && r.storage->0.cache->0@ == "zephir-cache/"@,
            r.logConfig is Some && !r.logConfig->0.toFile && r.logConfig->0.toStdout,
            r.logConfig->0.filePath is None,
            r.logConfig->0.prefix is Some && r.logConfig->0.prefix->0@ == "[Zephir]"@,
            !r.logConfig->0.debugEnabled,
    {
        ZephirConfig {
            name: default_name(),
            function: FunctionConfig {
                app: ApplicationConfig { entry: String::from_str("./zephir-function") },
                bundle: ArtifactConfig {
                    packagePath: String::from_str("function.zephir"),
                    artifactType: ArtifactType::NATIVE,
                },
                resources: ResourceConfig {
                    memory: default_memory(),
                    storage: default_storage(),
                    cpuLimit: default_cpu_time(),
                },
            },
            storage: Some(StorageConfig::sane_defaults()),
            logConfig: Some(LogConfig {
                toFile: false,
                filePath: None,
                toStdout: true,
                prefix: Some(String::from_str("[Zephir]")),
                debugEnabled: false,
            }),
        }
    }

    /// The storage roots in force for this configuration.
    pub fn effective_roots(&self) -> (r: (String, String))
        ensures
            r.0@ == spec_sandbox_root(self),
            r.1@ == spec_cache_root(self),
    {
        match &self.storage {
            Some(sc) => (sc.effective_sandbox_root(), sc.effective_cache_root()),
            None => (String::from_str("zephir-sandbox/"), String::from_str("zephir-cache/")),
        }
    }
}

/// The sandbox root in force: configured, else the default.
pub open spec fn spec_sandbox_root(c: &ZephirConfig) -> Seq<char> {
    match c.storage {
        Some(sc) => match sc.sandbox {
            Some(s) => s@,
            None => "zephir-sandbox/"@,
        },
        None => "zephir-sandbox/"@,
    }
}

/// The cache root in force: configured, else the default.
pub open spec fn spec_cache_root(c: &ZephirConfig) -> Seq<char> {
    match c.storage {
        Some(sc) => match sc.cache {
            Some(s) => s@,
            None => "zephir-cache/"@,
        },
        None => "zephir-cache/"@,
    }
}

} // verus!
