use zephir::config::{ArtifactType, StorageConfig, ZephirConfig};

#[test]
fn defaults_have_documented_values() {
    assert_eq!(zephir::config::default_memory(), 134217728);
    assert_eq!(zephir::config::default_storage(), 536870912);
    assert_eq!(zephir::config::default_cpu_time(), 10);
    assert_eq!(zephir::config::default_name(), "zephir-function");
}

#[test]
fn sane_defaults_fill_every_field() {
    let c = ZephirConfig::sane_defaults();
    assert_eq!(c.name, "zephir-function");
    assert_eq!(c.function.app.entry, "./zephir-function");
    assert_eq!(c.function.bundle.packagePath, "function.zephir");
    assert!(matches!(c.function.bundle.artifactType, ArtifactType::NATIVE));
    assert_eq!(c.function.resources.memory, 134217728);
    assert_eq!(c.function.resources.storage, 536870912);
    assert_eq!(c.function.resources.cpuLimit, 10);
    let storage = c.storage.expect("default storage present");
    assert_eq!(storage.sandbox.as_deref(), Some("zephir-sandbox/"));
    assert_eq!(storage.cache.as_deref(), Some("zephir-cache/"));
    let log = c.logConfig.expect("default log settings present");
    assert!(!log.toFile);
    assert!(log.toStdout);
    assert!(log.filePath.is_none());
    assert_eq!(log.prefix.as_deref(), Some("[Zephir]"));
    assert!(!log.debugEnabled);
}

#[test]
fn storage_defaults_and_effective_roots() {
    let s = StorageConfig::sane_defaults();
    assert_eq!(s.effective_sandbox_root(), "zephir-sandbox/");
    assert_eq!(s.effective_cache_root(), "zephir-cache/");

    let custom = StorageConfig { sandbox: Some("sb".to_string()), cache: None };
    assert_eq!(custom.effective_sandbox_root(), "sb");
    assert_eq!(custom.effective_cache_root(), "zephir-cache/");
}

#[test]
fn missing_storage_section_takes_defaults() {
    let mut c = ZephirConfig::sane_defaults();
    c.storage = None;
    let (sandbox_root, cache_root) = c.effective_roots();
    assert_eq!(sandbox_root, "zephir-sandbox/");
    assert_eq!(cache_root, "zephir-cache/");
}
