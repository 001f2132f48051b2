use zephir::enforce::{has_root_privilege, EnforceError};
use zephir::pack::{PackageEngine, PackageError};

#[test]
fn package_plan_writes_default_config_when_none_given() {
    let engine = PackageEngine::new("./hello", None);
    let plan = engine.package_plan();
    assert_eq!(plan.source_dir, "./hello");
    assert!(plan.write_default_config);
    assert_eq!(plan.default_config_path, "./zephir.yaml");
    assert_eq!(plan.bundle_path, "./function.zephir");
    assert_eq!(plan.compression_level, 1);
}

#[test]
fn package_plan_keeps_an_explicit_config() {
    let engine = PackageEngine::new("work/hello", Some("work/custom.yaml"));
    let plan = engine.package_plan();
    assert!(!plan.write_default_config);
    assert_eq!(plan.default_config_path, "work/zephir.yaml");
    assert_eq!(plan.bundle_path, "work/function.zephir");
}

#[test]
fn package_error_messages_follow_their_kind() {
    let e = PackageError::Io { message: "disk full".to_string() };
    assert_eq!(e.message(), "I/O error: disk full");
    let e = PackageError::Yaml { message: "bad yaml".to_string() };
    assert_eq!(e.message(), "bad yaml");
}

#[test]
fn enforce_error_messages_pass_through() {
    let e = EnforceError::ChrootFailed { message: "chroot failed: EPERM".to_string() };
    assert_eq!(e.message(), "chroot failed: EPERM");
    let e = EnforceError::ChdirFailed { message: "chdir failed: ENOENT".to_string() };
    assert_eq!(e.message(), "chdir failed: ENOENT");
}

#[test]
fn privilege_probe_answers() {
    // The value depends on who runs the tests; the call itself must work.
    let _ = has_root_privilege();
}
