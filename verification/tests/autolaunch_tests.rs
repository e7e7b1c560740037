use os_kit::AutoLaunchManager;
use os_kit::IdentityError;
use os_kit::Platform;
use os_kit::RegistryError;

#[test]
fn test_init_derives_identity() {
    let m = AutoLaunchManager::init("/opt/osintkit/os-kit-probe", Platform::Linux, None).unwrap();
    assert_eq!(m.identity().app_name, "os-kit-probe");
    assert_eq!(m.identity().app_path, "/opt/osintkit/os-kit-probe");
}

#[test]
fn test_init_rejects_stemless_path() {
    let r = AutoLaunchManager::init("/opt/osintkit/", Platform::Linux, None);
    assert!(matches!(
        r,
        Err(RegistryError::Identity(IdentityError::NoFileStem))
    ));
}

#[test]
fn test_enable_is_idempotent() {
    let m = AutoLaunchManager::init(
        "/opt/osintkit/os-kit-enable-probe",
        Platform::Linux,
        None,
    )
    .unwrap();
    assert!(m.update_launch(true).is_ok(), "first enable should succeed");
    assert!(m.update_launch(true).is_ok(), "second enable should succeed");
    assert_eq!(m.is_enabled().unwrap(), true);
    // Leave nothing behind.
    assert!(m.update_launch(false).is_ok());
    assert_eq!(m.is_enabled().unwrap(), false);
}

#[test]
fn test_disable_when_never_enabled_succeeds() {
    let m = AutoLaunchManager::init(
        "/opt/osintkit/os-kit-never-enabled-probe",
        Platform::Linux,
        None,
    )
    .unwrap();
    assert!(m.update_launch(false).is_ok());
    assert!(m.update_launch(false).is_ok());
    assert_eq!(m.is_enabled().unwrap(), false);
}
