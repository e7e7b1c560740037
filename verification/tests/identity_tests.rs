use os_kit::resolve;
use os_kit::IdentityError;
use os_kit::Platform;

#[test]
fn test_macos_app_path_resolution() {
    let test_paths = vec![
        (
            "/Applications/MyApp.app/Contents/MacOS/binary",
            "/Applications/MyApp.app",
        ),
        ("/usr/local/bin/myapp", "/usr/local/bin/myapp"),
        (
            "/Applications/MyApp.app/Contents/Frameworks/Helper.app/Contents/MacOS/binary",
            "/Applications/MyApp.app/Contents/Frameworks/Helper.app",
        ),
    ];

    for (input, expected) in test_paths {
        let result = resolve(input, Platform::MacOs, None).unwrap().app_path;
        assert_eq!(result, expected);
    }
}

#[test]
fn test_resolve_app_name_is_file_stem() {
    let id = resolve("/usr/local/bin/myapp", Platform::Linux, None).unwrap();
    assert_eq!(id.app_name, "myapp");
    assert_eq!(id.app_path, "/usr/local/bin/myapp");

    let id = resolve("/opt/tool/tool-v2.bin", Platform::Linux, None).unwrap();
    assert_eq!(id.app_name, "tool-v2");

    let id = resolve(
        "/Applications/MyApp.app/Contents/MacOS/binary",
        Platform::MacOs,
        None,
    )
    .unwrap();
    assert_eq!(id.app_name, "binary");
}

#[test]
fn test_resolve_no_file_stem() {
    assert!(matches!(
        resolve("", Platform::Linux, None),
        Err(IdentityError::NoFileStem)
    ));
    assert!(matches!(
        resolve("/usr/local/bin/", Platform::Linux, None),
        Err(IdentityError::NoFileStem)
    ));
    assert_eq!(
        resolve("/usr/bin/.hidden", Platform::Linux, None)
            .unwrap()
            .app_name,
        ".hidden"
    );
}

#[test]
fn test_windows_path_wrapping() {
    let id = resolve(
        "C:\\Program Files\\My App\\app.exe",
        Platform::Windows,
        None,
    )
    .unwrap();
    assert_eq!(id.app_name, "app");
    assert_eq!(id.app_path, "\"C:\\Program Files\\My App\\app.exe\"");
}

#[test]
fn test_linux_appimage_mount_path() {
    let id = resolve(
        "/usr/bin/myapp",
        Platform::Linux,
        Some("/tmp/.mount_myapp/AppRun"),
    )
    .unwrap();
    assert_eq!(id.app_name, "myapp");
    assert_eq!(id.app_path, "/tmp/.mount_myapp/AppRun");
}
