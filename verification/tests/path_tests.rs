use os_kit::data_child_dir_path_under;
use os_kit::data_file_path_under;
use os_kit::EnsureAction;
use os_kit::FsEntry;
use os_kit::PathError;
use os_kit::PathManager;

#[test]
fn test_join_on_file_fails() {
    for p in ["", "/etc/passwd", "relative/file.txt", "~/x"] {
        for x in ["child", "/abs", ""] {
            assert!(matches!(
                PathManager::file(p).join_dir(x),
                Err(PathError::InvalidJoinOnFile)
            ));
            assert!(matches!(
                PathManager::file(p).join_file(x),
                Err(PathError::InvalidJoinOnFile)
            ));
        }
    }
}

#[test]
fn test_join_builds_path() {
    let m = PathManager::dir("/a").join_dir("b").unwrap();
    let m = m.join_file("c.txt").unwrap();
    assert_eq!(m.string().unwrap(), "/a/b/c.txt");

    let m = PathManager::dir("/a/").join_dir("b").unwrap();
    assert_eq!(m.path(), "/a/b");

    let m = PathManager::dir("").join_dir("b").unwrap();
    assert_eq!(m.path(), "b");

    let m = PathManager::dir("/a").join_dir("/replaced").unwrap();
    assert_eq!(m.path(), "/replaced");
}

#[test]
fn test_ensure_directory_decisions() {
    let d = PathManager::dir("/data/app");

    let (_, a) = d
        .clone()
        .ensure(FsEntry::Directory, FsEntry::Directory)
        .unwrap();
    assert_eq!(a, EnsureAction::AlreadyPresent);

    let (_, a) = d
        .clone()
        .ensure(FsEntry::Missing, FsEntry::Missing)
        .unwrap();
    assert_eq!(a, EnsureAction::CreateDirChain);

    assert!(matches!(
        d.clone().ensure(FsEntry::File, FsEntry::Directory),
        Err(PathError::NotADirectory)
    ));
    assert!(matches!(
        d.ensure(FsEntry::Other, FsEntry::Directory),
        Err(PathError::NotADirectory)
    ));
}

#[test]
fn test_ensure_file_decisions() {
    let f = PathManager::file("/data/app/config.json");

    let (_, a) = f.clone().ensure(FsEntry::File, FsEntry::Directory).unwrap();
    assert_eq!(a, EnsureAction::AlreadyPresent);

    let (_, a) = f
        .clone()
        .ensure(FsEntry::Missing, FsEntry::Directory)
        .unwrap();
    assert_eq!(a, EnsureAction::CreateFile);

    let (_, a) = f
        .clone()
        .ensure(FsEntry::Missing, FsEntry::Missing)
        .unwrap();
    assert_eq!(a, EnsureAction::CreateParentChainAndFile);

    assert!(matches!(
        f.clone().ensure(FsEntry::Missing, FsEntry::File),
        Err(PathError::NotADirectory)
    ));
    assert!(matches!(
        f.clone().ensure(FsEntry::Directory, FsEntry::Directory),
        Err(PathError::NotAFile)
    ));
    assert!(matches!(
        f.ensure(FsEntry::Other, FsEntry::Directory),
        Err(PathError::NotAFile)
    ));
}

#[test]
fn test_ensure_is_idempotent_decision() {
    // Once the owed step is done, the path has the right kind and a
    // second ask owes nothing.
    let d = PathManager::dir("/data/app");
    let (d, a) = d.ensure(FsEntry::Missing, FsEntry::Missing).unwrap();
    assert_eq!(a, EnsureAction::CreateDirChain);
    let (_, a) = d.ensure(FsEntry::Directory, FsEntry::Directory).unwrap();
    assert_eq!(a, EnsureAction::AlreadyPresent);
}

#[test]
fn test_data_file_path_under_root() {
    let root = PathManager::dir("~/AppData");
    let m = data_file_path_under(root, "MyApp", "config.json").unwrap();
    let s = m.string().unwrap();
    assert_eq!(s, "~/AppData/MyApp/config.json");
    assert!(s.ends_with("MyApp/config.json"));
}

#[test]
fn test_data_child_dir_path_under_root() {
    let root = PathManager::dir("~/AppData");
    let m = data_child_dir_path_under(root, "MyApp", Some("cache")).unwrap();
    assert_eq!(m.path(), "~/AppData/MyApp/cache");

    let root = PathManager::dir("~/AppData");
    let m = data_child_dir_path_under(root, "MyApp", None).unwrap();
    assert_eq!(m.path(), "~/AppData/MyApp");

    assert!(matches!(
        data_child_dir_path_under(PathManager::file("~/f"), "MyApp", None),
        Err(PathError::InvalidJoinOnFile)
    ));
}

#[test]
fn test_get_data_file_path_descends_from_data_root() {
    // The platform data root is environmental; whatever it is, the
    // resolved file sits at MyApp/config.json below it.
    if let Ok(m) = os_kit::get_data_file_path("MyApp", "config.json") {
        let s = m.string().unwrap();
        assert!(s.ends_with("MyApp/config.json"), "{s}");
    }
}

#[test]
fn test_get_data_child_dir_path_descends_from_data_root() {
    if let Ok(m) = os_kit::get_data_child_dir_path("MyApp", Some("logs".to_string())) {
        let s = m.path();
        assert!(s.ends_with("MyApp/logs"), "{s}");
    }
}
