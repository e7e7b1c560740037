//! Kind-checked path building and provisioning decisions.
//!
//! A [`PathManager`] is a `/`-separated path annotated with its kind:
//! directory or file. Joins are legal only on a directory — a file is a
//! leaf, not a mountable prefix — and an illegal join is a typed failure,
//! never a silent no-op. Provisioning is split from the filesystem: from
//! what currently occupies a path and its parent, [`PathManager::ensure`]
//! decides which creation step is owed, or which kind conflict forbids
//! it; the caller performs the step and owns the I/O. The decision is
//! idempotent: on a path already of the right kind nothing is owed, as
//! many times as it is asked.

use vstd::prelude::*;
use vstd::string::*;
use crate::pathstr::{view_opt_str, view_opt_string};

verus! {

/// The kind a path is annotated with.
#[derive(Debug, Clone, Copy, PartialEq, Eq, Structural)]
pub enum PathType {
    /// The path names a directory.
    Directory,
    /// The path names a file.
    File,
}

/// Why a path operation failed.
#[derive(Debug, Clone, Copy, PartialEq, Eq, Structural)]
pub enum PathError {
    /// A join was asked of a file-kind path.
    InvalidJoinOnFile,
    /// A directory is owed, but something else occupies the path.
    NotADirectory,
    /// A file is owed, but something else occupies the path.
    NotAFile,
    /// A path is not representable as text. Never produced here, where
    /// paths are text already; callers that bring a raw OS path report
    /// its conversion failure under this name.
    NonUtf8Path,
    /// The platform names no data-directory root.
    NoDataDir,
}

/// What currently occupies a filesystem path, as the caller probed it.
#[derive(Debug, Clone, Copy, PartialEq, Eq, Structural)]
pub enum FsEntry {
    /// Nothing exists at the path.
    Missing,
    /// A directory exists at the path.
    Directory,
    /// A regular file exists at the path.
    File,
    /// Something that is neither a directory nor a regular file exists.
    Other,
}

/// The creation step a provisioning decision owes the caller.
#[derive(Debug, Clone, Copy, PartialEq, Eq, Structural)]
pub enum EnsureAction {
    /// The path already has the right kind; nothing to do.
    AlreadyPresent,
    /// Create the directory and its missing ancestors.
    CreateDirChain,
    /// The parent directory exists; create the empty file.
    CreateFile,
    /// Create the parent chain, then the empty file.
    CreateParentChainAndFile,
}

/// `base` extended by one component: `seg` alone when `seg` is absolute
/// or `base` empty, otherwise `base` and `seg` with exactly one `/`
/// between them.
pub open spec fn spec_join(base: Seq<char>, seg: Seq<char>) -> Seq<char> {
    if seg.len() > 0 && seg[0] == '/' {
        seg
    } else if base.len() == 0 {
        seg
    } else if base.last() == '/' {
        base + seg
    } else {
        base + seq!['/'] + seg
    }
}

/// The provisioning decision: from the kind a path is annotated with and
/// what occupies it (and its parent) on disk, the creation step owed, or
/// the kind conflict that forbids provisioning.
pub open spec fn spec_ensure_action(kind: PathType, here: FsEntry, parent: FsEntry) -> Result<
    EnsureAction,
    PathError,
> {
    match kind {
        PathType::Directory => match here {
            FsEntry::Directory => Ok(EnsureAction::AlreadyPresent),
            FsEntry::Missing => Ok(EnsureAction::CreateDirChain),
            FsEntry::File => Err(PathError::NotADirectory),
            FsEntry::Other => Err(PathError::NotADirectory),
        },
        PathType::File => match here {
            FsEntry::File => Ok(EnsureAction::AlreadyPresent),
            FsEntry::Missing => match parent {
                FsEntry::Directory => Ok(EnsureAction::CreateFile),
                FsEntry::Missing => Ok(EnsureAction::CreateParentChainAndFile),
                FsEntry::File => Err(PathError::NotADirectory),
                FsEntry::Other => Err(PathError::NotADirectory),
            },
            FsEntry::Directory => Err(PathError::NotAFile),
            FsEntry::Other => Err(PathError::NotAFile),
        },
    }
}

/// What a [`PathManager`] stands for: its path text and its kind.
pub ghost struct PathView {
    pub path: Seq<char>,
    pub kind: PathType,
}

/// A path annotated with its kind, consumed by value through a fluent
/// chain of joins and terminal extraction.
#[derive(Debug, Clone, PartialEq)]
pub struct PathManager {
    path: String,
    path_type: PathType,
}

impl View for PathManager {
    type V = PathView;

    closed spec fn view(&self) -> PathView {
        PathView { path: self.path@, kind: self.path_type }
    }
}

/// `base` extended by `seg` with exactly one `/` between them.
fn joined(base: String, seg: &str) -> (r: String)
    ensures
        r@ == spec_join(base@, seg@),
{
    proof {
        reveal_strlit("/");
    }
    let seg_len = seg.unicode_len();
    if seg_len > 0 && seg.get_char(0) == '/' {
        return seg.to_owned();
    }
    let base_len = base.as_str().unicode_len();
    if base_len == 0 {
        return seg.to_owned();
    }
    let last = base.as_str().get_char(base_len - 1);
    let ghost base_view = base@;
    let mut out = base;
    if last != '/' {
        out.append("/");
    }
    out.append(seg);
    proof {
        assert(out@ =~= spec_join(base_view, seg@));
    }
    out
}

impl PathManager {
    /// A directory-kind path. No I/O.
    pub fn dir(path: &str) -> (r: Self)
        ensures
            r@.path == path@,
            r@.kind == PathType::Directory,
    {
        PathManager { path: path.to_owned(), path_type: PathType::Directory }
    }

    /// A file-kind path. No I/O.
    pub fn file(path: &str) -> (r: Self)
        ensures
            r@.path == path@,
            r@.kind == PathType::File,
    {
        PathManager { path: path.to_owned(), path_type: PathType::File }
    }

    /// Descend into a child directory. A join on a file-kind path fails,
    /// for every path and every segment.
    pub fn join_dir(self, dir: &str) -> (r: Result<Self, PathError>)
        ensures
            self@.kind == PathType::File ==> r == Err::<PathManager, PathError>(
                PathError::InvalidJoinOnFile,
            ),
            self@.kind == PathType::Directory ==> (r matches Ok(m) && m@.kind
                == PathType::Directory && m@.path == spec_join(self@.path, dir@)),
    {
        if matches!(self.path_type, PathType::File) {
            return Err(PathError::InvalidJoinOnFile);
        }
        Ok(PathManager { path: joined(self.path, dir), path_type: PathType::Directory })
    }

    /// Resolve a file under the current directory. A join on a file-kind
    /// path fails, for every path and every segment.
    pub fn join_file(self, filename: &str) -> (r: Result<Self, PathError>)
        ensures
            self@.kind == PathType::File ==> r == Err::<PathManager, PathError>(
                PathError::InvalidJoinOnFile,
            ),
            self@.kind == PathType::Directory ==> (r matches Ok(m) && m@.kind == PathType::File
                && m@.path == spec_join(self@.path, filename@)),
    {
        if matches!(self.path_type, PathType::File) {
            return Err(PathError::InvalidJoinOnFile);
        }
        Ok(PathManager { path: joined(self.path, filename), path_type: PathType::File })
    }

    /// Decide the provisioning step for this path, given what occupies it
    /// and its parent on disk. The path itself is returned unchanged with
    /// the step owed; a kind conflict is the matching typed failure. The
    /// decision follows [`spec_ensure_action`] exactly, so asking again
    /// once the step is done owes nothing further.
    pub fn ensure(self, here: FsEntry, parent: FsEntry) -> (r: Result<
        (Self, EnsureAction),
        PathError,
    >)
        ensures
            spec_ensure_action(self@.kind, here, parent) matches Ok(a) ==> (r matches Ok(p) && p.0
                == self && p.1 == a),
            spec_ensure_action(self@.kind, here, parent) matches Err(e) ==> r == Err::<
                (PathManager, EnsureAction),
                PathError,
            >(e),
    {
        match decide_action(self.path_type, here, parent) {
            Ok(a) => Ok((self, a)),
            Err(e) => Err(e),
        }
    }

    /// Terminal extraction of the path text.
    pub fn path(self) -> (r: String)
        ensures
            r@ == self@.path,
    {
        self.path
    }

    /// Terminal extraction of the path as text. Always succeeds here,
    /// since the path is text by construction; the fallible shape is kept
    /// for callers that round-trip through raw OS paths.
    pub fn string(self) -> (r: Result<String, PathError>)
        ensures
            r matches Ok(s) && s@ == self@.path,
    {
        Ok(self.path)
    }
}

/// The provisioning decision, computed.
fn decide_action(kind: PathType, here: FsEntry, parent: FsEntry) -> (r: Result<
    EnsureAction,
    PathError,
>)
    ensures
        r == spec_ensure_action(kind, here, parent),
{
    match kind {
        PathType::Directory => match here {
            FsEntry::Directory => Ok(EnsureAction::AlreadyPresent),
            FsEntry::Missing => Ok(EnsureAction::CreateDirChain),
            FsEntry::File => Err(PathError::NotADirectory),
            FsEntry::Other => Err(PathError::NotADirectory),
        },
        PathType::File => match here {
            FsEntry::File => Ok(EnsureAction::AlreadyPresent),
            FsEntry::Missing => match parent {
                FsEntry::Directory => Ok(EnsureAction::CreateFile),
                FsEntry::Missing => Ok(EnsureAction::CreateParentChainAndFile),
                FsEntry::File => Err(PathError::NotADirectory),
                FsEntry::Other => Err(PathError::NotADirectory),
            },
            FsEntry::Directory => Err(PathError::NotAFile),
            FsEntry::Other => Err(PathError::NotAFile),
        },
    }
}

/// Relies on `dirs::data_dir`: the platform-conventional root for
/// application data (XDG data home, Application Support, roaming
/// AppData), when the platform defines one representable as text.
#[verifier::external_body]
fn data_root_dir() -> (r: Option<String>) {
    dirs::data_dir().and_then(|p| p.into_os_string().into_string().ok())
}

impl PathManager {
    /// The platform data-directory root, as a directory-kind path. Fails
    /// when the platform names no such root.
    pub fn get_data_dir() -> (r: Result<Self, PathError>)
        ensures
            r matches Ok(m) ==> m@.kind == PathType::Directory,
            r matches Err(e) ==> e == PathError::NoDataDir,
    {
        match data_root_dir() {
            Some(p) => Ok(PathManager::dir(p.as_str())),
            None => Err(PathError::NoDataDir),
        }
    }
}

/// The application's data file under an explicit root:
/// `root/app_name/filename` as a file-kind path, without provisioning.
pub fn data_file_path_under(root: PathManager, app_name: &str, filename: &str) -> (r: Result<
    PathManager,
    PathError,
>)
    ensures
        root@.kind == PathType::File ==> r == Err::<PathManager, PathError>(
            PathError::InvalidJoinOnFile,
        ),
        root@.kind == PathType::Directory ==> (r matches Ok(m) && m@.kind == PathType::File
            && m@.path == spec_join(spec_join(root@.path, app_name@), filename@)),
{
    let d = root.join_dir(app_name)?;
    let f = d.join_file(filename)?;
    Ok(f)
}

/// The application's data directory under an explicit root, optionally
/// one child level deeper, as a directory-kind path, without
/// provisioning.
pub fn data_child_dir_path_under(root: PathManager, app_name: &str, child_dir: Option<&str>) -> (r:
    Result<PathManager, PathError>)
    ensures
        root@.kind == PathType::File ==> r == Err::<PathManager, PathError>(
            PathError::InvalidJoinOnFile,
        ),
        root@.kind == PathType::Directory ==> (r matches Ok(m) && m@.kind == PathType::Directory
            && m@.path == spec_child_dir_path(root@.path, app_name@, view_opt_str(child_dir))),
{
    let d = root.join_dir(app_name)?;
    match child_dir {
        Some(c) => d.join_dir(c),
        None => Ok(d),
    }
}

/// The path a child-directory descent yields: `root/app`, one level
/// deeper when a child is given.
pub open spec fn spec_child_dir_path(root: Seq<char>, app: Seq<char>, child: Option<Seq<char>>) -> Seq<char> {
    match child {
        None => spec_join(root, app),
        Some(c) => spec_join(spec_join(root, app), c),
    }
}

/// The application's data file under the platform data root, as a
/// file-kind path, without provisioning: creating it stays the caller's
/// explicit choice through [`PathManager::ensure`]. Fails exactly when
/// the platform names no data root.
pub fn get_data_file_path(app_name: &str, filename: &str) -> (r: Result<PathManager, PathError>)
    ensures
        r matches Ok(m) ==> m@.kind == PathType::File && (exists|root: Seq<char>|
            m@.path == spec_join(spec_join(root, app_name@), filename@)),
        r matches Err(e) ==> e == PathError::NoDataDir,
{
    let root = PathManager::get_data_dir()?;
    let ghost rv = root@.path;
    match data_file_path_under(root, app_name, filename) {
        Ok(m) => {
            proof {
                assert(m@.path == spec_join(spec_join(rv, app_name@), filename@));
            }
            Ok(m)
        },
        Err(e) => Err(e),
    }
}

/// The application's data directory under the platform data root,
/// optionally one child level deeper, without provisioning. Fails
/// exactly when the platform names no data root.
pub fn get_data_child_dir_path(app_name: &str, child_dir: Option<String>) -> (r: Result<
    PathManager,
    PathError,
>)
    ensures
        r matches Ok(m) ==> m@.kind == PathType::Directory && (exists|root: Seq<char>|
            m@.path == spec_child_dir_path(root, app_name@, view_opt_string(child_dir))),
        r matches Err(e) ==> e == PathError::NoDataDir,
{
    let root = PathManager::get_data_dir()?;
    let ghost rv = root@.path;
    let child_ref = match &child_dir {
        Some(c) => Some(c.as_str()),
        None => None,
    };
    match data_child_dir_path_under(root, app_name, child_ref) {
        Ok(m) => {
            proof {
                assert(m@.path == spec_child_dir_path(rv, app_name@, view_opt_string(child_dir)));
            }
            Ok(m)
        },
        Err(e) => Err(e),
    }
}

/// The filesystem occupant that matches a path's annotated kind.
pub open spec fn entry_of_kind(kind: PathType) -> FsEntry {
    match kind {
        PathType::Directory => FsEntry::Directory,
        PathType::File => FsEntry::File,
    }
}

/// Law: provisioning is idempotent. A path already occupied by its
/// annotated kind owes no step — whatever occupies its parent — so once
/// the owed step is done, every further ask is a no-op success.
pub proof fn lemma_ensure_idempotent(kind: PathType, parent: FsEntry)
    ensures
        spec_ensure_action(kind, entry_of_kind(kind), parent) == Ok::<EnsureAction, PathError>(
            EnsureAction::AlreadyPresent,
        ),
{
}

/// Law: under any non-empty root, the resolved data-file path ends in
/// the application segment, one separator, and the file segment, for
/// every relative application segment not ending in a separator and
/// every relative file segment.
pub proof fn lemma_data_file_path_suffix(root: Seq<char>, app: Seq<char>, file: Seq<char>)
    requires
        root.len() > 0,
        app.len() > 0,
        app[0] != '/',
        app.last() != '/',
        file.len() > 0,
        file[0] != '/',
    ensures
        ({
            let full = spec_join(spec_join(root, app), file);
            let tail = app + seq!['/'] + file;
            full.len() >= tail.len() && full.subrange(
                full.len() as int - tail.len() as int,
                full.len() as int,
            ) == tail
        }),
{
    let mid = spec_join(root, app);
    let full = spec_join(mid, file);
    let tail = app + seq!['/'] + file;
    assert(mid.last() == app.last());
    assert(full =~= mid + seq!['/'] + file);
    assert(full.subrange(full.len() as int - tail.len() as int, full.len() as int) =~= tail);
}

} // verus!
