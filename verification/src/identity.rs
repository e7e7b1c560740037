//! Launch-identity resolution.
//!
//! From the running executable's path, derive the `(app_name, app_path)`
//! pair under which the application registers itself for launch at login.
//! The name is the executable's base name without extension; the path is
//! normalized per platform: quoted on Windows (so the registry command
//! line survives spaces), replaced by the enclosing `.app` bundle root on
//! macOS when there is one, and replaced by the AppImage mount path on
//! Linux when the host environment supplies one.

use vstd::prelude::*;
use vstd::string::*;
use crate::pathstr::{
    bundle_root_of, file_stem_of, spec_bundle_root, spec_file_stem, view_opt_str,
};

verus! {

/// The launch mechanism the identity is normalized for, fixed once per
/// build of the host application.
#[derive(Clone, Copy, Debug, PartialEq, Eq, Structural)]
pub enum Platform {
    Windows,
    MacOs,
    Linux,
}

/// The pair under which the application is registered for auto-launch.
#[derive(Clone, Debug)]
pub struct Identity {
    /// The executable's base name without extension.
    pub app_name: String,
    /// The platform-normalized executable path.
    pub app_path: String,
}

/// Why no identity could be derived.
#[derive(Clone, Copy, Debug, PartialEq, Eq, Structural)]
pub enum IdentityError {
    /// The executable path has no extractable base name.
    NoFileStem,
    /// The executable path is not representable as text. Never produced
    /// here, where paths arrive as text already; callers that bring a raw
    /// OS path report its conversion failure under this name.
    InvalidEncoding,
}

/// The derived application name: the executable's base name without
/// extension, with `\` separating components only on Windows.
pub open spec fn spec_app_name(p: Seq<char>, platform: Platform) -> Seq<char> {
    spec_file_stem(p, platform is Windows)
}

/// The derived application path, by platform: quoted on Windows, the
/// bundle root on macOS, the AppImage mount path (when present) on Linux.
pub open spec fn spec_app_path(p: Seq<char>, platform: Platform, appimage: Option<Seq<char>>) -> Seq<char> {
    match platform {
        Platform::Windows => seq!['"'] + p + seq!['"'],
        Platform::MacOs => spec_bundle_root(p),
        Platform::Linux => match appimage {
            Some(a) => a,
            None => p,
        },
    }
}

/// Law: on Windows the derived path is the raw executable path in exactly
/// one added pair of double quotes, whatever the path and the environment.
pub proof fn lemma_windows_path_quoted(p: Seq<char>, appimage: Option<Seq<char>>)
    ensures
        spec_app_path(p, Platform::Windows, appimage).len() == p.len() + 2,
        spec_app_path(p, Platform::Windows, appimage)[0] == '"',
        spec_app_path(p, Platform::Windows, appimage).last() == '"',
        spec_app_path(p, Platform::Windows, appimage).subrange(1, p.len() as int + 1) == p,
{
    assert(spec_app_path(p, Platform::Windows, appimage).subrange(1, p.len() as int + 1) =~= p);
}

/// Derive the launch identity from the executable's path.
///
/// Succeeds exactly when the path has a non-empty base-name stem; the
/// result then carries the stem as `app_name` and the platform-normalized
/// path as `app_path`. On macOS a path outside any `.app` bundle is an
/// expected condition: the raw path is kept, never an error.
pub fn resolve(exe_path: &str, platform: Platform, appimage_path: Option<&str>) -> (r: Result<
    Identity,
    IdentityError,
>)
    ensures
        spec_app_name(exe_path@, platform).len() > 0 ==> (r matches Ok(id)
            && id.app_name@ == spec_app_name(exe_path@, platform)
            && id.app_path@ == spec_app_path(exe_path@, platform, view_opt_str(appimage_path))),
        spec_app_name(exe_path@, platform).len() == 0 ==> r == Err::<Identity, IdentityError>(
            IdentityError::NoFileStem,
        ),
{
    let windows = matches!(platform, Platform::Windows);
    let stem = file_stem_of(exe_path, windows);
    if stem.unicode_len() == 0 {
        return Err(IdentityError::NoFileStem);
    }
    let app_name = stem.to_owned();
    let app_path = match platform {
        Platform::Windows => {
            let mut s = String::from_str("\"");
            s.append(exe_path);
            s.append("\"");
            proof {
                reveal_strlit("\"");
                assert(s@ =~= seq!['"'] + exe_path@ + seq!['"']);
            }
            s
        },
        Platform::MacOs => bundle_root_of(exe_path).to_owned(),
        Platform::Linux => match appimage_path {
            Some(a) => a.to_owned(),
            None => exe_path.to_owned(),
        },
    };
    Ok(Identity { app_name, app_path })
}

} // verus!
