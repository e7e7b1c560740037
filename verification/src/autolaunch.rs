//! Auto-launch registration.
//!
//! An [`AutoLaunchManager`] couples a derived launch [`Identity`] with the
//! platform handle (registry run-key, launch agent, autostart entry) built
//! from it, and exposes the enable / disable / query operations. Failure
//! semantics differ by direction on purpose: enabling and querying surface
//! platform errors, disabling swallows its own platform error, so that a
//! defensive "make sure auto-launch is off" at startup cannot fail merely
//! because nothing was ever enabled.

use vstd::prelude::*;
use crate::identity::{resolve, spec_app_name, spec_app_path, Identity, IdentityError, Platform};
use crate::pathstr::view_opt_str;

verus! {

#[verifier::external_type_specification]
#[verifier::external_body]
pub struct ExAutoLaunch(auto_launch::AutoLaunch);

/// Why a registry operation failed.
#[derive(Debug, Clone)]
pub enum RegistryError {
    /// No identity could be derived for the running executable.
    Identity(IdentityError),
    /// The platform launch mechanism reported a failure, with its message.
    Platform(String),
}

/// Relies on `auto_launch::AutoLaunchBuilder::build`: with both `app_name`
/// and `app_path` set and the default launch mode kept, it constructs the
/// platform handle, and fails only where the target OS has no supported
/// launch mechanism at all.
#[verifier::external_body]
fn build_handle(app_name: &str, app_path: &str) -> (r: Result<auto_launch::AutoLaunch, RegistryError>)
    ensures
        r matches Err(e) ==> e matches RegistryError::Platform(_),
{
    auto_launch::AutoLaunchBuilder::new()
        .set_app_name(app_name)
        .set_app_path(app_path)
        .build()
        .map_err(|e| RegistryError::Platform(e.to_string()))
}

/// Relies on `auto_launch::AutoLaunch::enable`: registers the entry with
/// the platform mechanism; the outcome depends on the host system.
#[verifier::external_body]
fn enable_handle(h: &auto_launch::AutoLaunch) -> (r: Result<(), RegistryError>)
    ensures
        r matches Err(e) ==> e matches RegistryError::Platform(_),
{
    h.enable().map_err(|e| RegistryError::Platform(e.to_string()))
}

/// Relies on `auto_launch::AutoLaunch::disable`: deregisters the entry;
/// the outcome depends on the host system.
#[verifier::external_body]
fn disable_handle(h: &auto_launch::AutoLaunch) -> (r: Result<(), RegistryError>)
    ensures
        r matches Err(e) ==> e matches RegistryError::Platform(_),
{
    h.disable().map_err(|e| RegistryError::Platform(e.to_string()))
}

/// Relies on `auto_launch::AutoLaunch::is_enabled`: reports whether the
/// entry is currently registered; the outcome depends on the host system.
#[verifier::external_body]
fn is_enabled_handle(h: &auto_launch::AutoLaunch) -> (r: Result<bool, RegistryError>)
    ensures
        r matches Err(e) ==> e matches RegistryError::Platform(_),
{
    h.is_enabled().map_err(|e| RegistryError::Platform(e.to_string()))
}

/// The auto-launch registration for one derived identity: the platform
/// handle and the identity it was built from. A process keeps a single
/// manager for its lifetime and routes every operation through it.
pub struct AutoLaunchManager {
    handle: auto_launch::AutoLaunch,
    identity: Identity,
}

impl AutoLaunchManager {
    /// The identity this manager registered with the platform mechanism.
    pub closed spec fn spec_identity(&self) -> Identity {
        self.identity
    }

    /// Resolve the executable's identity and build the platform handle
    /// from it. Identity failures and platform failures are told apart in
    /// the error; a path with no base-name stem never reaches the
    /// platform mechanism.
    pub fn init(exe_path: &str, platform: Platform, appimage_path: Option<&str>) -> (r: Result<
        AutoLaunchManager,
        RegistryError,
    >)
        ensures
            r matches Ok(m) ==> spec_app_name(exe_path@, platform).len() > 0
                && m.spec_identity().app_name@ == spec_app_name(exe_path@, platform)
                && m.spec_identity().app_path@ == spec_app_path(
                exe_path@,
                platform,
                view_opt_str(appimage_path),
            ),
            spec_app_name(exe_path@, platform).len() == 0 ==> (r matches Err(e) && e
                == RegistryError::Identity(IdentityError::NoFileStem)),
            spec_app_name(exe_path@, platform).len() > 0 ==> (r matches Err(e) ==> e matches
                RegistryError::Platform(_)),
    {
        let id = match resolve(exe_path, platform, appimage_path) {
            Ok(id) => id,
            Err(e) => {
                return Err(RegistryError::Identity(e));
            },
        };
        match build_handle(id.app_name.as_str(), id.app_path.as_str()) {
            Ok(h) => Ok(AutoLaunchManager { handle: h, identity: id }),
            Err(e) => Err(e),
        }
    }

    /// The identity the manager was initialized with.
    pub fn identity(&self) -> (r: &Identity)
        ensures
            *r == self.spec_identity(),
    {
        &self.identity
    }

    /// Whether the application is currently registered for launch at
    /// login. The answer is the platform's; a query failure propagates,
    /// and always as a platform error: the identity was settled at
    /// initialization.
    pub fn is_enabled(&self) -> (r: Result<bool, RegistryError>)
        ensures
            r matches Err(e) ==> e matches RegistryError::Platform(_),
    {
        is_enabled_handle(&self.handle)
    }

    /// Register (`enable == true`) or deregister (`enable == false`) the
    /// application for launch at login. Enabling surfaces every platform
    /// failure unchanged, as a platform error; disabling swallows its
    /// own, and so always succeeds, since deregistering an entry that was
    /// never registered is no error.
    pub fn update_launch(&self, enable: bool) -> (r: Result<(), RegistryError>)
        ensures
            !enable ==> r is Ok,
            r matches Err(e) ==> e matches RegistryError::Platform(_),
    {
        if enable {
            enable_handle(&self.handle)
        } else {
            let _discarded = disable_handle(&self.handle);
            Ok(())
        }
    }
}

} // verus!
