//! OS-integration utilities for a desktop application: resolving a
//! platform-correct launch identity for the running executable, registering
//! it for automatic launch at login, and building application data paths
//! with kind-checked joins and idempotent provisioning decisions.

pub mod autolaunch;
pub mod identity;
pub mod path;
pub mod pathstr;
pub mod ports;
pub mod sysinfo_model;

pub use autolaunch::{AutoLaunchManager, RegistryError};
pub use identity::{resolve, Identity, IdentityError, Platform};
pub use path::{
    data_child_dir_path_under, data_file_path_under, get_data_child_dir_path, get_data_file_path,
    spec_join, EnsureAction, FsEntry, PathError, PathManager, PathType,
};
pub use pathstr::{
    bundle_root_of, extension_of, file_name_of, file_stem_of, parent_of, spec_bundle_root,
    spec_extension, spec_file_name, spec_file_stem, spec_parent,
};
pub use ports::{serial_port_list, PortInfo, RawPort};
pub use sysinfo_model::{nets_with_ids, OsNet, OsSysInfo};
