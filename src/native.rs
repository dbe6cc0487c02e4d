//! Layout of the desktop simulator build.
use vstd::prelude::*;
use vstd::string::StringExecFns;

use crate::layout::{board_folder, joined, workspace_of, FsPath};

verus! {

/// The build folder of one configuration of the desktop simulator.
pub fn build_folder(config_path: &FsPath, config_name: &str) -> (r: FsPath)
    requires
        config_path@.parts.len() > 0,
    ensures
        r@ == joined(
            joined(workspace_of(config_path@), "lv_port_linux"@),
            "build-native-"@ + config_name@,
        ),
{
    let name = "build-native-".to_owned().concat(config_name);
    board_folder(config_path, "lv_port_linux").join(name.as_str())
}

/// The simulator binary of one configuration.
pub fn target_path(config_path: &FsPath, config_name: &str) -> (r: FsPath)
    requires
        config_path@.parts.len() > 0,
    ensures
        r@ == joined(
            joined(
                joined(
                    joined(workspace_of(config_path@), "lv_port_linux"@),
                    "build-native-"@ + config_name@,
                ),
                "bin"@,
            ),
            "lvglsim"@,
        ),
{
    build_folder(config_path, config_name).join("bin").join("lvglsim")
}

} // verus!
