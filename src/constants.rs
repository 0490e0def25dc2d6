use vstd::prelude::*;

verus! {

/// Fixed names and places of the tool.
pub struct BkryConstants;

impl BkryConstants {
    pub const DOCKER_IMAGE: &'static str = "yanctab/bakery/bakery-workspace";
    pub const DOCKER_TAG: &'static str = "0.1.0";
    pub const DOCKER_REGISTRY: &'static str = "ghcr.io";
    pub const BUILD_CFG_VERSION: &'static str = "6";
    pub const WS_SETTINGS: &'static str = "workspace.json";
    pub const OPT_DIR: &'static str = "/opt/bakery";
    pub const CFG_DIR: &'static str = "/etc/bakery";
    pub const BIN: &'static str = "/usr/bin/bakery";
    pub const BIN_DIR: &'static str = "/usr/bin";
    pub const OPT_SCRIPTS_DIR: &'static str = "/opt/bakery/scripts";
}

} // verus!
