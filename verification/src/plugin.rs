//! How the plugin introduces itself to Mumble.

use vstd::prelude::*;

verus! {

pub const PLUGIN_NAME: &'static str = "MumbleACRE";

pub const PLUGIN_AUTHOR: &'static str = "MumbleACRE and RMTFAR contributors";

pub const PLUGIN_DESCRIPTION: &'static str =
    "Unofficial ACRE2 2.14.0.1064 backend for Mumble; managed mission channel required";

/// The features that the plugin has: it processes audio.
pub const PLUGIN_FEATURES: u32 = 2;

/// A version in Mumble's form.
#[allow(non_camel_case_types)]
#[derive(Clone, Copy, Debug, PartialEq, Eq, Structural)]
pub struct mumble_version_t {
    pub major: u32,
    pub minor: u32,
    pub patch: u32,
}

/// The version of Mumble's API that the plugin asks for.
pub fn api_version() -> (version: mumble_version_t)
    ensures
        version == (mumble_version_t { major: 1, minor: 0, patch: 0 }),
{
    mumble_version_t { major: 1, minor: 0, patch: 0 }
}

/// The plugin's own version.
pub fn plugin_version() -> (version: mumble_version_t)
    ensures
        version == (mumble_version_t { major: 0, minor: 1, patch: 0 }),
{
    mumble_version_t { major: 0, minor: 1, patch: 0 }
}

} // verus!
