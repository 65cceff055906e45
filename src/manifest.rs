//! Entries of the plugin manifest.
use vstd::prelude::*;

verus! {

/// One optional plugin that the manifest offers.
pub struct PluginInfo {
    pub id: String,
    pub name: String,
    pub version: String,
    pub description: String,
    pub url: String,
}

} // verus!
