//! The host's hold on a plugin instance.
//!
//! The host gets a handle from [`plugin_init`], calls the plugin through it,
//! and gives it back to [`plugin_destroy`]. A handle has one owner and cannot
//! be copied, so an instance is released at most once and is out of reach
//! once it has been released.

use vstd::prelude::*;
use crate::interface::Plugin;
use crate::plugin::{ExamplePlugin, example_plugin_info};

verus! {

/// The one owner of a plugin instance.
pub struct PluginHandle<P: Plugin> {
    pub plugin: P,
}

/// Builds an instance of the example plugin and hands it to the host.
pub fn plugin_init() -> (handle: PluginHandle<ExamplePlugin>)
    ensures
        handle.plugin.metadata() == example_plugin_info(),
{
    PluginHandle { plugin: ExamplePlugin::new() }
}

/// Takes an instance back from the host and releases it: the plugin is
/// dropped when this function returns.
pub fn plugin_destroy<P: Plugin>(handle: PluginHandle<P>) {
    let PluginHandle { plugin: _plugin } = handle;
}

} // verus!
