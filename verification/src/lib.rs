//! The contract between a time-tracking host and its plugins, and one plugin
//! that honours it while doing nothing.
//!
//! * [`records`] holds the records that the host and a plugin exchange.
//! * [`schema`] holds the descriptors by which a plugin asks for schema
//!   changes, and says when one is well formed.
//! * [`interface`] holds the two sides of the contract: [`Plugin`], which the
//!   host calls, and [`PluginAPIInterface`], which a plugin calls.
//! * [`plugin`] holds the example plugin.
//! * [`handle`] holds the hand-over of a plugin instance to the host.
//! * [`api`] holds the host's programming interface with no host behind it.

pub mod api;
pub mod handle;
pub mod interface;
pub mod json;
pub mod plugin;
pub mod records;
pub mod schema;
pub mod text;

pub use crate::api::PluginAPI;
pub use crate::handle::{plugin_destroy, plugin_init, PluginHandle};
pub use crate::interface::{Plugin, PluginAPIInterface, PluginInfo};
pub use crate::plugin::ExamplePlugin;
pub use crate::records::{Activity, Category, Event, EventType, Migration, SubscriptionId};
