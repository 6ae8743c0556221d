//! What a host expects of a plugin, and what a plugin may ask of its host.

use vstd::prelude::*;
use crate::schema::{EntityType, SchemaChange, SchemaExtension, changes_well_formed, extensions_well_formed};
use crate::text::occurs_in;

verus! {

/// The metadata by which the host knows a plugin.
#[derive(Debug, Clone, PartialEq, Eq)]
pub struct PluginInfo {
    pub id: String,
    pub name: String,
    pub version: String,
    pub description: Option<String>,
}

/// What a [`PluginInfo`] holds, as mathematical values.
pub struct PluginInfoView {
    pub id: Seq<char>,
    pub name: Seq<char>,
    pub version: Seq<char>,
    pub description: Option<Seq<char>>,
}

impl DeepView for PluginInfo {
    type V = PluginInfoView;

    open spec fn deep_view(&self) -> PluginInfoView {
        PluginInfoView {
            id: self.id@,
            name: self.name@,
            version: self.version@,
            description: self.description.deep_view(),
        }
    }
}

impl View for PluginInfo {
    type V = PluginInfoView;

    open spec fn view(&self) -> PluginInfoView {
        self.deep_view()
    }
}

/// The message with which a plugin refuses a command it does not serve.
pub open spec fn unknown_command_message(command: Seq<char>) -> Seq<char> {
    "Unknown command: "@ + command
}

/// Builds the message with which a plugin refuses `command`.
pub fn unknown_command(command: &str) -> (message: String)
    ensures
        message@ == unknown_command_message(command@),
{
    "Unknown command: ".to_owned().concat(command)
}

/// The refusal of a command names the command that was refused.
pub proof fn lemma_refusal_names_command(command: Seq<char>)
    ensures
        occurs_in(command, unknown_command_message(command)),
{
    let message = unknown_command_message(command);
    let start = "Unknown command: "@.len() as int;
    assert(message.subrange(start, start + command.len()) =~= command);
}

/// The host, as a plugin sees it.
///
/// Nothing is promised of what the host answers: it may accept or reject a
/// registration, and a database method may return any value or fail with any
/// message.
pub trait PluginAPIInterface {
    /// Asks the host to apply `schema_changes`, grouped under `entity_type`.
    /// The host hears of well-formed changes only.
    fn register_schema_extension(
        &self,
        entity_type: EntityType,
        schema_changes: Vec<SchemaChange>,
    ) -> (accepted: Result<(), String>)
        requires
            changes_well_formed(schema_changes.deep_view()),
    ;

    /// Calls the host's database method `method` with `params`.
    fn call_db_method(&self, method: &str, params: serde_json::Value) -> (reply: Result<
        serde_json::Value,
        String,
    >);
}

/// What the host expects of every plugin.
pub trait Plugin: Send + Sync {
    /// The metadata that the plugin carries.
    spec fn metadata(&self) -> PluginInfoView;

    /// Whether the plugin serves a command of this name.
    spec fn serves(&self, command: Seq<char>) -> bool;

    /// The bytes of the plugin's user interface, where it has one: none
    /// unless the plugin says otherwise.
    open spec fn frontend_bundle(&self) -> Option<Seq<u8>> {
        None
    }

    /// The plugin's metadata. It never changes.
    fn info(&self) -> (info: &PluginInfo)
        ensures
            info@ == self.metadata(),
    ;

    /// Sets the plugin up, once, before any command. The plugin may register
    /// schema extensions with `api`, and fails with the host's message if the
    /// host rejects one. Its metadata stays as it was.
    fn initialize<A: PluginAPIInterface + ?Sized>(&mut self, api: &A) -> (done: Result<(), String>)
        ensures
            final(self).metadata() == old(self).metadata(),
    ;

    /// Serves the command `command` with parameters `params`. A command that
    /// the plugin does not serve is refused with [`unknown_command_message`].
    fn invoke_command<A: PluginAPIInterface + ?Sized>(
        &self,
        command: &str,
        params: serde_json::Value,
        api: &A,
    ) -> (answer: Result<serde_json::Value, String>)
        ensures
            !self.serves(command@) ==> (answer matches Err(message) && message@
                == unknown_command_message(command@)),
    ;

    /// Releases what the plugin holds, once, before it is unloaded.
    fn shutdown(&self) -> (done: Result<(), String>);

    /// The schema extensions that the plugin declares: none unless the plugin
    /// says otherwise, and well-formed ones only.
    fn get_schema_extensions(&self) -> (extensions: Vec<SchemaExtension>)
        ensures
            extensions_well_formed(extensions.deep_view()),
    {
        Vec::new()
    }

    /// The bundle of the plugin's user interface: none unless the plugin
    /// says otherwise. Bytes that are returned are the bytes of
    /// [`Plugin::frontend_bundle`]; none tells the host that there is no
    /// interface to show.
    fn get_frontend_bundle(&self) -> (bundle: Option<Vec<u8>>)
        ensures
            bundle matches Some(bytes) ==> self.frontend_bundle() == Some(bytes@),
    {
        None
    }
}

} // verus!
