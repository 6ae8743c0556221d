//! A plugin that does nothing, as a starting point for one that does.
//!
//! It carries fixed metadata, asks the host for one table with an index when
//! it is initialized, and serves a single command by handing it to the host's
//! database method of the same name.

use vstd::prelude::*;
use crate::interface::{
    Plugin, PluginAPIInterface, PluginInfo, PluginInfoView, lemma_refusal_names_command,
    unknown_command, unknown_command_message,
};
use crate::schema::{
    EntityType, SchemaChange, SchemaChangeView, SchemaExtension, TableColumn, TableColumnView,
    changes_well_formed,
};
use crate::text::{occurs_in, str_eq};

verus! {

/// The metadata of the example plugin.
pub open spec fn example_plugin_info() -> PluginInfoView {
    PluginInfoView {
        id: "example-plugin"@,
        name: "Example Plugin"@,
        version: "1.0.0"@,
        description: Some("An example plugin template for TimeTracker"@),
    }
}

/// A column without a default value and without a foreign key.
pub open spec fn plain_column(
    name: Seq<char>,
    column_type: Seq<char>,
    primary_key: bool,
    nullable: bool,
) -> TableColumnView {
    TableColumnView { name, column_type, primary_key, nullable, default: None, foreign_key: None }
}

/// The schema that the example plugin asks for: a table of keys and values
/// with the time each row was made, and an index over the keys.
pub open spec fn example_schema_changes() -> Seq<SchemaChangeView> {
    seq![
        SchemaChangeView::CreateTable {
            table: "example_plugin_data"@,
            columns: seq![
                plain_column("id"@, "INTEGER"@, true, false),
                plain_column("key"@, "TEXT"@, false, false),
                plain_column("value"@, "TEXT"@, false, true),
                plain_column("created_at"@, "INTEGER"@, false, false),
            ],
        },
        SchemaChangeView::AddIndex {
            table: "example_plugin_data"@,
            index: "idx_example_plugin_data_key"@,
            columns: seq!["key"@],
        },
    ]
}

/// The schema that the example plugin asks for is well formed.
pub proof fn lemma_example_schema_well_formed()
    ensures
        changes_well_formed(example_schema_changes()),
{
    reveal_strlit("example_plugin_data");
    reveal_strlit("idx_example_plugin_data_key");
    reveal_strlit("id");
    reveal_strlit("key");
    reveal_strlit("value");
    reveal_strlit("created_at");
}

/// The name of the one command that the example plugin serves, which is
/// also the name of the host's database method that answers it.
pub const EXAMPLE_COMMAND: &'static str = "get_example_data";

/// The one command that the example plugin serves.
pub open spec fn example_command() -> Seq<char> {
    EXAMPLE_COMMAND@
}

/// `done` is an answer of the host `api` to the registration of
/// [`example_schema_changes`] under the activity entity.
pub open spec fn registered_example_schema<A: PluginAPIInterface + ?Sized>(
    api: &A,
    done: Result<(), String>,
) -> bool {
    exists|changes: Vec<SchemaChange>|
        changes.deep_view() == example_schema_changes() && #[trigger] call_ensures(
            A::register_schema_extension,
            (api, EntityType::Activity, changes),
            done,
        )
}

/// `answer` is what the example plugin answers to `command` with `params`
/// before the host `api`: a reply of the host's database method
/// `get_example_data` to `params` if the command is [`example_command`], and
/// the refusal of the command if it is any other.
pub open spec fn answered_example_command<A: PluginAPIInterface + ?Sized>(
    api: &A,
    command: Seq<char>,
    params: serde_json::Value,
    answer: Result<serde_json::Value, String>,
) -> bool {
    if command == example_command() {
        call_ensures(A::call_db_method, (api, EXAMPLE_COMMAND, params), answer)
    } else {
        answer matches Err(message) && message@ == unknown_command_message(command)
    }
}

/// The host `api` accepts every registration of schema changes.
pub open spec fn host_accepts_registrations<A: PluginAPIInterface + ?Sized>(api: &A) -> bool {
    forall|entity_type: EntityType, changes: Vec<SchemaChange>, accepted: Result<(), String>|
        #[trigger] call_ensures(
            A::register_schema_extension,
            (api, entity_type, changes),
            accepted,
        ) ==> accepted is Ok
}

/// Every database method of the host `api` succeeds on every call.
pub open spec fn host_database_succeeds<A: PluginAPIInterface + ?Sized>(api: &A) -> bool {
    forall|method: &str, params: serde_json::Value, reply: Result<serde_json::Value, String>|
        #[trigger] call_ensures(A::call_db_method, (api, method, params), reply) ==> reply is Ok
}

/// Before a host that accepts every registration, the initialization of the
/// example plugin succeeds.
pub proof fn lemma_initialize_succeeds<A: PluginAPIInterface + ?Sized>(
    api: &A,
    done: Result<(), String>,
)
    requires
        host_accepts_registrations(api),
        registered_example_schema(api, done),
    ensures
        done is Ok,
{
}

/// Before a host whose database methods succeed, the command that the example
/// plugin serves succeeds. Before any host, every other command fails with a
/// message in which the command's name occurs.
pub proof fn lemma_command_answers<A: PluginAPIInterface + ?Sized>(
    api: &A,
    command: Seq<char>,
    params: serde_json::Value,
    answer: Result<serde_json::Value, String>,
)
    requires
        answered_example_command(api, command, params, answer),
    ensures
        command == example_command() && host_database_succeeds(api) ==> answer is Ok,
        command != example_command() ==> (answer matches Err(message) && occurs_in(
            command,
            message@,
        )),
{
    lemma_refusal_names_command(command);
}

/// Builds a column without a default value and without a foreign key.
fn column(name: &str, column_type: &str, primary_key: bool, nullable: bool) -> (built: TableColumn)
    ensures
        built@ == plain_column(name@, column_type@, primary_key, nullable),
{
    TableColumn {
        name: name.to_owned(),
        column_type: column_type.to_owned(),
        primary_key,
        nullable,
        default: None,
        foreign_key: None,
    }
}

/// The example plugin.
pub struct ExamplePlugin {
    info: PluginInfo,
}

impl ExamplePlugin {
    /// The plugin carries the metadata of the example plugin, always.
    #[verifier::type_invariant]
    spec fn carries_example_info(&self) -> bool {
        self.info@ == example_plugin_info()
    }

    /// A new instance of the example plugin.
    pub fn new() -> (plugin: Self)
        ensures
            plugin.metadata() == example_plugin_info(),
    {
        Self {
            info: PluginInfo {
                id: "example-plugin".to_owned(),
                name: "Example Plugin".to_owned(),
                version: "1.0.0".to_owned(),
                description: Some("An example plugin template for TimeTracker".to_owned()),
            },
        }
    }

    /// The schema changes that the plugin registers when it is initialized.
    pub fn schema_changes() -> (changes: Vec<SchemaChange>)
        ensures
            changes.deep_view() == example_schema_changes(),
            changes_well_formed(changes.deep_view()),
    {
        let mut columns: Vec<TableColumn> = Vec::new();
        columns.push(column("id", "INTEGER", true, false));
        columns.push(column("key", "TEXT", false, false));
        columns.push(column("value", "TEXT", false, true));
        columns.push(column("created_at", "INTEGER", false, false));
        assert(columns.deep_view() =~= example_schema_changes()[0]->CreateTable_columns);
        let mut indexed: Vec<String> = Vec::new();
        indexed.push("key".to_owned());
        assert(indexed.deep_view() =~= seq!["key"@]);
        let mut changes: Vec<SchemaChange> = Vec::new();
        changes.push(SchemaChange::CreateTable { table: "example_plugin_data".to_owned(), columns });
        changes.push(
            SchemaChange::AddIndex {
                table: "example_plugin_data".to_owned(),
                index: "idx_example_plugin_data_key".to_owned(),
                columns: indexed,
            },
        );
        proof {
            assert(changes.deep_view() =~~= example_schema_changes());
            lemma_example_schema_well_formed();
        }
        changes
    }

    /// Whether the plugin serves `command`.
    pub fn serves_command(command: &str) -> (served: bool)
        ensures
            served == (command@ == example_command()),
    {
        str_eq(command, EXAMPLE_COMMAND)
    }
}

impl Plugin for ExamplePlugin {
    closed spec fn metadata(&self) -> PluginInfoView {
        self.info@
    }

    open spec fn serves(&self, command: Seq<char>) -> bool {
        command == example_command()
    }

    fn info(&self) -> (info: &PluginInfo)
        ensures
            info@ == example_plugin_info(),
    {
        proof {
            use_type_invariant(self);
        }
        &self.info
    }

    /// Registers [`example_schema_changes`] with the host under the activity
    /// entity, and returns what the host answered.
    fn initialize<A: PluginAPIInterface + ?Sized>(&mut self, api: &A) -> (done: Result<(), String>)
        ensures
            registered_example_schema(api, done),
    {
        api.register_schema_extension(EntityType::Activity, Self::schema_changes())
    }

    /// Hands [`example_command`] to the host's database method of the same
    /// name, with `params` as they came, and returns the host's reply as it
    /// came. Every other command is refused.
    fn invoke_command<A: PluginAPIInterface + ?Sized>(
        &self,
        command: &str,
        params: serde_json::Value,
        api: &A,
    ) -> (answer: Result<serde_json::Value, String>)
        ensures
            answered_example_command(api, command@, params, answer),
    {
        if Self::serves_command(command) {
            api.call_db_method(EXAMPLE_COMMAND, params)
        } else {
            Err(unknown_command(command))
        }
    }

    fn shutdown(&self) -> (done: Result<(), String>)
        ensures
            done is Ok,
    {
        Ok(())
    }

    fn get_schema_extensions(&self) -> (extensions: Vec<SchemaExtension>)
        ensures
            extensions@.len() == 0,
    {
        Vec::new()
    }

    fn get_frontend_bundle(&self) -> (bundle: Option<Vec<u8>>)
        ensures
            bundle is None,
    {
        None
    }
}

} // verus!
