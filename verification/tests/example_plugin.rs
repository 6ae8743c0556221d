use std::sync::Mutex;

use time_tracker_plugin::handle::{plugin_destroy, plugin_init};
use time_tracker_plugin::interface::{unknown_command, Plugin, PluginAPIInterface, PluginInfo};
use time_tracker_plugin::plugin::{ExamplePlugin, EXAMPLE_COMMAND};
use time_tracker_plugin::schema::{EntityType, SchemaChange, TableColumn};

/// A host that notes what it is asked and answers as it was told to.
struct ScriptedHost {
    registration: Result<(), String>,
    reply: Result<serde_json::Value, String>,
    registered: Mutex<Vec<(EntityType, Vec<SchemaChange>)>>,
    called: Mutex<Vec<(String, serde_json::Value)>>,
}

impl ScriptedHost {
    fn answering(reply: Result<serde_json::Value, String>) -> Self {
        ScriptedHost {
            registration: Ok(()),
            reply,
            registered: Mutex::new(Vec::new()),
            called: Mutex::new(Vec::new()),
        }
    }

    fn rejecting(message: &str) -> Self {
        ScriptedHost {
            registration: Err(message.to_string()),
            reply: Ok(serde_json::Value::Null),
            registered: Mutex::new(Vec::new()),
            called: Mutex::new(Vec::new()),
        }
    }
}

impl PluginAPIInterface for ScriptedHost {
    fn register_schema_extension(
        &self,
        entity_type: EntityType,
        schema_changes: Vec<SchemaChange>,
    ) -> Result<(), String> {
        self.registered.lock().unwrap().push((entity_type, schema_changes));
        self.registration.clone()
    }

    fn call_db_method(
        &self,
        method: &str,
        params: serde_json::Value,
    ) -> Result<serde_json::Value, String> {
        self.called.lock().unwrap().push((method.to_string(), params));
        self.reply.clone()
    }
}

fn empty_object() -> serde_json::Value {
    serde_json::Value::Object(serde_json::Map::new())
}

fn rows() -> serde_json::Value {
    let mut row = serde_json::Map::new();
    row.insert("key".to_string(), serde_json::Value::from("colour"));
    row.insert("value".to_string(), serde_json::Value::from("green"));
    row.insert("created_at".to_string(), serde_json::Value::from(1_700_000_000_i64));
    serde_json::Value::Array(vec![serde_json::Value::Object(row)])
}

fn column(name: &str, column_type: &str, primary_key: bool, nullable: bool) -> TableColumn {
    TableColumn {
        name: name.to_string(),
        column_type: column_type.to_string(),
        primary_key,
        nullable,
        default: None,
        foreign_key: None,
    }
}

fn expected_schema() -> Vec<SchemaChange> {
    vec![
        SchemaChange::CreateTable {
            table: "example_plugin_data".to_string(),
            columns: vec![
                column("id", "INTEGER", true, false),
                column("key", "TEXT", false, false),
                column("value", "TEXT", false, true),
                column("created_at", "INTEGER", false, false),
            ],
        },
        SchemaChange::AddIndex {
            table: "example_plugin_data".to_string(),
            index: "idx_example_plugin_data_key".to_string(),
            columns: vec!["key".to_string()],
        },
    ]
}

fn expected_info() -> PluginInfo {
    PluginInfo {
        id: "example-plugin".to_string(),
        name: "Example Plugin".to_string(),
        version: "1.0.0".to_string(),
        description: Some("An example plugin template for TimeTracker".to_string()),
    }
}

#[test]
fn new_plugin_carries_the_example_metadata() {
    let plugin = ExamplePlugin::new();
    assert_eq!(plugin.info(), &expected_info());
}

#[test]
fn info_is_the_same_on_every_call() {
    let mut plugin = ExamplePlugin::new();
    let first = plugin.info().clone();
    let second = plugin.info().clone();
    assert_eq!(first, second);
    let host = ScriptedHost::answering(Ok(serde_json::Value::Null));
    assert_eq!(plugin.initialize(&host), Ok(()));
    let _ = plugin.invoke_command("get_example_data", empty_object(), &host);
    let _ = plugin.invoke_command("nothing", empty_object(), &host);
    assert_eq!(plugin.shutdown(), Ok(()));
    let last = plugin.info().clone();
    assert_eq!(first.id, last.id);
    assert_eq!(first.name, last.name);
    assert_eq!(first.version, last.version);
    assert_eq!(first, last);
}

#[test]
fn schema_changes_are_the_example_table_and_its_index() {
    assert_eq!(ExamplePlugin::schema_changes(), expected_schema());
}

#[test]
fn schema_changes_are_well_formed() {
    let changes = ExamplePlugin::schema_changes();
    assert_eq!(changes.len(), 2);
    for change in changes.iter() {
        assert!(change.is_well_formed());
    }
    assert!(time_tracker_plugin::schema::are_changes_well_formed(&changes));
}

#[test]
fn initialize_registers_the_example_schema_under_activities() {
    let mut plugin = ExamplePlugin::new();
    let host = ScriptedHost::answering(Ok(serde_json::Value::Null));
    assert_eq!(plugin.initialize(&host), Ok(()));
    let registered = host.registered.lock().unwrap();
    assert_eq!(registered.len(), 1);
    assert_eq!(registered[0].0, EntityType::Activity);
    assert_eq!(registered[0].1, expected_schema());
    assert!(host.called.lock().unwrap().is_empty());
}

#[test]
fn initialize_fails_with_the_message_of_a_host_that_rejects() {
    let mut plugin = ExamplePlugin::new();
    let host = ScriptedHost::rejecting("schema extensions are closed");
    assert_eq!(plugin.initialize(&host), Err("schema extensions are closed".to_string()));
    assert_eq!(plugin.info(), &expected_info());
}

#[test]
fn get_example_data_returns_what_the_host_returns() {
    let plugin = ExamplePlugin::new();
    let host = ScriptedHost::answering(Ok(rows()));
    let answer = plugin.invoke_command("get_example_data", empty_object(), &host);
    assert_eq!(answer, Ok(rows()));
    let called = host.called.lock().unwrap();
    assert_eq!(called.len(), 1);
    assert_eq!(called[0].0, "get_example_data");
    assert_eq!(called[0].1, empty_object());
}

#[test]
fn get_example_data_hands_the_parameters_on_as_they_came() {
    let plugin = ExamplePlugin::new();
    let host = ScriptedHost::answering(Ok(serde_json::Value::Null));
    let answer = plugin.invoke_command("get_example_data", rows(), &host);
    assert_eq!(answer, Ok(serde_json::Value::Null));
    let called = host.called.lock().unwrap();
    assert_eq!(called.len(), 1);
    assert_eq!(called[0].1, rows());
}

#[test]
fn get_example_data_fails_as_the_host_fails() {
    let plugin = ExamplePlugin::new();
    let host = ScriptedHost::answering(Err("no such table".to_string()));
    let answer = plugin.invoke_command("get_example_data", empty_object(), &host);
    assert_eq!(answer, Err("no such table".to_string()));
}

#[test]
fn unknown_command_is_refused_by_name() {
    let plugin = ExamplePlugin::new();
    let host = ScriptedHost::answering(Ok(rows()));
    let answer = plugin.invoke_command("totally_unknown_command", empty_object(), &host);
    assert_eq!(answer, Err("Unknown command: totally_unknown_command".to_string()));
    assert!(host.called.lock().unwrap().is_empty());
}

#[test]
fn unknown_command_is_refused_whatever_the_parameters() {
    let plugin = ExamplePlugin::new();
    let host = ScriptedHost::answering(Ok(rows()));
    for params in [serde_json::Value::Null, empty_object(), rows(), serde_json::Value::from(7)] {
        let answer = plugin.invoke_command("totally_unknown_command", params, &host);
        assert_eq!(answer, Err("Unknown command: totally_unknown_command".to_string()));
    }
    assert!(host.called.lock().unwrap().is_empty());
}

#[test]
fn every_other_name_is_refused_with_a_message_that_holds_it() {
    let plugin = ExamplePlugin::new();
    let host = ScriptedHost::answering(Ok(rows()));
    let names = [
        "",
        " ",
        "get_example_dat",
        "get_example_data ",
        "get_example_data2",
        "GET_EXAMPLE_DATA",
        "set_example_data",
        "get example data",
        "données",
    ];
    for name in names {
        assert!(!ExamplePlugin::serves_command(name));
        match plugin.invoke_command(name, empty_object(), &host) {
            Ok(_) => panic!("served {name:?}"),
            Err(message) => {
                assert!(message.contains(name));
                assert_eq!(message, format!("Unknown command: {name}"));
            }
        }
    }
    assert!(host.called.lock().unwrap().is_empty());
}

#[test]
fn the_example_command_is_served() {
    assert_eq!(EXAMPLE_COMMAND, "get_example_data");
    assert!(ExamplePlugin::serves_command(EXAMPLE_COMMAND));
    assert!(ExamplePlugin::serves_command("get_example_data"));
    let plugin = ExamplePlugin::new();
    let host = ScriptedHost::answering(Ok(serde_json::Value::from(true)));
    assert_eq!(
        plugin.invoke_command("get_example_data", empty_object(), &host),
        Ok(serde_json::Value::from(true))
    );
}

#[test]
fn unknown_command_message_is_prefix_and_name() {
    assert_eq!(unknown_command("sync"), "Unknown command: sync");
    assert_eq!(unknown_command(""), "Unknown command: ");
    assert_eq!(unknown_command("a b"), "Unknown command: a b");
}

#[test]
fn shutdown_succeeds_and_may_be_repeated() {
    let plugin = ExamplePlugin::new();
    assert_eq!(plugin.shutdown(), Ok(()));
    assert_eq!(plugin.shutdown(), Ok(()));
}

#[test]
fn example_plugin_declares_no_schema_extension_and_no_bundle() {
    let plugin = ExamplePlugin::new();
    assert!(plugin.get_schema_extensions().is_empty());
    assert_eq!(plugin.get_frontend_bundle(), None);
}

#[test]
fn lifecycle_round_trip_through_the_handle() {
    let host = ScriptedHost::answering(Ok(rows()));
    let mut handle = plugin_init();
    assert_eq!(handle.plugin.info(), &expected_info());
    assert_eq!(handle.plugin.initialize(&host), Ok(()));
    assert_eq!(handle.plugin.invoke_command("get_example_data", empty_object(), &host), Ok(rows()));
    assert_eq!(
        handle.plugin.invoke_command("totally_unknown_command", empty_object(), &host),
        Err("Unknown command: totally_unknown_command".to_string())
    );
    assert_eq!(handle.plugin.shutdown(), Ok(()));
    assert!(handle.plugin.get_schema_extensions().is_empty());
    assert_eq!(handle.plugin.get_frontend_bundle(), None);
    plugin_destroy(handle);
    assert_eq!(host.registered.lock().unwrap().len(), 1);
}

#[test]
fn a_host_behind_a_trait_object_is_called_all_the_same() {
    let scripted = ScriptedHost::answering(Ok(rows()));
    let host: &dyn PluginAPIInterface = &scripted;
    let mut plugin = ExamplePlugin::new();
    assert_eq!(plugin.initialize(host), Ok(()));
    assert_eq!(plugin.invoke_command("get_example_data", empty_object(), host), Ok(rows()));
    assert_eq!(scripted.registered.lock().unwrap().len(), 1);
    assert_eq!(scripted.called.lock().unwrap().len(), 1);
}

#[test]
fn two_handles_hold_two_instances() {
    let first = plugin_init();
    let second = plugin_init();
    assert_eq!(first.plugin.info(), second.plugin.info());
    plugin_destroy(first);
    assert_eq!(second.plugin.info(), &expected_info());
    plugin_destroy(second);
}
