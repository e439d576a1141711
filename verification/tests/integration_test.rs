#![allow(dead_code, non_camel_case_types, unused_imports, unused_variables)]

use version_migrate::codec::{
    from_json_str, parse_json, to_json_string, to_json_string_pretty, toml_to_json,
};
use version_migrate::record::{tag_record, untag_record};
use version_migrate::{
    AppPaths, ConfigMigrator, DirStorage, DirStorageStrategy, FileStorage, FileStorageStrategy,
    FilenameEncoding, FormatStrategy, FromDomain, FromValue, IntoDomain, IoOperationKind,
    LatestVersioned, LoadBehavior, MigratesTo, MigrationError, Migrator, Node, PathStrategy,
    Queryable, ToValue, Versioned, VersionedWrapper,
};

fn obj(fields: Vec<(&str, Node)>) -> Node {
    Node::Object(fields.into_iter().map(|(k, v)| (k.to_string(), v)).collect())
}

fn text(s: &str) -> Node {
    Node::Text(s.to_string())
}

fn num<T: ToString>(n: T) -> Node {
    Node::Number(n.to_string())
}

fn opt_text(s: &Option<String>) -> Node {
    match s {
        Some(s) => Node::Text(s.clone()),
        None => Node::Null,
    }
}

fn text_list(items: &[String]) -> Node {
    Node::Array(items.iter().map(|s| Node::Text(s.clone())).collect())
}

fn field<'a>(v: &'a Node, key: &str) -> Result<&'a Node, String> {
    match v {
        Node::Object(_) => v.get(key).ok_or_else(|| format!("missing field `{}`", key)),
        _ => Err("invalid type: expected an object".to_string()),
    }
}

fn get_text(v: &Node, key: &str) -> Result<String, String> {
    match field(v, key)? {
        Node::Text(s) => Ok(s.clone()),
        _ => Err(format!("invalid type for field `{}`: expected a string", key)),
    }
}

fn get_opt_text(v: &Node, key: &str) -> Result<Option<String>, String> {
    match v {
        Node::Object(_) => match v.get(key) {
            None | Some(Node::Null) => Ok(None),
            Some(Node::Text(s)) => Ok(Some(s.clone())),
            Some(_) => Err(format!("invalid type for field `{}`: expected a string", key)),
        },
        _ => Err("invalid type: expected an object".to_string()),
    }
}

fn get_num<T: std::str::FromStr>(v: &Node, key: &str) -> Result<T, String> {
    match field(v, key)? {
        Node::Number(n) => n.parse::<T>().map_err(|_| format!("invalid number for field `{}`", key)),
        _ => Err(format!("invalid type for field `{}`: expected a number", key)),
    }
}

fn get_bool(v: &Node, key: &str) -> Result<bool, String> {
    match field(v, key)? {
        Node::Bool(b) => Ok(*b),
        _ => Err(format!("invalid type for field `{}`: expected a boolean", key)),
    }
}

fn get_text_list(v: &Node, key: &str) -> Result<Vec<String>, String> {
    match field(v, key)? {
        Node::Array(items) => items
            .iter()
            .map(|i| match i {
                Node::Text(s) => Ok(s.clone()),
                _ => Err(format!("invalid item in field `{}`: expected a string", key)),
            })
            .collect(),
        _ => Err(format!("invalid type for field `{}`: expected a list", key)),
    }
}

/// The JSON text of a value.
fn json_of<T: ToValue>(value: &T) -> Result<String, MigrationError> {
    to_json_string(value)
}

/// The JSON text of a value paired with its version, as `{"version":..,"data":..}`.
fn wrapped_json<T: Versioned + ToValue>(data: T) -> String {
    to_json_string(&VersionedWrapper::from_versioned(data)).unwrap()
}

/// A node from JSON text.
fn node(text: &str) -> Node {
    parse_json(text).unwrap()
}

#[test]
fn test_scenario_task_v1_loads_as_domain() {
    let task_path = Migrator::define("task")
        .from::<TaskV1_0_0>()
        .step::<TaskV1_1_0>()
        .into::<TaskEntity>();
    let mut migrator = Migrator::new();
    migrator.register(task_path).unwrap();

    let task: TaskEntity =
        migrator.load("task", r#"{"version":"1.0.0","data":{"id":"1","title":"T"}}"#).unwrap();
    assert_eq!(task, TaskEntity { id: "1".to_string(), title: "T".to_string(), description: None });
}

// Version 1.0.0 of Task
struct TaskV1_0_0 {
    id: String,
    title: String,
}

impl Versioned for TaskV1_0_0 {
    const VERSION: &'static str = "1.0.0";
    const VERSION_KEY: &'static str = "version";
    const DATA_KEY: &'static str = "data";
}

impl ToValue for TaskV1_0_0 {
    fn to_value(&self) -> Result<Node, String> {
        Ok(obj(vec![
            ("id", text(&self.id)),
            ("title", text(&self.title)),
        ]))
    }
}

impl FromValue for TaskV1_0_0 {
    fn from_value(v: Node) -> Result<Self, String> {
        if !matches!(v, Node::Object(_)) {
            return Err("invalid type: expected struct TaskV1_0_0".to_string());
        }
        Ok(TaskV1_0_0 {
            id: match v.get("id") { Some(n) => match n { Node::Text(s) => Ok(s.clone()), _ => Err(format!("invalid type for `id`: expected a string")) }, None => Err("missing field `id`".to_string()) }?,
            title: match v.get("title") { Some(n) => match n { Node::Text(s) => Ok(s.clone()), _ => Err(format!("invalid type for `title`: expected a string")) }, None => Err("missing field `title`".to_string()) }?,
        })
    }
}

// Version 1.1.0 of Task (added description field)
struct TaskV1_1_0 {
    id: String,
    title: String,
    description: Option<String>,
}

impl Versioned for TaskV1_1_0 {
    const VERSION: &'static str = "1.1.0";
    const VERSION_KEY: &'static str = "version";
    const DATA_KEY: &'static str = "data";
}

impl ToValue for TaskV1_1_0 {
    fn to_value(&self) -> Result<Node, String> {
        Ok(obj(vec![
            ("id", text(&self.id)),
            ("title", text(&self.title)),
            ("description", match &self.description { Some(x) => text(x), None => Node::Null }),
        ]))
    }
}

impl FromValue for TaskV1_1_0 {
    fn from_value(v: Node) -> Result<Self, String> {
        if !matches!(v, Node::Object(_)) {
            return Err("invalid type: expected struct TaskV1_1_0".to_string());
        }
        Ok(TaskV1_1_0 {
            id: match v.get("id") { Some(n) => match n { Node::Text(s) => Ok(s.clone()), _ => Err(format!("invalid type for `id`: expected a string")) }, None => Err("missing field `id`".to_string()) }?,
            title: match v.get("title") { Some(n) => match n { Node::Text(s) => Ok(s.clone()), _ => Err(format!("invalid type for `title`: expected a string")) }, None => Err("missing field `title`".to_string()) }?,
            description: match v.get("description") { Some(n) => match n { Node::Null => Ok(None), other => (match other { Node::Text(s) => Ok(s.clone()), _ => Err(format!("invalid type for `description`: expected a string")) }).map(Some) }, None => Ok(None) }?,
        })
    }
}

// Domain model (clean, version-agnostic)
#[derive(Debug, PartialEq)]
struct TaskEntity {
    id: String,
    title: String,
    description: Option<String>,
}

impl ToValue for TaskEntity {
    fn to_value(&self) -> Result<Node, String> {
        Ok(obj(vec![
            ("id", text(&self.id)),
            ("title", text(&self.title)),
            ("description", match &self.description { Some(x) => text(x), None => Node::Null }),
        ]))
    }
}

impl FromValue for TaskEntity {
    fn from_value(v: Node) -> Result<Self, String> {
        if !matches!(v, Node::Object(_)) {
            return Err("invalid type: expected struct TaskEntity".to_string());
        }
        Ok(TaskEntity {
            id: match v.get("id") { Some(n) => match n { Node::Text(s) => Ok(s.clone()), _ => Err(format!("invalid type for `id`: expected a string")) }, None => Err("missing field `id`".to_string()) }?,
            title: match v.get("title") { Some(n) => match n { Node::Text(s) => Ok(s.clone()), _ => Err(format!("invalid type for `title`: expected a string")) }, None => Err("missing field `title`".to_string()) }?,
            description: match v.get("description") { Some(n) => match n { Node::Null => Ok(None), other => (match other { Node::Text(s) => Ok(s.clone()), _ => Err(format!("invalid type for `description`: expected a string")) }).map(Some) }, None => Ok(None) }?,
        })
    }
}

// Migration from V1.0.0 to V1.1.0
impl MigratesTo<TaskV1_1_0> for TaskV1_0_0 {
    fn migrate(self) -> TaskV1_1_0 {
        TaskV1_1_0 {
            id: self.id,
            title: self.title,
            description: None, // Default value for new field
        }
    }
}

// Conversion from latest version to domain model
impl IntoDomain<TaskEntity> for TaskV1_1_0 {
    fn into_domain(self) -> TaskEntity {
        TaskEntity {
            id: self.id,
            title: self.title,
            description: self.description,
        }
    }
}

#[test]
fn test_migration_from_v1_0_0_to_domain() {
    // Create old version data
    let old_task = TaskV1_0_0 {
        id: "task-1".to_string(),
        title: "Test Task".to_string(),
    };

    // Wrap it with version info
    let wrapped = VersionedWrapper::from_versioned(old_task);
    let json = json_of(&wrapped).expect("Failed to serialize");

    // Setup migrator
    let task_path = Migrator::define("task")
        .from::<TaskV1_0_0>()
        .step::<TaskV1_1_0>()
        .into::<TaskEntity>();

    let mut migrator = Migrator::new();
    migrator.register(task_path).unwrap();

    // Load and migrate
    let task: TaskEntity = migrator.load("task", &json).expect("Migration failed");

    // Verify the result
    assert_eq!(task.id, "task-1");
    assert_eq!(task.title, "Test Task");
    assert_eq!(task.description, None);
}

#[test]
fn test_load_latest_version() {
    // Create latest version data
    let latest_task = TaskV1_1_0 {
        id: "task-2".to_string(),
        title: "Latest Task".to_string(),
        description: Some("This is a description".to_string()),
    };

    // Wrap it with version info
    let wrapped = VersionedWrapper::from_versioned(latest_task);
    let json = json_of(&wrapped).expect("Failed to serialize");

    // Setup migrator (no migration steps needed, just conversion to domain)
    let task_path = Migrator::define("task")
        .from::<TaskV1_1_0>()
        .into::<TaskEntity>();

    let mut migrator = Migrator::new();
    migrator.register(task_path).unwrap();

    // Load
    let task: TaskEntity = migrator.load("task", &json).expect("Load failed");

    // Verify the result
    assert_eq!(task.id, "task-2");
    assert_eq!(task.title, "Latest Task");
    assert_eq!(task.description, Some("This is a description".to_string()));
}

#[test]
fn test_versioned_trait() {
    assert_eq!(TaskV1_0_0::VERSION, "1.0.0");
    assert_eq!(TaskV1_1_0::VERSION, "1.1.0");
}

#[test]
fn test_versioned_wrapper() {
    let task = TaskV1_0_0 {
        id: "test".to_string(),
        title: "Test".to_string(),
    };

    let wrapper = VersionedWrapper::from_versioned(task);
    assert_eq!(wrapper.version, "1.0.0");
    assert_eq!(wrapper.data.id, "test");
}

#[test]
fn test_save_and_load_with_migrator() {
    let migrator = Migrator::new();

    // Save V1.0.0 data
    let task_v1 = TaskV1_0_0 {
        id: "task-save".to_string(),
        title: "Saved Task".to_string(),
    };

    let json = migrator.save(task_v1).expect("Save failed");

    // Verify JSON format
    assert!(json.contains("\"version\":\"1.0.0\""));
    assert!(json.contains("\"task-save\""));
    assert!(json.contains("\"Saved Task\""));

    // Setup migration path
    let task_path = Migrator::define("task")
        .from::<TaskV1_0_0>()
        .step::<TaskV1_1_0>()
        .into::<TaskEntity>();

    let mut migrator = Migrator::new();
    migrator.register(task_path).unwrap();

    // Load and migrate the saved data
    let loaded: TaskEntity = migrator.load("task", &json).expect("Load failed");

    assert_eq!(loaded.id, "task-save");
    assert_eq!(loaded.title, "Saved Task");
    assert_eq!(loaded.description, None); // Default from migration
}

#[test]
fn test_save_latest_and_load() {
    let migrator = Migrator::new();

    // Save V1.1.0 data (latest version)
    let task_v1_1 = TaskV1_1_0 {
        id: "task-latest".to_string(),
        title: "Latest Task".to_string(),
        description: Some("With description".to_string()),
    };

    let json = migrator.save(task_v1_1).expect("Save failed");

    // Setup migration path for latest version
    let task_path = Migrator::define("task")
        .from::<TaskV1_1_0>()
        .into::<TaskEntity>();

    let mut migrator = Migrator::new();
    migrator.register(task_path).unwrap();

    // Load without migration needed
    let loaded: TaskEntity = migrator.load("task", &json).expect("Load failed");

    assert_eq!(loaded.id, "task-latest");
    assert_eq!(loaded.title, "Latest Task");
    assert_eq!(loaded.description, Some("With description".to_string()));
}

#[test]
fn test_roundtrip_preserves_data() {
    let migrator = Migrator::new();

    // Original data
    let original = TaskV1_1_0 {
        id: "roundtrip-1".to_string(),
        title: "Roundtrip Test".to_string(),
        description: Some("Testing roundtrip".to_string()),
    };

    // Save
    let json = migrator.save(original).expect("Save failed");

    // Load back
    let wrapper: VersionedWrapper<TaskV1_1_0> = VersionedWrapper::from_node(node(&json)).expect("Parse failed");

    // Verify all fields preserved
    assert_eq!(wrapper.version, "1.1.0");
    assert_eq!(wrapper.data.id, "roundtrip-1");
    assert_eq!(wrapper.data.title, "Roundtrip Test");
    assert_eq!(
        wrapper.data.description,
        Some("Testing roundtrip".to_string())
    );
}

#[test]
fn test_load_from_toml() {
    // Create TOML representation of versioned data
    let toml_str = r#"
version = "1.0.0"

[data]
id = "task-toml"
title = "Task from TOML"
"#;

    // Parse TOML
    let toml_value: toml::Value = toml::from_str(toml_str).expect("Failed to parse TOML");

    // Setup migrator
    let task_path = Migrator::define("task")
        .from::<TaskV1_0_0>()
        .step::<TaskV1_1_0>()
        .into::<TaskEntity>();

    let mut migrator = Migrator::new();
    migrator.register(task_path).unwrap();

    // Load from TOML using load_from
    let task: TaskEntity = migrator
        .load_from("task", toml_value)
        .expect("Failed to load from TOML");

    // Verify the result
    assert_eq!(task.id, "task-toml");
    assert_eq!(task.title, "Task from TOML");
    assert_eq!(task.description, None); // Default from migration
}

#[test]
fn test_load_from_toml_latest_version() {
    // Create TOML representation with latest version
    let toml_str = r#"
version = "1.1.0"

[data]
id = "task-toml-latest"
title = "Latest Task from TOML"
description = "TOML description"
"#;

    // Parse TOML
    let toml_value: toml::Value = toml::from_str(toml_str).expect("Failed to parse TOML");

    // Setup migrator
    let task_path = Migrator::define("task")
        .from::<TaskV1_1_0>()
        .into::<TaskEntity>();

    let mut migrator = Migrator::new();
    migrator.register(task_path).unwrap();

    // Load from TOML
    let task: TaskEntity = migrator
        .load_from("task", toml_value)
        .expect("Failed to load from TOML");

    // Verify the result
    assert_eq!(task.id, "task-toml-latest");
    assert_eq!(task.title, "Latest Task from TOML");
    assert_eq!(task.description, Some("TOML description".to_string()));
}

#[test]
fn test_load_from_yaml() {
    // Create YAML representation of versioned data
    let yaml_str = r#"
version: "1.0.0"
data:
  id: "task-yaml"
  title: "Task from YAML"
"#;

    // Parse YAML
    let yaml_value: serde_yaml::Value =
        serde_yaml::from_str(yaml_str).expect("Failed to parse YAML");

    // Setup migrator
    let task_path = Migrator::define("task")
        .from::<TaskV1_0_0>()
        .step::<TaskV1_1_0>()
        .into::<TaskEntity>();

    let mut migrator = Migrator::new();
    migrator.register(task_path).unwrap();

    // Load from YAML using load_from
    let task: TaskEntity = migrator
        .load_from("task", node(&serde_json::to_string(&yaml_value).unwrap()))
        .expect("Failed to load from YAML");

    // Verify the result
    assert_eq!(task.id, "task-yaml");
    assert_eq!(task.title, "Task from YAML");
    assert_eq!(task.description, None); // Default from migration
}

#[test]
fn test_load_from_yaml_latest_version() {
    // Create YAML representation with latest version
    let yaml_str = r#"
version: "1.1.0"
data:
  id: "task-yaml-latest"
  title: "Latest Task from YAML"
  description: "YAML description"
"#;

    // Parse YAML
    let yaml_value: serde_yaml::Value =
        serde_yaml::from_str(yaml_str).expect("Failed to parse YAML");

    // Setup migrator
    let task_path = Migrator::define("task")
        .from::<TaskV1_1_0>()
        .into::<TaskEntity>();

    let mut migrator = Migrator::new();
    migrator.register(task_path).unwrap();

    // Load from YAML
    let task: TaskEntity = migrator
        .load_from("task", node(&serde_json::to_string(&yaml_value).unwrap()))
        .expect("Failed to load from YAML");

    // Verify the result
    assert_eq!(task.id, "task-yaml-latest");
    assert_eq!(task.title, "Latest Task from YAML");
    assert_eq!(task.description, Some("YAML description".to_string()));
}

#[test]
fn test_load_from_multi_format_consistency() {
    // Setup migrator once
    let task_path = Migrator::define("task")
        .from::<TaskV1_0_0>()
        .step::<TaskV1_1_0>()
        .into::<TaskEntity>();

    let mut migrator = Migrator::new();
    migrator.register(task_path).unwrap();

    // Same data in different formats
    let json_str =
        r#"{"version":"1.0.0","data":{"id":"multi-format","title":"Multi Format Test"}}"#;

    let toml_str = r#"
version = "1.0.0"
[data]
id = "multi-format"
title = "Multi Format Test"
"#;

    let yaml_str = r#"
version: "1.0.0"
data:
  id: "multi-format"
  title: "Multi Format Test"
"#;

    // Load from JSON
    let from_json: TaskEntity = migrator.load("task", json_str).expect("JSON load failed");

    // Load from TOML
    let toml_value: toml::Value = toml::from_str(toml_str).expect("TOML parse failed");
    let from_toml: TaskEntity = migrator
        .load_from("task", toml_value)
        .expect("TOML load failed");

    // Load from YAML
    let yaml_value: serde_yaml::Value = serde_yaml::from_str(yaml_str).expect("YAML parse failed");
    let from_yaml: TaskEntity = migrator
        .load_from("task", node(&serde_json::to_string(&yaml_value).unwrap()))
        .expect("YAML load failed");

    // All should produce the same result
    assert_eq!(from_json, from_toml);
    assert_eq!(from_json, from_yaml);
    assert_eq!(from_json.id, "multi-format");
    assert_eq!(from_json.title, "Multi Format Test");
}
