#![allow(dead_code, non_camel_case_types, unused_imports, unused_variables)]

use version_migrate::codec::{
    from_json_str, parse_json, to_json_string, to_json_string_pretty, toml_to_json,
};
use version_migrate::record::{tag_record, untag_record};
use version_migrate::{
    AppPaths, ConfigMigrator, DirStorage, DirStorageStrategy, FileStorage, FileStorageStrategy,
    FilenameEncoding, FormatStrategy, FromDomain, FromValue, IntoDomain, IoOperationKind,
    LatestVersioned, LoadBehavior, MigratesTo, MigrationError, Migrator, Node, PathStrategy,
    Queryable, ToValue, Versioned, VersionedWrapper,
};

fn obj(fields: Vec<(&str, Node)>) -> Node {
    Node::Object(fields.into_iter().map(|(k, v)| (k.to_string(), v)).collect())
}

fn text(s: &str) -> Node {
    Node::Text(s.to_string())
}

fn num<T: ToString>(n: T) -> Node {
    Node::Number(n.to_string())
}

fn opt_text(s: &Option<String>) -> Node {
    match s {
        Some(s) => Node::Text(s.clone()),
        None => Node::Null,
    }
}

fn text_list(items: &[String]) -> Node {
    Node::Array(items.iter().map(|s| Node::Text(s.clone())).collect())
}

fn field<'a>(v: &'a Node, key: &str) -> Result<&'a Node, String> {
    match v {
        Node::Object(_) => v.get(key).ok_or_else(|| format!("missing field `{}`", key)),
        _ => Err("invalid type: expected an object".to_string()),
    }
}

fn get_text(v: &Node, key: &str) -> Result<String, String> {
    match field(v, key)? {
        Node::Text(s) => Ok(s.clone()),
        _ => Err(format!("invalid type for field `{}`: expected a string", key)),
    }
}

fn get_opt_text(v: &Node, key: &str) -> Result<Option<String>, String> {
    match v {
        Node::Object(_) => match v.get(key) {
            None | Some(Node::Null) => Ok(None),
            Some(Node::Text(s)) => Ok(Some(s.clone())),
            Some(_) => Err(format!("invalid type for field `{}`: expected a string", key)),
        },
        _ => Err("invalid type: expected an object".to_string()),
    }
}

fn get_num<T: std::str::FromStr>(v: &Node, key: &str) -> Result<T, String> {
    match field(v, key)? {
        Node::Number(n) => n.parse::<T>().map_err(|_| format!("invalid number for field `{}`", key)),
        _ => Err(format!("invalid type for field `{}`: expected a number", key)),
    }
}

fn get_bool(v: &Node, key: &str) -> Result<bool, String> {
    match field(v, key)? {
        Node::Bool(b) => Ok(*b),
        _ => Err(format!("invalid type for field `{}`: expected a boolean", key)),
    }
}

fn get_text_list(v: &Node, key: &str) -> Result<Vec<String>, String> {
    match field(v, key)? {
        Node::Array(items) => items
            .iter()
            .map(|i| match i {
                Node::Text(s) => Ok(s.clone()),
                _ => Err(format!("invalid item in field `{}`: expected a string", key)),
            })
            .collect(),
        _ => Err(format!("invalid type for field `{}`: expected a list", key)),
    }
}

/// The JSON text of a value.
fn json_of<T: ToValue>(value: &T) -> Result<String, MigrationError> {
    to_json_string(value)
}

/// The JSON text of a value paired with its version, as `{"version":..,"data":..}`.
fn wrapped_json<T: Versioned + ToValue>(data: T) -> String {
    to_json_string(&VersionedWrapper::from_versioned(data)).unwrap()
}

/// A node from JSON text.
fn node(text: &str) -> Node {
    parse_json(text).unwrap()
}

#[derive(Clone, Debug, PartialEq)]
struct TaskV1 {
    id: String,
    title: String,
}

impl ToValue for TaskV1 {
    fn to_value(&self) -> Result<Node, String> {
        Ok(obj(vec![
            ("id", text(&self.id)),
            ("title", text(&self.title)),
        ]))
    }
}

impl FromValue for TaskV1 {
    fn from_value(v: Node) -> Result<Self, String> {
        if !matches!(v, Node::Object(_)) {
            return Err("invalid type: expected struct TaskV1".to_string());
        }
        Ok(TaskV1 {
            id: match v.get("id") { Some(n) => match n { Node::Text(s) => Ok(s.clone()), _ => Err(format!("invalid type for `id`: expected a string")) }, None => Err("missing field `id`".to_string()) }?,
            title: match v.get("title") { Some(n) => match n { Node::Text(s) => Ok(s.clone()), _ => Err(format!("invalid type for `title`: expected a string")) }, None => Err("missing field `title`".to_string()) }?,
        })
    }
}

impl Versioned for TaskV1 {
    const VERSION: &'static str = "1.0.0";
}

#[derive(Clone, Debug, PartialEq)]
struct TaskV2 {
    id: String,
    title: String,
    description: Option<String>,
}

impl ToValue for TaskV2 {
    fn to_value(&self) -> Result<Node, String> {
        Ok(obj(vec![
            ("id", text(&self.id)),
            ("title", text(&self.title)),
            ("description", match &self.description { Some(x) => text(x), None => Node::Null }),
        ]))
    }
}

impl FromValue for TaskV2 {
    fn from_value(v: Node) -> Result<Self, String> {
        if !matches!(v, Node::Object(_)) {
            return Err("invalid type: expected struct TaskV2".to_string());
        }
        Ok(TaskV2 {
            id: match v.get("id") { Some(n) => match n { Node::Text(s) => Ok(s.clone()), _ => Err(format!("invalid type for `id`: expected a string")) }, None => Err("missing field `id`".to_string()) }?,
            title: match v.get("title") { Some(n) => match n { Node::Text(s) => Ok(s.clone()), _ => Err(format!("invalid type for `title`: expected a string")) }, None => Err("missing field `title`".to_string()) }?,
            description: match v.get("description") { Some(n) => match n { Node::Null => Ok(None), other => (match other { Node::Text(s) => Ok(s.clone()), _ => Err(format!("invalid type for `description`: expected a string")) }).map(Some) }, None => Ok(None) }?,
        })
    }
}

impl Versioned for TaskV2 {
    const VERSION: &'static str = "2.0.0";
}

#[derive(Clone, Debug, PartialEq)]
struct TaskV3 {
    id: String,
    title: String,
    description: Option<String>,
    tags: Vec<String>,
}

impl ToValue for TaskV3 {
    fn to_value(&self) -> Result<Node, String> {
        Ok(obj(vec![
            ("id", text(&self.id)),
            ("title", text(&self.title)),
            ("description", match &self.description { Some(x) => text(x), None => Node::Null }),
            ("tags", Node::Array({ let mut out = Vec::new(); for x in self.tags.iter() { out.push(text(&(*x))); } out })),
        ]))
    }
}

impl FromValue for TaskV3 {
    fn from_value(v: Node) -> Result<Self, String> {
        if !matches!(v, Node::Object(_)) {
            return Err("invalid type: expected struct TaskV3".to_string());
        }
        Ok(TaskV3 {
            id: match v.get("id") { Some(n) => match n { Node::Text(s) => Ok(s.clone()), _ => Err(format!("invalid type for `id`: expected a string")) }, None => Err("missing field `id`".to_string()) }?,
            title: match v.get("title") { Some(n) => match n { Node::Text(s) => Ok(s.clone()), _ => Err(format!("invalid type for `title`: expected a string")) }, None => Err("missing field `title`".to_string()) }?,
            description: match v.get("description") { Some(n) => match n { Node::Null => Ok(None), other => (match other { Node::Text(s) => Ok(s.clone()), _ => Err(format!("invalid type for `description`: expected a string")) }).map(Some) }, None => Ok(None) }?,
            tags: match v.get("tags") { Some(n) => match n { Node::Array(items) => { let mut out = Vec::new(); let mut bad = None; for item in items.iter() { match match item { Node::Text(s) => Ok(s.clone()), _ => Err(format!("invalid type for `tags`: expected a string")) } { Ok(x) => out.push(x), Err(e) => { bad = Some(e); break; } } } match bad { Some(e) => Err(e), None => Ok(out) } } _ => Err(format!("invalid type for `tags`: expected a list")) }, None => Err("missing field `tags`".to_string()) }?,
        })
    }
}

impl Versioned for TaskV3 {
    const VERSION: &'static str = "3.0.0";
}

#[derive(Debug, PartialEq)]
struct TaskEntity {
    id: String,
    title: String,
    description: Option<String>,
    tags: Vec<String>,
}

impl ToValue for TaskEntity {
    fn to_value(&self) -> Result<Node, String> {
        Ok(obj(vec![
            ("id", text(&self.id)),
            ("title", text(&self.title)),
            ("description", match &self.description { Some(x) => text(x), None => Node::Null }),
            ("tags", Node::Array({ let mut out = Vec::new(); for x in self.tags.iter() { out.push(text(&(*x))); } out })),
        ]))
    }
}

impl FromValue for TaskEntity {
    fn from_value(v: Node) -> Result<Self, String> {
        if !matches!(v, Node::Object(_)) {
            return Err("invalid type: expected struct TaskEntity".to_string());
        }
        Ok(TaskEntity {
            id: match v.get("id") { Some(n) => match n { Node::Text(s) => Ok(s.clone()), _ => Err(format!("invalid type for `id`: expected a string")) }, None => Err("missing field `id`".to_string()) }?,
            title: match v.get("title") { Some(n) => match n { Node::Text(s) => Ok(s.clone()), _ => Err(format!("invalid type for `title`: expected a string")) }, None => Err("missing field `title`".to_string()) }?,
            description: match v.get("description") { Some(n) => match n { Node::Null => Ok(None), other => (match other { Node::Text(s) => Ok(s.clone()), _ => Err(format!("invalid type for `description`: expected a string")) }).map(Some) }, None => Ok(None) }?,
            tags: match v.get("tags") { Some(n) => match n { Node::Array(items) => { let mut out = Vec::new(); let mut bad = None; for item in items.iter() { match match item { Node::Text(s) => Ok(s.clone()), _ => Err(format!("invalid type for `tags`: expected a string")) } { Ok(x) => out.push(x), Err(e) => { bad = Some(e); break; } } } match bad { Some(e) => Err(e), None => Ok(out) } } _ => Err(format!("invalid type for `tags`: expected a list")) }, None => Err("missing field `tags`".to_string()) }?,
        })
    }
}

impl MigratesTo<TaskV2> for TaskV1 {
    fn migrate(self) -> TaskV2 {
        TaskV2 {
            id: self.id,
            title: self.title,
            description: None,
        }
    }
}

impl MigratesTo<TaskV3> for TaskV1 {
    fn migrate(self) -> TaskV3 {
        TaskV3 {
            id: self.id,
            title: self.title,
            description: None,
            tags: Vec::new(),
        }
    }
}

impl IntoDomain<TaskEntity> for TaskV1 {
    fn into_domain(self) -> TaskEntity {
        TaskEntity {
            id: self.id,
            title: self.title,
            description: None,
            tags: Vec::new(),
        }
    }
}

impl MigratesTo<TaskV3> for TaskV2 {
    fn migrate(self) -> TaskV3 {
        TaskV3 {
            id: self.id,
            title: self.title,
            description: self.description,
            tags: Vec::new(),
        }
    }
}

impl IntoDomain<TaskEntity> for TaskV2 {
    fn into_domain(self) -> TaskEntity {
        TaskEntity {
            id: self.id,
            title: self.title,
            description: self.description,
            tags: Vec::new(),
        }
    }
}

impl IntoDomain<TaskEntity> for TaskV3 {
    fn into_domain(self) -> TaskEntity {
        TaskEntity {
            id: self.id,
            title: self.title,
            description: self.description,
            tags: self.tags,
        }
    }
}

#[test]
fn test_migrator_basic() {
    // Migrator::define("task").from::<V1>().into::<TaskEntity>() - domain model as final target
    let path = Migrator::define("task").from::<TaskV1>().into::<TaskEntity>();

    let mut migrator = Migrator::new();
    migrator.register(path).unwrap();

    // Test migration from V1 to domain via V3
    let task_v1 = TaskV1 {
        id: "1".to_string(),
        title: "Test Task".to_string(),
    };

    let json = migrator.save(task_v1).unwrap();
    let task_entity: TaskEntity = migrator.load("task", &json).unwrap();

    assert_eq!(task_entity.id, "1");
    assert_eq!(task_entity.title, "Test Task");
    assert_eq!(task_entity.description, None);
    assert_eq!(task_entity.tags, Vec::<String>::new());
}

#[test]
fn test_migrator_multi_step() {
    // Migrator::define("task").from::<V1>().step::<V2>().into::<TaskEntity>()
    let path = Migrator::define("task").from::<TaskV1>().step::<TaskV2>().into::<TaskEntity>();

    let mut migrator = Migrator::new();
    migrator.register(path).unwrap();

    // Test migration from V1 all the way to domain
    let task_v1 = TaskV1 {
        id: "1".to_string(),
        title: "Multi-step Task".to_string(),
    };

    let json = migrator.save(task_v1).unwrap();
    let task_entity: TaskEntity = migrator.load("task", &json).unwrap();

    assert_eq!(task_entity.id, "1");
    assert_eq!(task_entity.title, "Multi-step Task");
    assert_eq!(task_entity.description, None);
    assert_eq!(task_entity.tags, Vec::<String>::new());
}

#[test]
fn test_migrator_with_custom_keys() {
    // Test that the macro compiles with custom key syntax
    let _path = Migrator::define("task").with_keys("schema_version", "payload").from::<TaskV1>().into::<TaskEntity>();

    // Simple compilation test for now - the with_keys functionality can be tested separately
    assert!(true);
}

#[test]
fn test_migrator_syntax_compilation() {
    // This test just ensures all macro patterns compile correctly
    let _path1 = Migrator::define("task1").from::<TaskV1>().into::<TaskEntity>();
    let _path2 = Migrator::define("task2").from::<TaskV1>().step::<TaskV2>().into::<TaskEntity>();
    let _path3 = Migrator::define("task3").with_keys("v", "d").from::<TaskV1>().into::<TaskEntity>();
    let _path4 = Migrator::define("task4").with_keys("v", "d").from::<TaskV1>().step::<TaskV2>().into::<TaskEntity>();

    // If we get here, all patterns compiled successfully
    assert!(true);
}
