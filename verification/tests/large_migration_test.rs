#![allow(dead_code, non_camel_case_types, unused_imports, unused_variables)]

use version_migrate::codec::{
    from_json_str, parse_json, to_json_string, to_json_string_pretty, toml_to_json,
};
use version_migrate::record::{tag_record, untag_record};
use version_migrate::{
    AppPaths, ConfigMigrator, DirStorage, DirStorageStrategy, FileStorage, FileStorageStrategy,
    FilenameEncoding, FormatStrategy, FromDomain, FromValue, IntoDomain, IoOperationKind,
    LatestVersioned, LoadBehavior, MigratesTo, MigrationError, Migrator, Node, PathStrategy,
    Queryable, ToValue, Versioned, VersionedWrapper,
};

fn obj(fields: Vec<(&str, Node)>) -> Node {
    Node::Object(fields.into_iter().map(|(k, v)| (k.to_string(), v)).collect())
}

fn text(s: &str) -> Node {
    Node::Text(s.to_string())
}

fn num<T: ToString>(n: T) -> Node {
    Node::Number(n.to_string())
}

fn opt_text(s: &Option<String>) -> Node {
    match s {
        Some(s) => Node::Text(s.clone()),
        None => Node::Null,
    }
}

fn text_list(items: &[String]) -> Node {
    Node::Array(items.iter().map(|s| Node::Text(s.clone())).collect())
}

fn field<'a>(v: &'a Node, key: &str) -> Result<&'a Node, String> {
    match v {
        Node::Object(_) => v.get(key).ok_or_else(|| format!("missing field `{}`", key)),
        _ => Err("invalid type: expected an object".to_string()),
    }
}

fn get_text(v: &Node, key: &str) -> Result<String, String> {
    match field(v, key)? {
        Node::Text(s) => Ok(s.clone()),
        _ => Err(format!("invalid type for field `{}`: expected a string", key)),
    }
}

fn get_opt_text(v: &Node, key: &str) -> Result<Option<String>, String> {
    match v {
        Node::Object(_) => match v.get(key) {
            None | Some(Node::Null) => Ok(None),
            Some(Node::Text(s)) => Ok(Some(s.clone())),
            Some(_) => Err(format!("invalid type for field `{}`: expected a string", key)),
        },
        _ => Err("invalid type: expected an object".to_string()),
    }
}

fn get_num<T: std::str::FromStr>(v: &Node, key: &str) -> Result<T, String> {
    match field(v, key)? {
        Node::Number(n) => n.parse::<T>().map_err(|_| format!("invalid number for field `{}`", key)),
        _ => Err(format!("invalid type for field `{}`: expected a number", key)),
    }
}

fn get_bool(v: &Node, key: &str) -> Result<bool, String> {
    match field(v, key)? {
        Node::Bool(b) => Ok(*b),
        _ => Err(format!("invalid type for field `{}`: expected a boolean", key)),
    }
}

fn get_text_list(v: &Node, key: &str) -> Result<Vec<String>, String> {
    match field(v, key)? {
        Node::Array(items) => items
            .iter()
            .map(|i| match i {
                Node::Text(s) => Ok(s.clone()),
                _ => Err(format!("invalid item in field `{}`: expected a string", key)),
            })
            .collect(),
        _ => Err(format!("invalid type for field `{}`: expected a list", key)),
    }
}

/// The JSON text of a value.
fn json_of<T: ToValue>(value: &T) -> Result<String, MigrationError> {
    to_json_string(value)
}

/// The JSON text of a value paired with its version, as `{"version":..,"data":..}`.
fn wrapped_json<T: Versioned + ToValue>(data: T) -> String {
    to_json_string(&VersionedWrapper::from_versioned(data)).unwrap()
}

/// A node from JSON text.
fn node(text: &str) -> Node {
    parse_json(text).unwrap()
}

// Define test versions V1 through V10
#[derive(Clone, Debug, PartialEq)]
struct TaskV1 {
    id: String,
}

impl ToValue for TaskV1 {
    fn to_value(&self) -> Result<Node, String> {
        Ok(obj(vec![
            ("id", text(&self.id)),
        ]))
    }
}

impl FromValue for TaskV1 {
    fn from_value(v: Node) -> Result<Self, String> {
        if !matches!(v, Node::Object(_)) {
            return Err("invalid type: expected struct TaskV1".to_string());
        }
        Ok(TaskV1 {
            id: match v.get("id") { Some(n) => match n { Node::Text(s) => Ok(s.clone()), _ => Err(format!("invalid type for `id`: expected a string")) }, None => Err("missing field `id`".to_string()) }?,
        })
    }
}

#[derive(Clone, Debug, PartialEq)]
struct TaskV2 {
    id: String,
    title: String,
}

impl ToValue for TaskV2 {
    fn to_value(&self) -> Result<Node, String> {
        Ok(obj(vec![
            ("id", text(&self.id)),
            ("title", text(&self.title)),
        ]))
    }
}

impl FromValue for TaskV2 {
    fn from_value(v: Node) -> Result<Self, String> {
        if !matches!(v, Node::Object(_)) {
            return Err("invalid type: expected struct TaskV2".to_string());
        }
        Ok(TaskV2 {
            id: match v.get("id") { Some(n) => match n { Node::Text(s) => Ok(s.clone()), _ => Err(format!("invalid type for `id`: expected a string")) }, None => Err("missing field `id`".to_string()) }?,
            title: match v.get("title") { Some(n) => match n { Node::Text(s) => Ok(s.clone()), _ => Err(format!("invalid type for `title`: expected a string")) }, None => Err("missing field `title`".to_string()) }?,
        })
    }
}

#[derive(Clone, Debug, PartialEq)]
struct TaskV3 {
    id: String,
    title: String,
    description: Option<String>,
}

impl ToValue for TaskV3 {
    fn to_value(&self) -> Result<Node, String> {
        Ok(obj(vec![
            ("id", text(&self.id)),
            ("title", text(&self.title)),
            ("description", match &self.description { Some(x) => text(x), None => Node::Null }),
        ]))
    }
}

impl FromValue for TaskV3 {
    fn from_value(v: Node) -> Result<Self, String> {
        if !matches!(v, Node::Object(_)) {
            return Err("invalid type: expected struct TaskV3".to_string());
        }
        Ok(TaskV3 {
            id: match v.get("id") { Some(n) => match n { Node::Text(s) => Ok(s.clone()), _ => Err(format!("invalid type for `id`: expected a string")) }, None => Err("missing field `id`".to_string()) }?,
            title: match v.get("title") { Some(n) => match n { Node::Text(s) => Ok(s.clone()), _ => Err(format!("invalid type for `title`: expected a string")) }, None => Err("missing field `title`".to_string()) }?,
            description: match v.get("description") { Some(n) => match n { Node::Null => Ok(None), other => (match other { Node::Text(s) => Ok(s.clone()), _ => Err(format!("invalid type for `description`: expected a string")) }).map(Some) }, None => Ok(None) }?,
        })
    }
}

#[derive(Clone, Debug, PartialEq)]
struct TaskV4 {
    id: String,
    title: String,
    description: Option<String>,
    status: String,
}

impl ToValue for TaskV4 {
    fn to_value(&self) -> Result<Node, String> {
        Ok(obj(vec![
            ("id", text(&self.id)),
            ("title", text(&self.title)),
            ("description", match &self.description { Some(x) => text(x), None => Node::Null }),
            ("status", text(&self.status)),
        ]))
    }
}

impl FromValue for TaskV4 {
    fn from_value(v: Node) -> Result<Self, String> {
        if !matches!(v, Node::Object(_)) {
            return Err("invalid type: expected struct TaskV4".to_string());
        }
        Ok(TaskV4 {
            id: match v.get("id") { Some(n) => match n { Node::Text(s) => Ok(s.clone()), _ => Err(format!("invalid type for `id`: expected a string")) }, None => Err("missing field `id`".to_string()) }?,
            title: match v.get("title") { Some(n) => match n { Node::Text(s) => Ok(s.clone()), _ => Err(format!("invalid type for `title`: expected a string")) }, None => Err("missing field `title`".to_string()) }?,
            description: match v.get("description") { Some(n) => match n { Node::Null => Ok(None), other => (match other { Node::Text(s) => Ok(s.clone()), _ => Err(format!("invalid type for `description`: expected a string")) }).map(Some) }, None => Ok(None) }?,
            status: match v.get("status") { Some(n) => match n { Node::Text(s) => Ok(s.clone()), _ => Err(format!("invalid type for `status`: expected a string")) }, None => Err("missing field `status`".to_string()) }?,
        })
    }
}

#[derive(Clone, Debug, PartialEq)]
struct TaskV5 {
    id: String,
    title: String,
    description: Option<String>,
    status: String,
    priority: i32,
}

impl ToValue for TaskV5 {
    fn to_value(&self) -> Result<Node, String> {
        Ok(obj(vec![
            ("id", text(&self.id)),
            ("title", text(&self.title)),
            ("description", match &self.description { Some(x) => text(x), None => Node::Null }),
            ("status", text(&self.status)),
            ("priority", num(self.priority)),
        ]))
    }
}

impl FromValue for TaskV5 {
    fn from_value(v: Node) -> Result<Self, String> {
        if !matches!(v, Node::Object(_)) {
            return Err("invalid type: expected struct TaskV5".to_string());
        }
        Ok(TaskV5 {
            id: match v.get("id") { Some(n) => match n { Node::Text(s) => Ok(s.clone()), _ => Err(format!("invalid type for `id`: expected a string")) }, None => Err("missing field `id`".to_string()) }?,
            title: match v.get("title") { Some(n) => match n { Node::Text(s) => Ok(s.clone()), _ => Err(format!("invalid type for `title`: expected a string")) }, None => Err("missing field `title`".to_string()) }?,
            description: match v.get("description") { Some(n) => match n { Node::Null => Ok(None), other => (match other { Node::Text(s) => Ok(s.clone()), _ => Err(format!("invalid type for `description`: expected a string")) }).map(Some) }, None => Ok(None) }?,
            status: match v.get("status") { Some(n) => match n { Node::Text(s) => Ok(s.clone()), _ => Err(format!("invalid type for `status`: expected a string")) }, None => Err("missing field `status`".to_string()) }?,
            priority: match v.get("priority") { Some(n) => match n { Node::Number(n) => n.parse::<i32>().map_err(|_| format!("invalid number for `priority`")), _ => Err(format!("invalid type for `priority`: expected a number")) }, None => Err("missing field `priority`".to_string()) }?,
        })
    }
}

#[derive(Clone, Debug, PartialEq)]
struct TaskV6 {
    id: String,
    title: String,
    description: Option<String>,
    status: String,
    priority: i32,
    tags: Vec<String>,
}

impl ToValue for TaskV6 {
    fn to_value(&self) -> Result<Node, String> {
        Ok(obj(vec![
            ("id", text(&self.id)),
            ("title", text(&self.title)),
            ("description", match &self.description { Some(x) => text(x), None => Node::Null }),
            ("status", text(&self.status)),
            ("priority", num(self.priority)),
            ("tags", Node::Array({ let mut out = Vec::new(); for x in self.tags.iter() { out.push(text(&(*x))); } out })),
        ]))
    }
}

impl FromValue for TaskV6 {
    fn from_value(v: Node) -> Result<Self, String> {
        if !matches!(v, Node::Object(_)) {
            return Err("invalid type: expected struct TaskV6".to_string());
        }
        Ok(TaskV6 {
            id: match v.get("id") { Some(n) => match n { Node::Text(s) => Ok(s.clone()), _ => Err(format!("invalid type for `id`: expected a string")) }, None => Err("missing field `id`".to_string()) }?,
            title: match v.get("title") { Some(n) => match n { Node::Text(s) => Ok(s.clone()), _ => Err(format!("invalid type for `title`: expected a string")) }, None => Err("missing field `title`".to_string()) }?,
            description: match v.get("description") { Some(n) => match n { Node::Null => Ok(None), other => (match other { Node::Text(s) => Ok(s.clone()), _ => Err(format!("invalid type for `description`: expected a string")) }).map(Some) }, None => Ok(None) }?,
            status: match v.get("status") { Some(n) => match n { Node::Text(s) => Ok(s.clone()), _ => Err(format!("invalid type for `status`: expected a string")) }, None => Err("missing field `status`".to_string()) }?,
            priority: match v.get("priority") { Some(n) => match n { Node::Number(n) => n.parse::<i32>().map_err(|_| format!("invalid number for `priority`")), _ => Err(format!("invalid type for `priority`: expected a number")) }, None => Err("missing field `priority`".to_string()) }?,
            tags: match v.get("tags") { Some(n) => match n { Node::Array(items) => { let mut out = Vec::new(); let mut bad = None; for item in items.iter() { match match item { Node::Text(s) => Ok(s.clone()), _ => Err(format!("invalid type for `tags`: expected a string")) } { Ok(x) => out.push(x), Err(e) => { bad = Some(e); break; } } } match bad { Some(e) => Err(e), None => Ok(out) } } _ => Err(format!("invalid type for `tags`: expected a list")) }, None => Err("missing field `tags`".to_string()) }?,
        })
    }
}

#[derive(Clone, Debug, PartialEq)]
struct TaskV7 {
    id: String,
    title: String,
    description: Option<String>,
    status: String,
    priority: i32,
    tags: Vec<String>,
    due_date: Option<String>,
}

impl ToValue for TaskV7 {
    fn to_value(&self) -> Result<Node, String> {
        Ok(obj(vec![
            ("id", text(&self.id)),
            ("title", text(&self.title)),
            ("description", match &self.description { Some(x) => text(x), None => Node::Null }),
            ("status", text(&self.status)),
            ("priority", num(self.priority)),
            ("tags", Node::Array({ let mut out = Vec::new(); for x in self.tags.iter() { out.push(text(&(*x))); } out })),
            ("due_date", match &self.due_date { Some(x) => text(x), None => Node::Null }),
        ]))
    }
}

impl FromValue for TaskV7 {
    fn from_value(v: Node) -> Result<Self, String> {
        if !matches!(v, Node::Object(_)) {
            return Err("invalid type: expected struct TaskV7".to_string());
        }
        Ok(TaskV7 {
            id: match v.get("id") { Some(n) => match n { Node::Text(s) => Ok(s.clone()), _ => Err(format!("invalid type for `id`: expected a string")) }, None => Err("missing field `id`".to_string()) }?,
            title: match v.get("title") { Some(n) => match n { Node::Text(s) => Ok(s.clone()), _ => Err(format!("invalid type for `title`: expected a string")) }, None => Err("missing field `title`".to_string()) }?,
            description: match v.get("description") { Some(n) => match n { Node::Null => Ok(None), other => (match other { Node::Text(s) => Ok(s.clone()), _ => Err(format!("invalid type for `description`: expected a string")) }).map(Some) }, None => Ok(None) }?,
            status: match v.get("status") { Some(n) => match n { Node::Text(s) => Ok(s.clone()), _ => Err(format!("invalid type for `status`: expected a string")) }, None => Err("missing field `status`".to_string()) }?,
            priority: match v.get("priority") { Some(n) => match n { Node::Number(n) => n.parse::<i32>().map_err(|_| format!("invalid number for `priority`")), _ => Err(format!("invalid type for `priority`: expected a number")) }, None => Err("missing field `priority`".to_string()) }?,
            tags: match v.get("tags") { Some(n) => match n { Node::Array(items) => { let mut out = Vec::new(); let mut bad = None; for item in items.iter() { match match item { Node::Text(s) => Ok(s.clone()), _ => Err(format!("invalid type for `tags`: expected a string")) } { Ok(x) => out.push(x), Err(e) => { bad = Some(e); break; } } } match bad { Some(e) => Err(e), None => Ok(out) } } _ => Err(format!("invalid type for `tags`: expected a list")) }, None => Err("missing field `tags`".to_string()) }?,
            due_date: match v.get("due_date") { Some(n) => match n { Node::Null => Ok(None), other => (match other { Node::Text(s) => Ok(s.clone()), _ => Err(format!("invalid type for `due_date`: expected a string")) }).map(Some) }, None => Ok(None) }?,
        })
    }
}

#[derive(Clone, Debug, PartialEq)]
struct TaskV8 {
    id: String,
    title: String,
    description: Option<String>,
    status: String,
    priority: i32,
    tags: Vec<String>,
    due_date: Option<String>,
    assignee: Option<String>,
}

impl ToValue for TaskV8 {
    fn to_value(&self) -> Result<Node, String> {
        Ok(obj(vec![
            ("id", text(&self.id)),
            ("title", text(&self.title)),
            ("description", match &self.description { Some(x) => text(x), None => Node::Null }),
            ("status", text(&self.status)),
            ("priority", num(self.priority)),
            ("tags", Node::Array({ let mut out = Vec::new(); for x in self.tags.iter() { out.push(text(&(*x))); } out })),
            ("due_date", match &self.due_date { Some(x) => text(x), None => Node::Null }),
            ("assignee", match &self.assignee { Some(x) => text(x), None => Node::Null }),
        ]))
    }
}

impl FromValue for TaskV8 {
    fn from_value(v: Node) -> Result<Self, String> {
        if !matches!(v, Node::Object(_)) {
            return Err("invalid type: expected struct TaskV8".to_string());
        }
        Ok(TaskV8 {
            id: match v.get("id") { Some(n) => match n { Node::Text(s) => Ok(s.clone()), _ => Err(format!("invalid type for `id`: expected a string")) }, None => Err("missing field `id`".to_string()) }?,
            title: match v.get("title") { Some(n) => match n { Node::Text(s) => Ok(s.clone()), _ => Err(format!("invalid type for `title`: expected a string")) }, None => Err("missing field `title`".to_string()) }?,
            description: match v.get("description") { Some(n) => match n { Node::Null => Ok(None), other => (match other { Node::Text(s) => Ok(s.clone()), _ => Err(format!("invalid type for `description`: expected a string")) }).map(Some) }, None => Ok(None) }?,
            status: match v.get("status") { Some(n) => match n { Node::Text(s) => Ok(s.clone()), _ => Err(format!("invalid type for `status`: expected a string")) }, None => Err("missing field `status`".to_string()) }?,
            priority: match v.get("priority") { Some(n) => match n { Node::Number(n) => n.parse::<i32>().map_err(|_| format!("invalid number for `priority`")), _ => Err(format!("invalid type for `priority`: expected a number")) }, None => Err("missing field `priority`".to_string()) }?,
            tags: match v.get("tags") { Some(n) => match n { Node::Array(items) => { let mut out = Vec::new(); let mut bad = None; for item in items.iter() { match match item { Node::Text(s) => Ok(s.clone()), _ => Err(format!("invalid type for `tags`: expected a string")) } { Ok(x) => out.push(x), Err(e) => { bad = Some(e); break; } } } match bad { Some(e) => Err(e), None => Ok(out) } } _ => Err(format!("invalid type for `tags`: expected a list")) }, None => Err("missing field `tags`".to_string()) }?,
            due_date: match v.get("due_date") { Some(n) => match n { Node::Null => Ok(None), other => (match other { Node::Text(s) => Ok(s.clone()), _ => Err(format!("invalid type for `due_date`: expected a string")) }).map(Some) }, None => Ok(None) }?,
            assignee: match v.get("assignee") { Some(n) => match n { Node::Null => Ok(None), other => (match other { Node::Text(s) => Ok(s.clone()), _ => Err(format!("invalid type for `assignee`: expected a string")) }).map(Some) }, None => Ok(None) }?,
        })
    }
}

#[derive(Clone, Debug, PartialEq)]
struct TaskV9 {
    id: String,
    title: String,
    description: Option<String>,
    status: String,
    priority: i32,
    tags: Vec<String>,
    due_date: Option<String>,
    assignee: Option<String>,
    created_at: String,
}

impl ToValue for TaskV9 {
    fn to_value(&self) -> Result<Node, String> {
        Ok(obj(vec![
            ("id", text(&self.id)),
            ("title", text(&self.title)),
            ("description", match &self.description { Some(x) => text(x), None => Node::Null }),
            ("status", text(&self.status)),
            ("priority", num(self.priority)),
            ("tags", Node::Array({ let mut out = Vec::new(); for x in self.tags.iter() { out.push(text(&(*x))); } out })),
            ("due_date", match &self.due_date { Some(x) => text(x), None => Node::Null }),
            ("assignee", match &self.assignee { Some(x) => text(x), None => Node::Null }),
            ("created_at", text(&self.created_at)),
        ]))
    }
}

impl FromValue for TaskV9 {
    fn from_value(v: Node) -> Result<Self, String> {
        if !matches!(v, Node::Object(_)) {
            return Err("invalid type: expected struct TaskV9".to_string());
        }
        Ok(TaskV9 {
            id: match v.get("id") { Some(n) => match n { Node::Text(s) => Ok(s.clone()), _ => Err(format!("invalid type for `id`: expected a string")) }, None => Err("missing field `id`".to_string()) }?,
            title: match v.get("title") { Some(n) => match n { Node::Text(s) => Ok(s.clone()), _ => Err(format!("invalid type for `title`: expected a string")) }, None => Err("missing field `title`".to_string()) }?,
            description: match v.get("description") { Some(n) => match n { Node::Null => Ok(None), other => (match other { Node::Text(s) => Ok(s.clone()), _ => Err(format!("invalid type for `description`: expected a string")) }).map(Some) }, None => Ok(None) }?,
            status: match v.get("status") { Some(n) => match n { Node::Text(s) => Ok(s.clone()), _ => Err(format!("invalid type for `status`: expected a string")) }, None => Err("missing field `status`".to_string()) }?,
            priority: match v.get("priority") { Some(n) => match n { Node::Number(n) => n.parse::<i32>().map_err(|_| format!("invalid number for `priority`")), _ => Err(format!("invalid type for `priority`: expected a number")) }, None => Err("missing field `priority`".to_string()) }?,
            tags: match v.get("tags") { Some(n) => match n { Node::Array(items) => { let mut out = Vec::new(); let mut bad = None; for item in items.iter() { match match item { Node::Text(s) => Ok(s.clone()), _ => Err(format!("invalid type for `tags`: expected a string")) } { Ok(x) => out.push(x), Err(e) => { bad = Some(e); break; } } } match bad { Some(e) => Err(e), None => Ok(out) } } _ => Err(format!("invalid type for `tags`: expected a list")) }, None => Err("missing field `tags`".to_string()) }?,
            due_date: match v.get("due_date") { Some(n) => match n { Node::Null => Ok(None), other => (match other { Node::Text(s) => Ok(s.clone()), _ => Err(format!("invalid type for `due_date`: expected a string")) }).map(Some) }, None => Ok(None) }?,
            assignee: match v.get("assignee") { Some(n) => match n { Node::Null => Ok(None), other => (match other { Node::Text(s) => Ok(s.clone()), _ => Err(format!("invalid type for `assignee`: expected a string")) }).map(Some) }, None => Ok(None) }?,
            created_at: match v.get("created_at") { Some(n) => match n { Node::Text(s) => Ok(s.clone()), _ => Err(format!("invalid type for `created_at`: expected a string")) }, None => Err("missing field `created_at`".to_string()) }?,
        })
    }
}

#[derive(Clone, Debug, PartialEq)]
struct TaskV10 {
    id: String,
    title: String,
    description: Option<String>,
    status: String,
    priority: i32,
    tags: Vec<String>,
    due_date: Option<String>,
    assignee: Option<String>,
    created_at: String,
    updated_at: String,
}

impl ToValue for TaskV10 {
    fn to_value(&self) -> Result<Node, String> {
        Ok(obj(vec![
            ("id", text(&self.id)),
            ("title", text(&self.title)),
            ("description", match &self.description { Some(x) => text(x), None => Node::Null }),
            ("status", text(&self.status)),
            ("priority", num(self.priority)),
            ("tags", Node::Array({ let mut out = Vec::new(); for x in self.tags.iter() { out.push(text(&(*x))); } out })),
            ("due_date", match &self.due_date { Some(x) => text(x), None => Node::Null }),
            ("assignee", match &self.assignee { Some(x) => text(x), None => Node::Null }),
            ("created_at", text(&self.created_at)),
            ("updated_at", text(&self.updated_at)),
        ]))
    }
}

impl FromValue for TaskV10 {
    fn from_value(v: Node) -> Result<Self, String> {
        if !matches!(v, Node::Object(_)) {
            return Err("invalid type: expected struct TaskV10".to_string());
        }
        Ok(TaskV10 {
            id: match v.get("id") { Some(n) => match n { Node::Text(s) => Ok(s.clone()), _ => Err(format!("invalid type for `id`: expected a string")) }, None => Err("missing field `id`".to_string()) }?,
            title: match v.get("title") { Some(n) => match n { Node::Text(s) => Ok(s.clone()), _ => Err(format!("invalid type for `title`: expected a string")) }, None => Err("missing field `title`".to_string()) }?,
            description: match v.get("description") { Some(n) => match n { Node::Null => Ok(None), other => (match other { Node::Text(s) => Ok(s.clone()), _ => Err(format!("invalid type for `description`: expected a string")) }).map(Some) }, None => Ok(None) }?,
            status: match v.get("status") { Some(n) => match n { Node::Text(s) => Ok(s.clone()), _ => Err(format!("invalid type for `status`: expected a string")) }, None => Err("missing field `status`".to_string()) }?,
            priority: match v.get("priority") { Some(n) => match n { Node::Number(n) => n.parse::<i32>().map_err(|_| format!("invalid number for `priority`")), _ => Err(format!("invalid type for `priority`: expected a number")) }, None => Err("missing field `priority`".to_string()) }?,
            tags: match v.get("tags") { Some(n) => match n { Node::Array(items) => { let mut out = Vec::new(); let mut bad = None; for item in items.iter() { match match item { Node::Text(s) => Ok(s.clone()), _ => Err(format!("invalid type for `tags`: expected a string")) } { Ok(x) => out.push(x), Err(e) => { bad = Some(e); break; } } } match bad { Some(e) => Err(e), None => Ok(out) } } _ => Err(format!("invalid type for `tags`: expected a list")) }, None => Err("missing field `tags`".to_string()) }?,
            due_date: match v.get("due_date") { Some(n) => match n { Node::Null => Ok(None), other => (match other { Node::Text(s) => Ok(s.clone()), _ => Err(format!("invalid type for `due_date`: expected a string")) }).map(Some) }, None => Ok(None) }?,
            assignee: match v.get("assignee") { Some(n) => match n { Node::Null => Ok(None), other => (match other { Node::Text(s) => Ok(s.clone()), _ => Err(format!("invalid type for `assignee`: expected a string")) }).map(Some) }, None => Ok(None) }?,
            created_at: match v.get("created_at") { Some(n) => match n { Node::Text(s) => Ok(s.clone()), _ => Err(format!("invalid type for `created_at`: expected a string")) }, None => Err("missing field `created_at`".to_string()) }?,
            updated_at: match v.get("updated_at") { Some(n) => match n { Node::Text(s) => Ok(s.clone()), _ => Err(format!("invalid type for `updated_at`: expected a string")) }, None => Err("missing field `updated_at`".to_string()) }?,
        })
    }
}

// Domain model
#[derive(Debug, PartialEq)]
struct TaskEntity {
    id: String,
    title: String,
    description: Option<String>,
    status: String,
    priority: i32,
    tags: Vec<String>,
    due_date: Option<String>,
    assignee: Option<String>,
    created_at: String,
    updated_at: String,
}

impl ToValue for TaskEntity {
    fn to_value(&self) -> Result<Node, String> {
        Ok(obj(vec![
            ("id", text(&self.id)),
            ("title", text(&self.title)),
            ("description", match &self.description { Some(x) => text(x), None => Node::Null }),
            ("status", text(&self.status)),
            ("priority", num(self.priority)),
            ("tags", Node::Array({ let mut out = Vec::new(); for x in self.tags.iter() { out.push(text(&(*x))); } out })),
            ("due_date", match &self.due_date { Some(x) => text(x), None => Node::Null }),
            ("assignee", match &self.assignee { Some(x) => text(x), None => Node::Null }),
            ("created_at", text(&self.created_at)),
            ("updated_at", text(&self.updated_at)),
        ]))
    }
}

impl FromValue for TaskEntity {
    fn from_value(v: Node) -> Result<Self, String> {
        if !matches!(v, Node::Object(_)) {
            return Err("invalid type: expected struct TaskEntity".to_string());
        }
        Ok(TaskEntity {
            id: match v.get("id") { Some(n) => match n { Node::Text(s) => Ok(s.clone()), _ => Err(format!("invalid type for `id`: expected a string")) }, None => Err("missing field `id`".to_string()) }?,
            title: match v.get("title") { Some(n) => match n { Node::Text(s) => Ok(s.clone()), _ => Err(format!("invalid type for `title`: expected a string")) }, None => Err("missing field `title`".to_string()) }?,
            description: match v.get("description") { Some(n) => match n { Node::Null => Ok(None), other => (match other { Node::Text(s) => Ok(s.clone()), _ => Err(format!("invalid type for `description`: expected a string")) }).map(Some) }, None => Ok(None) }?,
            status: match v.get("status") { Some(n) => match n { Node::Text(s) => Ok(s.clone()), _ => Err(format!("invalid type for `status`: expected a string")) }, None => Err("missing field `status`".to_string()) }?,
            priority: match v.get("priority") { Some(n) => match n { Node::Number(n) => n.parse::<i32>().map_err(|_| format!("invalid number for `priority`")), _ => Err(format!("invalid type for `priority`: expected a number")) }, None => Err("missing field `priority`".to_string()) }?,
            tags: match v.get("tags") { Some(n) => match n { Node::Array(items) => { let mut out = Vec::new(); let mut bad = None; for item in items.iter() { match match item { Node::Text(s) => Ok(s.clone()), _ => Err(format!("invalid type for `tags`: expected a string")) } { Ok(x) => out.push(x), Err(e) => { bad = Some(e); break; } } } match bad { Some(e) => Err(e), None => Ok(out) } } _ => Err(format!("invalid type for `tags`: expected a list")) }, None => Err("missing field `tags`".to_string()) }?,
            due_date: match v.get("due_date") { Some(n) => match n { Node::Null => Ok(None), other => (match other { Node::Text(s) => Ok(s.clone()), _ => Err(format!("invalid type for `due_date`: expected a string")) }).map(Some) }, None => Ok(None) }?,
            assignee: match v.get("assignee") { Some(n) => match n { Node::Null => Ok(None), other => (match other { Node::Text(s) => Ok(s.clone()), _ => Err(format!("invalid type for `assignee`: expected a string")) }).map(Some) }, None => Ok(None) }?,
            created_at: match v.get("created_at") { Some(n) => match n { Node::Text(s) => Ok(s.clone()), _ => Err(format!("invalid type for `created_at`: expected a string")) }, None => Err("missing field `created_at`".to_string()) }?,
            updated_at: match v.get("updated_at") { Some(n) => match n { Node::Text(s) => Ok(s.clone()), _ => Err(format!("invalid type for `updated_at`: expected a string")) }, None => Err("missing field `updated_at`".to_string()) }?,
        })
    }
}

// Implement Versioned for all versions
impl Versioned for TaskV1 {
    const VERSION: &'static str = "1.0.0";
}

impl Versioned for TaskV2 {
    const VERSION: &'static str = "2.0.0";
}

impl Versioned for TaskV3 {
    const VERSION: &'static str = "3.0.0";
}

impl Versioned for TaskV4 {
    const VERSION: &'static str = "4.0.0";
}

impl Versioned for TaskV5 {
    const VERSION: &'static str = "5.0.0";
}

impl Versioned for TaskV6 {
    const VERSION: &'static str = "6.0.0";
}

impl Versioned for TaskV7 {
    const VERSION: &'static str = "7.0.0";
}

impl Versioned for TaskV8 {
    const VERSION: &'static str = "8.0.0";
}

impl Versioned for TaskV9 {
    const VERSION: &'static str = "9.0.0";
}

impl Versioned for TaskV10 {
    const VERSION: &'static str = "10.0.0";
}

// Implement migration chain
impl MigratesTo<TaskV2> for TaskV1 {
    fn migrate(self) -> TaskV2 {
        TaskV2 {
            id: self.id,
            title: "Untitled".to_string(),
        }
    }
}

impl MigratesTo<TaskV3> for TaskV2 {
    fn migrate(self) -> TaskV3 {
        TaskV3 {
            id: self.id,
            title: self.title,
            description: None,
        }
    }
}

impl MigratesTo<TaskV4> for TaskV3 {
    fn migrate(self) -> TaskV4 {
        TaskV4 {
            id: self.id,
            title: self.title,
            description: self.description,
            status: "open".to_string(),
        }
    }
}

impl MigratesTo<TaskV5> for TaskV4 {
    fn migrate(self) -> TaskV5 {
        TaskV5 {
            id: self.id,
            title: self.title,
            description: self.description,
            status: self.status,
            priority: 0,
        }
    }
}

impl MigratesTo<TaskV6> for TaskV5 {
    fn migrate(self) -> TaskV6 {
        TaskV6 {
            id: self.id,
            title: self.title,
            description: self.description,
            status: self.status,
            priority: self.priority,
            tags: vec![],
        }
    }
}

impl MigratesTo<TaskV7> for TaskV6 {
    fn migrate(self) -> TaskV7 {
        TaskV7 {
            id: self.id,
            title: self.title,
            description: self.description,
            status: self.status,
            priority: self.priority,
            tags: self.tags,
            due_date: None,
        }
    }
}

impl MigratesTo<TaskV8> for TaskV7 {
    fn migrate(self) -> TaskV8 {
        TaskV8 {
            id: self.id,
            title: self.title,
            description: self.description,
            status: self.status,
            priority: self.priority,
            tags: self.tags,
            due_date: self.due_date,
            assignee: None,
        }
    }
}

impl MigratesTo<TaskV9> for TaskV8 {
    fn migrate(self) -> TaskV9 {
        TaskV9 {
            id: self.id,
            title: self.title,
            description: self.description,
            status: self.status,
            priority: self.priority,
            tags: self.tags,
            due_date: self.due_date,
            assignee: self.assignee,
            created_at: "2023-01-01T00:00:00Z".to_string(),
        }
    }
}

impl MigratesTo<TaskV10> for TaskV9 {
    fn migrate(self) -> TaskV10 {
        TaskV10 {
            id: self.id,
            title: self.title,
            description: self.description,
            status: self.status,
            priority: self.priority,
            tags: self.tags,
            due_date: self.due_date,
            assignee: self.assignee,
            created_at: self.created_at,
            updated_at: "2023-01-01T00:00:00Z".to_string(),
        }
    }
}

// Implement IntoDomain for each version to all subsequent versions and TaskEntity
impl IntoDomain<TaskV2> for TaskV1 {
    fn into_domain(self) -> TaskV2 {
        self.migrate()
    }
}

impl IntoDomain<TaskV3> for TaskV2 {
    fn into_domain(self) -> TaskV3 {
        self.migrate()
    }
}

impl IntoDomain<TaskV4> for TaskV3 {
    fn into_domain(self) -> TaskV4 {
        self.migrate()
    }
}

impl IntoDomain<TaskV5> for TaskV4 {
    fn into_domain(self) -> TaskV5 {
        self.migrate()
    }
}

impl IntoDomain<TaskV6> for TaskV5 {
    fn into_domain(self) -> TaskV6 {
        self.migrate()
    }
}

impl IntoDomain<TaskV7> for TaskV6 {
    fn into_domain(self) -> TaskV7 {
        self.migrate()
    }
}

impl IntoDomain<TaskV8> for TaskV7 {
    fn into_domain(self) -> TaskV8 {
        self.migrate()
    }
}

impl IntoDomain<TaskV9> for TaskV8 {
    fn into_domain(self) -> TaskV9 {
        self.migrate()
    }
}

impl IntoDomain<TaskV10> for TaskV9 {
    fn into_domain(self) -> TaskV10 {
        self.migrate()
    }
}

// Implement IntoDomain<TaskEntity> for intermediate versions through full migration chain
impl IntoDomain<TaskEntity> for TaskV5 {
    fn into_domain(self) -> TaskEntity {
        // V5 -> V6 -> V7 -> V8 -> V9 -> V10 -> TaskEntity
        self.migrate()
            .migrate()
            .migrate()
            .migrate()
            .migrate()
            .into_domain()
    }
}

impl IntoDomain<TaskEntity> for TaskV10 {
    fn into_domain(self) -> TaskEntity {
        TaskEntity {
            id: self.id,
            title: self.title,
            description: self.description,
            status: self.status,
            priority: self.priority,
            tags: self.tags,
            due_date: self.due_date,
            assignee: self.assignee,
            created_at: self.created_at,
            updated_at: self.updated_at,
        }
    }
}

// Add Serialize/Deserialize to TaskEntity

#[test]
fn large_migration_test_test_vec_notation_6_versions() {
    let path = Migrator::define("task").from::<TaskV1>().step::<TaskV2>().step::<TaskV3>().step::<TaskV4>().step::<TaskV5>().into::<TaskEntity>();
    let mut migrator = Migrator::new();
    migrator.register(path).unwrap();

    let original = TaskV1 {
        id: "task-1".to_string(),
    };
    let json = migrator.save(original).unwrap();

    // Should migrate through V5 and convert to domain
    let result: TaskEntity = migrator.load("task", &json).unwrap();
    assert_eq!(result.id, "task-1");
    assert_eq!(result.title, "Untitled");
    assert_eq!(result.tags, Vec::<String>::new());
}

#[test]
fn large_migration_test_test_vec_notation_7_versions() {
    let path = Migrator::define("task").from::<TaskV1>().step::<TaskV2>().step::<TaskV3>().step::<TaskV4>().step::<TaskV5>().step::<TaskV6>().into::<TaskV7>();
    let mut migrator = Migrator::new();
    migrator.register(path).unwrap();

    let original = TaskV1 {
        id: "task-1".to_string(),
    };
    let json = migrator.save(original).unwrap();

    let result: TaskV7 = migrator.load("task", &json).unwrap();
    assert_eq!(result.id, "task-1");
    assert_eq!(result.due_date, None);
}

#[test]
fn large_migration_test_test_vec_notation_8_versions() {
    let path = Migrator::define("task").from::<TaskV1>().step::<TaskV2>().step::<TaskV3>().step::<TaskV4>().step::<TaskV5>().step::<TaskV6>().step::<TaskV7>().into::<TaskV8>();
    let mut migrator = Migrator::new();
    migrator.register(path).unwrap();

    let original = TaskV1 {
        id: "task-1".to_string(),
    };
    let json = migrator.save(original).unwrap();

    let result: TaskV8 = migrator.load("task", &json).unwrap();
    assert_eq!(result.id, "task-1");
    assert_eq!(result.assignee, None);
}

#[test]
fn large_migration_test_test_vec_notation_9_versions() {
    let path = Migrator::define("task").from::<TaskV1>().step::<TaskV2>().step::<TaskV3>().step::<TaskV4>().step::<TaskV5>().step::<TaskV6>().step::<TaskV7>().step::<TaskV8>().into::<TaskV9>();
    let mut migrator = Migrator::new();
    migrator.register(path).unwrap();

    let original = TaskV1 {
        id: "task-1".to_string(),
    };
    let json = migrator.save(original).unwrap();

    let result: TaskV9 = migrator.load("task", &json).unwrap();
    assert_eq!(result.id, "task-1");
    assert_eq!(result.created_at, "2023-01-01T00:00:00Z");
}

#[test]
fn test_vec_notation_10_versions() {
    let path = Migrator::define("task").from::<TaskV1>().step::<TaskV2>().step::<TaskV3>().step::<TaskV4>().step::<TaskV5>().step::<TaskV6>().step::<TaskV7>().step::<TaskV8>().step::<TaskV9>().into::<TaskV10>();
    let mut migrator = Migrator::new();
    migrator.register(path).unwrap();

    let original = TaskV1 {
        id: "task-1".to_string(),
    };
    let json = migrator.save(original).unwrap();

    let result: TaskEntity = migrator.load("task", &json).unwrap();
    assert_eq!(result.id, "task-1");
    assert_eq!(result.title, "Untitled");
    assert_eq!(result.created_at, "2023-01-01T00:00:00Z");
    assert_eq!(result.updated_at, "2023-01-01T00:00:00Z");
}

#[test]
fn large_migration_test_test_vec_notation_with_default_keys() {
    // Test that vec notation works with standard versioned types
    let path = Migrator::define("task").from::<TaskV1>().step::<TaskV2>().step::<TaskV3>().step::<TaskV4>().step::<TaskV5>().step::<TaskV6>().into::<TaskV7>();
    let mut migrator = Migrator::new();
    migrator.register(path).unwrap();

    let original = TaskV1 {
        id: "task-custom".to_string(),
    };
    let json = migrator.save(original).unwrap();

    // Check that default keys are used
    assert!(json.contains("\"version\""));
    assert!(json.contains("\"data\""));

    let result: TaskV7 = migrator.load("task", &json).unwrap();
    assert_eq!(result.id, "task-custom");
}

#[test]
fn test_middle_version_migration() {
    let path = Migrator::define("task").from::<TaskV1>().step::<TaskV2>().step::<TaskV3>().step::<TaskV4>().step::<TaskV5>().step::<TaskV6>().step::<TaskV7>().into::<TaskV8>();
    let mut migrator = Migrator::new();
    migrator.register(path).unwrap();

    // Start from middle version
    let original = TaskV4 {
        id: "task-mid".to_string(),
        title: "Middle Task".to_string(),
        description: Some("From V4".to_string()),
        status: "in-progress".to_string(),
    };
    let json = migrator.save(original).unwrap();

    let result: TaskV8 = migrator.load("task", &json).unwrap();
    assert_eq!(result.id, "task-mid");
    assert_eq!(result.title, "Middle Task");
    assert_eq!(result.description, Some("From V4".to_string()));
    assert_eq!(result.status, "in-progress");
    assert_eq!(result.priority, 0); // Added in V5
    assert_eq!(result.tags, Vec::<String>::new()); // Added in V6
    assert_eq!(result.due_date, None); // Added in V7
    assert_eq!(result.assignee, None); // Added in V8
}

#[test]
fn large_migration_test_test_compile_time_vec_syntax() {
    // These should all compile successfully
    let _path1 = Migrator::define("two").from::<TaskV1>().into::<TaskV2>();
    let _path2 = Migrator::define("three").from::<TaskV1>().step::<TaskV2>().into::<TaskV3>();
    let _path3 = Migrator::define("four").from::<TaskV1>().step::<TaskV2>().step::<TaskV3>().into::<TaskV4>();
    let _path4 = Migrator::define("five").from::<TaskV1>().step::<TaskV2>().step::<TaskV3>().step::<TaskV4>().into::<TaskV5>();
    let _path5 = Migrator::define("six").from::<TaskV1>().step::<TaskV2>().step::<TaskV3>().step::<TaskV4>().step::<TaskV5>().into::<TaskV6>();
    let _path6 = Migrator::define("seven").from::<TaskV1>().step::<TaskV2>().step::<TaskV3>().step::<TaskV4>().step::<TaskV5>().step::<TaskV6>().into::<TaskV7>();
    let _path7 = Migrator::define("eight").from::<TaskV1>().step::<TaskV2>().step::<TaskV3>().step::<TaskV4>().step::<TaskV5>().step::<TaskV6>().step::<TaskV7>().into::<TaskV8>();
    let _path8 = Migrator::define("nine").from::<TaskV1>().step::<TaskV2>().step::<TaskV3>().step::<TaskV4>().step::<TaskV5>().step::<TaskV6>().step::<TaskV7>().step::<TaskV8>().into::<TaskV9>();
    let _path9 = Migrator::define("ten").from::<TaskV1>().step::<TaskV2>().step::<TaskV3>().step::<TaskV4>().step::<TaskV5>().step::<TaskV6>().step::<TaskV7>().step::<TaskV8>().step::<TaskV9>().into::<TaskV10>();

    // With custom keys
    let _path_custom = Migrator::define("custom").with_keys("version", "data").from::<TaskV1>().step::<TaskV2>().step::<TaskV3>().step::<TaskV4>().step::<TaskV5>().step::<TaskV6>().into::<TaskV7>();
}
