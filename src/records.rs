//! The plain records that the application's commands hand out.
use std::collections::HashMap;
use vstd::prelude::*;

verus! {

/// How one MCP server is launched.
#[derive(Debug, Clone)]
pub struct McpServerConfig {
    pub command: String,
    pub args: Vec<String>,
    pub env: Option<HashMap<String, String>>,
}

/// A task kept in the context store.
#[derive(Debug, Clone)]
pub struct TaskEntry {
    pub id: String,
    pub title: String,
    pub content: String,
    pub status: String,
    pub priority: String,
    pub tags: Vec<String>,
    pub timestamp: i64,
    pub project_path: Option<String>,
}

/// A document kept in the context store.
#[derive(Debug, Clone)]
pub struct DocumentEntry {
    pub id: String,
    pub title: String,
    pub content: String,
    pub tags: Vec<String>,
    pub timestamp: i64,
    pub project_path: Option<String>,
}

/// One entry of a directory listing.
#[derive(Debug, Clone)]
pub struct FileEntry {
    pub name: String,
    pub path: String,
    pub is_dir: bool,
    pub is_hidden: bool,
}

} // verus!
