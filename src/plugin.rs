use vstd::prelude::*;

verus! {

/// What a plugin says about itself.
#[derive(Debug, Clone)]
pub struct PluginManifest {
    pub name: String,
    pub author: String,
    pub version: String,
    pub description: String,
}

/// A plugin found on disk.
#[derive(Debug, Clone)]
pub struct Plugin {
    pub manifest: PluginManifest,
    pub path: String,
    pub enabled: bool,
}

/// An error a plugin answers with.
#[derive(Debug, Clone)]
pub struct RpcError {
    pub code: i64,
    pub message: String,
}

/// Parameters of the `init` call.
#[derive(Debug, Clone)]
pub struct InitParams {
    pub api_version: String,
}

/// A plugin's answer to `init`.
#[derive(Debug, Clone)]
pub struct InitResult {
    pub plugin_name: String,
    pub plugin_version: String,
    pub capabilities: Vec<String>,
}

/// Parameters of the `on_select` call.
#[derive(Debug, Clone)]
pub struct OnSelectParams {
    pub path: String,
    pub mime_type: Option<String>,
}

/// A plugin's preview of a selected entry.
#[derive(Debug, Clone)]
pub enum PreviewResult {
    Text(String),
    Error(String),
}

} // verus!
