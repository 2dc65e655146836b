use vstd::prelude::*;

verus! {

/// How images are drawn in the terminal.
#[derive(Debug, Clone, Copy, PartialEq, Eq, Structural)]
pub enum BackendType {
    Kitty,
}

impl BackendType {
    /// The only backend there is.
    pub fn default_backend() -> (r: BackendType)
        ensures
            r == BackendType::Kitty,
    {
        BackendType::Kitty
    }
}

/// A size in pixels.
#[derive(Debug, Clone, Copy, PartialEq, Eq, Structural)]
pub struct Resolution {
    pub width: u32,
    pub height: u32,
}

impl Resolution {
    /// 800 by 600.
    pub fn default_resolution() -> (r: Resolution)
        ensures
            r == (Resolution { width: 800, height: 600 }),
    {
        Resolution { width: 800, height: 600 }
    }
}

/// How image previews are made.
#[derive(Debug, Clone, Copy, PartialEq, Eq, Structural)]
pub struct PreviewConfig {
    pub backend: BackendType,
    pub progressive: bool,
    pub resolution: Resolution,
}

/// Key bindings; none can be set yet.
#[derive(Debug, Clone, Copy)]
pub struct Keybindings {}

/// Theme settings: the display name of the chosen colour scheme, if any.
#[derive(Debug, Clone)]
pub struct Theme {
    pub color_scheme: Option<String>,
}

/// The configuration file's contents, with bookmarks as (name, path) pairs.
#[derive(Debug)]
pub struct Config {
    pub keybindings: Keybindings,
    pub theme: Theme,
    pub bookmarks: Vec<(String, String)>,
    pub preview: PreviewConfig,
}

impl Config {
    /// What a missing configuration stands for: no bookmarks, no colour
    /// scheme, the Kitty backend, no progressive drawing, 800 by 600.
    pub fn new() -> (r: Config)
        ensures
            r.bookmarks@.len() == 0,
            r.theme.color_scheme is None,
            r.preview == (PreviewConfig {
                backend: BackendType::Kitty,
                progressive: false,
                resolution: Resolution { width: 800, height: 600 },
            }),
    {
        Config {
            keybindings: Keybindings {},
            theme: Theme { color_scheme: None },
            bookmarks: Vec::new(),
            preview: PreviewConfig {
                backend: BackendType::default_backend(),
                progressive: false,
                resolution: Resolution::default_resolution(),
            },
        }
    }
}

impl Default for Config {
    /// The same as `Config::new`.
    fn default() -> (r: Config)
        ensures
            r.bookmarks@.len() == 0,
            r.theme.color_scheme is None,
    {
        Config::new()
    }
}

} // verus!
