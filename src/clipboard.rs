use vstd::prelude::*;

verus! {

/// Whether pasting the clipboard copies or moves its paths.
#[derive(Debug, Clone, Copy, PartialEq, Eq, Structural)]
pub enum ClipboardMode {
    Copy,
    Move,
}

/// Paths marked by a yank or a cut, waiting for a paste.
#[derive(Debug, Clone)]
pub struct Clipboard {
    pub paths: Vec<String>,
    pub mode: Option<ClipboardMode>,
}

impl Clipboard {
    /// An empty clipboard with no mode.
    pub fn new() -> (r: Clipboard)
        ensures
            r.paths@.len() == 0,
            r.mode.is_none(),
    {
        Clipboard { paths: Vec::new(), mode: None }
    }

    /// Holds `paths` for a later copy.
    pub fn yank(&mut self, paths: Vec<String>)
        ensures
            final(self).paths@ == paths@,
            final(self).mode == Some(ClipboardMode::Copy),
    {
        self.paths = paths;
        self.mode = Some(ClipboardMode::Copy);
    }

    /// Holds `paths` for a later move.
    pub fn cut(&mut self, paths: Vec<String>)
        ensures
            final(self).paths@ == paths@,
            final(self).mode == Some(ClipboardMode::Move),
    {
        self.paths = paths;
        self.mode = Some(ClipboardMode::Move);
    }

    /// Forgets the held paths and the mode.
    pub fn clear(&mut self)
        ensures
            final(self).paths@.len() == 0,
            final(self).mode.is_none(),
    {
        self.paths.clear();
        self.mode = None;
    }
}

impl Default for Clipboard {
    /// An empty clipboard with no mode.
    fn default() -> (r: Clipboard)
        ensures
            r.paths@.len() == 0,
            r.mode.is_none(),
    {
        Clipboard::new()
    }
}

} // verus!
