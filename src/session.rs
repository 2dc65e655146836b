use vstd::prelude::*;
use crate::app_state::{copy_pairs, AppState, TabState};

verus! {

/// The directory a tab was showing.
#[derive(Debug, Clone)]
pub struct TabPath {
    pub id: usize,
    pub current_dir: String,
}

/// What is kept of the interface between runs.
#[derive(Debug)]
pub struct SessionState {
    pub tabs: Vec<TabPath>,
    pub active_tab_index: usize,
    pub show_tabs: bool,
    pub bookmarks: Vec<(String, String)>,
    pub show_hidden_files: bool,
}

/// `tabs` are fresh tabs, one per kept tab, with its identifier and
/// directory and nothing listed yet.
pub open spec fn restored_from(tabs: Seq<TabState>, kept: Seq<TabPath>) -> bool {
    &&& tabs.len() == kept.len()
    &&& forall|i: int|
        0 <= i < kept.len() ==> #[trigger] tabs[i].id == kept[i].id && tabs[i].current_dir
            == kept[i].current_dir && tabs[i].entries@.len() == 0
}

fn fresh_tabs(kept: &Vec<TabPath>) -> (r: Vec<TabState>)
    ensures
        restored_from(r@, kept@),
{
    let mut tabs: Vec<TabState> = Vec::new();
    let mut i: usize = 0;
    while i < kept.len()
        invariant
            i <= kept@.len(),
            tabs@.len() == i,
            forall|j: int|
                0 <= j < i ==> #[trigger] tabs@[j].id == kept@[j].id && tabs@[j].current_dir
                    == kept@[j].current_dir && tabs@[j].entries@.len() == 0,
        decreases kept@.len() - i,
    {
        let t = &kept[i];
        tabs.push(TabState::new(t.id, t.current_dir.clone()));
        i += 1;
    }
    tabs
}

impl SessionState {
    /// What of `app_state` is kept: each tab's identifier and directory,
    /// the active tab, the tab bar switch, the bookmarks and the
    /// hidden-files switch.
    pub fn from_app_state(app_state: &AppState) -> (r: SessionState)
        ensures
            r.tabs@.len() == app_state.tabs@.len(),
            forall|i: int|
                0 <= i < r.tabs@.len() ==> #[trigger] r.tabs@[i].id == app_state.tabs@[i].id
                    && r.tabs@[i].current_dir == app_state.tabs@[i].current_dir,
            r.active_tab_index == app_state.active_tab_index,
            r.show_tabs == app_state.show_tabs,
            r.bookmarks@ == app_state.bookmarks@,
            r.show_hidden_files == app_state.show_hidden_files,
    {
        let mut tabs: Vec<TabPath> = Vec::new();
        let mut i: usize = 0;
        while i < app_state.tabs.len()
            invariant
                i <= app_state.tabs@.len(),
                tabs@.len() == i,
                forall|j: int|
                    0 <= j < i ==> #[trigger] tabs@[j].id == app_state.tabs@[j].id
                        && tabs@[j].current_dir == app_state.tabs@[j].current_dir,
            decreases app_state.tabs@.len() - i,
        {
            let t = &app_state.tabs[i];
            tabs.push(TabPath { id: t.id, current_dir: t.current_dir.clone() });
            i += 1;
        }
        SessionState {
            tabs,
            active_tab_index: app_state.active_tab_index,
            show_tabs: app_state.show_tabs,
            bookmarks: copy_pairs(&app_state.bookmarks),
            show_hidden_files: app_state.show_hidden_files,
        }
    }

    /// Restores the kept state: one fresh tab per kept tab, on its directory
    /// (the caller then reads their listings), the active tab clamped to the
    /// last one, and the switches and bookmarks as kept. A session without
    /// tabs leaves the tabs as they are.
    pub fn apply_to_app_state(&self, app_state: &mut AppState)
        requires
            old(app_state).wf(),
        ensures
            final(app_state).wf(),
            self.tabs@.len() > 0 ==> restored_from(final(app_state).tabs@, self.tabs@),
            self.tabs@.len() == 0 ==> final(app_state).tabs == old(app_state).tabs,
            final(app_state).active_tab_index == if (self.active_tab_index as int)
                < final(app_state).tabs@.len() {
                self.active_tab_index
            } else {
                (final(app_state).tabs@.len() - 1) as usize
            },
            final(app_state).show_tabs == self.show_tabs,
            final(app_state).bookmarks@ == self.bookmarks@,
            final(app_state).show_hidden_files == self.show_hidden_files,
            final(app_state).task_manager == old(app_state).task_manager,
    {
        if self.tabs.len() > 0 {
            app_state.tabs = fresh_tabs(&self.tabs);
        }
        let ghost restored = app_state.tabs@;
        assert(self.tabs@.len() > 0 ==> restored_from(restored, self.tabs@));
        let last = app_state.tabs.len() - 1;
        app_state.active_tab_index = if self.active_tab_index < app_state.tabs.len() {
            self.active_tab_index
        } else {
            last
        };
        app_state.show_tabs = self.show_tabs;
        app_state.bookmarks = copy_pairs(&self.bookmarks);
        app_state.show_hidden_files = self.show_hidden_files;
        assert(app_state.tabs@ == restored);
    }
}

} // verus!
