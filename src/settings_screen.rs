use vstd::prelude::*;
use crate::app_state::AppState;
use crate::settings::ColorScheme;

verus! {

/// Whether the settings screen moves between categories or within one.
#[derive(Debug, Clone, Copy, PartialEq, Eq, Structural)]
pub enum SettingsNavigationMode {
    Categories,
    Items,
}

/// A key pressed on the settings screen, as far as the screen tells keys
/// apart.
#[derive(Debug, Clone, Copy, PartialEq, Eq, Structural)]
pub enum SettingsKey {
    Char(char),
    Esc,
    Down,
    Up,
    Tab,
    Enter,
    Other,
}

/// The settings screen: the category and the item under the cursors, which
/// list has the keyboard, the list selections, and whether the key list is
/// shown.
#[derive(Debug)]
pub struct SettingsState {
    pub selected_category: usize,
    pub selected_item: usize,
    pub navigation_mode: SettingsNavigationMode,
    pub categories_state: Option<usize>,
    pub items_state: Option<usize>,
    pub show_hotkeys_list: bool,
}

/// How many categories the settings screen has.
pub const CATEGORY_COUNT: usize = 9;

/// How many items category `c` lists, given the number of plugins.
pub open spec fn item_count(c: usize, plugins: nat) -> nat {
    if c == 0 {
        5
    } else if c == 1 {
        12
    } else if c == 2 || c == 3 || c == 4 {
        3
    } else if c == 5 || c == 7 {
        1
    } else if c == 6 {
        2
    } else if c == 8 {
        if plugins > 1 { plugins } else { 1 }
    } else {
        0
    }
}

impl SettingsState {
    /// The screen as it opens: first category, first item, categories list
    /// in use.
    pub fn new() -> (r: SettingsState)
        ensures
            r == (SettingsState {
                selected_category: 0,
                selected_item: 0,
                navigation_mode: SettingsNavigationMode::Categories,
                categories_state: Some(0usize),
                items_state: Some(0usize),
                show_hotkeys_list: false,
            }),
    {
        SettingsState {
            selected_category: 0,
            selected_item: 0,
            navigation_mode: SettingsNavigationMode::Categories,
            categories_state: Some(0),
            items_state: Some(0),
            show_hotkeys_list: false,
        }
    }

    /// The category titles, in order.
    pub fn categories() -> (r: Vec<&'static str>)
        ensures
            r@.len() == CATEGORY_COUNT,
            r@[0]@ == "Интерфейс"@,
            r@[1]@ == "Цветовые схемы"@,
            r@[2]@ == "Сортировка"@,
            r@[3]@ == "Предпросмотр"@,
            r@[4]@ == "Поведение"@,
            r@[5]@ == "Закладки"@,
            r@[6]@ == "Поиск"@,
            r@[7]@ == "Горячие клавиши"@,
            r@[8]@ == "Плагины"@,
    {
        let mut r: Vec<&'static str> = Vec::new();
        r.push("Интерфейс");
        r.push("Цветовые схемы");
        r.push("Сортировка");
        r.push("Предпросмотр");
        r.push("Поведение");
        r.push("Закладки");
        r.push("Поиск");
        r.push("Горячие клавиши");
        r.push("Плагины");
        r
    }

    /// Puts the item cursor back on the first item.
    pub fn update_items_state(&mut self)
        ensures
            *final(self) == (SettingsState {
                selected_item: 0,
                items_state: Some(0usize),
                ..*old(self)
            }),
    {
        self.items_state = Some(0);
        self.selected_item = 0;
    }

    /// Next category, stopping at the last; the item cursor goes to the top.
    pub fn move_down(&mut self)
        ensures
            (old(self).selected_category as int) < CATEGORY_COUNT - 1 ==> *final(self) == (SettingsState {
                selected_category: (old(self).selected_category + 1) as usize,
                categories_state: Some((old(self).selected_category + 1) as usize),
                selected_item: 0,
                items_state: Some(0usize),
                ..*old(self)
            }),
            (old(self).selected_category as int) >= CATEGORY_COUNT - 1 ==> *final(self) == *old(self),
    {
        if self.selected_category < CATEGORY_COUNT - 1 {
            self.selected_category = self.selected_category + 1;
            self.categories_state = Some(self.selected_category);
            self.update_items_state();
        }
    }

    /// Previous category, stopping at the first; the item cursor goes to
    /// the top.
    pub fn move_up(&mut self)
        ensures
            old(self).selected_category > 0 ==> *final(self) == (SettingsState {
                selected_category: (old(self).selected_category - 1) as usize,
                categories_state: Some((old(self).selected_category - 1) as usize),
                selected_item: 0,
                items_state: Some(0usize),
                ..*old(self)
            }),
            old(self).selected_category == 0 ==> *final(self) == *old(self),
    {
        if self.selected_category > 0 {
            self.selected_category = self.selected_category - 1;
            self.categories_state = Some(self.selected_category);
            self.update_items_state();
        }
    }

    /// How many items the current category lists.
    fn get_current_category_item_count(&self, app_state: &AppState) -> (r: usize)
        ensures
            r as nat == item_count(self.selected_category, app_state.plugins@.len()),
    {
        match self.selected_category {
            0 => 5,
            1 => ColorScheme::all().len(),
            2 => 3,
            3 => 3,
            4 => 3,
            5 => 1,
            6 => 2,
            7 => 1,
            8 => if app_state.plugins.len() > 1 {
                app_state.plugins.len()
            } else {
                1
            },
            _ => 0,
        }
    }

    /// Next item of the category, stopping at the last.
    pub fn move_item_down(&mut self, app_state: &AppState)
        requires
            old(self).selected_category < CATEGORY_COUNT,
        ensures
            (old(self).selected_item as int) < item_count(
                old(self).selected_category,
                app_state.plugins@.len(),
            ) - 1 ==> *final(self) == (SettingsState {
                selected_item: (old(self).selected_item + 1) as usize,
                items_state: Some((old(self).selected_item + 1) as usize),
                ..*old(self)
            }),
            (old(self).selected_item as int) >= item_count(
                old(self).selected_category,
                app_state.plugins@.len(),
            ) - 1 ==> *final(self) == *old(self),
    {
        let count = self.get_current_category_item_count(app_state);
        if self.selected_item < count - 1 {
            self.selected_item = self.selected_item + 1;
            self.items_state = Some(self.selected_item);
        }
    }

    /// Previous item of the category, stopping at the first.
    pub fn move_item_up(&mut self, _app_state: &AppState)
        ensures
            old(self).selected_item > 0 ==> *final(self) == (SettingsState {
                selected_item: (old(self).selected_item - 1) as usize,
                items_state: Some((old(self).selected_item - 1) as usize),
                ..*old(self)
            }),
            old(self).selected_item == 0 ==> *final(self) == *old(self),
    {
        if self.selected_item > 0 {
            self.selected_item = self.selected_item - 1;
            self.items_state = Some(self.selected_item);
        }
    }

    /// Gives the keyboard to the other list.
    pub fn toggle_navigation_mode(&mut self)
        ensures
            *final(self) == (SettingsState {
                navigation_mode: match old(self).navigation_mode {
                    SettingsNavigationMode::Categories => SettingsNavigationMode::Items,
                    SettingsNavigationMode::Items => SettingsNavigationMode::Categories,
                },
                ..*old(self)
            }),
    {
        self.navigation_mode = match self.navigation_mode {
            SettingsNavigationMode::Categories => SettingsNavigationMode::Items,
            SettingsNavigationMode::Items => SettingsNavigationMode::Categories,
        };
    }

    /// Acts on the chosen item: the hidden-files switch of the interface
    /// category, a colour scheme, or a plugin's enabled switch. Returns
    /// whether the hidden-files switch flipped (the caller then reads the
    /// listings again).
    pub fn select_item(&mut self, app_state: &mut AppState) -> (r: bool)
        ensures
            *final(self) == *old(self),
            r == (old(self).selected_category == 0 && old(self).selected_item == 3),
            r ==> *final(app_state) == (AppState {
                show_hidden_files: !old(app_state).show_hidden_files,
                ..*old(app_state)
            }),
            old(self).selected_category == 1 && (old(self).selected_item as int) < 12 ==> {
                &&& final(app_state).config.theme.color_scheme is Some
                &&& final(app_state).config.theme.color_scheme->Some_0@
                    == crate::settings::scheme_name(crate::settings::all_schemes()[old(self).selected_item as int])
            },
            old(self).selected_category == 8 && (old(self).selected_item as int)
                < old(app_state).plugins@.len() ==> {
                let i = old(self).selected_item as int;
                &&& final(app_state).plugins@.len() == old(app_state).plugins@.len()
                &&& final(app_state).plugins@[i].enabled == !old(app_state).plugins@[i].enabled
                &&& final(app_state).plugins@[i].manifest == old(app_state).plugins@[i].manifest
                &&& final(app_state).plugins@[i].path == old(app_state).plugins@[i].path
                &&& forall|j: int|
                    0 <= j < old(app_state).plugins@.len() && j != i
                        ==> #[trigger] final(app_state).plugins@[j] == old(app_state).plugins@[j]
            },
            !(old(self).selected_category == 0 && old(self).selected_item == 3)
                && !(old(self).selected_category == 1 && (old(self).selected_item as int) < 12)
                && !(old(self).selected_category == 8 && (old(self).selected_item as int)
                < old(app_state).plugins@.len()) ==> *final(app_state) == *old(app_state),
    {
        if self.selected_category == 0 {
            if self.selected_item == 3 {
                app_state.toggle_hidden_files();
                return true;
            }
        } else if self.selected_category == 1 {
            let all = ColorScheme::all();
            if self.selected_item < all.len() {
                app_state.set_color_scheme(all[self.selected_item]);
            }
        } else if self.selected_category == 8 {
            if self.selected_item < app_state.plugins.len() {
                let i = self.selected_item;
                let mut p = app_state.plugins.remove(i);
                p.enabled = !p.enabled;
                app_state.plugins.insert(i, p);
                assert(app_state.plugins@ =~= old(app_state).plugins@.update(i as int, p));
            }
        }
        false
    }
}

impl SettingsState {
    /// Reacts to a key: `q` leaves; Esc closes the key list, or leaves when
    /// it is not shown; Down/`j` and Up/`k` move in the list that has the
    /// keyboard; `l` and `h` give the keyboard to the items or the
    /// categories; Tab swaps them; Enter opens the key list in its category
    /// and otherwise acts on the chosen item. Returns true when the screen is
    /// left, with the application back in normal input mode.
    pub fn handle_key(&mut self, key: SettingsKey, app_state: &mut AppState) -> (r: bool)
        requires
            old(self).selected_category < CATEGORY_COUNT,
        ensures
            final(self).selected_category < CATEGORY_COUNT,
            r == (key == SettingsKey::Char('q') || (key == SettingsKey::Esc
                && !old(self).show_hotkeys_list)),
            r ==> *final(app_state) == (AppState { input_mode: crate::app_state::InputMode::Normal, ..*old(app_state) }),
            r ==> *final(self) == *old(self),
            key == SettingsKey::Esc && old(self).show_hotkeys_list ==> *final(self) == (
            SettingsState { show_hotkeys_list: false, ..*old(self) }),
            (key == SettingsKey::Down || key == SettingsKey::Char('j')) ==> (
            old(self).navigation_mode is Categories ==> (final(self).selected_category as int)
                == if (old(self).selected_category as int) < CATEGORY_COUNT - 1 {
                old(self).selected_category + 1
            } else {
                old(self).selected_category as int
            }),
            (key == SettingsKey::Up || key == SettingsKey::Char('k')) ==> (
            old(self).navigation_mode is Categories ==> (final(self).selected_category as int)
                == if old(self).selected_category > 0 {
                old(self).selected_category - 1
            } else {
                0
            }),
            (key == SettingsKey::Down || key == SettingsKey::Char('j')) ==> (
            old(self).navigation_mode is Items ==> final(self).selected_item == if (
            old(self).selected_item as int) < item_count(
                old(self).selected_category,
                old(app_state).plugins@.len(),
            ) - 1 {
                (old(self).selected_item + 1) as usize
            } else {
                old(self).selected_item
            }),
            (key == SettingsKey::Up || key == SettingsKey::Char('k')) ==> (
            old(self).navigation_mode is Items ==> (final(self).selected_item as int) == if old(
                self,
            ).selected_item > 0 {
                old(self).selected_item - 1
            } else {
                0
            }),
            key == SettingsKey::Char('l') ==> *final(self) == (SettingsState {
                navigation_mode: SettingsNavigationMode::Items,
                ..*old(self)
            }),
            key == SettingsKey::Char('h') ==> *final(self) == (SettingsState {
                navigation_mode: SettingsNavigationMode::Categories,
                ..*old(self)
            }),
            key == SettingsKey::Tab ==> final(self).navigation_mode != old(self).navigation_mode,
            key == SettingsKey::Enter && old(self).selected_category == 7 ==> *final(self) == (
            SettingsState { show_hotkeys_list: true, ..*old(self) }),
            key == SettingsKey::Enter && old(self).selected_category != 7 ==> *final(self)
                == *old(self),
    {
        match key {
            SettingsKey::Char('q') => {
                app_state.input_mode = crate::app_state::InputMode::Normal;
                return true;
            },
            SettingsKey::Esc => {
                if self.show_hotkeys_list {
                    self.show_hotkeys_list = false;
                } else {
                    app_state.input_mode = crate::app_state::InputMode::Normal;
                    return true;
                }
            },
            SettingsKey::Down | SettingsKey::Char('j') => match self.navigation_mode {
                SettingsNavigationMode::Categories => self.move_down(),
                SettingsNavigationMode::Items => self.move_item_down(app_state),
            },
            SettingsKey::Up | SettingsKey::Char('k') => match self.navigation_mode {
                SettingsNavigationMode::Categories => self.move_up(),
                SettingsNavigationMode::Items => self.move_item_up(app_state),
            },
            SettingsKey::Char('l') => {
                self.navigation_mode = SettingsNavigationMode::Items;
            },
            SettingsKey::Char('h') => {
                self.navigation_mode = SettingsNavigationMode::Categories;
            },
            SettingsKey::Tab => self.toggle_navigation_mode(),
            SettingsKey::Enter => {
                if self.selected_category == 7 {
                    self.show_hotkeys_list = true;
                } else {
                    self.select_item(app_state);
                }
            },
            _ => {},
        }
        false
    }
}

} // verus!
