use vstd::prelude::*;
use crate::text::same_text;

verus! {

/// The colour schemes the interface offers.
#[derive(Debug, Clone, Copy, PartialEq, Eq, Structural)]
pub enum ColorScheme {
    GithubLight,
    SolarizedLight,
    AtomLight,
    VisualStudioLight,
    Dracula,
    Monokai,
    OneDark,
    Nord,
    GruvboxDark,
    TokyoNight,
    MaterialDark,
    Cyberpunk,
}

/// The display name of a scheme.
pub open spec fn scheme_name(c: ColorScheme) -> Seq<char> {
    match c {
        ColorScheme::GithubLight => "GitHub Light"@,
        ColorScheme::SolarizedLight => "Solarized Light"@,
        ColorScheme::AtomLight => "Atom Light"@,
        ColorScheme::VisualStudioLight => "Visual Studio Light"@,
        ColorScheme::Dracula => "Dracula"@,
        ColorScheme::Monokai => "Monokai"@,
        ColorScheme::OneDark => "One Dark"@,
        ColorScheme::Nord => "Nord"@,
        ColorScheme::GruvboxDark => "Gruvbox Dark"@,
        ColorScheme::TokyoNight => "Tokyo Night"@,
        ColorScheme::MaterialDark => "Material Dark"@,
        ColorScheme::Cyberpunk => "Cyberpunk"@,
    }
}

/// Background colour of a scheme.
pub open spec fn scheme_background(c: ColorScheme) -> (u8, u8, u8) {
    match c {
        ColorScheme::GithubLight => (255u8, 255u8, 255u8),
        ColorScheme::SolarizedLight => (253u8, 246u8, 227u8),
        ColorScheme::AtomLight => (250u8, 250u8, 250u8),
        ColorScheme::VisualStudioLight => (245u8, 245u8, 245u8),
        ColorScheme::Dracula => (40u8, 42u8, 54u8),
        ColorScheme::Monokai => (39u8, 40u8, 34u8),
        ColorScheme::OneDark => (40u8, 44u8, 52u8),
        ColorScheme::Nord => (46u8, 52u8, 64u8),
        ColorScheme::GruvboxDark => (40u8, 40u8, 40u8),
        ColorScheme::TokyoNight => (25u8, 26u8, 35u8),
        ColorScheme::MaterialDark => (33u8, 33u8, 33u8),
        ColorScheme::Cyberpunk => (10u8, 0u8, 20u8),
    }
}

/// Background colour of the entry under the cursor.
pub open spec fn scheme_highlight_bg(c: ColorScheme) -> (u8, u8, u8) {
    match c {
        ColorScheme::GithubLight => (225u8, 228u8, 232u8),
        ColorScheme::SolarizedLight => (238u8, 232u8, 213u8),
        ColorScheme::AtomLight => (225u8, 228u8, 232u8),
        ColorScheme::VisualStudioLight => (225u8, 230u8, 240u8),
        ColorScheme::Dracula => (68u8, 71u8, 90u8),
        ColorScheme::Monokai => (60u8, 60u8, 60u8),
        ColorScheme::OneDark => (60u8, 65u8, 75u8),
        ColorScheme::Nord => (67u8, 76u8, 94u8),
        ColorScheme::GruvboxDark => (60u8, 56u8, 54u8),
        ColorScheme::TokyoNight => (45u8, 47u8, 63u8),
        ColorScheme::MaterialDark => (50u8, 50u8, 50u8),
        ColorScheme::Cyberpunk => (70u8, 0u8, 100u8),
    }
}

/// Text colour of a scheme.
pub open spec fn scheme_text_color(c: ColorScheme) -> (u8, u8, u8) {
    match c {
        ColorScheme::GithubLight => (36u8, 41u8, 46u8),
        ColorScheme::SolarizedLight => (101u8, 123u8, 131u8),
        ColorScheme::AtomLight => (33u8, 37u8, 43u8),
        ColorScheme::VisualStudioLight => (30u8, 30u8, 30u8),
        ColorScheme::Dracula => (248u8, 248u8, 242u8),
        ColorScheme::Monokai => (248u8, 248u8, 242u8),
        ColorScheme::OneDark => (171u8, 178u8, 191u8),
        ColorScheme::Nord => (216u8, 222u8, 233u8),
        ColorScheme::GruvboxDark => (235u8, 219u8, 178u8),
        ColorScheme::TokyoNight => (195u8, 200u8, 210u8),
        ColorScheme::MaterialDark => (220u8, 220u8, 220u8),
        ColorScheme::Cyberpunk => (255u8, 0u8, 255u8),
    }
}

/// Background colour of marked entries.
pub open spec fn scheme_selection_bg(c: ColorScheme) -> (u8, u8, u8) {
    match c {
        ColorScheme::GithubLight => (200u8, 220u8, 240u8),
        ColorScheme::SolarizedLight => (220u8, 225u8, 200u8),
        ColorScheme::AtomLight => (210u8, 215u8, 220u8),
        ColorScheme::VisualStudioLight => (210u8, 215u8, 225u8),
        ColorScheme::Dracula => (56u8, 60u8, 74u8),
        ColorScheme::Monokai => (50u8, 50u8, 50u8),
        ColorScheme::OneDark => (50u8, 55u8, 65u8),
        ColorScheme::Nord => (59u8, 66u8, 82u8),
        ColorScheme::GruvboxDark => (50u8, 48u8, 47u8),
        ColorScheme::TokyoNight => (35u8, 37u8, 50u8),
        ColorScheme::MaterialDark => (40u8, 40u8, 40u8),
        ColorScheme::Cyberpunk => (50u8, 0u8, 80u8),
    }
}

/// The scheme a display name stands for, if any.
pub open spec fn scheme_named(name: Seq<char>) -> Option<ColorScheme> {
    if name == "GitHub Light"@ {
        Some(ColorScheme::GithubLight)
    } else if name == "Solarized Light"@ {
        Some(ColorScheme::SolarizedLight)
    } else if name == "Atom Light"@ {
        Some(ColorScheme::AtomLight)
    } else if name == "Visual Studio Light"@ {
        Some(ColorScheme::VisualStudioLight)
    } else if name == "Dracula"@ {
        Some(ColorScheme::Dracula)
    } else if name == "Monokai"@ {
        Some(ColorScheme::Monokai)
    } else if name == "One Dark"@ {
        Some(ColorScheme::OneDark)
    } else if name == "Nord"@ {
        Some(ColorScheme::Nord)
    } else if name == "Gruvbox Dark"@ {
        Some(ColorScheme::GruvboxDark)
    } else if name == "Tokyo Night"@ {
        Some(ColorScheme::TokyoNight)
    } else if name == "Material Dark"@ {
        Some(ColorScheme::MaterialDark)
    } else if name == "Cyberpunk"@ {
        Some(ColorScheme::Cyberpunk)
    } else {
        None
    }
}


/// Every scheme, light ones first, in declaration order.
pub open spec fn all_schemes() -> Seq<ColorScheme> {
    seq![
        ColorScheme::GithubLight,
        ColorScheme::SolarizedLight,
        ColorScheme::AtomLight,
        ColorScheme::VisualStudioLight,
        ColorScheme::Dracula,
        ColorScheme::Monokai,
        ColorScheme::OneDark,
        ColorScheme::Nord,
        ColorScheme::GruvboxDark,
        ColorScheme::TokyoNight,
        ColorScheme::MaterialDark,
        ColorScheme::Cyberpunk,
    ]
}

impl ColorScheme {
    /// The display name.
    pub fn name(&self) -> (r: &'static str)
        ensures
            r@ == scheme_name(*self),
    {
        match self {
            ColorScheme::GithubLight => "GitHub Light",
            ColorScheme::SolarizedLight => "Solarized Light",
            ColorScheme::AtomLight => "Atom Light",
            ColorScheme::VisualStudioLight => "Visual Studio Light",
            ColorScheme::Dracula => "Dracula",
            ColorScheme::Monokai => "Monokai",
            ColorScheme::OneDark => "One Dark",
            ColorScheme::Nord => "Nord",
            ColorScheme::GruvboxDark => "Gruvbox Dark",
            ColorScheme::TokyoNight => "Tokyo Night",
            ColorScheme::MaterialDark => "Material Dark",
            ColorScheme::Cyberpunk => "Cyberpunk",
        }
    }

    /// The scheme with the given display name; none for any other text.
    pub fn from_name(name: &str) -> (r: Option<ColorScheme>)
        ensures
            r == scheme_named(name@),
    {
        if same_text(name, "GitHub Light") {
            Some(ColorScheme::GithubLight)
        } else if same_text(name, "Solarized Light") {
            Some(ColorScheme::SolarizedLight)
        } else if same_text(name, "Atom Light") {
            Some(ColorScheme::AtomLight)
        } else if same_text(name, "Visual Studio Light") {
            Some(ColorScheme::VisualStudioLight)
        } else if same_text(name, "Dracula") {
            Some(ColorScheme::Dracula)
        } else if same_text(name, "Monokai") {
            Some(ColorScheme::Monokai)
        } else if same_text(name, "One Dark") {
            Some(ColorScheme::OneDark)
        } else if same_text(name, "Nord") {
            Some(ColorScheme::Nord)
        } else if same_text(name, "Gruvbox Dark") {
            Some(ColorScheme::GruvboxDark)
        } else if same_text(name, "Tokyo Night") {
            Some(ColorScheme::TokyoNight)
        } else if same_text(name, "Material Dark") {
            Some(ColorScheme::MaterialDark)
        } else if same_text(name, "Cyberpunk") {
            Some(ColorScheme::Cyberpunk)
        } else {
            None
        }
    }

    /// Background colour, as red, green and blue.
    pub fn background_rgb(&self) -> (r: (u8, u8, u8))
        ensures
            r == scheme_background(*self),
    {
        match self {
            ColorScheme::GithubLight => (255, 255, 255),
            ColorScheme::SolarizedLight => (253, 246, 227),
            ColorScheme::AtomLight => (250, 250, 250),
            ColorScheme::VisualStudioLight => (245, 245, 245),
            ColorScheme::Dracula => (40, 42, 54),
            ColorScheme::Monokai => (39, 40, 34),
            ColorScheme::OneDark => (40, 44, 52),
            ColorScheme::Nord => (46, 52, 64),
            ColorScheme::GruvboxDark => (40, 40, 40),
            ColorScheme::TokyoNight => (25, 26, 35),
            ColorScheme::MaterialDark => (33, 33, 33),
            ColorScheme::Cyberpunk => (10, 0, 20),
        }
    }

    /// Background of the entry under the cursor, as red, green and blue.
    pub fn highlight_bg_rgb(&self) -> (r: (u8, u8, u8))
        ensures
            r == scheme_highlight_bg(*self),
    {
        match self {
            ColorScheme::GithubLight => (225, 228, 232),
            ColorScheme::SolarizedLight => (238, 232, 213),
            ColorScheme::AtomLight => (225, 228, 232),
            ColorScheme::VisualStudioLight => (225, 230, 240),
            ColorScheme::Dracula => (68, 71, 90),
            ColorScheme::Monokai => (60, 60, 60),
            ColorScheme::OneDark => (60, 65, 75),
            ColorScheme::Nord => (67, 76, 94),
            ColorScheme::GruvboxDark => (60, 56, 54),
            ColorScheme::TokyoNight => (45, 47, 63),
            ColorScheme::MaterialDark => (50, 50, 50),
            ColorScheme::Cyberpunk => (70, 0, 100),
        }
    }

    /// Text colour, as red, green and blue.
    pub fn text_color_rgb(&self) -> (r: (u8, u8, u8))
        ensures
            r == scheme_text_color(*self),
    {
        match self {
            ColorScheme::GithubLight => (36, 41, 46),
            ColorScheme::SolarizedLight => (101, 123, 131),
            ColorScheme::AtomLight => (33, 37, 43),
            ColorScheme::VisualStudioLight => (30, 30, 30),
            ColorScheme::Dracula => (248, 248, 242),
            ColorScheme::Monokai => (248, 248, 242),
            ColorScheme::OneDark => (171, 178, 191),
            ColorScheme::Nord => (216, 222, 233),
            ColorScheme::GruvboxDark => (235, 219, 178),
            ColorScheme::TokyoNight => (195, 200, 210),
            ColorScheme::MaterialDark => (220, 220, 220),
            ColorScheme::Cyberpunk => (255, 0, 255),
        }
    }

    /// Background of marked entries, as red, green and blue.
    pub fn selection_bg_rgb(&self) -> (r: (u8, u8, u8))
        ensures
            r == scheme_selection_bg(*self),
    {
        match self {
            ColorScheme::GithubLight => (200, 220, 240),
            ColorScheme::SolarizedLight => (220, 225, 200),
            ColorScheme::AtomLight => (210, 215, 220),
            ColorScheme::VisualStudioLight => (210, 215, 225),
            ColorScheme::Dracula => (56, 60, 74),
            ColorScheme::Monokai => (50, 50, 50),
            ColorScheme::OneDark => (50, 55, 65),
            ColorScheme::Nord => (59, 66, 82),
            ColorScheme::GruvboxDark => (50, 48, 47),
            ColorScheme::TokyoNight => (35, 37, 50),
            ColorScheme::MaterialDark => (40, 40, 40),
            ColorScheme::Cyberpunk => (50, 0, 80),
        }
    }

    /// Every scheme, light ones first, in declaration order.
    pub fn all() -> (r: Vec<ColorScheme>)
        ensures
            r@ == all_schemes(),
    {
        let mut r: Vec<ColorScheme> = Vec::new();
        r.push(ColorScheme::GithubLight);
        r.push(ColorScheme::SolarizedLight);
        r.push(ColorScheme::AtomLight);
        r.push(ColorScheme::VisualStudioLight);
        r.push(ColorScheme::Dracula);
        r.push(ColorScheme::Monokai);
        r.push(ColorScheme::OneDark);
        r.push(ColorScheme::Nord);
        r.push(ColorScheme::GruvboxDark);
        r.push(ColorScheme::TokyoNight);
        r.push(ColorScheme::MaterialDark);
        r.push(ColorScheme::Cyberpunk);
        assert(r@ =~= seq![
            ColorScheme::GithubLight,
            ColorScheme::SolarizedLight,
            ColorScheme::AtomLight,
            ColorScheme::VisualStudioLight,
            ColorScheme::Dracula,
            ColorScheme::Monokai,
            ColorScheme::OneDark,
            ColorScheme::Nord,
            ColorScheme::GruvboxDark,
            ColorScheme::TokyoNight,
            ColorScheme::MaterialDark,
            ColorScheme::Cyberpunk,
        ]);
        r
    }
}

/// Direction of a listing's order.
#[derive(Debug, Clone, Copy, PartialEq, Eq, Structural)]
pub enum SortOrder {
    Ascending,
    Descending,
}

/// What a listing is ordered by.
#[derive(Debug, Clone, Copy, PartialEq, Eq, Structural)]
pub enum SortField {
    Name,
    Size,
    Modified,
}

/// What the interface shows.
#[derive(Debug, Clone, Copy)]
pub struct DisplaySettings {
    pub show_left_pane: bool,
    pub show_tabs: bool,
    pub show_footer: bool,
    pub show_hidden_files: bool,
    pub color_scheme: ColorScheme,
}

/// How listings are ordered.
#[derive(Debug, Clone, Copy)]
pub struct SortSettings {
    pub field: SortField,
    pub order: SortOrder,
    pub separate_dirs: bool,
}

/// How previews are made. `max_preview_size` is in bytes.
#[derive(Debug, Clone, Copy)]
pub struct PreviewSettings {
    pub enabled: bool,
    pub max_preview_size: u64,
    pub image_preview_resolution: (u32, u32),
}

/// What the application asks before acting, and whether it refreshes.
#[derive(Debug, Clone, Copy)]
pub struct BehaviorSettings {
    pub confirm_delete: bool,
    pub confirm_overwrite: bool,
    pub auto_refresh: bool,
}

/// All settings, with bookmarks as (name, path) pairs.
#[derive(Debug)]
pub struct Settings {
    pub display: DisplaySettings,
    pub sort: SortSettings,
    pub preview: PreviewSettings,
    pub behavior: BehaviorSettings,
    pub bookmarks: Vec<(String, String)>,
}

impl Settings {
    /// The defaults: every pane shown, hidden files not, the Dracula scheme;
    /// names ascending with directories apart; previews on up to 1 MiB at
    /// 800 by 600; every confirmation and refreshing on; no bookmarks.
    pub fn new() -> (r: Settings)
        ensures
            r.display == (DisplaySettings {
                show_left_pane: true,
                show_tabs: true,
                show_footer: true,
                show_hidden_files: false,
                color_scheme: ColorScheme::Dracula,
            }),
            r.sort == (SortSettings {
                field: SortField::Name,
                order: SortOrder::Ascending,
                separate_dirs: true,
            }),
            r.preview == (PreviewSettings {
                enabled: true,
                max_preview_size: 1048576,
                image_preview_resolution: (800u32, 600u32),
            }),
            r.behavior == (BehaviorSettings {
                confirm_delete: true,
                confirm_overwrite: true,
                auto_refresh: true,
            }),
            r.bookmarks@.len() == 0,
    {
        Settings {
            display: DisplaySettings {
                show_left_pane: true,
                show_tabs: true,
                show_footer: true,
                show_hidden_files: false,
                color_scheme: ColorScheme::Dracula,
            },
            sort: SortSettings { field: SortField::Name, order: SortOrder::Ascending, separate_dirs: true },
            preview: PreviewSettings {
                enabled: true,
                max_preview_size: 1024 * 1024,
                image_preview_resolution: (800, 600),
            },
            behavior: BehaviorSettings { confirm_delete: true, confirm_overwrite: true, auto_refresh: true },
            bookmarks: Vec::new(),
        }
    }

    /// Carries the settings that a tab's listing depends on over to the
    /// application's hidden-files switch.
    pub fn apply_to_app_state(&self, show_hidden_files: &mut bool)
        ensures
            *final(show_hidden_files) == self.display.show_hidden_files,
    {
        *show_hidden_files = self.display.show_hidden_files;
    }
}

impl Default for Settings {
    /// The same defaults as `Settings::new`.
    fn default() -> (r: Settings)
        ensures
            r.display.color_scheme == ColorScheme::Dracula,
            !r.display.show_hidden_files,
            r.bookmarks@.len() == 0,
    {
        Settings::new()
    }
}

} // verus!
