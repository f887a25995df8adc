//! Plain option types consumed by the control-panel shells around the
//! library: selections a user can make in a settings or demo-form
//! view.  They carry no behavior beyond a stable display label, so the
//! shells can stay free of game logic.

use vstd::prelude::*;

verus! {

/// A respondent's role in the demo form.
#[derive(Clone, Copy, Debug, PartialEq, Eq, Structural)]
pub enum Role {
    Developer,
    Designer,
    Manager,
    Tester,
}

/// The display label of a [`Role`].
pub open spec fn role_label(r: Role) -> Seq<char> {
    match r {
        Role::Developer => "Developer"@,
        Role::Designer => "Designer"@,
        Role::Manager => "Manager"@,
        Role::Tester => "Tester"@,
    }
}

impl Role {
    /// The label under which this role is shown.
    pub fn label(&self) -> (r: &'static str)
        ensures
            r@ == role_label(*self),
    {
        match self {
            Role::Developer => "Developer",
            Role::Designer => "Designer",
            Role::Manager => "Manager",
            Role::Tester => "Tester",
        }
    }
}

/// One of the selectable options of the demo browser form.
#[derive(Clone, Copy, Debug, PartialEq, Eq, Structural)]
pub enum BrowserOption {
    OptionA,
    OptionB,
    OptionC,
}

/// The display label of a [`BrowserOption`].
pub open spec fn browser_option_label(o: BrowserOption) -> Seq<char> {
    match o {
        BrowserOption::OptionA => "Option A"@,
        BrowserOption::OptionB => "Option B"@,
        BrowserOption::OptionC => "Option C"@,
    }
}

impl BrowserOption {
    /// The label under which this option is shown.
    pub fn label(&self) -> (r: &'static str)
        ensures
            r@ == browser_option_label(*self),
    {
        match self {
            BrowserOption::OptionA => "Option A",
            BrowserOption::OptionB => "Option B",
            BrowserOption::OptionC => "Option C",
        }
    }
}

/// Which of the panel's views is on screen.
#[derive(Clone, Copy, Debug, PartialEq, Eq, Structural)]
pub enum ViewMode {
    Form,
    Chart,
    Summary,
    BrowserForm,
}

/// A selectable color theme of the panel.
#[derive(Clone, Copy, Debug, PartialEq, Eq, Structural)]
pub enum ThemeType {
    Light,
    Dark,
    Dracula,
    Nord,
    SolarizedLight,
    SolarizedDark,
    GruvboxLight,
    GruvboxDark,
    CatppuccinLatte,
    CatppuccinFrappe,
    CatppuccinMacchiato,
    CatppuccinMocha,
    TokyoNight,
    TokyoNightStorm,
    TokyoNightLight,
    KanagawaWave,
    KanagawaDragon,
    KanagawaLotus,
    Moonfly,
    Nightfly,
    Oxocarbon,
    Ferra,
}

/// The display label of a [`ThemeType`].
pub open spec fn theme_type_label(t: ThemeType) -> Seq<char> {
    match t {
        ThemeType::Light => "Light"@,
        ThemeType::Dark => "Dark"@,
        ThemeType::Dracula => "Dracula"@,
        ThemeType::Nord => "Nord"@,
        ThemeType::SolarizedLight => "Solarized Light"@,
        ThemeType::SolarizedDark => "Solarized Dark"@,
        ThemeType::GruvboxLight => "Gruvbox Light"@,
        ThemeType::GruvboxDark => "Gruvbox Dark"@,
        ThemeType::CatppuccinLatte => "Catppuccin Latte"@,
        ThemeType::CatppuccinFrappe => "Catppuccin Frappe"@,
        ThemeType::CatppuccinMacchiato => "Catppuccin Macchiato"@,
        ThemeType::CatppuccinMocha => "Catppuccin Mocha"@,
        ThemeType::TokyoNight => "Tokyo Night"@,
        ThemeType::TokyoNightStorm => "Tokyo Night Storm"@,
        ThemeType::TokyoNightLight => "Tokyo Night Light"@,
        ThemeType::KanagawaWave => "Kanagawa Wave"@,
        ThemeType::KanagawaDragon => "Kanagawa Dragon"@,
        ThemeType::KanagawaLotus => "Kanagawa Lotus"@,
        ThemeType::Moonfly => "Moonfly"@,
        ThemeType::Nightfly => "Nightfly"@,
        ThemeType::Oxocarbon => "Oxocarbon"@,
        ThemeType::Ferra => "Ferra"@,
    }
}

impl ThemeType {
    /// The label under which this theme is shown.
    pub fn label(&self) -> (r: &'static str)
        ensures
            r@ == theme_type_label(*self),
    {
        match self {
            ThemeType::Light => "Light",
            ThemeType::Dark => "Dark",
            ThemeType::Dracula => "Dracula",
            ThemeType::Nord => "Nord",
            ThemeType::SolarizedLight => "Solarized Light",
            ThemeType::SolarizedDark => "Solarized Dark",
            ThemeType::GruvboxLight => "Gruvbox Light",
            ThemeType::GruvboxDark => "Gruvbox Dark",
            ThemeType::CatppuccinLatte => "Catppuccin Latte",
            ThemeType::CatppuccinFrappe => "Catppuccin Frappe",
            ThemeType::CatppuccinMacchiato => "Catppuccin Macchiato",
            ThemeType::CatppuccinMocha => "Catppuccin Mocha",
            ThemeType::TokyoNight => "Tokyo Night",
            ThemeType::TokyoNightStorm => "Tokyo Night Storm",
            ThemeType::TokyoNightLight => "Tokyo Night Light",
            ThemeType::KanagawaWave => "Kanagawa Wave",
            ThemeType::KanagawaDragon => "Kanagawa Dragon",
            ThemeType::KanagawaLotus => "Kanagawa Lotus",
            ThemeType::Moonfly => "Moonfly",
            ThemeType::Nightfly => "Nightfly",
            ThemeType::Oxocarbon => "Oxocarbon",
            ThemeType::Ferra => "Ferra",
        }
    }
}

/// The direction of a panel fade animation; `Hold` means no fade is
/// running.
#[derive(Clone, Copy, Debug, PartialEq, Eq, Structural)]
pub enum AnimationDirection {
    FadeIn,
    FadeOut,
    Hold,
}

} // verus!
