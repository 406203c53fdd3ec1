//! The main menu: its state, its two screens, and what selecting an entry
//! does.

use crate::settings::{
    PersistedSetting, StoredSettings, DEFAULT_BOOLEAN, DEFAULT_SAVE_SLOT_COUNT,
};
use crate::ui_events::{Request, UiEvent};
use vstd::prelude::*;

verus! {

/// Stands for an image that the application has loaded. The menu only
/// carries it from its state into the entry that shows it.
#[derive(Debug, Clone, Copy, PartialEq, Eq, Hash, Structural)]
pub struct ImageHandle {
    pub id: u64,
}

/// The state of the menu while it is open.
#[derive(Debug, Clone, Copy, PartialEq, Eq, Hash, Structural)]
pub struct MainMenuState {
    pub game_logo: ImageHandle,
    pub boolean1: bool,
    pub boolean2: bool,
    pub save_slots: u32,
}

/// The possible actions in the main menu and its settings.
#[derive(Debug, Clone, Copy, PartialEq, Eq, Hash, Structural)]
pub enum Actions {
    NewGame,
    LoadGame,
    Quit,
    Toggle1,
    Toggle2,
}

/// The screens of the menu.
#[derive(Debug, Clone, Copy, PartialEq, Eq, Hash, Structural)]
pub enum Screens {
    /// The screen that is shown first.
    Root,
    /// The settings: two toggles.
    Booleans,
}

/// The mark in front of an entry.
#[derive(Debug, Clone, Copy, PartialEq, Eq, Hash, Structural)]
pub enum MenuIcon {
    /// No mark.
    Plain,
    Checked,
    Unchecked,
}

/// One entry of a screen.
#[derive(Debug, Clone, Copy, PartialEq, Eq, Hash)]
pub enum MenuItem {
    /// Leads to another screen.
    Screen(&'static str, MenuIcon, Screens),
    /// Performs an action.
    Action(&'static str, MenuIcon, Actions),
    Label(&'static str),
    Headline(&'static str),
    Image(ImageHandle),
}

/// What selecting an entry amounts to.
#[derive(Debug, Clone, Copy, PartialEq, Eq, Hash, Structural)]
pub enum MenuSelection {
    Action(Actions),
    Screen(Screens),
    /// Text and images cannot be selected.
    Nothing,
}

/// A screen as it is to be displayed: the entries from top to bottom.
#[derive(Debug, PartialEq, Eq)]
pub struct Menu {
    pub id: &'static str,
    pub entries: Vec<MenuItem>,
}

/// An open menu: its state and the screen that is active.
#[derive(Debug, Clone, Copy, PartialEq, Eq, Hash, Structural)]
pub struct ActiveMenu {
    pub state: MainMenuState,
    pub screen: Screens,
}

impl Menu {
    /// Whether this is the screen `screen` as it is to be displayed for
    /// `state`: its name, and its entries from top to bottom.
    pub open spec fn shows(self, screen: Screens, state: MainMenuState) -> bool {
        &&& self.id == screen.id()
        &&& self.entries@ == screen.entries(state)
    }
}

impl Default for ImageHandle {
    fn default() -> (handle: Self)
        ensures
            handle.id == 0,
    {
        ImageHandle { id: 0 }
    }
}

impl Default for MainMenuState {
    /// The state of a first session: both toggles off, no save slot in use.
    fn default() -> (state: Self)
        ensures
            state == MainMenuState::seeded(ImageHandle { id: 0 }, StoredSettings::vacant()),
    {
        MainMenuState {
            game_logo: ImageHandle { id: 0 },
            boolean1: DEFAULT_BOOLEAN,
            boolean2: DEFAULT_BOOLEAN,
            save_slots: DEFAULT_SAVE_SLOT_COUNT,
        }
    }
}

impl MainMenuState {
    /// Whether the state holds the value of `setting` for that setting.
    pub open spec fn holds(self, setting: PersistedSetting) -> bool {
        match setting {
            PersistedSetting::Boolean1(value) => self.boolean1 == value,
            PersistedSetting::Boolean2(value) => self.boolean2 == value,
            PersistedSetting::SaveSlotCount(count) => self.save_slots == count,
        }
    }

    /// The state that a menu starts with: each setting as the store has it,
    /// or its default where the store lacks it.
    pub open spec fn seeded(game_logo: ImageHandle, stored: StoredSettings) -> MainMenuState {
        MainMenuState {
            game_logo,
            boolean1: match stored.boolean1 {
                Some(value) => value,
                None => DEFAULT_BOOLEAN,
            },
            boolean2: match stored.boolean2 {
                Some(value) => value,
                None => DEFAULT_BOOLEAN,
            },
            save_slots: match stored.save_slot_count {
                Some(count) => count,
                None => DEFAULT_SAVE_SLOT_COUNT,
            },
        }
    }
}

impl MenuItem {
    /// An entry that leads to `screen`.
    pub fn screen(label: &'static str, screen: Screens) -> (item: MenuItem)
        ensures
            item == MenuItem::Screen(label, MenuIcon::Plain, screen),
    {
        MenuItem::Screen(label, MenuIcon::Plain, screen)
    }

    /// An entry that performs `action`.
    pub fn action(label: &'static str, action: Actions) -> (item: MenuItem)
        ensures
            item == MenuItem::Action(label, MenuIcon::Plain, action),
    {
        MenuItem::Action(label, MenuIcon::Plain, action)
    }

    /// A line of text.
    pub fn label(label: &'static str) -> (item: MenuItem)
        ensures
            item == MenuItem::Label(label),
    {
        MenuItem::Label(label)
    }

    /// A line of text set as a headline.
    pub fn headline(label: &'static str) -> (item: MenuItem)
        ensures
            item == MenuItem::Headline(label),
    {
        MenuItem::Headline(label)
    }

    /// An entry that shows an image.
    pub fn image(handle: ImageHandle) -> (item: MenuItem)
        ensures
            item == MenuItem::Image(handle),
    {
        MenuItem::Image(handle)
    }

    /// The entry with `icon` in front, where the entry can carry one.
    pub open spec fn marked(self, icon: MenuIcon) -> MenuItem {
        match self {
            MenuItem::Screen(label, _, screen) => MenuItem::Screen(label, icon, screen),
            MenuItem::Action(label, _, action) => MenuItem::Action(label, icon, action),
            other => other,
        }
    }

    /// The mark that shows `checked`.
    pub open spec fn check_mark(checked: bool) -> MenuIcon {
        if checked {
            MenuIcon::Checked
        } else {
            MenuIcon::Unchecked
        }
    }

    /// Puts `icon` in front of the entry. Text and images carry none.
    pub fn with_icon(self, icon: MenuIcon) -> (item: MenuItem)
        ensures
            item == self.marked(icon),
    {
        match self {
            MenuItem::Screen(label, _, screen) => MenuItem::Screen(label, icon, screen),
            MenuItem::Action(label, _, action) => MenuItem::Action(label, icon, action),
            MenuItem::Label(label) => MenuItem::Label(label),
            MenuItem::Headline(label) => MenuItem::Headline(label),
            MenuItem::Image(handle) => MenuItem::Image(handle),
        }
    }

    /// Shows the entry as checked or as unchecked.
    pub fn checked(self, checked: bool) -> (item: MenuItem)
        ensures
            item == self.marked(MenuItem::check_mark(checked)),
    {
        if checked {
            self.with_icon(MenuIcon::Checked)
        } else {
            self.with_icon(MenuIcon::Unchecked)
        }
    }

    /// Whether the entry shows a check mark, and which: `Some(true)` for a
    /// checked entry, `Some(false)` for an unchecked one.
    pub open spec fn check_state(self) -> Option<bool> {
        match self {
            MenuItem::Screen(_, icon, _) | MenuItem::Action(_, icon, _) => match icon {
                MenuIcon::Plain => None,
                MenuIcon::Checked => Some(true),
                MenuIcon::Unchecked => Some(false),
            },
            _ => None,
        }
    }

    /// What selecting the entry amounts to.
    pub open spec fn selection(self) -> MenuSelection {
        match self {
            MenuItem::Screen(_, _, screen) => MenuSelection::Screen(screen),
            MenuItem::Action(_, _, action) => MenuSelection::Action(action),
            _ => MenuSelection::Nothing,
        }
    }

    /// What selecting the entry amounts to: an action, another screen, or
    /// nothing for text and images.
    pub fn as_selection(&self) -> (selection: MenuSelection)
        ensures
            selection == self.selection(),
    {
        match self {
            MenuItem::Screen(_, _, screen) => MenuSelection::Screen(*screen),
            MenuItem::Action(_, _, action) => MenuSelection::Action(*action),
            MenuItem::Label(_) => MenuSelection::Nothing,
            MenuItem::Headline(_) => MenuSelection::Nothing,
            MenuItem::Image(_) => MenuSelection::Nothing,
        }
    }

    /// Whether the entry can be selected.
    pub fn is_selectable(&self) -> (selectable: bool)
        ensures
            selectable == (self.selection() != MenuSelection::Nothing),
    {
        match self {
            MenuItem::Screen(_, _, _) => true,
            MenuItem::Action(_, _, _) => true,
            MenuItem::Label(_) => false,
            MenuItem::Headline(_) => false,
            MenuItem::Image(_) => false,
        }
    }
}

/// The entry that resumes a saved game.
pub open spec fn resume_entry() -> MenuItem {
    MenuItem::Action("Resume Game", MenuIcon::Plain, Actions::LoadGame)
}

/// Whether `entries` offers to resume a saved game.
pub open spec fn offers_resume(entries: Seq<MenuItem>) -> bool {
    exists|i: int| 0 <= i < entries.len() && entries[i] == resume_entry()
}

/// The entries of the root screen, from top to bottom. The entry that
/// resumes a game is there while a save slot is in use.
pub open spec fn root_entries(state: MainMenuState) -> Seq<MenuItem> {
    let top = seq![
        MenuItem::Image(state.game_logo),
        MenuItem::Headline("Bevy Starter Game"),
        MenuItem::Label("Main Menu"),
    ];
    let resume = if state.save_slots > 0 {
        seq![resume_entry()]
    } else {
        Seq::empty()
    };
    let rest = seq![
        MenuItem::Action("New Game", MenuIcon::Plain, Actions::NewGame),
        MenuItem::Screen("Settings", MenuIcon::Plain, Screens::Booleans),
        MenuItem::Action("Exit", MenuIcon::Plain, Actions::Quit),
    ];
    top + resume + rest
}

/// The entries of the settings screen. Each toggle shows the value that the
/// state holds for it.
pub open spec fn boolean_entries(state: MainMenuState) -> Seq<MenuItem> {
    seq![
        MenuItem::Label("Toggles some booleans"),
        MenuItem::Action("Toggle Boolean 1", MenuItem::check_mark(state.boolean1), Actions::Toggle1),
        MenuItem::Action("Toggle Boolean 2", MenuItem::check_mark(state.boolean2), Actions::Toggle2),
    ]
}

impl Actions {
    /// The state after the action: a toggle flips its boolean, the other
    /// actions change nothing.
    pub open spec fn applied(self, state: MainMenuState) -> MainMenuState {
        match self {
            Actions::Toggle1 => MainMenuState { boolean1: !state.boolean1, ..state },
            Actions::Toggle2 => MainMenuState { boolean2: !state.boolean2, ..state },
            _ => state,
        }
    }

    /// The event that the action emits, given the state after the action. A
    /// toggle reports the value that the state now holds.
    pub open spec fn emitted(self, after: MainMenuState) -> UiEvent {
        match self {
            Actions::NewGame => UiEvent::NewGame,
            Actions::LoadGame => UiEvent::LoadGame,
            Actions::Quit => UiEvent::QuitGame,
            Actions::Toggle1 => UiEvent::Boolean1Changed(after.boolean1),
            Actions::Toggle2 => UiEvent::Boolean2Changed(after.boolean2),
        }
    }

    /// Performs the action on `state` and returns the one event to emit for
    /// it. A toggle first flips its boolean and then reports the new value.
    pub fn handle(&self, state: &mut MainMenuState) -> (event: UiEvent)
        ensures
            *final(state) == self.applied(*old(state)),
            event == self.emitted(*final(state)),
    {
        match self {
            Actions::NewGame => UiEvent::NewGame,
            Actions::LoadGame => UiEvent::LoadGame,
            Actions::Quit => UiEvent::QuitGame,
            Actions::Toggle1 => {
                state.boolean1 = !state.boolean1;
                UiEvent::Boolean1Changed(state.boolean1)
            },
            Actions::Toggle2 => {
                state.boolean2 = !state.boolean2;
                UiEvent::Boolean2Changed(state.boolean2)
            },
        }
    }
}

impl Screens {
    /// The name of the screen.
    pub open spec fn id(self) -> &'static str {
        match self {
            Screens::Root => "main",
            Screens::Booleans => "boolean",
        }
    }

    /// The entries of the screen for `state`, from top to bottom.
    pub open spec fn entries(self, state: MainMenuState) -> Seq<MenuItem> {
        match self {
            Screens::Root => root_entries(state),
            Screens::Booleans => boolean_entries(state),
        }
    }

    /// The screen as it is to be displayed for `state`.
    pub fn resolve(&self, state: &MainMenuState) -> (menu: Menu)
        ensures
            menu.shows(*self, *state),
    {
        match self {
            Screens::Root => root_menu(state),
            Screens::Booleans => boolean_menu(state),
        }
    }
}

/// The root screen, which is displayed first.
pub fn root_menu(state: &MainMenuState) -> (menu: Menu)
    ensures
        menu.shows(Screens::Root, *state),
        offers_resume(menu.entries@) <==> state.save_slots > 0,
{
    let mut entries = vec![
        MenuItem::image(state.game_logo),
        MenuItem::headline("Bevy Starter Game"),
        MenuItem::label("Main Menu"),
    ];

    if state.save_slots > 0 {
        entries.push(MenuItem::action("Resume Game", Actions::LoadGame));
    }

    entries.push(MenuItem::action("New Game", Actions::NewGame));
    entries.push(MenuItem::screen("Settings", Screens::Booleans));
    entries.push(MenuItem::action("Exit", Actions::Quit));

    proof {
        assert(entries@ =~= root_entries(*state));
        lemma_resume_iff_save_slot(*state);
    }
    Menu { id: "main", entries }
}

/// The settings screen, which the root screen leads to.
pub fn boolean_menu(state: &MainMenuState) -> (menu: Menu)
    ensures
        menu.shows(Screens::Booleans, *state),
        menu.entries@[1].check_state() == Some(state.boolean1),
        menu.entries@[2].check_state() == Some(state.boolean2),
{
    let entries = vec![
        MenuItem::label("Toggles some booleans"),
        MenuItem::action("Toggle Boolean 1", Actions::Toggle1).checked(state.boolean1),
        MenuItem::action("Toggle Boolean 2", Actions::Toggle2).checked(state.boolean2),
    ];
    proof {
        assert(entries@ =~= boolean_entries(*state));
    }
    Menu { id: "boolean", entries }
}

/// The root screen offers to resume a game exactly while a save slot is in
/// use.
pub proof fn lemma_resume_iff_save_slot(state: MainMenuState)
    ensures
        offers_resume(root_entries(state)) <==> state.save_slots > 0,
{
    let entries = root_entries(state);
    if state.save_slots > 0 {
        assert(entries[3] == resume_entry());
    } else {
        assert(entries.len() == 6);
        assert(entries[3].selection() == MenuSelection::Action(Actions::NewGame));
        assert(entries[5].selection() == MenuSelection::Action(Actions::Quit));
    }
}

/// Resolving a screen is repeatable: whatever is resolved for one screen and
/// one state has the same name and the same entries in the same order.
pub proof fn lemma_resolve_repeatable(
    screen: Screens,
    state: MainMenuState,
    first: Menu,
    second: Menu,
)
    requires
        first.shows(screen, state),
        second.shows(screen, state),
    ensures
        first.id == second.id,
        first.entries@ == second.entries@,
{
}

/// The toggles of the settings screen show what the state holds: each is
/// checked exactly while its boolean is set.
pub proof fn lemma_toggles_mirror_state(state: MainMenuState)
    ensures
        boolean_entries(state).len() == 3,
        boolean_entries(state)[1].selection() == MenuSelection::Action(Actions::Toggle1),
        boolean_entries(state)[1].check_state() == Some(state.boolean1),
        boolean_entries(state)[2].selection() == MenuSelection::Action(Actions::Toggle2),
        boolean_entries(state)[2].check_state() == Some(state.boolean2),
{
}

/// An action and its event never disagree: where the event asks for a
/// setting to be written, the state after the action holds that value. Any
/// other action leaves the state as it was.
pub proof fn lemma_event_agrees_with_state(action: Actions, state: MainMenuState)
    ensures
        match action.emitted(action.applied(state)).request() {
            Request::Persist(setting) => action.applied(state).holds(setting),
            _ => action.applied(state) == state,
        },
{
}

/// What was written is what the next menu starts with: a state seeded from
/// the store after a write holds the written value.
pub proof fn lemma_written_setting_is_restored(
    game_logo: ImageHandle,
    stored: StoredSettings,
    setting: PersistedSetting,
)
    ensures
        MainMenuState::seeded(game_logo, stored.with(setting)).holds(setting),
{
}

/// Opens the menu: the state is seeded from what the store holds, with the
/// default for each setting that the store lacks, and the root screen is
/// active.
pub fn setup_menu(game_logo: ImageHandle, stored: &StoredSettings) -> (menu: ActiveMenu)
    ensures
        menu.screen == Screens::Root,
        menu.state == MainMenuState::seeded(game_logo, *stored),
{
    ActiveMenu {
        state: MainMenuState {
            game_logo,
            boolean1: stored.boolean1.unwrap_or(DEFAULT_BOOLEAN),
            boolean2: stored.boolean2.unwrap_or(DEFAULT_BOOLEAN),
            save_slots: stored.save_slot_count.unwrap_or(DEFAULT_SAVE_SLOT_COUNT),
        },
        screen: Screens::Root,
    }
}

impl ActiveMenu {
    /// The menu after the entry at `index` of the active screen was selected.
    /// An action changes the state, an entry that leads to a screen makes
    /// that screen the active one, and anything else changes nothing.
    pub open spec fn selected(self, index: int) -> ActiveMenu {
        let entries = self.screen.entries(self.state);
        if 0 <= index < entries.len() {
            match entries[index].selection() {
                MenuSelection::Action(action) => ActiveMenu {
                    state: action.applied(self.state),
                    ..self
                },
                MenuSelection::Screen(screen) => ActiveMenu { screen, ..self },
                MenuSelection::Nothing => self,
            }
        } else {
            self
        }
    }

    /// The event that selecting the entry at `index` emits: that of the
    /// entry's action, and none for any other entry.
    pub open spec fn emitted(self, index: int) -> Option<UiEvent> {
        let entries = self.screen.entries(self.state);
        if 0 <= index < entries.len() {
            match entries[index].selection() {
                MenuSelection::Action(action) => Some(action.emitted(action.applied(self.state))),
                _ => None,
            }
        } else {
            None
        }
    }

    /// The active screen as it is to be displayed.
    pub fn menu(&self) -> (menu: Menu)
        ensures
            menu.shows(self.screen, self.state),
    {
        self.screen.resolve(&self.state)
    }

    /// Selects the entry at `index` of the active screen, counted from the
    /// top, and returns the event to emit, if the entry has an action.
    pub fn select(&mut self, index: usize) -> (event: Option<UiEvent>)
        ensures
            *final(self) == old(self).selected(index as int),
            event == old(self).emitted(index as int),
    {
        let menu = self.screen.resolve(&self.state);
        if index < menu.entries.len() {
            match menu.entries[index].as_selection() {
                MenuSelection::Action(action) => Some(action.handle(&mut self.state)),
                MenuSelection::Screen(screen) => {
                    self.screen = screen;
                    None
                },
                MenuSelection::Nothing => None,
            }
        } else {
            None
        }
    }
}

} // verus!
