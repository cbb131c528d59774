//! The static menu-bar plan: three submenus built from predefined host
//! items plus one custom "Settings..." entry, described as plain data for
//! the host to realize natively.

use vstd::prelude::*;
use vstd::string::StringExecFns;

verus! {

/// The one custom menu identifier the shell defines.
pub open spec fn settings_id() -> Seq<char> {
    "open_settings"@
}

/// The label of the custom settings entry.
pub open spec fn settings_label() -> Seq<char> {
    "Settings\u{2026}"@
}

/// The keyboard shortcut of the custom settings entry.
pub open spec fn settings_shortcut() -> Seq<char> {
    "CmdOrCtrl+,"@
}

/// The name of the UI event emitted when the settings entry is activated.
pub open spec fn open_settings_event() -> Seq<char> {
    "menu:open-settings"@
}

/// The fixed label of the window the settings event is addressed to.
pub open spec fn main_window_label() -> Seq<char> {
    "main"@
}

/// A menu entry whose behavior the host platform supplies entirely; it
/// never reaches the shell's dispatcher.
pub enum PredefinedItem {
    Services,
    Hide,
    HideOthers,
    ShowAll,
    Quit,
    Undo,
    Redo,
    Cut,
    Copy,
    Paste,
    SelectAll,
    Minimize,
    CloseWindow,
}

/// One entry of a submenu: a custom item with an identifier routed to the
/// dispatcher, a predefined host item, or a separator line.
pub enum MenuEntry {
    Custom { id: String, label: String, enabled: bool, shortcut: Option<String> },
    Predefined { kind: PredefinedItem },
    Separator,
}

/// A titled submenu of the menu bar.
pub struct Submenu {
    pub title: String,
    pub entries: Vec<MenuEntry>,
}

/// The whole menu bar: the submenus in display order.
pub struct MenuBar {
    pub submenus: Vec<Submenu>,
}

/// The ghost image of a `MenuEntry`.
#[verifier::ext_equal]
pub enum EntryView {
    Custom { id: Seq<char>, label: Seq<char>, enabled: bool, shortcut: Option<Seq<char>> },
    Predefined { kind: PredefinedItem },
    Separator,
}

/// The ghost image of a `Submenu`.
#[verifier::ext_equal]
pub struct SubmenuView {
    pub title: Seq<char>,
    pub entries: Seq<EntryView>,
}

/// The ghost image of a `MenuBar`.
#[verifier::ext_equal]
pub struct MenuBarView {
    pub submenus: Seq<SubmenuView>,
}

impl View for MenuEntry {
    type V = EntryView;

    open spec fn view(&self) -> EntryView {
        match self {
            MenuEntry::Custom { id, label, enabled, shortcut } => EntryView::Custom {
                id: id@,
                label: label@,
                enabled: *enabled,
                shortcut: match shortcut {
                    Some(s) => Some(s@),
                    None => None,
                },
            },
            MenuEntry::Predefined { kind } => EntryView::Predefined { kind: *kind },
            MenuEntry::Separator => EntryView::Separator,
        }
    }
}

impl View for Submenu {
    type V = SubmenuView;

    open spec fn view(&self) -> SubmenuView {
        SubmenuView { title: self.title@, entries: self.entries@.map_values(|e: MenuEntry| e@) }
    }
}

impl View for MenuBar {
    type V = MenuBarView;

    open spec fn view(&self) -> MenuBarView {
        MenuBarView { submenus: self.submenus@.map_values(|s: Submenu| s@) }
    }
}

/// The custom settings entry: enabled, with its identifier and shortcut.
pub open spec fn settings_entry_view() -> EntryView {
    EntryView::Custom {
        id: settings_id(),
        label: settings_label(),
        enabled: true,
        shortcut: Some(settings_shortcut()),
    }
}

/// The leftmost application submenu, titled with the application's name.
pub open spec fn app_submenu_view(app_name: Seq<char>) -> SubmenuView {
    SubmenuView {
        title: app_name,
        entries: seq![
            settings_entry_view(),
            EntryView::Separator,
            EntryView::Predefined { kind: PredefinedItem::Services },
            EntryView::Separator,
            EntryView::Predefined { kind: PredefinedItem::Hide },
            EntryView::Predefined { kind: PredefinedItem::HideOthers },
            EntryView::Predefined { kind: PredefinedItem::ShowAll },
            EntryView::Separator,
            EntryView::Predefined { kind: PredefinedItem::Quit },
        ],
    }
}

/// The standard edit submenu.
pub open spec fn edit_submenu_view() -> SubmenuView {
    SubmenuView {
        title: "Edit"@,
        entries: seq![
            EntryView::Predefined { kind: PredefinedItem::Undo },
            EntryView::Predefined { kind: PredefinedItem::Redo },
            EntryView::Separator,
            EntryView::Predefined { kind: PredefinedItem::Cut },
            EntryView::Predefined { kind: PredefinedItem::Copy },
            EntryView::Predefined { kind: PredefinedItem::Paste },
            EntryView::Predefined { kind: PredefinedItem::SelectAll },
        ],
    }
}

/// The standard window submenu; the settings entry appears here a second
/// time, under the same identifier.
pub open spec fn window_submenu_view() -> SubmenuView {
    SubmenuView {
        title: "Window"@,
        entries: seq![
            EntryView::Predefined { kind: PredefinedItem::Minimize },
            EntryView::Separator,
            settings_entry_view(),
            EntryView::Separator,
            EntryView::Predefined { kind: PredefinedItem::CloseWindow },
        ],
    }
}

/// The whole planned menu bar for a given application name.
pub open spec fn native_menu_bar_view(app_name: Seq<char>) -> MenuBarView {
    MenuBarView {
        submenus: seq![app_submenu_view(app_name), edit_submenu_view(), window_submenu_view()],
    }
}

fn settings_entry() -> (e: MenuEntry)
    ensures
        e@ == settings_entry_view(),
{
    MenuEntry::Custom {
        id: String::from_str("open_settings"),
        label: String::from_str("Settings\u{2026}"),
        enabled: true,
        shortcut: Some(String::from_str("CmdOrCtrl+,")),
    }
}

fn app_submenu(app_name: &str) -> (s: Submenu)
    ensures
        s@ == app_submenu_view(app_name@),
{
    let mut entries: Vec<MenuEntry> = Vec::new();
    entries.push(settings_entry());
    entries.push(MenuEntry::Separator);
    entries.push(MenuEntry::Predefined { kind: PredefinedItem::Services });
    entries.push(MenuEntry::Separator);
    entries.push(MenuEntry::Predefined { kind: PredefinedItem::Hide });
    entries.push(MenuEntry::Predefined { kind: PredefinedItem::HideOthers });
    entries.push(MenuEntry::Predefined { kind: PredefinedItem::ShowAll });
    entries.push(MenuEntry::Separator);
    entries.push(MenuEntry::Predefined { kind: PredefinedItem::Quit });
    let s = Submenu { title: String::from_str(app_name), entries };
    proof {
        assert(s@.entries =~= app_submenu_view(app_name@).entries);
        assert(s@ =~= app_submenu_view(app_name@));
    }
    s
}

fn edit_submenu() -> (s: Submenu)
    ensures
        s@ == edit_submenu_view(),
{
    let mut entries: Vec<MenuEntry> = Vec::new();
    entries.push(MenuEntry::Predefined { kind: PredefinedItem::Undo });
    entries.push(MenuEntry::Predefined { kind: PredefinedItem::Redo });
    entries.push(MenuEntry::Separator);
    entries.push(MenuEntry::Predefined { kind: PredefinedItem::Cut });
    entries.push(MenuEntry::Predefined { kind: PredefinedItem::Copy });
    entries.push(MenuEntry::Predefined { kind: PredefinedItem::Paste });
    entries.push(MenuEntry::Predefined { kind: PredefinedItem::SelectAll });
    let s = Submenu { title: String::from_str("Edit"), entries };
    proof {
        assert(s@.entries =~= edit_submenu_view().entries);
        assert(s@ =~= edit_submenu_view());
    }
    s
}

fn window_submenu() -> (s: Submenu)
    ensures
        s@ == window_submenu_view(),
{
    let mut entries: Vec<MenuEntry> = Vec::new();
    entries.push(MenuEntry::Predefined { kind: PredefinedItem::Minimize });
    entries.push(MenuEntry::Separator);
    entries.push(settings_entry());
    entries.push(MenuEntry::Separator);
    entries.push(MenuEntry::Predefined { kind: PredefinedItem::CloseWindow });
    let s = Submenu { title: String::from_str("Window"), entries };
    proof {
        assert(s@.entries =~= window_submenu_view().entries);
        assert(s@ =~= window_submenu_view());
    }
    s
}

/// Build the whole menu-bar plan for the platform with a native top-level
/// menu bar. Pure construction: the plan is plain data, and building it
/// cannot fail; only the host's native realization of it can.
pub fn native_menu_bar(app_name: &str) -> (r: MenuBar)
    ensures
        r@ == native_menu_bar_view(app_name@),
{
    let mut submenus: Vec<Submenu> = Vec::new();
    submenus.push(app_submenu(app_name));
    submenus.push(edit_submenu());
    submenus.push(window_submenu());
    let r = MenuBar { submenus };
    proof {
        assert(r@.submenus =~= native_menu_bar_view(app_name@).submenus);
        assert(r@ =~= native_menu_bar_view(app_name@));
    }
    r
}

} // verus!
