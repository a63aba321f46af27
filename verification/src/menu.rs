//! The native menu bar: its layout, and the script that forwards a menu
//! click to the web view.

use vstd::prelude::*;
use crate::text::push_char;

verus! {

/// A menu item that the platform provides, with its standard behaviour.
#[derive(Clone, Copy, Debug, PartialEq, Eq)]
pub enum Predefined {
    Undo,
    Redo,
    Cut,
    Copy,
    Paste,
    SelectAll,
    Minimize,
    Maximize,
    /// The "about" item, with its label.
    About(&'static str),
    Services,
    Hide,
    HideOthers,
    ShowAll,
    Quit,
}

/// One entry of a menu.
#[derive(Clone, Copy, Debug, PartialEq, Eq)]
pub enum MenuEntry {
    /// An item of the application: its event id, its label and its
    /// keyboard shortcut.
    Item { id: &'static str, label: &'static str, accelerator: Option<&'static str> },
    Separator,
    Predefined(Predefined),
}

/// A menu of the menu bar: its title and its entries in order.
#[derive(Debug, PartialEq, Eq)]
pub struct Submenu {
    pub title: &'static str,
    pub entries: Vec<MenuEntry>,
}

impl View for Submenu {
    type V = (Seq<char>, Seq<MenuEntry>);

    open spec fn view(&self) -> (Seq<char>, Seq<MenuEntry>) {
        (self.title@, self.entries@)
    }
}

/// The entries of the "File" menu.
pub open spec fn file_menu_entries() -> Seq<MenuEntry> {
    seq![
        MenuEntry::Item { id: "new_file", label: "New File", accelerator: Some("CmdOrCtrl+N") },
        MenuEntry::Item { id: "new_window", label: "New Window", accelerator: Some("CmdOrCtrl+Shift+N") },
        MenuEntry::Separator,
        MenuEntry::Item { id: "open_file", label: "Open File...", accelerator: Some("CmdOrCtrl+O") },
        MenuEntry::Item { id: "open_folder", label: "Open Folder...", accelerator: None },
        MenuEntry::Item { id: "open_recent", label: "Open Recent", accelerator: None },
        MenuEntry::Separator,
        MenuEntry::Item { id: "save", label: "Save", accelerator: Some("CmdOrCtrl+S") },
        MenuEntry::Item { id: "save_as", label: "Save As...", accelerator: Some("CmdOrCtrl+Shift+S") },
        MenuEntry::Item { id: "save_all", label: "Save All", accelerator: Some("CmdOrCtrl+Alt+S") },
        MenuEntry::Separator,
        MenuEntry::Item { id: "close_editor", label: "Close Editor", accelerator: Some("CmdOrCtrl+W") },
        MenuEntry::Item { id: "close_window", label: "Close Window", accelerator: Some("CmdOrCtrl+Shift+W") },
    ]
}

/// The entries of the "Edit" menu.
pub open spec fn edit_menu_entries() -> Seq<MenuEntry> {
    seq![
        MenuEntry::Predefined(Predefined::Undo),
        MenuEntry::Predefined(Predefined::Redo),
        MenuEntry::Separator,
        MenuEntry::Predefined(Predefined::Cut),
        MenuEntry::Predefined(Predefined::Copy),
        MenuEntry::Predefined(Predefined::Paste),
        MenuEntry::Separator,
        MenuEntry::Item { id: "find", label: "Find", accelerator: Some("CmdOrCtrl+F") },
        MenuEntry::Item { id: "replace", label: "Replace", accelerator: Some("CmdOrCtrl+H") },
        MenuEntry::Separator,
        MenuEntry::Item { id: "find_in_files", label: "Find in Files", accelerator: Some("CmdOrCtrl+Shift+F") },
        MenuEntry::Item { id: "replace_in_files", label: "Replace in Files", accelerator: Some("CmdOrCtrl+Shift+H") },
    ]
}

/// The entries of the "Selection" menu.
pub open spec fn selection_menu_entries() -> Seq<MenuEntry> {
    seq![
        MenuEntry::Predefined(Predefined::SelectAll),
        MenuEntry::Item { id: "expand_selection", label: "Expand Selection", accelerator: Some("CmdOrCtrl+Shift+Right") },
        MenuEntry::Item { id: "shrink_selection", label: "Shrink Selection", accelerator: Some("CmdOrCtrl+Shift+Left") },
        MenuEntry::Separator,
        MenuEntry::Item { id: "copy_line_up", label: "Copy Line Up", accelerator: Some("Alt+Shift+Up") },
        MenuEntry::Item { id: "copy_line_down", label: "Copy Line Down", accelerator: Some("Alt+Shift+Down") },
        MenuEntry::Item { id: "move_line_up", label: "Move Line Up", accelerator: Some("Alt+Up") },
        MenuEntry::Item { id: "move_line_down", label: "Move Line Down", accelerator: Some("Alt+Down") },
        MenuEntry::Separator,
        MenuEntry::Item { id: "add_cursor_above", label: "Add Cursor Above", accelerator: Some("CmdOrCtrl+Alt+Up") },
        MenuEntry::Item { id: "add_cursor_below", label: "Add Cursor Below", accelerator: Some("CmdOrCtrl+Alt+Down") },
        MenuEntry::Item { id: "select_all_occurrences", label: "Select All Occurrences", accelerator: Some("CmdOrCtrl+Shift+L") },
    ]
}

/// The entries of the "View" menu.
pub open spec fn view_menu_entries() -> Seq<MenuEntry> {
    seq![
        MenuEntry::Item { id: "command_palette", label: "Command Palette...", accelerator: Some("CmdOrCtrl+Shift+P") },
        MenuEntry::Item { id: "open_view", label: "Open View...", accelerator: None },
        MenuEntry::Separator,
        MenuEntry::Item { id: "explorer", label: "Explorer", accelerator: Some("CmdOrCtrl+Shift+E") },
        MenuEntry::Item { id: "search", label: "Search", accelerator: Some("CmdOrCtrl+Shift+F") },
        MenuEntry::Item { id: "source_control", label: "Source Control", accelerator: Some("CmdOrCtrl+Shift+G") },
        MenuEntry::Item { id: "debug", label: "Run and Debug", accelerator: Some("CmdOrCtrl+Shift+D") },
        MenuEntry::Item { id: "extensions", label: "Extensions", accelerator: Some("CmdOrCtrl+Shift+X") },
        MenuEntry::Separator,
        MenuEntry::Item { id: "problems", label: "Problems", accelerator: Some("CmdOrCtrl+Shift+M") },
        MenuEntry::Item { id: "output", label: "Output", accelerator: Some("CmdOrCtrl+Shift+U") },
        MenuEntry::Item { id: "terminal", label: "Terminal", accelerator: Some("CmdOrCtrl+`") },
        MenuEntry::Item { id: "debug_console", label: "Debug Console", accelerator: Some("CmdOrCtrl+Shift+Y") },
        MenuEntry::Separator,
        MenuEntry::Item { id: "toggle_fullscreen", label: "Toggle Full Screen", accelerator: Some("F11") },
        MenuEntry::Item { id: "zoom_in", label: "Zoom In", accelerator: Some("CmdOrCtrl+=") },
        MenuEntry::Item { id: "zoom_out", label: "Zoom Out", accelerator: Some("CmdOrCtrl+-") },
        MenuEntry::Item { id: "reset_zoom", label: "Reset Zoom", accelerator: Some("CmdOrCtrl+0") },
    ]
}

/// The entries of the "Go" menu.
pub open spec fn go_menu_entries() -> Seq<MenuEntry> {
    seq![
        MenuEntry::Item { id: "back", label: "Back", accelerator: Some("CmdOrCtrl+Alt+Left") },
        MenuEntry::Item { id: "forward", label: "Forward", accelerator: Some("CmdOrCtrl+Alt+Right") },
        MenuEntry::Separator,
        MenuEntry::Item { id: "go_to_file", label: "Go to File...", accelerator: Some("CmdOrCtrl+P") },
        MenuEntry::Item { id: "go_to_symbol", label: "Go to Symbol in Workspace...", accelerator: Some("CmdOrCtrl+T") },
        MenuEntry::Separator,
        MenuEntry::Item { id: "go_to_line", label: "Go to Line/Column...", accelerator: Some("CmdOrCtrl+G") },
        MenuEntry::Item { id: "go_to_definition", label: "Go to Definition", accelerator: Some("F12") },
        MenuEntry::Item { id: "go_to_references", label: "Go to References", accelerator: Some("Shift+F12") },
    ]
}

/// The entries of the "Run" menu.
pub open spec fn run_menu_entries() -> Seq<MenuEntry> {
    seq![
        MenuEntry::Item { id: "start_debugging", label: "Start Debugging", accelerator: Some("F5") },
        MenuEntry::Item { id: "run_without_debugging", label: "Run Without Debugging", accelerator: Some("CmdOrCtrl+F5") },
        MenuEntry::Item { id: "stop_debugging", label: "Stop Debugging", accelerator: Some("Shift+F5") },
        MenuEntry::Item { id: "restart_debugging", label: "Restart Debugging", accelerator: Some("CmdOrCtrl+Shift+F5") },
        MenuEntry::Separator,
        MenuEntry::Item { id: "toggle_breakpoint", label: "Toggle Breakpoint", accelerator: Some("F9") },
    ]
}

/// The entries of the "Terminal" menu.
pub open spec fn terminal_menu_entries() -> Seq<MenuEntry> {
    seq![
        MenuEntry::Item { id: "new_terminal", label: "New Terminal", accelerator: Some("CmdOrCtrl+Shift+`") },
        MenuEntry::Item { id: "split_terminal", label: "Split Terminal", accelerator: None },
        MenuEntry::Separator,
        MenuEntry::Item { id: "run_task", label: "Run Task...", accelerator: None },
        MenuEntry::Item { id: "run_build_task", label: "Run Build Task...", accelerator: Some("CmdOrCtrl+Shift+B") },
    ]
}

/// The entries of the "Window" menu.
pub open spec fn window_menu_entries() -> Seq<MenuEntry> {
    seq![
        MenuEntry::Predefined(Predefined::Minimize),
        MenuEntry::Predefined(Predefined::Maximize),
    ]
}

/// The entries of the "Help" menu.
pub open spec fn help_menu_entries() -> Seq<MenuEntry> {
    seq![
        MenuEntry::Item { id: "welcome", label: "Welcome", accelerator: None },
        MenuEntry::Item { id: "documentation", label: "Documentation", accelerator: None },
        MenuEntry::Item { id: "release_notes", label: "Release Notes", accelerator: None },
        MenuEntry::Separator,
        MenuEntry::Item { id: "keyboard_shortcuts", label: "Keyboard Shortcuts Reference", accelerator: None },
        MenuEntry::Separator,
        MenuEntry::Item { id: "report_issue", label: "Report Issue", accelerator: None },
        MenuEntry::Separator,
        MenuEntry::Item { id: "toggle_dev_tools", label: "Toggle Developer Tools", accelerator: Some("CmdOrCtrl+Alt+I") },
    ]
}

/// The entries of the "SideX" menu.
pub open spec fn sidex_menu_entries() -> Seq<MenuEntry> {
    seq![
        MenuEntry::Predefined(Predefined::About("About SideX")),
        MenuEntry::Separator,
        MenuEntry::Predefined(Predefined::Services),
        MenuEntry::Separator,
        MenuEntry::Predefined(Predefined::Hide),
        MenuEntry::Predefined(Predefined::HideOthers),
        MenuEntry::Predefined(Predefined::ShowAll),
        MenuEntry::Separator,
        MenuEntry::Predefined(Predefined::Quit),
    ]
}

/// The menus shown on every platform, in order, each with its title.
pub open spec fn common_layout() -> Seq<(Seq<char>, Seq<MenuEntry>)> {
    seq![
        ("File"@, file_menu_entries()),
        ("Edit"@, edit_menu_entries()),
        ("Selection"@, selection_menu_entries()),
        ("View"@, view_menu_entries()),
        ("Go"@, go_menu_entries()),
        ("Run"@, run_menu_entries()),
        ("Terminal"@, terminal_menu_entries()),
        ("Window"@, window_menu_entries()),
        ("Help"@, help_menu_entries()),
    ]
}

/// The menu bar: on macOS the application menu "SideX" comes first.
pub open spec fn spec_layout(macos: bool) -> Seq<(Seq<char>, Seq<MenuEntry>)> {
    if macos {
        seq![("SideX"@, sidex_menu_entries())] + common_layout()
    } else {
        common_layout()
    }
}

fn file_menu() -> (r: Submenu)
    ensures
        r@ == ("File"@, file_menu_entries()),
{
    let mut e: Vec<MenuEntry> = Vec::new();
    e.push(MenuEntry::Item { id: "new_file", label: "New File", accelerator: Some("CmdOrCtrl+N") });
    e.push(MenuEntry::Item { id: "new_window", label: "New Window", accelerator: Some("CmdOrCtrl+Shift+N") });
    e.push(MenuEntry::Separator);
    e.push(MenuEntry::Item { id: "open_file", label: "Open File...", accelerator: Some("CmdOrCtrl+O") });
    e.push(MenuEntry::Item { id: "open_folder", label: "Open Folder...", accelerator: None });
    e.push(MenuEntry::Item { id: "open_recent", label: "Open Recent", accelerator: None });
    e.push(MenuEntry::Separator);
    e.push(MenuEntry::Item { id: "save", label: "Save", accelerator: Some("CmdOrCtrl+S") });
    e.push(MenuEntry::Item { id: "save_as", label: "Save As...", accelerator: Some("CmdOrCtrl+Shift+S") });
    e.push(MenuEntry::Item { id: "save_all", label: "Save All", accelerator: Some("CmdOrCtrl+Alt+S") });
    e.push(MenuEntry::Separator);
    e.push(MenuEntry::Item { id: "close_editor", label: "Close Editor", accelerator: Some("CmdOrCtrl+W") });
    e.push(MenuEntry::Item { id: "close_window", label: "Close Window", accelerator: Some("CmdOrCtrl+Shift+W") });
    let r = Submenu { title: "File", entries: e };
    assert(r@ =~= ("File"@, file_menu_entries()));
    r
}

fn edit_menu() -> (r: Submenu)
    ensures
        r@ == ("Edit"@, edit_menu_entries()),
{
    let mut e: Vec<MenuEntry> = Vec::new();
    e.push(MenuEntry::Predefined(Predefined::Undo));
    e.push(MenuEntry::Predefined(Predefined::Redo));
    e.push(MenuEntry::Separator);
    e.push(MenuEntry::Predefined(Predefined::Cut));
    e.push(MenuEntry::Predefined(Predefined::Copy));
    e.push(MenuEntry::Predefined(Predefined::Paste));
    e.push(MenuEntry::Separator);
    e.push(MenuEntry::Item { id: "find", label: "Find", accelerator: Some("CmdOrCtrl+F") });
    e.push(MenuEntry::Item { id: "replace", label: "Replace", accelerator: Some("CmdOrCtrl+H") });
    e.push(MenuEntry::Separator);
    e.push(MenuEntry::Item { id: "find_in_files", label: "Find in Files", accelerator: Some("CmdOrCtrl+Shift+F") });
    e.push(MenuEntry::Item { id: "replace_in_files", label: "Replace in Files", accelerator: Some("CmdOrCtrl+Shift+H") });
    let r = Submenu { title: "Edit", entries: e };
    assert(r@ =~= ("Edit"@, edit_menu_entries()));
    r
}

fn selection_menu() -> (r: Submenu)
    ensures
        r@ == ("Selection"@, selection_menu_entries()),
{
    let mut e: Vec<MenuEntry> = Vec::new();
    e.push(MenuEntry::Predefined(Predefined::SelectAll));
    e.push(MenuEntry::Item { id: "expand_selection", label: "Expand Selection", accelerator: Some("CmdOrCtrl+Shift+Right") });
    e.push(MenuEntry::Item { id: "shrink_selection", label: "Shrink Selection", accelerator: Some("CmdOrCtrl+Shift+Left") });
    e.push(MenuEntry::Separator);
    e.push(MenuEntry::Item { id: "copy_line_up", label: "Copy Line Up", accelerator: Some("Alt+Shift+Up") });
    e.push(MenuEntry::Item { id: "copy_line_down", label: "Copy Line Down", accelerator: Some("Alt+Shift+Down") });
    e.push(MenuEntry::Item { id: "move_line_up", label: "Move Line Up", accelerator: Some("Alt+Up") });
    e.push(MenuEntry::Item { id: "move_line_down", label: "Move Line Down", accelerator: Some("Alt+Down") });
    e.push(MenuEntry::Separator);
    e.push(MenuEntry::Item { id: "add_cursor_above", label: "Add Cursor Above", accelerator: Some("CmdOrCtrl+Alt+Up") });
    e.push(MenuEntry::Item { id: "add_cursor_below", label: "Add Cursor Below", accelerator: Some("CmdOrCtrl+Alt+Down") });
    e.push(MenuEntry::Item { id: "select_all_occurrences", label: "Select All Occurrences", accelerator: Some("CmdOrCtrl+Shift+L") });
    let r = Submenu { title: "Selection", entries: e };
    assert(r@ =~= ("Selection"@, selection_menu_entries()));
    r
}

fn view_menu() -> (r: Submenu)
    ensures
        r@ == ("View"@, view_menu_entries()),
{
    let mut e: Vec<MenuEntry> = Vec::new();
    e.push(MenuEntry::Item { id: "command_palette", label: "Command Palette...", accelerator: Some("CmdOrCtrl+Shift+P") });
    e.push(MenuEntry::Item { id: "open_view", label: "Open View...", accelerator: None });
    e.push(MenuEntry::Separator);
    e.push(MenuEntry::Item { id: "explorer", label: "Explorer", accelerator: Some("CmdOrCtrl+Shift+E") });
    e.push(MenuEntry::Item { id: "search", label: "Search", accelerator: Some("CmdOrCtrl+Shift+F") });
    e.push(MenuEntry::Item { id: "source_control", label: "Source Control", accelerator: Some("CmdOrCtrl+Shift+G") });
    e.push(MenuEntry::Item { id: "debug", label: "Run and Debug", accelerator: Some("CmdOrCtrl+Shift+D") });
    e.push(MenuEntry::Item { id: "extensions", label: "Extensions", accelerator: Some("CmdOrCtrl+Shift+X") });
    e.push(MenuEntry::Separator);
    e.push(MenuEntry::Item { id: "problems", label: "Problems", accelerator: Some("CmdOrCtrl+Shift+M") });
    e.push(MenuEntry::Item { id: "output", label: "Output", accelerator: Some("CmdOrCtrl+Shift+U") });
    e.push(MenuEntry::Item { id: "terminal", label: "Terminal", accelerator: Some("CmdOrCtrl+`") });
    e.push(MenuEntry::Item { id: "debug_console", label: "Debug Console", accelerator: Some("CmdOrCtrl+Shift+Y") });
    e.push(MenuEntry::Separator);
    e.push(MenuEntry::Item { id: "toggle_fullscreen", label: "Toggle Full Screen", accelerator: Some("F11") });
    e.push(MenuEntry::Item { id: "zoom_in", label: "Zoom In", accelerator: Some("CmdOrCtrl+=") });
    e.push(MenuEntry::Item { id: "zoom_out", label: "Zoom Out", accelerator: Some("CmdOrCtrl+-") });
    e.push(MenuEntry::Item { id: "reset_zoom", label: "Reset Zoom", accelerator: Some("CmdOrCtrl+0") });
    let r = Submenu { title: "View", entries: e };
    assert(r@ =~= ("View"@, view_menu_entries()));
    r
}

fn go_menu() -> (r: Submenu)
    ensures
        r@ == ("Go"@, go_menu_entries()),
{
    let mut e: Vec<MenuEntry> = Vec::new();
    e.push(MenuEntry::Item { id: "back", label: "Back", accelerator: Some("CmdOrCtrl+Alt+Left") });
    e.push(MenuEntry::Item { id: "forward", label: "Forward", accelerator: Some("CmdOrCtrl+Alt+Right") });
    e.push(MenuEntry::Separator);
    e.push(MenuEntry::Item { id: "go_to_file", label: "Go to File...", accelerator: Some("CmdOrCtrl+P") });
    e.push(MenuEntry::Item { id: "go_to_symbol", label: "Go to Symbol in Workspace...", accelerator: Some("CmdOrCtrl+T") });
    e.push(MenuEntry::Separator);
    e.push(MenuEntry::Item { id: "go_to_line", label: "Go to Line/Column...", accelerator: Some("CmdOrCtrl+G") });
    e.push(MenuEntry::Item { id: "go_to_definition", label: "Go to Definition", accelerator: Some("F12") });
    e.push(MenuEntry::Item { id: "go_to_references", label: "Go to References", accelerator: Some("Shift+F12") });
    let r = Submenu { title: "Go", entries: e };
    assert(r@ =~= ("Go"@, go_menu_entries()));
    r
}

fn run_menu() -> (r: Submenu)
    ensures
        r@ == ("Run"@, run_menu_entries()),
{
    let mut e: Vec<MenuEntry> = Vec::new();
    e.push(MenuEntry::Item { id: "start_debugging", label: "Start Debugging", accelerator: Some("F5") });
    e.push(MenuEntry::Item { id: "run_without_debugging", label: "Run Without Debugging", accelerator: Some("CmdOrCtrl+F5") });
    e.push(MenuEntry::Item { id: "stop_debugging", label: "Stop Debugging", accelerator: Some("Shift+F5") });
    e.push(MenuEntry::Item { id: "restart_debugging", label: "Restart Debugging", accelerator: Some("CmdOrCtrl+Shift+F5") });
    e.push(MenuEntry::Separator);
    e.push(MenuEntry::Item { id: "toggle_breakpoint", label: "Toggle Breakpoint", accelerator: Some("F9") });
    let r = Submenu { title: "Run", entries: e };
    assert(r@ =~= ("Run"@, run_menu_entries()));
    r
}

fn terminal_menu() -> (r: Submenu)
    ensures
        r@ == ("Terminal"@, terminal_menu_entries()),
{
    let mut e: Vec<MenuEntry> = Vec::new();
    e.push(MenuEntry::Item { id: "new_terminal", label: "New Terminal", accelerator: Some("CmdOrCtrl+Shift+`") });
    e.push(MenuEntry::Item { id: "split_terminal", label: "Split Terminal", accelerator: None });
    e.push(MenuEntry::Separator);
    e.push(MenuEntry::Item { id: "run_task", label: "Run Task...", accelerator: None });
    e.push(MenuEntry::Item { id: "run_build_task", label: "Run Build Task...", accelerator: Some("CmdOrCtrl+Shift+B") });
    let r = Submenu { title: "Terminal", entries: e };
    assert(r@ =~= ("Terminal"@, terminal_menu_entries()));
    r
}

fn window_menu() -> (r: Submenu)
    ensures
        r@ == ("Window"@, window_menu_entries()),
{
    let mut e: Vec<MenuEntry> = Vec::new();
    e.push(MenuEntry::Predefined(Predefined::Minimize));
    e.push(MenuEntry::Predefined(Predefined::Maximize));
    let r = Submenu { title: "Window", entries: e };
    assert(r@ =~= ("Window"@, window_menu_entries()));
    r
}

fn help_menu() -> (r: Submenu)
    ensures
        r@ == ("Help"@, help_menu_entries()),
{
    let mut e: Vec<MenuEntry> = Vec::new();
    e.push(MenuEntry::Item { id: "welcome", label: "Welcome", accelerator: None });
    e.push(MenuEntry::Item { id: "documentation", label: "Documentation", accelerator: None });
    e.push(MenuEntry::Item { id: "release_notes", label: "Release Notes", accelerator: None });
    e.push(MenuEntry::Separator);
    e.push(MenuEntry::Item { id: "keyboard_shortcuts", label: "Keyboard Shortcuts Reference", accelerator: None });
    e.push(MenuEntry::Separator);
    e.push(MenuEntry::Item { id: "report_issue", label: "Report Issue", accelerator: None });
    e.push(MenuEntry::Separator);
    e.push(MenuEntry::Item { id: "toggle_dev_tools", label: "Toggle Developer Tools", accelerator: Some("CmdOrCtrl+Alt+I") });
    let r = Submenu { title: "Help", entries: e };
    assert(r@ =~= ("Help"@, help_menu_entries()));
    r
}

fn sidex_menu() -> (r: Submenu)
    ensures
        r@ == ("SideX"@, sidex_menu_entries()),
{
    let mut e: Vec<MenuEntry> = Vec::new();
    e.push(MenuEntry::Predefined(Predefined::About("About SideX")));
    e.push(MenuEntry::Separator);
    e.push(MenuEntry::Predefined(Predefined::Services));
    e.push(MenuEntry::Separator);
    e.push(MenuEntry::Predefined(Predefined::Hide));
    e.push(MenuEntry::Predefined(Predefined::HideOthers));
    e.push(MenuEntry::Predefined(Predefined::ShowAll));
    e.push(MenuEntry::Separator);
    e.push(MenuEntry::Predefined(Predefined::Quit));
    let r = Submenu { title: "SideX", entries: e };
    assert(r@ =~= ("SideX"@, sidex_menu_entries()));
    r
}

/// The menu bar of the application window, menu by menu; `macos` puts the
/// application menu first, as macOS expects.
pub fn build_menu(macos: bool) -> (r: Vec<Submenu>)
    ensures
        r@.map_values(|m: Submenu| m@) == spec_layout(macos),
{
    let mut menus: Vec<Submenu> = Vec::new();
    if macos {
        menus.push(sidex_menu());
    }
    menus.push(file_menu());
    menus.push(edit_menu());
    menus.push(selection_menu());
    menus.push(view_menu());
    menus.push(go_menu());
    menus.push(run_menu());
    menus.push(terminal_menu());
    menus.push(window_menu());
    menus.push(help_menu());
    assert(menus@.map_values(|m: Submenu| m@) =~= spec_layout(macos));
    menus
}

/// The id of an application item; `None` for separators and predefined
/// items.
pub open spec fn entry_id(e: MenuEntry) -> Option<Seq<char>> {
    match e {
        MenuEntry::Item { id, .. } => Some(id@),
        _ => None,
    }
}

/// The ids of a menu's application items, in order.
pub open spec fn menu_item_ids(entries: Seq<MenuEntry>) -> Seq<Seq<char>>
    decreases entries.len(),
{
    if entries.len() == 0 {
        Seq::empty()
    } else {
        let rest = menu_item_ids(entries.subrange(1, entries.len() as int));
        match entry_id(entries[0]) {
            Some(id) => seq![id] + rest,
            None => rest,
        }
    }
}

/// The ids of all application items of a menu bar, menu by menu.
pub open spec fn layout_ids(layout: Seq<(Seq<char>, Seq<MenuEntry>)>) -> Seq<Seq<char>>
    decreases layout.len(),
{
    if layout.len() == 0 {
        Seq::empty()
    } else {
        menu_item_ids(layout[0].1) + layout_ids(layout.subrange(1, layout.len() as int))
    }
}

proof fn lemma_file_menu_ids()
    ensures
        menu_item_ids(file_menu_entries()) == seq!["new_file"@, "new_window"@, "open_file"@, "open_folder"@, "open_recent"@, "save"@, "save_as"@, "save_all"@, "close_editor"@, "close_window"@],
{
    reveal_with_fuel(menu_item_ids, 14);
    assert(menu_item_ids(file_menu_entries()) =~= seq!["new_file"@, "new_window"@, "open_file"@, "open_folder"@, "open_recent"@, "save"@, "save_as"@, "save_all"@, "close_editor"@, "close_window"@]);
}

proof fn lemma_edit_menu_ids()
    ensures
        menu_item_ids(edit_menu_entries()) == seq!["find"@, "replace"@, "find_in_files"@, "replace_in_files"@],
{
    reveal_with_fuel(menu_item_ids, 13);
    assert(menu_item_ids(edit_menu_entries()) =~= seq!["find"@, "replace"@, "find_in_files"@, "replace_in_files"@]);
}

proof fn lemma_selection_menu_ids()
    ensures
        menu_item_ids(selection_menu_entries()) == seq!["expand_selection"@, "shrink_selection"@, "copy_line_up"@, "copy_line_down"@, "move_line_up"@, "move_line_down"@, "add_cursor_above"@, "add_cursor_below"@, "select_all_occurrences"@],
{
    reveal_with_fuel(menu_item_ids, 13);
    assert(menu_item_ids(selection_menu_entries()) =~= seq!["expand_selection"@, "shrink_selection"@, "copy_line_up"@, "copy_line_down"@, "move_line_up"@, "move_line_down"@, "add_cursor_above"@, "add_cursor_below"@, "select_all_occurrences"@]);
}

proof fn lemma_view_menu_ids()
    ensures
        menu_item_ids(view_menu_entries()) == seq!["command_palette"@, "open_view"@, "explorer"@, "search"@, "source_control"@, "debug"@, "extensions"@, "problems"@, "output"@, "terminal"@, "debug_console"@, "toggle_fullscreen"@, "zoom_in"@, "zoom_out"@, "reset_zoom"@],
{
    reveal_with_fuel(menu_item_ids, 19);
    assert(menu_item_ids(view_menu_entries()) =~= seq!["command_palette"@, "open_view"@, "explorer"@, "search"@, "source_control"@, "debug"@, "extensions"@, "problems"@, "output"@, "terminal"@, "debug_console"@, "toggle_fullscreen"@, "zoom_in"@, "zoom_out"@, "reset_zoom"@]);
}

proof fn lemma_go_menu_ids()
    ensures
        menu_item_ids(go_menu_entries()) == seq!["back"@, "forward"@, "go_to_file"@, "go_to_symbol"@, "go_to_line"@, "go_to_definition"@, "go_to_references"@],
{
    reveal_with_fuel(menu_item_ids, 10);
    assert(menu_item_ids(go_menu_entries()) =~= seq!["back"@, "forward"@, "go_to_file"@, "go_to_symbol"@, "go_to_line"@, "go_to_definition"@, "go_to_references"@]);
}

proof fn lemma_run_menu_ids()
    ensures
        menu_item_ids(run_menu_entries()) == seq!["start_debugging"@, "run_without_debugging"@, "stop_debugging"@, "restart_debugging"@, "toggle_breakpoint"@],
{
    reveal_with_fuel(menu_item_ids, 7);
    assert(menu_item_ids(run_menu_entries()) =~= seq!["start_debugging"@, "run_without_debugging"@, "stop_debugging"@, "restart_debugging"@, "toggle_breakpoint"@]);
}

proof fn lemma_terminal_menu_ids()
    ensures
        menu_item_ids(terminal_menu_entries()) == seq!["new_terminal"@, "split_terminal"@, "run_task"@, "run_build_task"@],
{
    reveal_with_fuel(menu_item_ids, 6);
    assert(menu_item_ids(terminal_menu_entries()) =~= seq!["new_terminal"@, "split_terminal"@, "run_task"@, "run_build_task"@]);
}

proof fn lemma_window_menu_ids()
    ensures
        menu_item_ids(window_menu_entries()) == Seq::<Seq<char>>::empty(),
{
    reveal_with_fuel(menu_item_ids, 3);
    assert(menu_item_ids(window_menu_entries()) =~= Seq::<Seq<char>>::empty());
}

proof fn lemma_help_menu_ids()
    ensures
        menu_item_ids(help_menu_entries()) == seq!["welcome"@, "documentation"@, "release_notes"@, "keyboard_shortcuts"@, "report_issue"@, "toggle_dev_tools"@],
{
    reveal_with_fuel(menu_item_ids, 10);
    assert(menu_item_ids(help_menu_entries()) =~= seq!["welcome"@, "documentation"@, "release_notes"@, "keyboard_shortcuts"@, "report_issue"@, "toggle_dev_tools"@]);
}

/// The ids of the application items, in menu-bar order.
pub open spec fn item_ids() -> Seq<Seq<char>> {
    seq![
        "new_file"@,
        "new_window"@,
        "open_file"@,
        "open_folder"@,
        "open_recent"@,
        "save"@,
        "save_as"@,
        "save_all"@,
        "close_editor"@,
        "close_window"@,
        "find"@,
        "replace"@,
        "find_in_files"@,
        "replace_in_files"@,
        "expand_selection"@,
        "shrink_selection"@,
        "copy_line_up"@,
        "copy_line_down"@,
        "move_line_up"@,
        "move_line_down"@,
        "add_cursor_above"@,
        "add_cursor_below"@,
        "select_all_occurrences"@,
        "command_palette"@,
        "open_view"@,
        "explorer"@,
        "search"@,
        "source_control"@,
        "debug"@,
        "extensions"@,
        "problems"@,
        "output"@,
        "terminal"@,
        "debug_console"@,
        "toggle_fullscreen"@,
        "zoom_in"@,
        "zoom_out"@,
        "reset_zoom"@,
        "back"@,
        "forward"@,
        "go_to_file"@,
        "go_to_symbol"@,
        "go_to_line"@,
        "go_to_definition"@,
        "go_to_references"@,
        "start_debugging"@,
        "run_without_debugging"@,
        "stop_debugging"@,
        "restart_debugging"@,
        "toggle_breakpoint"@,
        "new_terminal"@,
        "split_terminal"@,
        "run_task"@,
        "run_build_task"@,
        "welcome"@,
        "documentation"@,
        "release_notes"@,
        "keyboard_shortcuts"@,
        "report_issue"@,
        "toggle_dev_tools"@,
    ]
}

proof fn lemma_layout_ids()
    ensures
        layout_ids(common_layout()) == item_ids(),
{
    lemma_file_menu_ids();
    lemma_edit_menu_ids();
    lemma_selection_menu_ids();
    lemma_view_menu_ids();
    lemma_go_menu_ids();
    lemma_run_menu_ids();
    lemma_terminal_menu_ids();
    lemma_window_menu_ids();
    lemma_help_menu_ids();
    reveal_with_fuel(layout_ids, 10);
    assert(layout_ids(common_layout()) =~= item_ids());
}

proof fn lemma_item_ids_distinct()
    ensures
        item_ids().no_duplicates(),
{
    reveal_strlit("new_file");
    reveal_strlit("new_window");
    reveal_strlit("open_file");
    reveal_strlit("open_folder");
    reveal_strlit("open_recent");
    reveal_strlit("save");
    reveal_strlit("save_as");
    reveal_strlit("save_all");
    reveal_strlit("close_editor");
    reveal_strlit("close_window");
    reveal_strlit("find");
    reveal_strlit("replace");
    reveal_strlit("find_in_files");
    reveal_strlit("replace_in_files");
    reveal_strlit("expand_selection");
    reveal_strlit("shrink_selection");
    reveal_strlit("copy_line_up");
    reveal_strlit("copy_line_down");
    reveal_strlit("move_line_up");
    reveal_strlit("move_line_down");
    reveal_strlit("add_cursor_above");
    reveal_strlit("add_cursor_below");
    reveal_strlit("select_all_occurrences");
    reveal_strlit("command_palette");
    reveal_strlit("open_view");
    reveal_strlit("explorer");
    reveal_strlit("search");
    reveal_strlit("source_control");
    reveal_strlit("debug");
    reveal_strlit("extensions");
    reveal_strlit("problems");
    reveal_strlit("output");
    reveal_strlit("terminal");
    reveal_strlit("debug_console");
    reveal_strlit("toggle_fullscreen");
    reveal_strlit("zoom_in");
    reveal_strlit("zoom_out");
    reveal_strlit("reset_zoom");
    reveal_strlit("back");
    reveal_strlit("forward");
    reveal_strlit("go_to_file");
    reveal_strlit("go_to_symbol");
    reveal_strlit("go_to_line");
    reveal_strlit("go_to_definition");
    reveal_strlit("go_to_references");
    reveal_strlit("start_debugging");
    reveal_strlit("run_without_debugging");
    reveal_strlit("stop_debugging");
    reveal_strlit("restart_debugging");
    reveal_strlit("toggle_breakpoint");
    reveal_strlit("new_terminal");
    reveal_strlit("split_terminal");
    reveal_strlit("run_task");
    reveal_strlit("run_build_task");
    reveal_strlit("welcome");
    reveal_strlit("documentation");
    reveal_strlit("release_notes");
    reveal_strlit("keyboard_shortcuts");
    reveal_strlit("report_issue");
    reveal_strlit("toggle_dev_tools");
    let ids = item_ids();
    assert forall|i: int, j: int| 0 <= i < ids.len() && 0 <= j < ids.len() && i != j implies ids[i] != ids[j] by {
        if ids[i] == ids[j] {
            assert(ids[i].len() == ids[j].len());
            assert(ids[i][0] == ids[j][0]);
            assert(ids[i][5] == ids[j][5]);
            assert(ids[i][6] == ids[j][6]);
            assert(ids[i][7] == ids[j][7]);
            assert(ids[i][11] == ids[j][11]);
        }
    }
}

proof fn lemma_layout_ids_all(macos: bool)
    ensures
        layout_ids(spec_layout(macos)) == item_ids(),
{
    lemma_layout_ids();
    if macos {
        let l = spec_layout(true);
        assert(l.subrange(1, l.len() as int) =~= common_layout());
        reveal_with_fuel(menu_item_ids, 10);
        assert(menu_item_ids(sidex_menu_entries()) =~= Seq::<Seq<char>>::empty());
        assert(layout_ids(l) =~= item_ids());
    }
}

/// Law: no two application items of the menu bar share an id, on any
/// platform, so a menu event names exactly one item.
pub proof fn law_menu_ids_distinct(macos: bool)
    ensures
        layout_ids(spec_layout(macos)).no_duplicates(),
{
    lemma_layout_ids_all(macos);
    lemma_item_ids_distinct();
}

/// The shortcut of an application item, with the item's id; `None` for
/// entries without a shortcut.
pub open spec fn entry_shortcut(e: MenuEntry) -> Option<(Seq<char>, Seq<char>)> {
    match e {
        MenuEntry::Item { id, accelerator: Some(a), .. } => Some((id@, a@)),
        _ => None,
    }
}

/// The shortcuts of a menu's items, as id and accelerator, in order.
pub open spec fn menu_shortcuts(entries: Seq<MenuEntry>) -> Seq<(Seq<char>, Seq<char>)>
    decreases entries.len(),
{
    if entries.len() == 0 {
        Seq::empty()
    } else {
        let rest = menu_shortcuts(entries.subrange(1, entries.len() as int));
        match entry_shortcut(entries[0]) {
            Some(s) => seq![s] + rest,
            None => rest,
        }
    }
}

/// The shortcuts of a whole menu bar, menu by menu.
pub open spec fn layout_shortcuts(layout: Seq<(Seq<char>, Seq<MenuEntry>)>) -> Seq<(Seq<char>, Seq<char>)>
    decreases layout.len(),
{
    if layout.len() == 0 {
        Seq::empty()
    } else {
        menu_shortcuts(layout[0].1) + layout_shortcuts(layout.subrange(1, layout.len() as int))
    }
}

proof fn lemma_file_menu_shortcuts()
    ensures
        menu_shortcuts(file_menu_entries()) == seq![("new_file"@, "CmdOrCtrl+N"@), ("new_window"@, "CmdOrCtrl+Shift+N"@), ("open_file"@, "CmdOrCtrl+O"@), ("save"@, "CmdOrCtrl+S"@), ("save_as"@, "CmdOrCtrl+Shift+S"@), ("save_all"@, "CmdOrCtrl+Alt+S"@), ("close_editor"@, "CmdOrCtrl+W"@), ("close_window"@, "CmdOrCtrl+Shift+W"@)],
{
    reveal_with_fuel(menu_shortcuts, 14);
    assert(menu_shortcuts(file_menu_entries()) =~= seq![("new_file"@, "CmdOrCtrl+N"@), ("new_window"@, "CmdOrCtrl+Shift+N"@), ("open_file"@, "CmdOrCtrl+O"@), ("save"@, "CmdOrCtrl+S"@), ("save_as"@, "CmdOrCtrl+Shift+S"@), ("save_all"@, "CmdOrCtrl+Alt+S"@), ("close_editor"@, "CmdOrCtrl+W"@), ("close_window"@, "CmdOrCtrl+Shift+W"@)]);
}

proof fn lemma_edit_menu_shortcuts()
    ensures
        menu_shortcuts(edit_menu_entries()) == seq![("find"@, "CmdOrCtrl+F"@), ("replace"@, "CmdOrCtrl+H"@), ("find_in_files"@, "CmdOrCtrl+Shift+F"@), ("replace_in_files"@, "CmdOrCtrl+Shift+H"@)],
{
    reveal_with_fuel(menu_shortcuts, 13);
    assert(menu_shortcuts(edit_menu_entries()) =~= seq![("find"@, "CmdOrCtrl+F"@), ("replace"@, "CmdOrCtrl+H"@), ("find_in_files"@, "CmdOrCtrl+Shift+F"@), ("replace_in_files"@, "CmdOrCtrl+Shift+H"@)]);
}

proof fn lemma_selection_menu_shortcuts()
    ensures
        menu_shortcuts(selection_menu_entries()) == seq![("expand_selection"@, "CmdOrCtrl+Shift+Right"@), ("shrink_selection"@, "CmdOrCtrl+Shift+Left"@), ("copy_line_up"@, "Alt+Shift+Up"@), ("copy_line_down"@, "Alt+Shift+Down"@), ("move_line_up"@, "Alt+Up"@), ("move_line_down"@, "Alt+Down"@), ("add_cursor_above"@, "CmdOrCtrl+Alt+Up"@), ("add_cursor_below"@, "CmdOrCtrl+Alt+Down"@), ("select_all_occurrences"@, "CmdOrCtrl+Shift+L"@)],
{
    reveal_with_fuel(menu_shortcuts, 13);
    assert(menu_shortcuts(selection_menu_entries()) =~= seq![("expand_selection"@, "CmdOrCtrl+Shift+Right"@), ("shrink_selection"@, "CmdOrCtrl+Shift+Left"@), ("copy_line_up"@, "Alt+Shift+Up"@), ("copy_line_down"@, "Alt+Shift+Down"@), ("move_line_up"@, "Alt+Up"@), ("move_line_down"@, "Alt+Down"@), ("add_cursor_above"@, "CmdOrCtrl+Alt+Up"@), ("add_cursor_below"@, "CmdOrCtrl+Alt+Down"@), ("select_all_occurrences"@, "CmdOrCtrl+Shift+L"@)]);
}

proof fn lemma_view_menu_shortcuts()
    ensures
        menu_shortcuts(view_menu_entries()) == seq![("command_palette"@, "CmdOrCtrl+Shift+P"@), ("explorer"@, "CmdOrCtrl+Shift+E"@), ("search"@, "CmdOrCtrl+Shift+F"@), ("source_control"@, "CmdOrCtrl+Shift+G"@), ("debug"@, "CmdOrCtrl+Shift+D"@), ("extensions"@, "CmdOrCtrl+Shift+X"@), ("problems"@, "CmdOrCtrl+Shift+M"@), ("output"@, "CmdOrCtrl+Shift+U"@), ("terminal"@, "CmdOrCtrl+`"@), ("debug_console"@, "CmdOrCtrl+Shift+Y"@), ("toggle_fullscreen"@, "F11"@), ("zoom_in"@, "CmdOrCtrl+="@), ("zoom_out"@, "CmdOrCtrl+-"@), ("reset_zoom"@, "CmdOrCtrl+0"@)],
{
    reveal_with_fuel(menu_shortcuts, 19);
    assert(menu_shortcuts(view_menu_entries()) =~= seq![("command_palette"@, "CmdOrCtrl+Shift+P"@), ("explorer"@, "CmdOrCtrl+Shift+E"@), ("search"@, "CmdOrCtrl+Shift+F"@), ("source_control"@, "CmdOrCtrl+Shift+G"@), ("debug"@, "CmdOrCtrl+Shift+D"@), ("extensions"@, "CmdOrCtrl+Shift+X"@), ("problems"@, "CmdOrCtrl+Shift+M"@), ("output"@, "CmdOrCtrl+Shift+U"@), ("terminal"@, "CmdOrCtrl+`"@), ("debug_console"@, "CmdOrCtrl+Shift+Y"@), ("toggle_fullscreen"@, "F11"@), ("zoom_in"@, "CmdOrCtrl+="@), ("zoom_out"@, "CmdOrCtrl+-"@), ("reset_zoom"@, "CmdOrCtrl+0"@)]);
}

proof fn lemma_go_menu_shortcuts()
    ensures
        menu_shortcuts(go_menu_entries()) == seq![("back"@, "CmdOrCtrl+Alt+Left"@), ("forward"@, "CmdOrCtrl+Alt+Right"@), ("go_to_file"@, "CmdOrCtrl+P"@), ("go_to_symbol"@, "CmdOrCtrl+T"@), ("go_to_line"@, "CmdOrCtrl+G"@), ("go_to_definition"@, "F12"@), ("go_to_references"@, "Shift+F12"@)],
{
    reveal_with_fuel(menu_shortcuts, 10);
    assert(menu_shortcuts(go_menu_entries()) =~= seq![("back"@, "CmdOrCtrl+Alt+Left"@), ("forward"@, "CmdOrCtrl+Alt+Right"@), ("go_to_file"@, "CmdOrCtrl+P"@), ("go_to_symbol"@, "CmdOrCtrl+T"@), ("go_to_line"@, "CmdOrCtrl+G"@), ("go_to_definition"@, "F12"@), ("go_to_references"@, "Shift+F12"@)]);
}

proof fn lemma_run_menu_shortcuts()
    ensures
        menu_shortcuts(run_menu_entries()) == seq![("start_debugging"@, "F5"@), ("run_without_debugging"@, "CmdOrCtrl+F5"@), ("stop_debugging"@, "Shift+F5"@), ("restart_debugging"@, "CmdOrCtrl+Shift+F5"@), ("toggle_breakpoint"@, "F9"@)],
{
    reveal_with_fuel(menu_shortcuts, 7);
    assert(menu_shortcuts(run_menu_entries()) =~= seq![("start_debugging"@, "F5"@), ("run_without_debugging"@, "CmdOrCtrl+F5"@), ("stop_debugging"@, "Shift+F5"@), ("restart_debugging"@, "CmdOrCtrl+Shift+F5"@), ("toggle_breakpoint"@, "F9"@)]);
}

proof fn lemma_terminal_menu_shortcuts()
    ensures
        menu_shortcuts(terminal_menu_entries()) == seq![("new_terminal"@, "CmdOrCtrl+Shift+`"@), ("run_build_task"@, "CmdOrCtrl+Shift+B"@)],
{
    reveal_with_fuel(menu_shortcuts, 6);
    assert(menu_shortcuts(terminal_menu_entries()) =~= seq![("new_terminal"@, "CmdOrCtrl+Shift+`"@), ("run_build_task"@, "CmdOrCtrl+Shift+B"@)]);
}

proof fn lemma_window_menu_shortcuts()
    ensures
        menu_shortcuts(window_menu_entries()) == Seq::<(Seq<char>, Seq<char>)>::empty(),
{
    reveal_with_fuel(menu_shortcuts, 3);
    assert(menu_shortcuts(window_menu_entries()) =~= Seq::<(Seq<char>, Seq<char>)>::empty());
}

proof fn lemma_help_menu_shortcuts()
    ensures
        menu_shortcuts(help_menu_entries()) == seq![("toggle_dev_tools"@, "CmdOrCtrl+Alt+I"@)],
{
    reveal_with_fuel(menu_shortcuts, 10);
    assert(menu_shortcuts(help_menu_entries()) =~= seq![("toggle_dev_tools"@, "CmdOrCtrl+Alt+I"@)]);
}

/// The shortcuts of the application items, in menu-bar order.
pub open spec fn item_shortcuts() -> Seq<(Seq<char>, Seq<char>)> {
    seq![
        ("new_file"@, "CmdOrCtrl+N"@),
        ("new_window"@, "CmdOrCtrl+Shift+N"@),
        ("open_file"@, "CmdOrCtrl+O"@),
        ("save"@, "CmdOrCtrl+S"@),
        ("save_as"@, "CmdOrCtrl+Shift+S"@),
        ("save_all"@, "CmdOrCtrl+Alt+S"@),
        ("close_editor"@, "CmdOrCtrl+W"@),
        ("close_window"@, "CmdOrCtrl+Shift+W"@),
        ("find"@, "CmdOrCtrl+F"@),
        ("replace"@, "CmdOrCtrl+H"@),
        ("find_in_files"@, "CmdOrCtrl+Shift+F"@),
        ("replace_in_files"@, "CmdOrCtrl+Shift+H"@),
        ("expand_selection"@, "CmdOrCtrl+Shift+Right"@),
        ("shrink_selection"@, "CmdOrCtrl+Shift+Left"@),
        ("copy_line_up"@, "Alt+Shift+Up"@),
        ("copy_line_down"@, "Alt+Shift+Down"@),
        ("move_line_up"@, "Alt+Up"@),
        ("move_line_down"@, "Alt+Down"@),
        ("add_cursor_above"@, "CmdOrCtrl+Alt+Up"@),
        ("add_cursor_below"@, "CmdOrCtrl+Alt+Down"@),
        ("select_all_occurrences"@, "CmdOrCtrl+Shift+L"@),
        ("command_palette"@, "CmdOrCtrl+Shift+P"@),
        ("explorer"@, "CmdOrCtrl+Shift+E"@),
        ("search"@, "CmdOrCtrl+Shift+F"@),
        ("source_control"@, "CmdOrCtrl+Shift+G"@),
        ("debug"@, "CmdOrCtrl+Shift+D"@),
        ("extensions"@, "CmdOrCtrl+Shift+X"@),
        ("problems"@, "CmdOrCtrl+Shift+M"@),
        ("output"@, "CmdOrCtrl+Shift+U"@),
        ("terminal"@, "CmdOrCtrl+`"@),
        ("debug_console"@, "CmdOrCtrl+Shift+Y"@),
        ("toggle_fullscreen"@, "F11"@),
        ("zoom_in"@, "CmdOrCtrl+="@),
        ("zoom_out"@, "CmdOrCtrl+-"@),
        ("reset_zoom"@, "CmdOrCtrl+0"@),
        ("back"@, "CmdOrCtrl+Alt+Left"@),
        ("forward"@, "CmdOrCtrl+Alt+Right"@),
        ("go_to_file"@, "CmdOrCtrl+P"@),
        ("go_to_symbol"@, "CmdOrCtrl+T"@),
        ("go_to_line"@, "CmdOrCtrl+G"@),
        ("go_to_definition"@, "F12"@),
        ("go_to_references"@, "Shift+F12"@),
        ("start_debugging"@, "F5"@),
        ("run_without_debugging"@, "CmdOrCtrl+F5"@),
        ("stop_debugging"@, "Shift+F5"@),
        ("restart_debugging"@, "CmdOrCtrl+Shift+F5"@),
        ("toggle_breakpoint"@, "F9"@),
        ("new_terminal"@, "CmdOrCtrl+Shift+`"@),
        ("run_build_task"@, "CmdOrCtrl+Shift+B"@),
        ("toggle_dev_tools"@, "CmdOrCtrl+Alt+I"@),
    ]
}

proof fn lemma_layout_shortcuts(macos: bool)
    ensures
        layout_shortcuts(spec_layout(macos)) == item_shortcuts(),
{
    lemma_file_menu_shortcuts();
    lemma_edit_menu_shortcuts();
    lemma_selection_menu_shortcuts();
    lemma_view_menu_shortcuts();
    lemma_go_menu_shortcuts();
    lemma_run_menu_shortcuts();
    lemma_terminal_menu_shortcuts();
    lemma_window_menu_shortcuts();
    lemma_help_menu_shortcuts();
    reveal_with_fuel(layout_shortcuts, 10);
    assert(layout_shortcuts(common_layout()) =~= item_shortcuts());
    if macos {
        let l = spec_layout(true);
        assert(l.subrange(1, l.len() as int) =~= common_layout());
        reveal_with_fuel(menu_shortcuts, 10);
        assert(menu_shortcuts(sidex_menu_entries()) =~= Seq::<(Seq<char>, Seq<char>)>::empty());
        assert(layout_shortcuts(l) =~= item_shortcuts());
    }
}

proof fn lemma_item_shortcuts_shared_once()
    ensures
        forall|i: int, j: int|
            0 <= i < item_shortcuts().len() && 0 <= j < item_shortcuts().len() && i != j
                && #[trigger] item_shortcuts()[i].1 == #[trigger] item_shortcuts()[j].1
                ==> (item_shortcuts()[i].0 == "find_in_files"@ && item_shortcuts()[j].0 == "search"@)
                || (item_shortcuts()[i].0 == "search"@ && item_shortcuts()[j].0 == "find_in_files"@),
{
    reveal_strlit("Alt+Down");
    reveal_strlit("Alt+Shift+Down");
    reveal_strlit("Alt+Shift+Up");
    reveal_strlit("Alt+Up");
    reveal_strlit("CmdOrCtrl+-");
    reveal_strlit("CmdOrCtrl+0");
    reveal_strlit("CmdOrCtrl+=");
    reveal_strlit("CmdOrCtrl+Alt+Down");
    reveal_strlit("CmdOrCtrl+Alt+I");
    reveal_strlit("CmdOrCtrl+Alt+Left");
    reveal_strlit("CmdOrCtrl+Alt+Right");
    reveal_strlit("CmdOrCtrl+Alt+S");
    reveal_strlit("CmdOrCtrl+Alt+Up");
    reveal_strlit("CmdOrCtrl+F");
    reveal_strlit("CmdOrCtrl+F5");
    reveal_strlit("CmdOrCtrl+G");
    reveal_strlit("CmdOrCtrl+H");
    reveal_strlit("CmdOrCtrl+N");
    reveal_strlit("CmdOrCtrl+O");
    reveal_strlit("CmdOrCtrl+P");
    reveal_strlit("CmdOrCtrl+S");
    reveal_strlit("CmdOrCtrl+Shift+B");
    reveal_strlit("CmdOrCtrl+Shift+D");
    reveal_strlit("CmdOrCtrl+Shift+E");
    reveal_strlit("CmdOrCtrl+Shift+F");
    reveal_strlit("CmdOrCtrl+Shift+F5");
    reveal_strlit("CmdOrCtrl+Shift+G");
    reveal_strlit("CmdOrCtrl+Shift+H");
    reveal_strlit("CmdOrCtrl+Shift+L");
    reveal_strlit("CmdOrCtrl+Shift+Left");
    reveal_strlit("CmdOrCtrl+Shift+M");
    reveal_strlit("CmdOrCtrl+Shift+N");
    reveal_strlit("CmdOrCtrl+Shift+P");
    reveal_strlit("CmdOrCtrl+Shift+Right");
    reveal_strlit("CmdOrCtrl+Shift+S");
    reveal_strlit("CmdOrCtrl+Shift+U");
    reveal_strlit("CmdOrCtrl+Shift+W");
    reveal_strlit("CmdOrCtrl+Shift+X");
    reveal_strlit("CmdOrCtrl+Shift+Y");
    reveal_strlit("CmdOrCtrl+Shift+`");
    reveal_strlit("CmdOrCtrl+T");
    reveal_strlit("CmdOrCtrl+W");
    reveal_strlit("CmdOrCtrl+`");
    reveal_strlit("F11");
    reveal_strlit("F12");
    reveal_strlit("F5");
    reveal_strlit("F9");
    reveal_strlit("Shift+F12");
    reveal_strlit("Shift+F5");
    reveal_strlit("find_in_files");
    reveal_strlit("search");
    let sc = item_shortcuts();
    assert forall|i: int, j: int|
        0 <= i < sc.len() && 0 <= j < sc.len() && i != j && #[trigger] sc[i].1 == #[trigger] sc[j].1
        implies (sc[i].0 == "find_in_files"@ && sc[j].0 == "search"@)
            || (sc[i].0 == "search"@ && sc[j].0 == "find_in_files"@) by {
        if !((i == 10 && j == 23) || (i == 23 && j == 10)) {
            assert(sc[i].1.len() == sc[j].1.len());
            assert(sc[i].1[0] == sc[j].1[0]);
            assert(sc[i].1[1] == sc[j].1[1]);
            assert(sc[i].1[2] == sc[j].1[2]);
            assert(sc[i].1[3] == sc[j].1[3]);
            assert(sc[i].1[4] == sc[j].1[4]);
            assert(sc[i].1[5] == sc[j].1[5]);
            assert(sc[i].1[6] == sc[j].1[6]);
            assert(sc[i].1[7] == sc[j].1[7]);
            assert(sc[i].1[8] == sc[j].1[8]);
            assert(sc[i].1[9] == sc[j].1[9]);
            assert(sc[i].1[10] == sc[j].1[10]);
            assert(sc[i].1[11] == sc[j].1[11]);
            assert(sc[i].1[12] == sc[j].1[12]);
            assert(sc[i].1[13] == sc[j].1[13]);
            assert(sc[i].1[14] == sc[j].1[14]);
            assert(sc[i].1[15] == sc[j].1[15]);
            assert(sc[i].1[16] == sc[j].1[16]);
        }
    }
}

/// Law: no two items of the menu bar share a keyboard shortcut, on any
/// platform, except "Find in Files" and the Search view, which both answer
/// CmdOrCtrl+Shift+F.
pub proof fn law_shortcuts_are_distinct_but_for_search(macos: bool)
    ensures
        forall|i: int, j: int|
            0 <= i < layout_shortcuts(spec_layout(macos)).len() && 0 <= j < layout_shortcuts(spec_layout(macos)).len()
                && i != j && #[trigger] layout_shortcuts(spec_layout(macos))[i].1
                == #[trigger] layout_shortcuts(spec_layout(macos))[j].1
                ==> (layout_shortcuts(spec_layout(macos))[i].0 == "find_in_files"@
                && layout_shortcuts(spec_layout(macos))[j].0 == "search"@) || (
                layout_shortcuts(spec_layout(macos))[i].0 == "search"@
                && layout_shortcuts(spec_layout(macos))[j].0 == "find_in_files"@),
{
    lemma_layout_shortcuts(macos);
    lemma_item_shortcuts_shared_once();
}

/// `s` with every `from` replaced by `to`, as `str::replace` with a `char`
/// pattern does.
pub open spec fn replace_char(s: Seq<char>, from: char, to: Seq<char>) -> Seq<char>
    decreases s.len(),
{
    if s.len() == 0 {
        s
    } else {
        (if s[0] == from { to } else { seq![s[0]] }) + replace_char(s.subrange(1, s.len() as int), from, to)
    }
}

/// A menu id made safe inside a single-quoted JavaScript string: every
/// backslash doubled, then every `'` preceded by a backslash.
pub open spec fn spec_escape_js(id: Seq<char>) -> Seq<char> {
    replace_char(replace_char(id, '\\', seq!['\\', '\\']), '\'', seq!['\\', '\''])
}

/// The script text before the escaped menu id.
pub open spec fn script_prefix() -> Seq<char> {
    "window.dispatchEvent(new CustomEvent('sidex-native-menu', { detail: '"@
}

/// The script text after the escaped menu id.
pub open spec fn script_suffix() -> Seq<char> {
    "' }))"@
}

/// The script that announces a click on menu item `id` to the web view.
pub open spec fn spec_menu_event_script(id: Seq<char>) -> Seq<char> {
    script_prefix() + spec_escape_js(id) + script_suffix()
}

/// What the body of a single-quoted JavaScript string literal denotes,
/// reading the escapes `\\` and `\'`; `None` where the literal would end
/// early or be malformed (an unescaped `'`, a line break, another escape, or
/// a trailing backslash).
pub open spec fn js_unquote(t: Seq<char>) -> Option<Seq<char>>
    decreases t.len(),
{
    if t.len() == 0 {
        Some(Seq::empty())
    } else if t[0] == '\'' || t[0] == '\n' || t[0] == '\r' {
        None
    } else if t[0] == '\\' {
        if t.len() >= 2 && (t[1] == '\\' || t[1] == '\'') {
            match js_unquote(t.subrange(2, t.len() as int)) {
                Some(rest) => Some(seq![t[1]] + rest),
                None => None,
            }
        } else {
            None
        }
    } else {
        match js_unquote(t.subrange(1, t.len() as int)) {
            Some(rest) => Some(seq![t[0]] + rest),
            None => None,
        }
    }
}

/// One-pass escaping of a character.
pub open spec fn escape_one(c: char) -> Seq<char> {
    if c == '\\' {
        seq!['\\', '\\']
    } else if c == '\'' {
        seq!['\\', '\'']
    } else {
        seq![c]
    }
}

/// One-pass escaping of a string.
pub open spec fn escape_all(s: Seq<char>) -> Seq<char>
    decreases s.len(),
{
    if s.len() == 0 {
        s
    } else {
        escape_one(s[0]) + escape_all(s.subrange(1, s.len() as int))
    }
}

proof fn lemma_replace_concat(a: Seq<char>, b: Seq<char>, from: char, to: Seq<char>)
    ensures
        replace_char(a + b, from, to) == replace_char(a, from, to) + replace_char(b, from, to),
    decreases a.len(),
{
    if a.len() == 0 {
        assert(a + b =~= b);
    } else {
        let a1 = a.subrange(1, a.len() as int);
        lemma_replace_concat(a1, b, from, to);
        assert((a + b).subrange(1, (a + b).len() as int) =~= a1 + b);
        let head = if a[0] == from { to } else { seq![a[0]] };
        assert(head + (replace_char(a1, from, to) + replace_char(b, from, to))
            =~= (head + replace_char(a1, from, to)) + replace_char(b, from, to));
    }
}

proof fn lemma_replace_no_occurrence(s: Seq<char>, from: char, to: Seq<char>)
    requires
        !s.contains(from),
    ensures
        replace_char(s, from, to) == s,
    decreases s.len(),
{
    if s.len() > 0 {
        let s1 = s.subrange(1, s.len() as int);
        assert(!s1.contains(from)) by {
            if s1.contains(from) {
                let k = choose|k: int| 0 <= k < s1.len() && s1[k] == from;
                assert(s[k + 1] == from);
            }
        }
        lemma_replace_no_occurrence(s1, from, to);
        assert(s[0] != from) by {
            if s[0] == from {
                assert(s.contains(from));
            }
        }
        assert(seq![s[0]] + s1 =~= s);
    }
}

/// The two replacements the script makes amount to escaping each character
/// once.
proof fn lemma_escape_one_pass(s: Seq<char>)
    ensures
        spec_escape_js(s) == escape_all(s),
    decreases s.len(),
{
    if s.len() > 0 {
        let s1 = s.subrange(1, s.len() as int);
        lemma_escape_one_pass(s1);
        let c = s[0];
        let first = if c == '\\' { seq!['\\', '\\'] } else { seq![c] };
        assert(replace_char(s, '\\', seq!['\\', '\\']) == first + replace_char(s1, '\\', seq!['\\', '\\']));
        lemma_replace_concat(first, replace_char(s1, '\\', seq!['\\', '\\']), '\'', seq!['\\', '\'']);
        let q = seq!['\\', '\''];
        if c == '\\' {
            assert(!first.contains('\'')) by {
                if first.contains('\'') {
                    assert(first[0] != '\'' && first[1] != '\'');
                }
            }
            lemma_replace_no_occurrence(first, '\'', q);
        } else {
            let r = replace_char(first, '\'', q);
            assert(first.subrange(1, 1) =~= Seq::<char>::empty());
            assert(replace_char(first.subrange(1, first.len() as int), '\'', q) == Seq::<char>::empty());
            assert(r =~= (if c == '\'' { q } else { seq![c] }));
        }
    }
}

proof fn lemma_unquote_concat(e: Seq<char>, s: Seq<char>, rest: Seq<char>)
    requires
        js_unquote(rest) is Some,
        e == escape_one(s[0]),
        s.len() > 0,
        s[0] != '\n',
        s[0] != '\r',
    ensures
        js_unquote(e + rest) == Some(seq![s[0]] + js_unquote(rest).unwrap()),
{
    let t = e + rest;
    if s[0] == '\\' || s[0] == '\'' {
        assert(t.subrange(2, t.len() as int) =~= rest);
    } else {
        assert(t.subrange(1, t.len() as int) =~= rest);
    }
}

/// Law: for every menu id without a line break, the string literal in the
/// forwarded script denotes exactly that id: the escaping neither ends the
/// literal early nor changes what it reads.
pub proof fn law_script_literal_denotes_id(id: Seq<char>)
    requires
        !id.contains('\n'),
        !id.contains('\r'),
    ensures
        js_unquote(spec_escape_js(id)) == Some(id),
    decreases id.len(),
{
    lemma_escape_one_pass(id);
    if id.len() > 0 {
        let id1 = id.subrange(1, id.len() as int);
        assert(!id1.contains('\n')) by {
            if id1.contains('\n') {
                let k = choose|k: int| 0 <= k < id1.len() && id1[k] == '\n';
                assert(id[k + 1] == '\n');
            }
        }
        assert(!id1.contains('\r')) by {
            if id1.contains('\r') {
                let k = choose|k: int| 0 <= k < id1.len() && id1[k] == '\r';
                assert(id[k + 1] == '\r');
            }
        }
        assert(id[0] != '\n' && id[0] != '\r') by {
            if id[0] == '\n' || id[0] == '\r' {
                assert(id.contains(id[0]));
            }
        }
        law_script_literal_denotes_id(id1);
        lemma_escape_one_pass(id1);
        lemma_unquote_concat(escape_one(id[0]), id, escape_all(id1));
        assert(seq![id[0]] + id1 =~= id);
    } else {
        assert(js_unquote(spec_escape_js(id)) == Some(Seq::<char>::empty()));
        assert(id =~= Seq::<char>::empty());
    }
}

/// Escapes a menu id for a single-quoted JavaScript string.
pub fn escape_js(id: &str) -> (r: String)
    ensures
        r@ == spec_escape_js(id@),
{
    let n = id.unicode_len();
    let mut r = String::new();
    let mut i: usize = 0;
    assert(id@.subrange(0, n as int) =~= id@);
    assert(r@ + escape_all(id@) =~= escape_all(id@));
    while i < n
        invariant
            n == id@.len(),
            i <= n,
            r@ + escape_all(id@.subrange(i as int, n as int)) == escape_all(id@),
        decreases n - i,
    {
        let c = id.get_char(i);
        let ghost tail = id@.subrange(i as int, n as int);
        assert(tail.subrange(1, tail.len() as int) =~= id@.subrange(i + 1, n as int));
        if c == '\\' {
            push_char(&mut r, '\\');
            push_char(&mut r, '\\');
        } else if c == '\'' {
            push_char(&mut r, '\\');
            push_char(&mut r, '\'');
        } else {
            push_char(&mut r, c);
        }
        assert(escape_all(tail) == escape_one(c) + escape_all(id@.subrange(i + 1, n as int)));
        i = i + 1;
    }
    proof {
        lemma_escape_one_pass(id@);
        assert(id@.subrange(n as int, n as int) =~= Seq::<char>::empty());
        assert(r@ =~= r@ + Seq::<char>::empty());
    }
    r
}

/// The script that dispatches the `sidex-native-menu` event for the menu
/// item `id` in the web view.
pub fn menu_event_script(id: &str) -> (r: String)
    ensures
        r@ == spec_menu_event_script(id@),
{
    let mut s = String::from_str("window.dispatchEvent(new CustomEvent('sidex-native-menu', { detail: '");
    s.append(escape_js(id).as_str());
    s.append("' }))");
    s
}

/// Whether a string holds only lower-case ASCII letters and underscores.
pub open spec fn is_plain_id(s: Seq<char>) -> bool {
    forall|i: int| 0 <= i < s.len() ==> ('a' <= #[trigger] s[i] <= 'z' || s[i] == '_')
}

proof fn lemma_item_ids_plain()
    ensures
        forall|k: int| 0 <= k < item_ids().len() ==> is_plain_id(#[trigger] item_ids()[k]),
{
    reveal_strlit("new_file");
    reveal_strlit("new_window");
    reveal_strlit("open_file");
    reveal_strlit("open_folder");
    reveal_strlit("open_recent");
    reveal_strlit("save");
    reveal_strlit("save_as");
    reveal_strlit("save_all");
    reveal_strlit("close_editor");
    reveal_strlit("close_window");
    reveal_strlit("find");
    reveal_strlit("replace");
    reveal_strlit("find_in_files");
    reveal_strlit("replace_in_files");
    reveal_strlit("expand_selection");
    reveal_strlit("shrink_selection");
    reveal_strlit("copy_line_up");
    reveal_strlit("copy_line_down");
    reveal_strlit("move_line_up");
    reveal_strlit("move_line_down");
    reveal_strlit("add_cursor_above");
    reveal_strlit("add_cursor_below");
    reveal_strlit("select_all_occurrences");
    reveal_strlit("command_palette");
    reveal_strlit("open_view");
    reveal_strlit("explorer");
    reveal_strlit("search");
    reveal_strlit("source_control");
    reveal_strlit("debug");
    reveal_strlit("extensions");
    reveal_strlit("problems");
    reveal_strlit("output");
    reveal_strlit("terminal");
    reveal_strlit("debug_console");
    reveal_strlit("toggle_fullscreen");
    reveal_strlit("zoom_in");
    reveal_strlit("zoom_out");
    reveal_strlit("reset_zoom");
    reveal_strlit("back");
    reveal_strlit("forward");
    reveal_strlit("go_to_file");
    reveal_strlit("go_to_symbol");
    reveal_strlit("go_to_line");
    reveal_strlit("go_to_definition");
    reveal_strlit("go_to_references");
    reveal_strlit("start_debugging");
    reveal_strlit("run_without_debugging");
    reveal_strlit("stop_debugging");
    reveal_strlit("restart_debugging");
    reveal_strlit("toggle_breakpoint");
    reveal_strlit("new_terminal");
    reveal_strlit("split_terminal");
    reveal_strlit("run_task");
    reveal_strlit("run_build_task");
    reveal_strlit("welcome");
    reveal_strlit("documentation");
    reveal_strlit("release_notes");
    reveal_strlit("keyboard_shortcuts");
    reveal_strlit("report_issue");
    reveal_strlit("toggle_dev_tools");
}

/// Law: every menu id, on any platform, passes through the script's
/// escaping unchanged, and the script's string literal denotes exactly it.
pub proof fn law_menu_ids_reach_the_page_unchanged(macos: bool)
    ensures
        forall|k: int| 0 <= k < layout_ids(spec_layout(macos)).len() ==> {
            let id = #[trigger] layout_ids(spec_layout(macos))[k];
            spec_escape_js(id) == id && js_unquote(spec_escape_js(id)) == Some(id)
        },
{
    lemma_layout_ids_all(macos);
    lemma_item_ids_plain();
    assert forall|k: int| 0 <= k < item_ids().len() implies {
        let id = #[trigger] item_ids()[k];
        spec_escape_js(id) == id && js_unquote(spec_escape_js(id)) == Some(id)
    } by {
        let id = item_ids()[k];
        assert(is_plain_id(id));
        assert(!id.contains('\\')) by {
            if id.contains('\\') {
                let i = choose|i: int| 0 <= i < id.len() && id[i] == '\\';
                assert('a' <= id[i] <= 'z' || id[i] == '_');
            }
        }
        assert(!id.contains('\'')) by {
            if id.contains('\'') {
                let i = choose|i: int| 0 <= i < id.len() && id[i] == '\'';
                assert('a' <= id[i] <= 'z' || id[i] == '_');
            }
        }
        assert(!id.contains('\n')) by {
            if id.contains('\n') {
                let i = choose|i: int| 0 <= i < id.len() && id[i] == '\n';
                assert('a' <= id[i] <= 'z' || id[i] == '_');
            }
        }
        assert(!id.contains('\r')) by {
            if id.contains('\r') {
                let i = choose|i: int| 0 <= i < id.len() && id[i] == '\r';
                assert('a' <= id[i] <= 'z' || id[i] == '_');
            }
        }
        lemma_replace_no_occurrence(id, '\\', seq!['\\', '\\']);
        lemma_replace_no_occurrence(id, '\'', seq!['\\', '\'']);
        law_script_literal_denotes_id(id);
    }
}

/// Law: every platform shows the same menus in the same order; macOS only
/// puts the "SideX" application menu in front of them.
pub proof fn law_same_menus_on_every_platform()
    ensures
        spec_layout(true).len() == spec_layout(false).len() + 1,
        spec_layout(true)[0].0 == "SideX"@,
        spec_layout(true).subrange(1, spec_layout(true).len() as int) == spec_layout(false),
{
    assert(spec_layout(true).subrange(1, spec_layout(true).len() as int) =~= spec_layout(false));
}

} // verus!
