use sidex::menu::{build_menu, escape_js, menu_event_script, MenuEntry, Predefined};

fn ids(macos: bool) -> Vec<&'static str> {
    let mut out = Vec::new();
    for m in build_menu(macos) {
        for e in m.entries {
            if let MenuEntry::Item { id, .. } = e {
                out.push(id);
            }
        }
    }
    out
}

#[test]
fn menu_titles_in_order() {
    let titles: Vec<&str> = build_menu(false).iter().map(|m| m.title).collect();
    assert_eq!(titles, vec!["File", "Edit", "Selection", "View", "Go", "Run", "Terminal", "Window", "Help"]);
}

#[test]
fn law_same_menus_on_every_platform_concrete() {
    let mac = build_menu(true);
    let other = build_menu(false);
    assert_eq!(mac.len(), other.len() + 1);
    assert_eq!(mac[0].title, "SideX");
    assert_eq!(&mac[1..], &other[..]);
}

#[test]
fn app_menu_on_macos() {
    let mac = build_menu(true);
    assert_eq!(
        mac[0].entries,
        vec![
            MenuEntry::Predefined(Predefined::About("About SideX")),
            MenuEntry::Separator,
            MenuEntry::Predefined(Predefined::Services),
            MenuEntry::Separator,
            MenuEntry::Predefined(Predefined::Hide),
            MenuEntry::Predefined(Predefined::HideOthers),
            MenuEntry::Predefined(Predefined::ShowAll),
            MenuEntry::Separator,
            MenuEntry::Predefined(Predefined::Quit),
        ]
    );
}

#[test]
fn file_menu_entries() {
    let m = &build_menu(false)[0];
    assert_eq!(m.entries.len(), 13);
    assert_eq!(
        m.entries[0],
        MenuEntry::Item { id: "new_file", label: "New File", accelerator: Some("CmdOrCtrl+N") }
    );
    assert_eq!(
        m.entries[4],
        MenuEntry::Item { id: "open_folder", label: "Open Folder...", accelerator: None }
    );
    assert_eq!(m.entries[2], MenuEntry::Separator);
}

#[test]
fn law_menu_ids_distinct_concrete() {
    for mac in [false, true] {
        let all = ids(mac);
        assert_eq!(all.len(), 60);
        let mut sorted = all.clone();
        sorted.sort();
        sorted.dedup();
        assert_eq!(sorted.len(), all.len());
    }
}

#[test]
fn law_menu_ids_reach_the_page_unchanged_concrete() {
    for id in ids(false) {
        assert_eq!(escape_js(id), id);
    }
}

#[test]
fn escapes_quotes_and_backslashes() {
    assert_eq!(escape_js("a'b"), "a\\'b");
    assert_eq!(escape_js("a\\b"), "a\\\\b");
    assert_eq!(escape_js("\\'"), "\\\\\\'");
    assert_eq!(escape_js(""), "");
}

#[test]
fn script_for_menu_event() {
    assert_eq!(
        menu_event_script("save"),
        "window.dispatchEvent(new CustomEvent('sidex-native-menu', { detail: 'save' }))"
    );
    assert_eq!(
        menu_event_script("it's"),
        "window.dispatchEvent(new CustomEvent('sidex-native-menu', { detail: 'it\\'s' }))"
    );
}

#[test]
fn escape_equals_two_replacements() {
    for s in ["", "x", "'", "\\", "a'\\b'", "\\\\''"] {
        assert_eq!(escape_js(s), s.replace('\\', "\\\\").replace('\'', "\\'"));
    }
}
