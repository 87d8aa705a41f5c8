use ffgraph::event::{CloseGraph, NewGraph, OpenGraph, SaveAsGraph, SaveGraph};
use ffgraph::menu::{
    create_app_sub_menu, create_file_sub_menu, create_menu, handle_menu_event, Emission, MenuEntry,
    MenuEvent, Platform,
};

#[test]
fn linux_app_menu_has_only_about() {
    let menu = create_app_sub_menu(Platform::Linux);
    assert_eq!(menu.title, "FFgraph");
    assert_eq!(menu.entries, vec![MenuEntry::About { label: "About FFgraph" }]);
}

#[test]
fn macos_app_menu_shows_all() {
    let menu = create_app_sub_menu(Platform::MacOs);
    assert_eq!(
        menu.entries,
        vec![
            MenuEntry::About { label: "About FFgraph" },
            MenuEntry::Separator,
            MenuEntry::Hide { label: "Hide FFgraph" },
            MenuEntry::HideOthers { label: "Hide Others" },
            MenuEntry::ShowAll,
            MenuEntry::Separator,
            MenuEntry::Quit { label: "Quit FFgraph" },
        ]
    );
}

#[test]
fn other_app_menu_hides_and_quits() {
    let menu = create_app_sub_menu(Platform::Other);
    assert_eq!(
        menu.entries,
        vec![
            MenuEntry::About { label: "About FFgraph" },
            MenuEntry::Separator,
            MenuEntry::Hide { label: "Hide FFgraph" },
            MenuEntry::HideOthers { label: "Hide Others" },
            MenuEntry::Separator,
            MenuEntry::Quit { label: "Quit FFgraph" },
        ]
    );
}

#[test]
fn file_menu_is_exact() {
    let menu = create_file_sub_menu();
    assert_eq!(menu.title, "File");
    assert_eq!(
        menu.entries,
        vec![
            MenuEntry::Item {
                id: "new-graph",
                label: "New Graph...",
                enabled: true,
                accelerator: "CmdOrCtrl+N",
            },
            MenuEntry::Separator,
            MenuEntry::Item {
                id: "open-graph",
                label: "Open Graph...",
                enabled: true,
                accelerator: "CmdOrCtrl+O",
            },
            MenuEntry::Separator,
            MenuEntry::Item {
                id: "save-graph",
                label: "Save",
                enabled: true,
                accelerator: "CmdOrCtrl+S",
            },
            MenuEntry::Item {
                id: "save-as-graph",
                label: "Save As...",
                enabled: true,
                accelerator: "Shift+CmdOrCtrl+S",
            },
            MenuEntry::Separator,
            MenuEntry::Item {
                id: "close-graph",
                label: "Close graph",
                enabled: true,
                accelerator: "CmdOrCtrl+W",
            },
        ]
    );
}

#[test]
fn menu_is_app_then_file() {
    let menu = create_menu(Platform::Linux);
    assert_eq!(menu.len(), 2);
    assert_eq!(menu[0], create_app_sub_menu(Platform::Linux));
    assert_eq!(menu[1], create_file_sub_menu());
}

#[test]
fn menu_items_ask_for_their_events() {
    assert_eq!(
        handle_menu_event("new-graph"),
        Some(Emission { event: MenuEvent::New(NewGraph), failure: "failed to emit new file event" })
    );
    assert_eq!(
        handle_menu_event("open-graph"),
        Some(Emission {
            event: MenuEvent::Open(OpenGraph),
            failure: "failed to emit open file event"
        })
    );
    assert_eq!(
        handle_menu_event("save-graph"),
        Some(Emission {
            event: MenuEvent::Save(SaveGraph),
            failure: "failed to emit save graph event"
        })
    );
    assert_eq!(
        handle_menu_event("save-as-graph"),
        Some(Emission {
            event: MenuEvent::SaveAs(SaveAsGraph),
            failure: "failed to emit save as graph event"
        })
    );
    assert_eq!(
        handle_menu_event("close-graph"),
        Some(Emission {
            event: MenuEvent::Close(CloseGraph),
            failure: "failed to emit close graph event"
        })
    );
}

#[test]
fn unknown_menu_items_ask_for_nothing() {
    assert_eq!(handle_menu_event(""), None);
    assert_eq!(handle_menu_event("quit"), None);
    assert_eq!(handle_menu_event("new-graph "), None);
    assert_eq!(handle_menu_event("New-Graph"), None);
}

#[test]
fn every_file_menu_item_is_handled() {
    let mut seen = Vec::new();
    for entry in create_file_sub_menu().entries {
        if let MenuEntry::Item { id, .. } = entry {
            let emission = handle_menu_event(id).unwrap();
            assert!(!seen.contains(&emission.event));
            seen.push(emission.event);
        }
    }
    assert_eq!(seen.len(), 5);
}
