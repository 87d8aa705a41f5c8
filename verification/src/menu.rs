//! The application menu: what it holds on each platform, and which event each
//! of its items asks for.

use vstd::prelude::*;
use crate::event::{CloseGraph, NewGraph, OpenGraph, SaveAsGraph, SaveGraph};
use crate::text::same_text;

verus! {

/// The platforms whose menus differ.
#[derive(Clone, Copy, Debug, PartialEq, Eq, Structural)]
pub enum Platform {
    Linux,
    MacOs,
    Other,
}

/// One entry of a submenu.
#[derive(Clone, Copy, Debug, PartialEq, Eq)]
pub enum MenuEntry {
    /// A line between two groups of entries.
    Separator,
    /// The platform's "about" entry.
    About { label: &'static str },
    /// The platform's entry that hides the application.
    Hide { label: &'static str },
    /// The platform's entry that hides all other applications.
    HideOthers { label: &'static str },
    /// The platform's entry that shows all applications again.
    ShowAll,
    /// The platform's entry that quits the application.
    Quit { label: &'static str },
    /// An entry of the application's own, told apart by its id; it can be
    /// chosen where it is enabled.
    Item { id: &'static str, label: &'static str, enabled: bool, accelerator: &'static str },
}

/// A submenu: its title and its entries from top to bottom.
#[derive(Debug, PartialEq, Eq)]
pub struct Submenu {
    pub title: &'static str,
    pub entries: Vec<MenuEntry>,
}

/// An event that a menu item asks for.
#[derive(Clone, Copy, Debug, PartialEq, Eq)]
pub enum MenuEvent {
    New(NewGraph),
    Open(OpenGraph),
    Save(SaveGraph),
    SaveAs(SaveAsGraph),
    Close(CloseGraph),
}

/// What is to be done for a menu item: the event to send, and the message of
/// the error if it cannot be sent.
#[derive(Clone, Copy, Debug, PartialEq, Eq)]
pub struct Emission {
    pub event: MenuEvent,
    pub failure: &'static str,
}

/// The entries of the application's submenu on `platform`.
pub open spec fn app_entries(platform: Platform) -> Seq<MenuEntry> {
    let about = seq![MenuEntry::About { label: "About FFgraph" }];
    let hiding = seq![
        MenuEntry::Separator,
        MenuEntry::Hide { label: "Hide FFgraph" },
        MenuEntry::HideOthers { label: "Hide Others" },
    ];
    let quitting = seq![MenuEntry::Separator, MenuEntry::Quit { label: "Quit FFgraph" }];
    match platform {
        Platform::Linux => about,
        Platform::MacOs => about + hiding + seq![MenuEntry::ShowAll] + quitting,
        Platform::Other => about + hiding + quitting,
    }
}

/// The entries of the file submenu.
pub open spec fn file_entries() -> Seq<MenuEntry> {
    seq![
        MenuEntry::Item {
            id: "new-graph",
            label: "New Graph...",
            enabled: true,
            accelerator: "CmdOrCtrl+N",
        },
        MenuEntry::Separator,
        MenuEntry::Item {
            id: "open-graph",
            label: "Open Graph...",
            enabled: true,
            accelerator: "CmdOrCtrl+O",
        },
        MenuEntry::Separator,
        MenuEntry::Item {
            id: "save-graph",
            label: "Save",
            enabled: true,
            accelerator: "CmdOrCtrl+S",
        },
        MenuEntry::Item {
            id: "save-as-graph",
            label: "Save As...",
            enabled: true,
            accelerator: "Shift+CmdOrCtrl+S",
        },
        MenuEntry::Separator,
        MenuEntry::Item {
            id: "close-graph",
            label: "Close graph",
            enabled: true,
            accelerator: "CmdOrCtrl+W",
        },
    ]
}

/// What the menu item called `id` asks for; nothing, where the id is not one
/// of the file submenu's.
pub open spec fn emission_for(id: Seq<char>) -> Option<Emission> {
    if id == "new-graph"@ {
        Some(
            Emission {
                event: MenuEvent::New(NewGraph),
                failure: "failed to emit new file event",
            },
        )
    } else if id == "open-graph"@ {
        Some(
            Emission {
                event: MenuEvent::Open(OpenGraph),
                failure: "failed to emit open file event",
            },
        )
    } else if id == "save-graph"@ {
        Some(
            Emission {
                event: MenuEvent::Save(SaveGraph),
                failure: "failed to emit save graph event",
            },
        )
    } else if id == "save-as-graph"@ {
        Some(
            Emission {
                event: MenuEvent::SaveAs(SaveAsGraph),
                failure: "failed to emit save as graph event",
            },
        )
    } else if id == "close-graph"@ {
        Some(
            Emission {
                event: MenuEvent::Close(CloseGraph),
                failure: "failed to emit close graph event",
            },
        )
    } else {
        None
    }
}

/// The application's submenu on `platform`.
pub fn create_app_sub_menu(platform: Platform) -> (out: Submenu)
    ensures
        out.title == "FFgraph",
        out.entries@ == app_entries(platform),
{
    let mut entries: Vec<MenuEntry> = Vec::new();
    entries.push(MenuEntry::About { label: "About FFgraph" });
    if platform != Platform::Linux {
        entries.push(MenuEntry::Separator);
        entries.push(MenuEntry::Hide { label: "Hide FFgraph" });
        entries.push(MenuEntry::HideOthers { label: "Hide Others" });
    }
    if platform == Platform::MacOs {
        entries.push(MenuEntry::ShowAll);
    }
    if platform != Platform::Linux {
        entries.push(MenuEntry::Separator);
        entries.push(MenuEntry::Quit { label: "Quit FFgraph" });
    }
    assert(entries@ =~= app_entries(platform));
    Submenu { title: "FFgraph", entries }
}

/// The file submenu.
pub fn create_file_sub_menu() -> (out: Submenu)
    ensures
        out.title == "File",
        out.entries@ == file_entries(),
{
    let mut entries: Vec<MenuEntry> = Vec::new();
    entries.push(
        MenuEntry::Item {
            id: "new-graph",
            label: "New Graph...",
            enabled: true,
            accelerator: "CmdOrCtrl+N",
        },
    );
    entries.push(MenuEntry::Separator);
    entries.push(
        MenuEntry::Item {
            id: "open-graph",
            label: "Open Graph...",
            enabled: true,
            accelerator: "CmdOrCtrl+O",
        },
    );
    entries.push(MenuEntry::Separator);
    entries.push(MenuEntry::Item {
        id: "save-graph",
        label: "Save",
        enabled: true,
        accelerator: "CmdOrCtrl+S",
    });
    entries.push(
        MenuEntry::Item {
            id: "save-as-graph",
            label: "Save As...",
            enabled: true,
            accelerator: "Shift+CmdOrCtrl+S",
        },
    );
    entries.push(MenuEntry::Separator);
    entries.push(
        MenuEntry::Item {
            id: "close-graph",
            label: "Close graph",
            enabled: true,
            accelerator: "CmdOrCtrl+W",
        },
    );
    assert(entries@ =~= file_entries());
    Submenu { title: "File", entries }
}

/// The whole menu on `platform`: the application's submenu, then the file
/// submenu.
pub fn create_menu(platform: Platform) -> (out: Vec<Submenu>)
    ensures
        out@.len() == 2,
        out@[0].title == "FFgraph",
        out@[0].entries@ == app_entries(platform),
        out@[1].title == "File",
        out@[1].entries@ == file_entries(),
{
    let mut out: Vec<Submenu> = Vec::new();
    out.push(create_app_sub_menu(platform));
    out.push(create_file_sub_menu());
    out
}

/// What is to be done when the menu item called `id` is chosen.
pub fn handle_menu_event(id: &str) -> (out: Option<Emission>)
    ensures
        out == emission_for(id@),
{
    if same_text(id, "new-graph") {
        Some(Emission { event: MenuEvent::New(NewGraph), failure: "failed to emit new file event" })
    } else if same_text(id, "open-graph") {
        Some(
            Emission {
                event: MenuEvent::Open(OpenGraph),
                failure: "failed to emit open file event",
            },
        )
    } else if same_text(id, "save-graph") {
        Some(
            Emission {
                event: MenuEvent::Save(SaveGraph),
                failure: "failed to emit save graph event",
            },
        )
    } else if same_text(id, "save-as-graph") {
        Some(
            Emission {
                event: MenuEvent::SaveAs(SaveAsGraph),
                failure: "failed to emit save as graph event",
            },
        )
    } else if same_text(id, "close-graph") {
        Some(
            Emission {
                event: MenuEvent::Close(CloseGraph),
                failure: "failed to emit close graph event",
            },
        )
    } else {
        None
    }
}

/// Every item of the file submenu asks for an event, and no two items ask for
/// the same one.
pub proof fn every_item_is_handled()
    ensures
        forall|i: int|
            0 <= i < file_entries().len() ==> match #[trigger] file_entries()[i] {
                MenuEntry::Item { id, .. } => emission_for(id@) is Some,
                _ => true,
            },
        forall|i: int, j: int|
            0 <= i < j < file_entries().len() ==> match (
                #[trigger] file_entries()[i],
                #[trigger] file_entries()[j],
            ) {
                (MenuEntry::Item { id: first, .. }, MenuEntry::Item { id: second, .. }) => first@
                    != second@ && emission_for(first@)->Some_0.event != emission_for(
                    second@,
                )->Some_0.event,
                _ => true,
            },
{
    reveal_strlit("new-graph");
    reveal_strlit("open-graph");
    reveal_strlit("save-graph");
    reveal_strlit("save-as-graph");
    reveal_strlit("close-graph");
    assert("new-graph"@.len() == 9);
    assert("open-graph"@.len() == 10 && "open-graph"@[0] == 'o');
    assert("save-graph"@.len() == 10 && "save-graph"@[0] == 's');
    assert("save-as-graph"@.len() == 13);
    assert("close-graph"@.len() == 11);
}

} // verus!
