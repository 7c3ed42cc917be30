//! Tray-menu decisions: the initial menu the tray is built with, the
//! parsing of a clicked menu identifier, and the plan of directives a click
//! resolves to. Quit releases every window's desktop reservation before the
//! process exits; hide-all and show-all toggle every window's visibility
//! and swap which of the two entries stays enabled.

use vstd::prelude::*;
use vstd::string::StringExecFns;
use crate::model::{BarDef, BarKey};

verus! {

pub const TRAY_QUIT: &'static str = "quit";

pub const TRAY_HIDE_ALL: &'static str = "hide_all";

pub const TRAY_SHOW_ALL: &'static str = "show_all";

/// One entry of the tray menu that can be clicked.
#[derive(Clone, Copy, PartialEq, Eq, Structural, Debug)]
pub enum TrayItem {
    Quit,
    HideAll,
    ShowAll,
}

/// One instruction a menu click resolves to, carried out by the window
/// toolkit and the tray handle.
#[derive(Clone, Copy, PartialEq, Eq, Structural, Debug)]
pub enum TrayDirective {
    RemoveReservation { key: BarKey },
    ExitProcess,
    HideWindow { key: BarKey },
    ShowWindow { key: BarKey },
    SetItemEnabled { item: TrayItem, enabled: bool },
}

/// The menu item a clicked identifier names, if any.
pub open spec fn tray_item_of(id: Seq<char>) -> Option<TrayItem> {
    if id == "quit"@ {
        Some(TrayItem::Quit)
    } else if id == "hide_all"@ {
        Some(TrayItem::HideAll)
    } else if id == "show_all"@ {
        Some(TrayItem::ShowAll)
    } else {
        None
    }
}

/// Parses a clicked menu identifier; an unknown identifier is ignored.
pub fn parse_tray_item(id: &str) -> (item: Option<TrayItem>)
    ensures
        item == tray_item_of(id@),
{
    let id_owned = id.to_owned();
    if id_owned == String::from_str("quit") {
        Some(TrayItem::Quit)
    } else if id_owned == String::from_str("hide_all") {
        Some(TrayItem::HideAll)
    } else if id_owned == String::from_str("show_all") {
        Some(TrayItem::ShowAll)
    } else {
        None
    }
}

/// Resolves a menu click into the directives to carry out, given the
/// currently-open windows.
pub fn tray_plan(item: TrayItem, windows: &Vec<BarDef>) -> (plan: Vec<TrayDirective>)
    ensures
        match item {
            // Every window's desktop reservation is released first; the
            // process exits only after the last release.
            TrayItem::Quit => plan@.len() == windows@.len() + 1 && (forall|i: int|
                0 <= i < windows@.len() ==> plan@[i] == (TrayDirective::RemoveReservation {
                    key: (#[trigger] windows@[i]).key,
                })) && plan@.last() == TrayDirective::ExitProcess,
            // Every window is hidden, then the hide entry is disabled and
            // the show entry enabled.
            TrayItem::HideAll => plan@.len() == windows@.len() + 2 && (forall|i: int|
                0 <= i < windows@.len() ==> plan@[i] == (TrayDirective::HideWindow {
                    key: (#[trigger] windows@[i]).key,
                })) && plan@[windows@.len() as int] == (TrayDirective::SetItemEnabled {
                item: TrayItem::HideAll,
                enabled: false,
            }) && plan@.last() == (TrayDirective::SetItemEnabled {
                item: TrayItem::ShowAll,
                enabled: true,
            }),
            // Every window is shown, then the show entry is disabled and
            // the hide entry enabled.
            TrayItem::ShowAll => plan@.len() == windows@.len() + 2 && (forall|i: int|
                0 <= i < windows@.len() ==> plan@[i] == (TrayDirective::ShowWindow {
                    key: (#[trigger] windows@[i]).key,
                })) && plan@[windows@.len() as int] == (TrayDirective::SetItemEnabled {
                item: TrayItem::ShowAll,
                enabled: false,
            }) && plan@.last() == (TrayDirective::SetItemEnabled {
                item: TrayItem::HideAll,
                enabled: true,
            }),
        },
{
    let mut plan: Vec<TrayDirective> = Vec::new();
    let mut i: usize = 0;
    while i < windows.len()
        invariant
            i <= windows@.len(),
            plan@.len() == i,
            forall|j: int|
                0 <= j < i ==> plan@[j] == (match item {
                    TrayItem::Quit => TrayDirective::RemoveReservation {
                        key: (#[trigger] windows@[j]).key,
                    },
                    TrayItem::HideAll => TrayDirective::HideWindow { key: windows@[j].key },
                    TrayItem::ShowAll => TrayDirective::ShowWindow { key: windows@[j].key },
                }),
        decreases windows@.len() - i,
    {
        let key = windows[i].key;
        match item {
            TrayItem::Quit => plan.push(TrayDirective::RemoveReservation { key }),
            TrayItem::HideAll => plan.push(TrayDirective::HideWindow { key }),
            TrayItem::ShowAll => plan.push(TrayDirective::ShowWindow { key }),
        }
        i += 1;
    }
    match item {
        TrayItem::Quit => {
            plan.push(TrayDirective::ExitProcess);
        },
        TrayItem::HideAll => {
            plan.push(TrayDirective::SetItemEnabled { item: TrayItem::HideAll, enabled: false });
            plan.push(TrayDirective::SetItemEnabled { item: TrayItem::ShowAll, enabled: true });
        },
        TrayItem::ShowAll => {
            plan.push(TrayDirective::SetItemEnabled { item: TrayItem::ShowAll, enabled: false });
            plan.push(TrayDirective::SetItemEnabled { item: TrayItem::HideAll, enabled: true });
        },
    }
    plan
}

/// One entry of the tray menu as it is built: a clickable item with its
/// label and initial enabled state, or a separator.
#[derive(Clone, Copy, Debug)]
pub enum MenuEntry {
    Item { item: TrayItem, title: &'static str, enabled: bool },
    Separator,
}

/// The menu the tray is built with at startup: hide-all and show-all, both
/// disabled until windows exist, a separator, and quit.
pub fn initial_tray_menu() -> (menu: Vec<MenuEntry>)
    ensures
        menu@.len() == 4,
        menu@[0] matches MenuEntry::Item { item, title, enabled } && item == TrayItem::HideAll
            && title@ == "Hide All"@ && !enabled,
        menu@[1] matches MenuEntry::Item { item, title, enabled } && item == TrayItem::ShowAll
            && title@ == "Show All"@ && !enabled,
        menu@[2] is Separator,
        menu@[3] matches MenuEntry::Item { item, title, enabled } && item == TrayItem::Quit
            && title@ == "Quit"@ && enabled,
{
    let mut menu: Vec<MenuEntry> = Vec::new();
    menu.push(MenuEntry::Item { item: TrayItem::HideAll, title: "Hide All", enabled: false });
    menu.push(MenuEntry::Item { item: TrayItem::ShowAll, title: "Show All", enabled: false });
    menu.push(MenuEntry::Separator);
    menu.push(MenuEntry::Item { item: TrayItem::Quit, title: "Quit", enabled: true });
    menu
}

} // verus!
