use yasb_core::model::{BarDef, BarKey, Edge};
use yasb_core::tray::{
    initial_tray_menu, parse_tray_item, tray_plan, MenuEntry, TrayDirective, TrayItem, TRAY_HIDE_ALL,
    TRAY_QUIT, TRAY_SHOW_ALL,
};

fn bar(monitor: u32, index: u32) -> BarDef {
    BarDef { key: BarKey { monitor, index }, edge: Edge::Top, thickness: 30, widgets: vec![] }
}

#[test]
fn menu_identifiers_parse_to_their_items() {
    assert_eq!(parse_tray_item(TRAY_QUIT), Some(TrayItem::Quit));
    assert_eq!(parse_tray_item(TRAY_HIDE_ALL), Some(TrayItem::HideAll));
    assert_eq!(parse_tray_item(TRAY_SHOW_ALL), Some(TrayItem::ShowAll));
    assert_eq!(parse_tray_item("settings"), None);
    assert_eq!(parse_tray_item(""), None);
}

#[test]
fn quit_releases_every_reservation_before_exiting() {
    let windows = vec![bar(0, 0), bar(1, 0)];
    let plan = tray_plan(TrayItem::Quit, &windows);
    assert_eq!(
        plan,
        vec![
            TrayDirective::RemoveReservation { key: BarKey { monitor: 0, index: 0 } },
            TrayDirective::RemoveReservation { key: BarKey { monitor: 1, index: 0 } },
            TrayDirective::ExitProcess,
        ]
    );
}

#[test]
fn hide_all_hides_windows_and_swaps_enabled_entries() {
    let windows = vec![bar(0, 0)];
    let plan = tray_plan(TrayItem::HideAll, &windows);
    assert_eq!(
        plan,
        vec![
            TrayDirective::HideWindow { key: BarKey { monitor: 0, index: 0 } },
            TrayDirective::SetItemEnabled { item: TrayItem::HideAll, enabled: false },
            TrayDirective::SetItemEnabled { item: TrayItem::ShowAll, enabled: true },
        ]
    );
}

#[test]
fn show_all_shows_windows_and_swaps_enabled_entries() {
    let windows = vec![bar(0, 0), bar(0, 1)];
    let plan = tray_plan(TrayItem::ShowAll, &windows);
    assert_eq!(
        plan,
        vec![
            TrayDirective::ShowWindow { key: BarKey { monitor: 0, index: 0 } },
            TrayDirective::ShowWindow { key: BarKey { monitor: 0, index: 1 } },
            TrayDirective::SetItemEnabled { item: TrayItem::ShowAll, enabled: false },
            TrayDirective::SetItemEnabled { item: TrayItem::HideAll, enabled: true },
        ]
    );
}

#[test]
fn initial_menu_has_disabled_toggles_and_enabled_quit() {
    let menu = initial_tray_menu();
    assert_eq!(menu.len(), 4);
    match menu[0] {
        MenuEntry::Item { item, title, enabled } => {
            assert_eq!(item, TrayItem::HideAll);
            assert_eq!(title, "Hide All");
            assert!(!enabled);
        }
        MenuEntry::Separator => panic!("expected the hide-all item first"),
    }
    match menu[1] {
        MenuEntry::Item { item, title, enabled } => {
            assert_eq!(item, TrayItem::ShowAll);
            assert_eq!(title, "Show All");
            assert!(!enabled);
        }
        MenuEntry::Separator => panic!("expected the show-all item second"),
    }
    assert!(matches!(menu[2], MenuEntry::Separator));
    match menu[3] {
        MenuEntry::Item { item, title, enabled } => {
            assert_eq!(item, TrayItem::Quit);
            assert_eq!(title, "Quit");
            assert!(enabled);
        }
        MenuEntry::Separator => panic!("expected the quit item last"),
    }
}
