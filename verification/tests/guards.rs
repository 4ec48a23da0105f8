//! Which inputs and scenes the state allows.

use pf_shell_core::catalog::{CatalogSnapshot, UserProjection};
use pf_shell_core::guards::prompts_in_line;
use pf_shell_core::ports::{AxisMove, LaunchMotion, NetworkState, ShellAction};
use pf_shell_core::state::{LibraryGrid, Route, SettingsRoom, ShellCore};
use pf_shell_core::surface::SurfaceFacts;

fn shell_core() -> ShellCore {
    let snapshot = CatalogSnapshot {
        items: vec![],
        user_projection: UserProjection {
            favorite_item_ids: vec![],
            pinned_variant_ids: vec![],
        },
    };
    let motion = LaunchMotion {
        normal_ms: 200,
        reduced_ms: 0,
    };
    let mut shell = ShellCore::boot(&snapshot, &motion, false);
    shell.authority_snapshot(false);
    shell
}

fn facts() -> SurfaceFacts {
    SurfaceFacts {
        grid: LibraryGrid {
            columns: 6,
            toolbar_columns: 4,
        },
        portrait: false,
        status_fits: true,
        shelf_capacity: 6,
        caption_fits: true,
        shelf_cells: 20,
        shelf_badge_cells: 18,
        shelf_reason_cells: 40,
        chip_cells: [20; 4],
        library_rows: 2,
        card_cells: 20,
        card_badge_cells: 18,
        result_capacity: 8,
        result_cells: vec![],
        facts_fit: true,
        row_capacity: 8,
        truth_fits: true,
    }
}

fn known_network() -> NetworkState {
    NetworkState {
        interface_present: true,
        enabled: true,
        connected_ssid: None,
        signal: None,
    }
}

#[test]
fn prompts_stand_in_line_while_the_incomplete_come_last() {
    assert!(prompts_in_line(""));
    assert!(prompts_in_line("B Back · A Open"));
    assert!(prompts_in_line("B Back · A Open · Hint"));
    assert!(!prompts_in_line("Hint · B Back"));
    assert!(!prompts_in_line("B Back · Hint · A Open"));
}

#[test]
fn surface_facts_need_a_grid_and_room_for_one_of_each() {
    assert!(facts().hold());
    let mut narrow = facts();
    narrow.grid.columns = 0;
    assert!(!narrow.hold());
    let mut wide = facts();
    wide.grid.toolbar_columns = 5;
    assert!(!wide.hold());
    let mut flat = facts();
    flat.library_rows = 0;
    assert!(!flat.hold());
}

#[test]
fn the_network_room_takes_inputs_only_while_it_is_known() {
    let mut shell = shell_core();
    shell.go(Route::Settings);
    shell.settings.settings_room = SettingsRoom::Network;
    assert!(!shell.accepts(&ShellAction::Move(AxisMove::Right)));
    assert!(!shell.accepts(&ShellAction::Activate));
    assert!(shell.accepts(&ShellAction::Back));
    assert!(!shell.can_show(&facts(), ""));
    shell.load_network(Ok(known_network()), Ok(vec![]));
    assert!(shell.accepts(&ShellAction::Move(AxisMove::Right)));
    assert!(shell.accepts(&ShellAction::Activate));
    assert!(shell.can_show(&facts(), ""));
}

#[test]
fn scenes_need_facts_and_prompts_in_line() {
    let mut shell = shell_core();
    assert!(shell.can_show(&facts(), "Hint · B Back"));
    shell.go(Route::Quick);
    assert!(shell.can_show(&facts(), "B Back · A Open"));
    assert!(!shell.can_show(&facts(), "Hint · B Back"));
    assert!(!shell.can_show(&facts(), "Hint     B Back"));
    let mut bare = facts();
    bare.row_capacity = 0;
    assert!(!shell.can_show(&bare, ""));
}
