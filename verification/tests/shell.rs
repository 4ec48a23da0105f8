//! What inputs, reports and results do to the shell.

use pf_shell_core::art::ArtTreatment;
use pf_shell_core::calendar::ManualTimePicker;
use pf_shell_core::catalog::{
    AppKind, AppManifestRef, Availability, CatalogItem, CatalogPresentation, CatalogSnapshot,
    Provenance, UserProjection, Variant,
};
use pf_shell_core::clock::{Duration, SystemTime};
use pf_shell_core::history::{EndPrecision, EndStamp, HistoryEntry};
use pf_shell_core::ports::{
    AppliedIdlePolicy, AppliedTransferState, AppliedValue, AxisMove, Base, ConnectResult,
    DeviceStatus, DeviceStatusPort, EffectivePreference, IdlePolicy, LaunchMotion, LaunchRequest,
    LaunchResult, NetworkState, NtpState, ObservedSessionState, PowerAction, PowerCapability,
    PowerRequestResult, PreferenceKey, PreferencePoll, PreferenceReads, PreferenceValue,
    SessionEvent, SessionPoll, ShellAction, Support, TerminalReceipt, TimeCapabilities, TimeState,
    TransferService, TransferServiceState, WifiNetwork, WifiSecurity,
};
use pf_shell_core::services::SystemRow;
use pf_shell_core::state::{
    ControlBinding, ControlsFlow, Effect, LibraryFilter, LibraryGrid, NetworkFlow, PowerDialog,
    Presentation, Route, SettingsRoom, ShellCore, SystemFlow,
};

fn snapshot() -> CatalogSnapshot {
    CatalogSnapshot {
        items: ["Ridgeline", "Hollow Tides"]
            .iter()
            .enumerate()
            .map(|(i, title)| CatalogItem {
                id: format!("i{i}"),
                title: title.to_string(),
                kind: AppKind::Game,
                presentation: CatalogPresentation {
                    icon_reference: None,
                    icon_decodable: false,
                },
                tags: vec![],
                variants: vec![Variant {
                    id: "default".to_string(),
                    availability: Availability::Ready,
                    requirements: vec![],
                    provenance: Provenance {
                        provider_id: "fixture".to_string(),
                        app_version: None,
                        runtime_family: "native".to_string(),
                    },
                    launch_target: AppManifestRef {
                        app_id: format!("app-{i}"),
                        descriptor_stem: Some("app".to_string()),
                    },
                }],
            })
            .collect(),
        user_projection: no_projection(),
    }
}

fn no_projection() -> UserProjection {
    UserProjection {
        favorite_item_ids: vec![],
        pinned_variant_ids: vec![],
    }
}

fn motion() -> LaunchMotion {
    LaunchMotion {
        normal_ms: 240,
        reduced_ms: 0,
    }
}

fn shell_core() -> ShellCore {
    let mut shell = ShellCore::boot(&snapshot(), &motion(), false);
    shell.authority_snapshot(false);
    shell
}

fn variant(id: &str, app_id: &str, availability: Availability) -> Variant {
    Variant {
        id: id.to_string(),
        availability,
        requirements: vec![],
        provenance: Provenance {
            provider_id: format!("provider-{id}"),
            app_version: Some("1.0".to_string()),
            runtime_family: "native".to_string(),
        },
        launch_target: AppManifestRef {
            app_id: app_id.to_string(),
            descriptor_stem: Some(id.to_string()),
        },
    }
}

fn item(id: &str, title: &str, variants: Vec<Variant>) -> CatalogItem {
    CatalogItem {
        id: id.to_string(),
        title: title.to_string(),
        kind: AppKind::Game,
        presentation: CatalogPresentation {
            icon_reference: None,
            icon_decodable: false,
        },
        tags: vec!["fictional".to_string(), format!("group-{id}")],
        variants,
    }
}

fn ready_item(id: &str, title: &str) -> CatalogItem {
    item(id, title, vec![variant("native", id, Availability::Ready)])
}

fn numbered_items(count: usize) -> Vec<CatalogItem> {
    (0..count)
        .map(|index| {
            item(
                &format!("item-{index}"),
                &format!("Item {index}"),
                vec![variant(
                    "native",
                    &format!("app-{index}"),
                    Availability::Ready,
                )],
            )
        })
        .collect()
}

struct FixtureStatus;

impl DeviceStatusPort for FixtureStatus {
    fn status(&self) -> Result<DeviceStatus, String> {
        Ok(DeviceStatus {
            battery_percent: 82,
            attention_message: None,
        })
    }
}

fn fixture_core(items: Vec<CatalogItem>) -> ShellCore {
    let snapshot = CatalogSnapshot {
        items,
        user_projection: no_projection(),
    };
    let mut shell = ShellCore::boot(&snapshot, &motion(), false);
    shell.authority_snapshot(false);
    shell.load_device_status(&FixtureStatus);
    shell
}

fn history_entry(
    item_id: &str,
    started_at: Option<SystemTime>,
    ended_at: Option<(SystemTime, EndPrecision)>,
) -> HistoryEntry {
    HistoryEntry {
        item_id: item_id.to_string(),
        started_at,
        ended_at: ended_at.map(|(at, precision)| EndStamp { at, precision }),
    }
}

fn at(secs: i64) -> SystemTime {
    SystemTime::from_unix_secs(secs)
}

fn report(key: &str, value: PreferenceValue, applied: bool) -> EffectivePreference {
    EffectivePreference {
        key: PreferenceKey(key.to_string()),
        effective: value.clone(),
        stored: value,
        applied,
    }
}

fn text_value(value: &str) -> PreferenceValue {
    PreferenceValue::Text(value.to_string())
}

fn preferences(applied: bool) -> PreferenceReads {
    PreferenceReads {
        text_scale: Ok(Some(report("textScale", text_value("100%"), applied))),
        high_contrast: Ok(Some(report(
            "highContrast",
            PreferenceValue::Bool(false),
            applied,
        ))),
        reduce_motion: Ok(Some(report(
            "reduceMotion",
            PreferenceValue::Bool(false),
            applied,
        ))),
        reduce_flashing: Ok(Some(report(
            "reduceFlashing",
            PreferenceValue::Bool(false),
            applied,
        ))),
        appearance: Ok(None),
    }
}

fn press(name: &str) -> ShellAction {
    ShellAction::Custom(name.to_string())
}

fn launch(app_id: &str) -> Option<Effect> {
    Some(Effect::Launch(LaunchRequest {
        item_id: app_id.to_string(),
    }))
}

fn binding(context: &str, action: &str, label: &str, button: &str) -> ControlBinding {
    ControlBinding {
        context: context.to_string(),
        action: action.to_string(),
        label: label.to_string(),
        binding: button.to_string(),
    }
}

fn crash(session_id: &str, summary: &str) -> SessionEvent {
    SessionEvent::Terminal(TerminalReceipt::Crash {
        session_id: session_id.to_string(),
        summary: summary.to_string(),
    })
}

fn blocked(reason: &str) -> Availability {
    Availability::NeedsNetwork {
        reason: reason.to_string(),
    }
}

fn unset(reason: &str) -> Availability {
    Availability::NeedsSetup {
        reason: reason.to_string(),
    }
}

fn wide_grid() -> LibraryGrid {
    LibraryGrid {
        columns: 6,
        toolbar_columns: 4,
    }
}

fn move_to(axis: AxisMove) -> ShellAction {
    ShellAction::Move(axis)
}

#[test]
fn applied_accessibility_fixture_is_live_and_first_run_is_once_only() {
    let mut c = shell_core();
    c.load_preferences(&preferences(true), false).unwrap();
    assert_eq!(c.presentation(), &Presentation::FirstRun);
    for (key, value) in [
        ("textScale", text_value("200%")),
        ("highContrast", PreferenceValue::Bool(true)),
        ("reduceMotion", PreferenceValue::Bool(true)),
        ("reduceFlashing", PreferenceValue::Bool(true)),
    ] {
        c.preference_changed(&report(key, value, true));
    }
    assert_eq!(c.text_scale(), 200);
    assert_eq!(c.theme_base(), Base::HighContrast);
    assert!(c.reduced_motion());
    assert!(c.reduce_flashing());
    c.action(&press("Start"));
    assert_eq!(c.presentation(), &Presentation::Ready);
    c.load_preferences(&preferences(true), true).unwrap();
    assert_eq!(c.presentation(), &Presentation::Ready);
    c.reset_first_run();
    assert_eq!(c.presentation(), &Presentation::FirstRun);
    assert!(
        c.action(&ShellAction::Back).is_none(),
        "Back cannot abandon first run"
    );
}

#[test]
fn high_contrast_selects_theme_base() {
    let mut shell = shell_core();
    shell.load_preferences(&preferences(true), true).unwrap();
    assert_eq!(shell.theme_base(), Base::Dusk);

    shell.preference_changed(&report("highContrast", PreferenceValue::Bool(true), true));
    assert_eq!(shell.theme_base(), Base::HighContrast);
}

#[test]
fn reduced_motion_is_preference_or_environment_override() {
    let mut env_override = ShellCore::boot(&snapshot(), &motion(), true);
    env_override
        .load_preferences(&preferences(true), true)
        .unwrap();
    assert!(env_override.reduced_motion());
    assert_eq!(env_override.motion_duration_ms(), 0);

    let mut preference = shell_core();
    preference
        .load_preferences(&preferences(true), true)
        .unwrap();
    assert!(!preference.reduced_motion());
    preference.preference_changed(&report("reduceMotion", PreferenceValue::Bool(true), true));
    assert!(preference.reduced_motion());
    assert_eq!(preference.motion_duration_ms(), 0);
}

#[test]
fn details_back_restores_library_items_in_route_local_space() {
    for (focus, expected_item) in [(5usize, 0usize), (6, 1)] {
        let mut c = shell_core();
        c.go(Route::Library);
        c.set_focus(focus);
        c.action(&ShellAction::Activate);
        assert_eq!(
            (c.route(), c.nav.selected_item),
            (Route::Details, Some(expected_item))
        );

        c.action(&ShellAction::Back);
        assert_eq!((c.route(), c.focus()), (Route::Library, focus));
    }
}

#[test]
fn details_back_restores_item_in_current_search_results() {
    let mut c = shell_core();
    c.go(Route::Search);
    c.titles.search_results = vec![1, 0];
    c.set_focus(0);
    c.action(&ShellAction::Activate);
    assert_eq!((c.route(), c.nav.selected_item), (Route::Details, Some(1)));

    c.action(&ShellAction::Back);
    assert_eq!((c.route(), c.focus()), (Route::Search, 0));
    assert_eq!(c.focused_item_index(), Some(1));
}

#[test]
fn details_back_clamps_to_search_item_when_result_vanished() {
    let mut c = shell_core();
    c.go(Route::Search);
    c.set_focus(1);
    c.action(&ShellAction::Activate);
    assert_eq!((c.route(), c.nav.selected_item), (Route::Details, Some(1)));
    c.titles.search_results = vec![0];

    c.action(&ShellAction::Back);
    assert_eq!((c.route(), c.focus()), (Route::Search, 0));
    assert_eq!(c.focused_item_index(), Some(0));
}

#[test]
fn all_presentations_route_safe_return() {
    let mut c = shell_core();
    for p in [
        Presentation::Ready,
        Presentation::Starting,
        Presentation::Running,
        Presentation::Returned,
        Presentation::ForcedClose,
        Presentation::Crash,
        Presentation::RecoveryRequired,
    ] {
        c.session.presentation = p;
        assert!(c.action(&press("SafeReturn")) == Some(Effect::SafeReturn));
    }
}

#[test]
fn crash_actions_relaunch_or_dismiss_by_focus() {
    let mut c = shell_core();
    c.set_focus(1);
    assert!(c.action(&ShellAction::Activate) == launch("app-1"));
    c.session_event(&crash("receipt-7", "exit status 9"));

    c.action(&move_to(AxisMove::Down));
    assert!(c.action(&ShellAction::Activate) == launch("app-1"));
    assert_eq!(c.presentation(), &Presentation::Starting);

    c.session_event(&crash("receipt-8", "signal 11"));
    assert_eq!(c.focus(), 0);
    assert!(c.action(&ShellAction::Activate).is_none());
    assert_eq!(
        (c.route(), c.presentation()),
        (Route::Home, &Presentation::Ready)
    );
}

#[test]
fn recovery_entry_is_authority_gated() {
    let mut c = shell_core();
    c.go(Route::Settings);
    c.settings.settings_room = SettingsRoom::System;
    assert_eq!(c.focus_count(), 3);
    c.authority_snapshot(true);
    assert_eq!(c.focus_count(), 4);
    c.enter_settings_rows();
    assert!(c.settings.settings_row_focused);
    assert_eq!(c.nav.focus, 3);
    assert!(c.action(&ShellAction::Activate) == Some(Effect::EnterRecovery));
}

#[test]
fn quick_is_contextual_between_home_and_details() {
    let ready = || {
        item(
            "ready",
            "Ready Game",
            vec![variant("native", "ready-app", Availability::Ready)],
        )
    };
    let mut home = fixture_core(vec![ready()]);
    assert!(home.action(&press("Quick")).is_none());
    assert_eq!(home.route(), Route::Quick);

    let mut details = fixture_core(vec![ready()]);
    details.nav.selected_item = Some(0);
    details.go(Route::Details);
    assert!(
        details.action(&press("Quick"))
            == Some(Effect::ToggleFavorite {
                item_id: "ready".to_string(),
                favorite: true,
            })
    );
    assert_eq!(details.route(), Route::Details);

    assert!(details.action(&press("Quick.open")).is_none());
    assert_eq!(details.route(), Route::Quick);
}

#[test]
fn five_hundred_items_filter_deterministically_and_search_opens_details_only() {
    let items = (0..500)
        .map(|index| {
            item(
                &format!("title-{index:03}"),
                &format!("Fictional Title {index:03}"),
                vec![variant(
                    "native",
                    &format!("app-{index:03}"),
                    Availability::Ready,
                )],
            )
        })
        .collect();
    let mut shell = fixture_core(items);
    shell.action(&press("Search"));
    shell.set_search_query("Title 042 fictional".to_string());
    assert_eq!(shell.search_result_ids(), vec!["title-042"]);
    assert!(shell.action(&ShellAction::Activate).is_none());
    assert_eq!(shell.route(), Route::Details);
    assert_eq!(shell.presentation(), &Presentation::Ready);
}

#[test]
fn library_grid_navigation_is_row_major_with_hard_edges() {
    let mut shell = fixture_core(numbered_items(12));
    shell.go(Route::Library);
    shell.set_focus(5);
    shell.action(&move_to(AxisMove::Left));
    assert_eq!(shell.focus(), 5, "left edge is hard");
    shell.action(&move_to(AxisMove::Right));
    assert_eq!(shell.focus(), 6);
    shell.action(&move_to(AxisMove::Down));
    assert_eq!(shell.focus(), 12);
    shell.action(&move_to(AxisMove::Up));
    assert_eq!(shell.focus(), 6);
    shell.set_focus(10);
    shell.action(&move_to(AxisMove::Right));
    assert_eq!(shell.focus(), 10, "right edge is hard");
    shell.action(&move_to(AxisMove::Up));
    assert_eq!(shell.focus(), 4, "top row returns to the nearest chip");
    shell.action(&move_to(AxisMove::Down));
    assert_eq!(shell.focus(), 8, "chip enters the nearest grid column");
}

#[test]
fn library_grid_navigation_uses_rendered_breakpoint_geometry() {
    let mut shell = fixture_core(numbered_items(18));
    shell.go(Route::Library);

    for (toolbar_columns, columns) in [(2usize, 2usize), (2, 3), (4, 4), (4, 6)] {
        shell.set_library_grid(LibraryGrid {
            columns,
            toolbar_columns,
        });

        shell.set_focus(5 + columns - 1);
        shell.action(&move_to(AxisMove::Right));
        assert_eq!(shell.focus(), 5 + columns - 1, "right edge of {columns}");

        shell.set_focus(5);
        shell.action(&move_to(AxisMove::Right));
        shell.action(&move_to(AxisMove::Left));
        assert_eq!(shell.focus(), 5, "left/right inverse of {columns}");

        shell.action(&move_to(AxisMove::Down));
        assert_eq!(shell.focus(), 5 + columns, "down of {columns}");
        shell.action(&move_to(AxisMove::Up));
        assert_eq!(shell.focus(), 5, "up/down inverse of {columns}");
    }
}

#[test]
fn library_wrapped_toolbar_navigation_matches_rendered_rows_and_columns() {
    let mut shell = fixture_core(numbered_items(6));
    shell.go(Route::Library);
    shell.set_library_grid(LibraryGrid {
        columns: 3,
        toolbar_columns: 2,
    });

    shell.set_focus(1);
    shell.action(&move_to(AxisMove::Down));
    assert_eq!(
        shell.focus(),
        3,
        "first chip moves to the chip rendered below it"
    );
    shell.action(&move_to(AxisMove::Up));
    assert_eq!(shell.focus(), 1);
    shell.action(&move_to(AxisMove::Up));
    assert_eq!(shell.focus(), 0, "top toolbar row returns to search");

    shell.set_focus(2);
    shell.action(&move_to(AxisMove::Right));
    assert_eq!(
        shell.focus(),
        2,
        "right edge of the first rendered row is hard"
    );
    shell.action(&move_to(AxisMove::Down));
    assert_eq!(shell.focus(), 4);
    shell.action(&move_to(AxisMove::Down));
    assert_eq!(
        shell.focus(),
        7,
        "right chip enters the rightmost grid column"
    );
    shell.action(&move_to(AxisMove::Up));
    assert_eq!(
        shell.focus(),
        4,
        "right grid column returns to the lower-right chip"
    );

    shell.set_focus(3);
    shell.action(&move_to(AxisMove::Down));
    assert_eq!(
        shell.focus(),
        5,
        "left chip enters the leftmost grid column"
    );
    shell.action(&move_to(AxisMove::Up));
    assert_eq!(
        shell.focus(),
        3,
        "left grid column returns to the lower-left chip"
    );
}

#[test]
fn library_recent_orders_by_latest_use_and_trails_unplayed_titles() {
    let mut shell = fixture_core(vec![
        ready_item("unplayed-first", "Unplayed First"),
        ready_item("older", "Older"),
        ready_item("newest", "Newest"),
        ready_item("unplayed-last", "Unplayed Last"),
    ]);

    shell.load_history(&[
        history_entry(
            "newest",
            Some(at(100)),
            Some((at(200), EndPrecision::Observed)),
        ),
        history_entry(
            "older",
            Some(at(300)),
            Some((at(400), EndPrecision::Observed)),
        ),
        history_entry("newest", Some(at(500)), None),
    ]);

    assert_eq!(shell.titles.library_items, vec![2, 1, 0, 3]);
}

#[test]
fn library_recent_maps_non_default_variant_history_to_catalog_item() {
    let mut shell = fixture_core(vec![
        item(
            "multi-title",
            "Multi Title",
            vec![
                variant("default", "multi-default", Availability::Ready),
                variant("alternate", "multi-alternate", Availability::Ready),
            ],
        ),
        item(
            "single-title",
            "Single Title",
            vec![variant("default", "single-title", Availability::Ready)],
        ),
        item(
            "unplayed-title",
            "Unplayed Title",
            vec![variant("default", "unplayed-title", Availability::Ready)],
        ),
    ]);

    shell.load_history(&[
        history_entry("multi-alternate", Some(at(200)), None),
        history_entry("single-title", Some(at(100)), None),
    ]);

    assert_eq!(shell.titles.library_items, vec![0, 1, 2]);
}

#[test]
fn library_recent_uses_newest_timestamp_across_variants() {
    let mut shell = fixture_core(vec![
        item(
            "comparison-title",
            "Comparison Title",
            vec![variant("default", "comparison", Availability::Ready)],
        ),
        item(
            "multi-title",
            "Multi Title",
            vec![
                variant("default", "multi-default", Availability::Ready),
                variant("alternate", "multi-alternate", Availability::Ready),
            ],
        ),
    ]);

    shell.load_history(&[
        history_entry("multi-default", Some(at(100)), None),
        history_entry("comparison", Some(at(200)), None),
        history_entry("multi-alternate", Some(at(300)), None),
    ]);

    assert_eq!(shell.titles.library_items, vec![1, 0]);
}

#[test]
fn library_recent_empty_history_keeps_catalog_order() {
    let mut shell = fixture_core(vec![
        ready_item("third", "Third"),
        ready_item("first", "First"),
        ready_item("second", "Second"),
    ]);

    shell.load_history(&[]);

    assert_eq!(shell.titles.library_items, vec![0, 1, 2]);
}

#[test]
fn library_non_recent_filters_ignore_history_order() {
    let mut tool = ready_item("tool", "Alpha Tool");
    tool.kind = AppKind::System;
    let mut shell = fixture_core(vec![
        ready_item("game-z", "Zulu Game"),
        tool,
        ready_item("game-b", "Beta Game"),
    ]);
    shell.load_history(&[
        history_entry("game-b", Some(at(300)), None),
        history_entry("tool", Some(at(200)), None),
        history_entry("game-z", Some(at(100)), None),
    ]);

    shell.titles.library_filter = LibraryFilter::Alphabetical;
    shell.refresh_library_items();
    assert_eq!(shell.titles.library_items, vec![1, 2, 0]);
    shell.titles.library_filter = LibraryFilter::Games;
    shell.refresh_library_items();
    assert_eq!(shell.titles.library_items, vec![0, 2]);
    shell.titles.library_filter = LibraryFilter::EverythingElse;
    shell.refresh_library_items();
    assert_eq!(shell.titles.library_items, vec![1]);
}

#[test]
fn search_ignores_the_active_library_filter() {
    let mut tool = ready_item("tool", "Shared Lantern");
    tool.kind = AppKind::System;
    tool.tags.push("shared-alias".to_string());
    let mut shell = fixture_core(vec![ready_item("game", "Shared Game"), tool]);

    shell.go(Route::Library);
    shell.set_focus(3);
    shell.action(&ShellAction::Activate);
    assert_eq!(shell.titles.library_items, vec![0]);

    shell.set_focus(0);
    shell.action(&ShellAction::Activate);
    assert_eq!(shell.route(), Route::Search);
    shell.set_search_query("".to_string());
    assert_eq!(shell.search_result_ids(), vec!["game", "tool"]);
    shell.set_search_query("shared-alias".to_string());
    assert_eq!(shell.search_result_ids(), vec!["tool"]);
}

#[test]
fn one_many_and_no_usable_variant_flows_are_per_launch() {
    let mut one = fixture_core(vec![item(
        "one",
        "One Lantern",
        vec![
            variant("offline", "one-offline", Availability::Ready),
            variant("cloud", "one-cloud", blocked("connect to Wi-Fi")),
        ],
    )]);
    assert!(one.action(&ShellAction::Activate) == launch("one-offline"));

    let mut many = fixture_core(vec![item(
        "many",
        "Many Moons",
        vec![
            variant("native", "many-native", Availability::Ready),
            variant("stream", "many-stream", Availability::Ready),
            variant("blocked", "many-blocked", blocked("connect to Wi-Fi")),
        ],
    )]);
    assert!(many.action(&ShellAction::Activate).is_none());
    assert_eq!(many.route(), Route::VariantChooser);
    many.action(&move_to(AxisMove::Down));
    assert!(many.action(&ShellAction::Activate) == launch("many-stream"));
    many.launch_result(&LaunchResult::RejectedBusy);
    many.go(Route::Home);
    assert!(many.action(&ShellAction::Activate).is_none());
    assert_eq!((many.route(), many.focus()), (Route::VariantChooser, 0));

    let mut none = fixture_core(vec![item(
        "none",
        "Quiet Orbit",
        vec![variant("cloud", "none-cloud", blocked("connect to Wi-Fi"))],
    )]);
    assert!(none.action(&ShellAction::Activate).is_none());
    assert_eq!(none.presentation(), &Presentation::Ready);
}

#[test]
fn chooser_favorite_action_never_persists_a_variant_default() {
    let mut shell = fixture_core(vec![item(
        "many",
        "Many Moons",
        vec![
            variant("native", "many-native", Availability::Ready),
            variant("stream", "many-stream", Availability::Ready),
        ],
    )]);
    shell.action(&ShellAction::Activate);
    assert!(
        shell.action(&press("Favorite"))
            == Some(Effect::ToggleFavorite {
                item_id: "many".to_string(),
                favorite: true,
            })
    );
}

#[test]
fn activating_empty_catalog_is_a_no_op() {
    let mut shell = fixture_core(vec![]);
    assert_eq!(shell.focus_count(), 1);
    assert!(shell.action(&ShellAction::Activate).is_none());
    assert_eq!(shell.route(), Route::Home);
}

#[test]
fn only_applied_reports_change_what_is_painted() {
    let mut shell = shell_core();
    shell.load_preferences(&preferences(true), true).unwrap();
    let before = shell.revision();
    shell.preference_changed(&report("textScale", text_value("150%"), false));
    assert_eq!(shell.text_scale(), 100);
    assert_eq!(shell.revision(), before);
    assert!(!shell.high_contrast());
    shell.preference_changed(&report("textScale", text_value("900%"), true));
    assert_eq!(shell.text_scale(), 200);
}

#[test]
fn the_preference_service_is_asked_until_it_is_idle() {
    let mut shell = shell_core();
    shell.load_preferences(&preferences(true), true).unwrap();
    let change = report("appearance", text_value("Day"), true);
    assert_eq!(shell.drive_preferences(Ok(PreferencePoll::Changed(change))), Ok(true));
    assert_eq!(shell.theme_base(), Base::Day);
    assert_eq!(shell.drive_preferences(Ok(PreferencePoll::Idle)), Ok(false));
    assert_eq!(
        shell.drive_preferences(Err("Gone".to_string())),
        Err("Gone".to_string())
    );
}

#[test]
fn a_failed_read_ends_the_loading() {
    let mut shell = shell_core();
    let mut reads = preferences(true);
    reads.high_contrast = Err("Gone".to_string());
    assert_eq!(
        shell.load_preferences(&reads, true),
        Err("Gone".to_string())
    );
    assert_eq!(shell.comfort.display_preferences.len(), 1);
}

#[test]
fn sessions_end_in_receipts_that_wait_for_the_screen() {
    let mut shell = shell_core();
    shell.set_focus(1);
    assert!(shell.action(&ShellAction::Activate) == launch("app-1"));
    shell.launch_result(&LaunchResult::Accepted);
    assert_eq!(shell.presentation(), &Presentation::Starting);
    assert!(shell.session_active());
    shell.session_event(&SessionEvent::Observed(ObservedSessionState::Running));
    assert_eq!(shell.presentation(), &Presentation::Running);
    assert!(!shell.has_shell_frame());
    shell.nav.focus = 0;
    shell.session_event(&SessionEvent::Terminal(TerminalReceipt::Returned {
        session_id: "s".to_string(),
    }));
    assert_eq!(shell.presentation(), &Presentation::Returned);
    assert_eq!(shell.focus(), 1, "the focus is where it was before the launch");
    assert!(shell.needs_presentation_ack());
    assert!(shell.acknowledge_presentation());
    assert!(!shell.acknowledge_presentation());
    shell.session_event(&SessionEvent::Terminal(TerminalReceipt::ForcedClose {
        session_id: "s".to_string(),
    }));
    assert_eq!(shell.presentation(), &Presentation::ForcedClose);
}

#[test]
fn rejected_and_failed_launches_lead_back() {
    for result in [LaunchResult::RejectedBusy, LaunchResult::Failed] {
        let mut shell = shell_core();
        assert!(shell.action(&ShellAction::Activate) == launch("app-0"));
        shell.launch_result(&result);
        assert_ne!(shell.presentation(), &Presentation::Starting);
    }
}

#[test]
fn the_session_service_is_asked_until_it_is_idle() {
    let mut shell = shell_core();
    assert_eq!(
        shell.drive_session(Ok(SessionPoll::Event(SessionEvent::Observed(
            ObservedSessionState::Starting
        )))),
        Ok(true)
    );
    assert_eq!(shell.presentation(), &Presentation::Starting);
    assert_eq!(shell.drive_session(Ok(SessionPoll::Idle)), Ok(false));
    assert_eq!(
        shell.drive_session(Err("Gone".to_string())),
        Err("Gone".to_string())
    );
}

#[test]
fn a_lost_session_service_is_spoken_of() {
    let mut shell = shell_core();
    assert_eq!(shell.session_status(), None);
    shell.session_backend_unavailable();
    assert!(shell.authority_unavailable());
    assert!(shell.session_status().is_some());
    shell.session_backend_reachable();
    assert!(!shell.authority_unavailable());

    let mut boot = ShellCore::boot(&snapshot(), &motion(), false);
    boot.session_backend_unavailable_at_boot();
    assert!(boot.authority_unavailable());
    assert!(boot.has_shell_frame());

    let mut active = shell_core();
    active.action(&ShellAction::Activate);
    active.active_session_backend_unavailable();
    assert!(active.session_status().is_some());
    active.session_backend_reachable();
    assert_eq!(active.session_status(), None);
    active.safe_return_failed();
    assert!(active.session_status().is_some());
    active.safe_return_succeeded();
    assert_eq!(active.session_status(), None);
}

#[test]
fn favorites_are_kept_once_they_are_committed() {
    let mut shell = shell_core();
    assert!(!shell.is_favorite("i0"));
    shell.favorite_committed("i0", true);
    assert!(shell.is_favorite("i0"));
    assert!(!shell.is_favorite("i1"));
    shell.favorite_committed("i0", false);
    assert!(!shell.is_favorite("i0"));
    assert!(!shell.is_favorite("nobody"));
    shell.favorite_failed("Favorites are read-only".to_string());
    assert_eq!(shell.session_status(), Some("Favorites are read-only"));
}

#[test]
fn pinned_variants_are_kept_once_they_are_committed() {
    let mut shell = shell_core();
    shell.pinned_variant_committed("i0", Some("default".to_string()));
    assert_eq!(
        shell.titles.items[0].pinned_variant_id.as_deref(),
        Some("default")
    );
    shell.pinned_variant_failed("Variants are read-only".to_string());
    assert_eq!(shell.session_status(), Some("Variants are read-only"));
}

#[test]
fn loading_the_same_history_again_changes_no_order() {
    let entries = [history_entry("app-1", Some(at(5)), None)];
    let mut shell = shell_core();
    shell.load_history(&entries);
    let once = shell.titles.library_items.clone();
    assert_eq!(once, vec![1, 0]);
    shell.load_history(&entries);
    assert_eq!(shell.titles.library_items, once);
}

#[test]
fn rejected_art_stays_rejected() {
    let mut with_art = ready_item("a", "A");
    with_art.presentation.icon_reference = Some("art/a.png".to_string());
    with_art.presentation.icon_decodable = true;
    let snapshot = CatalogSnapshot {
        items: vec![with_art],
        user_projection: no_projection(),
    };
    let mut shell =
        ShellCore::boot_with_art(&snapshot, &motion(), false, &vec![Some(b"png".to_vec())]);
    assert_eq!(shell.art_treatment("a"), Some(ArtTreatment::CatalogArt));
    assert_eq!(shell.art_treatment("b"), None);
    let source = shell.titles.items[0].art.as_ref().unwrap().id.clone();
    assert!(shell.reject_art_sources(&vec![source.clone()]));
    assert!(matches!(
        shell.art_treatment("a"),
        Some(ArtTreatment::EditionPlate { .. })
    ));
    assert!(!shell.reject_art_sources(&vec![source]));
}

#[test]
fn rooms_lead_around_and_back() {
    let mut shell = shell_core();
    shell.next_room();
    assert_eq!(shell.route(), Route::Library);
    shell.next_room();
    assert_eq!(shell.route(), Route::Settings);
    shell.previous_room();
    assert_eq!(shell.route(), Route::Library);
}

#[test]
fn filters_form_a_ring() {
    let mut shell = shell_core();
    shell.go(Route::Library);
    let mut seen: Vec<LibraryFilter> = vec![];
    for _ in 0..4 {
        seen.push(shell.titles.library_filter);
        shell.action(&press("Filter.next"));
    }
    assert_eq!(
        seen,
        vec![
            LibraryFilter::Recent,
            LibraryFilter::Alphabetical,
            LibraryFilter::Games,
            LibraryFilter::EverythingElse,
        ]
    );
    assert_eq!(shell.titles.library_filter, LibraryFilter::Recent);
}

#[test]
fn each_input_is_one_revision_and_unknown_ones_ask_for_nothing() {
    let mut shell = shell_core();
    let before = shell.revision();
    assert!(shell.action(&press("Unheard")).is_none());
    assert_eq!(shell.revision(), before + 1);
}

#[test]
fn nothing_happens_while_a_session_owns_the_screen() {
    let mut shell = shell_core();
    shell.session.presentation = Presentation::Running;
    assert!(shell.action(&ShellAction::Activate).is_none());
    assert!(shell.action(&move_to(AxisMove::Down)).is_none());
    assert_eq!((shell.route(), shell.focus()), (Route::Home, 0));
}

fn clock_state(wall_clock: SystemTime, ntp_state: NtpState) -> TimeState {
    TimeState {
        wall_clock,
        timezone: "UTC".to_string(),
        ntp_state,
    }
}

fn manual() -> Result<TimeCapabilities, String> {
    Ok(TimeCapabilities {
        manual_set_time: Support::Supported,
    })
}

fn transfer() -> Result<Vec<TransferServiceState>, String> {
    Ok(vec![TransferServiceState {
        service: TransferService::Sftp,
        support: Support::Supported,
        enabled: false,
        endpoint_info: None,
    }])
}

#[test]
fn the_manual_clock_wraps_clamps_composes_and_cancels() {
    let mut shell = shell_core();
    shell.load_system(manual(), Ok(clock_state(at(0), NtpState::Inactive)), transfer());
    shell.go(Route::Settings);
    shell.settings.settings_room = SettingsRoom::System;

    shell.manual_time_refresh_result(Ok(clock_state(at(1_709_210_040), NtpState::Inactive)));
    assert_eq!(shell.system.system_flow, SystemFlow::ManualTime);
    assert_eq!(
        shell.system.manual_time_picker,
        ManualTimePicker::from_system_time(at(1_709_210_040))
    );

    shell.system.manual_time_picker = ManualTimePicker {
        year: 2024,
        month: 2,
        day: 29,
        hour: 23,
        minute: 59,
        field: 0,
    };
    shell.action(&move_to(AxisMove::Right));
    shell.action(&move_to(AxisMove::Right));
    assert_eq!(shell.system.manual_time_picker.field, 2);
    shell.action(&move_to(AxisMove::Left));
    assert_eq!(shell.system.manual_time_picker.field, 1);

    shell.action(&move_to(AxisMove::Down));
    assert_eq!(
        (
            shell.system.manual_time_picker.month,
            shell.system.manual_time_picker.day
        ),
        (1, 29)
    );
    shell.system.manual_time_picker.month = 1;
    shell.system.manual_time_picker.day = 31;
    shell.action(&move_to(AxisMove::Up));
    assert_eq!(
        (
            shell.system.manual_time_picker.month,
            shell.system.manual_time_picker.day
        ),
        (2, 29)
    );
    shell.system.manual_time_picker.field = 0;
    shell.action(&move_to(AxisMove::Down));
    assert_eq!(
        (
            shell.system.manual_time_picker.year,
            shell.system.manual_time_picker.day
        ),
        (2023, 28)
    );

    shell.system.manual_time_picker = ManualTimePicker {
        year: 2024,
        month: 1,
        day: 1,
        hour: 0,
        minute: 0,
        field: 1,
    };
    shell.action(&move_to(AxisMove::Down));
    assert_eq!(shell.system.manual_time_picker.month, 12);
    shell.system.manual_time_picker.field = 3;
    shell.action(&move_to(AxisMove::Down));
    assert_eq!(shell.system.manual_time_picker.hour, 23);
    shell.system.manual_time_picker.field = 4;
    shell.action(&move_to(AxisMove::Down));
    assert_eq!(shell.system.manual_time_picker.minute, 59);
    shell.system.manual_time_picker.field = 2;
    shell.system.manual_time_picker.day = 1;
    shell.action(&move_to(AxisMove::Down));
    assert_eq!(shell.system.manual_time_picker.day, 31);
    shell.system.manual_time_picker.field = 0;
    shell.system.manual_time_picker.year = 1970;
    shell.action(&move_to(AxisMove::Down));
    assert_eq!(shell.system.manual_time_picker.year, 9999);

    shell.system.manual_time_picker = ManualTimePicker {
        year: 2024,
        month: 2,
        day: 29,
        hour: 12,
        minute: 34,
        field: 4,
    };
    assert!(
        shell.action(&ShellAction::Activate) == Some(Effect::SetManualTime(at(1_709_210_040)))
    );
    assert_eq!(shell.system.system_flow, SystemFlow::Rows);

    shell.manual_time_refresh_result(Ok(clock_state(at(0), NtpState::Inactive)));
    shell.action(&move_to(AxisMove::Up));
    assert!(shell.action(&ShellAction::Back).is_none());
    assert_eq!(shell.system.system_flow, SystemFlow::Rows);
}

#[test]
fn results_of_the_system_services_are_spoken_of() {
    let mut shell = shell_core();
    shell.load_system(manual(), Ok(clock_state(at(0), NtpState::Inactive)), transfer());
    shell.timezone_result(Ok(AppliedValue {
        requested: "Europe/London".to_string(),
        applied: "UTC".to_string(),
    }));
    assert_eq!(
        shell.system.system_status.as_deref(),
        Some("Requested Europe/London · applied UTC")
    );
    shell.ntp_result(Ok(AppliedValue {
        requested: true,
        applied: false,
    }));
    assert_eq!(
        shell.system.system_status.as_deref(),
        Some("Automatic time requested On · applied Off")
    );
    shell.transfer_result(Ok(AppliedTransferState {
        requested: true,
        applied: TransferServiceState {
            service: TransferService::Sftp,
            support: Support::Supported,
            enabled: false,
            endpoint_info: None,
        },
        warning: None,
    }));
    assert_eq!(
        shell.system.system_status.as_deref(),
        Some("File transfer requested On · applied Off")
    );
    shell.manual_time_result(Err("Gone".to_string()));
    assert!(shell.system.system_status.as_deref().unwrap().contains("Gone"));
}

#[test]
fn the_system_room_lists_what_the_services_offer() {
    let mut shell = shell_core();
    shell.load_system(manual(), Ok(clock_state(at(0), NtpState::Unsupported)), transfer());
    assert_eq!(
        shell.system_rows(),
        vec![
            SystemRow::Timezone,
            SystemRow::ManualTime,
            SystemRow::Transfer(TransferService::Sftp),
            SystemRow::Accessibility,
        ]
    );
    shell.load_system(manual(), Ok(clock_state(at(0), NtpState::Active)), transfer());
    assert_eq!(
        shell.system_rows(),
        vec![
            SystemRow::Timezone,
            SystemRow::Ntp,
            SystemRow::Transfer(TransferService::Sftp),
            SystemRow::Accessibility,
        ]
    );
    shell.load_system(manual(), Err("Gone".to_string()), Err("Gone".to_string()));
    assert_eq!(
        shell.system_rows(),
        vec![
            SystemRow::TimeUnavailable,
            SystemRow::TransferUnavailable,
            SystemRow::Accessibility,
        ]
    );
}

#[test]
fn secrets_are_handed_over_once() {
    let mut shell = shell_core();
    shell.load_network(
        Ok(NetworkState {
            interface_present: true,
            enabled: true,
            connected_ssid: None,
            signal: None,
        }),
        Ok(vec![WifiNetwork {
            ssid: "Cedar Workshop".to_string(),
            security: WifiSecurity::Personal,
            strength: 64,
        }]),
    );
    shell.go(Route::Settings);
    shell.settings.settings_room = SettingsRoom::Network;
    shell.network.network_flow = NetworkFlow::Credential;
    shell.network.selected_wifi = Some(0);
    shell.set_wifi_passphrase(b"pine-secret".to_vec());
    match shell.action(&ShellAction::Activate) {
        Some(Effect::ConnectWifi { ssid, credential }) => {
            assert_eq!(ssid, "Cedar Workshop");
            assert_eq!(credential.expose_secret(), b"pine-secret");
        }
        _ => panic!("credential flow must connect"),
    }
    assert!(shell.network.wifi_credential.expose_secret().is_empty());
    for (result, label) in [
        (
            ConnectResult::Progress("Authenticating".to_string()),
            "Joining · Authenticating",
        ),
        (
            ConnectResult::Refused,
            "Connection failed · authentication refused",
        ),
        (
            ConnectResult::NetworkNotFound,
            "Connection failed · network not found",
        ),
        (
            ConnectResult::Connected {
                ssid: "Cedar Workshop".to_string(),
            },
            "Connected · Cedar Workshop",
        ),
    ] {
        shell.network_result(Ok(result));
        assert_eq!(shell.network.network_status.as_deref(), Some(label));
    }
}

#[test]
fn drastic_power_actions_are_asked_about_first() {
    let mut shell = shell_core();
    shell.load_power(
        Ok(vec![PowerCapability {
            action: PowerAction::Restart,
            support: Support::Supported,
        }]),
        Ok(IdlePolicy {
            sleep_after: None,
            power_off_after: None,
        }),
    );
    assert!(shell.supports_power(PowerAction::Restart));
    assert!(!shell.supports_power(PowerAction::Sleep));
    assert_eq!(shell.sleep_row(), None);
    shell.go(Route::Quick);
    shell.set_focus(3);
    assert!(shell.action(&ShellAction::Activate).is_none());
    assert_eq!(
        shell.power.power_dialog,
        PowerDialog::Confirm(PowerAction::Restart)
    );
    assert_eq!(shell.focus(), 0, "the question starts at cancel");
    shell.action(&move_to(AxisMove::Down));
    assert!(
        shell.action(&ShellAction::Activate) == Some(Effect::RequestPower(PowerAction::Restart))
    );
    shell.power_request_result(Ok(PowerRequestResult::Refused {
        reason: "updating".to_string(),
    }));
    assert!(shell.power.power_status.as_deref().unwrap().contains("updating"));
}

#[test]
fn idle_policies_show_what_was_applied() {
    let mut shell = shell_core();
    let minutes = |count: u64| IdlePolicy {
        sleep_after: Some(Duration::from_secs(count * 60)),
        power_off_after: None,
    };
    shell.load_power(Ok(vec![]), Ok(minutes(5)));
    shell.idle_policy_result(Ok(AppliedIdlePolicy {
        requested: minutes(10),
        applied: minutes(15),
    }));
    assert_eq!(shell.power.applied_idle_policy, minutes(15));
}

#[test]
fn remapping_is_spoken_of_and_kept() {
    let mut shell = shell_core();
    shell.remap_refused("Activate");
    assert!(shell.settings.controls_status.as_deref().unwrap().contains("Activate"));
    shell.remap_committed(vec![binding("global", "Back", "Back", "B")]);
    assert_eq!(shell.settings.control_bindings.len(), 1);
    shell.remaps_reset(vec![]);
    assert!(shell.settings.control_bindings.is_empty());
    shell.set_safe_return_binding("PF".to_string());
    assert_eq!(shell.settings.safe_return_binding, "PF");
    shell.set_safe_return_options(vec!["PF".to_string(), "HOME".to_string()]);
    assert_eq!(shell.settings.safe_return_options.len(), 2);
    assert_eq!(shell.settings.controls_flow, ControlsFlow::Rows);
}

#[test]
fn first_run_ends_by_finishing_it() {
    let mut shell = shell_core();
    shell.load_preferences(&preferences(true), false).unwrap();
    assert_eq!(shell.first_run_preferences(), vec![0, 1, 2, 3]);
    for _ in 0..4 {
        shell.action(&move_to(AxisMove::Down));
    }
    assert!(shell.action(&ShellAction::Activate) == Some(Effect::CompleteFirstRun));
}

#[test]
fn grids_are_walked_as_they_were_shown() {
    let mut shell = fixture_core(numbered_items(12));
    shell.set_library_grid(wide_grid());
    assert_eq!(shell.titles.library_grid, wide_grid());
    shell.go(Route::Library);
    assert_eq!(shell.focus_count(), 17);
}

#[test]
fn inputs_start_sessions_only_by_launching() {
    for presentation in [
        Presentation::Ready,
        Presentation::Returned,
        Presentation::ForcedClose,
    ] {
        for action in [
            ShellAction::Back,
            move_to(AxisMove::Right),
            press("Room.next"),
            press("SafeReturn"),
        ] {
            let mut shell = shell_core();
            shell.session.presentation = presentation;
            shell.action(&action);
            assert_eq!(shell.presentation(), &presentation);
        }
        let mut shell = shell_core();
        shell.session.presentation = presentation;
        assert!(shell.action(&ShellAction::Activate) == launch("app-0"));
        assert_eq!(shell.presentation(), &Presentation::Starting);
    }
    let mut running = shell_core();
    running.session.presentation = Presentation::Running;
    running.action(&ShellAction::Activate);
    assert_eq!(running.presentation(), &Presentation::Running);
}

#[test]
fn moves_between_cards_undo_each_other() {
    let mut shell = fixture_core(numbered_items(12));
    shell.set_library_grid(wide_grid());
    shell.go(Route::Library);
    for (there, back) in [
        (AxisMove::Right, AxisMove::Left),
        (AxisMove::Left, AxisMove::Right),
        (AxisMove::Down, AxisMove::Up),
        (AxisMove::Up, AxisMove::Down),
    ] {
        let start: usize = if there == AxisMove::Up { 13 } else { 7 };
        shell.nav.focus = start;
        shell.action(&move_to(there));
        assert_ne!(shell.focus(), start);
        shell.action(&move_to(back));
        assert_eq!(shell.focus(), start);
    }
}

#[test]
fn the_environment_reduces_motion_however_the_shell_is_used() {
    for (env, on) in [(false, false), (false, true), (true, false), (true, true)] {
        let mut shell = ShellCore::boot(&snapshot(), &motion(), env);
        shell.authority_snapshot(false);
        shell.load_preferences(&preferences(true), true).unwrap();
        shell.preference_changed(&report("reduceMotion", PreferenceValue::Bool(!on), true));
        shell.preference_changed(&report("appearance", text_value("Day"), true));
        shell.action(&press("RoomNext"));
        shell.set_focus(5);
        shell.action(&ShellAction::Activate);
        shell.action(&ShellAction::Back);
        shell.set_search_query("tides".to_string());
        shell.session_event(&crash("s", "stopped"));
        shell.action(&ShellAction::Back);
        shell.reset_first_run();
        shell.preference_changed(&report("reduceMotion", PreferenceValue::Bool(on), true));
        assert_eq!(shell.reduced_motion(), env || on);
        let expected: u32 = if env || on { 0 } else { 240 };
        assert_eq!(shell.motion_duration_ms(), expected);
    }
}

#[test]
fn a_variant_that_is_not_there_is_not_launched() {
    let mut shell = shell_core();
    let revision = shell.revision();
    assert!(shell.launch_variant(0, 1).is_none());
    assert_eq!(*shell.presentation(), Presentation::Ready);
    assert_eq!(shell.session.active_title, "");
    assert_eq!(shell.revision(), revision);
    assert!(shell.launch_variant(0, 0) == launch("app-0"));
    assert_eq!(*shell.presentation(), Presentation::Starting);
}

#[test]
fn details_lead_back_to_each_place_of_library_and_search() {
    let mut shell = fixture_core(numbered_items(9));
    shell.go(Route::Library);
    for focus in 5..14usize {
        shell.set_focus(focus);
        assert!(shell.action(&ShellAction::Activate).is_none());
        assert_eq!(shell.route(), Route::Details);
        assert!(shell.action(&ShellAction::Back).is_none());
        assert_eq!((shell.route(), shell.focus()), (Route::Library, focus));
    }
    shell.go(Route::Search);
    shell.set_search_query("item".to_string());
    for focus in 0..9usize {
        shell.set_focus(focus);
        assert!(shell.action(&ShellAction::Activate).is_none());
        assert_eq!(shell.route(), Route::Details);
        assert!(shell.action(&ShellAction::Back).is_none());
        assert_eq!((shell.route(), shell.focus()), (Route::Search, focus));
    }
}
