//! What scenes show.

use pf_shell_core::art::ArtTreatment;
use pf_shell_core::cards::{show_art, show_cues, Showcase};
use pf_shell_core::catalog::{
    AppKind, AppManifestRef, Availability, CatalogItem, CatalogPresentation, CatalogSnapshot,
    Provenance, Requirement, UserProjection, Variant,
};
use pf_shell_core::clock::{Duration, SystemTime};
use pf_shell_core::history::{EndPrecision, EndStamp, HistoryEntry};
use pf_shell_core::motifs::procedural_art_nodes;
use pf_shell_core::ports::{
    AppliedIdlePolicy, AxisMove, Base, DeviceStatus, DeviceStatusPort, EffectivePreference,
    IdlePolicy, LaunchMotion, LaunchRequest, NetworkState, NtpState, PowerAction, PowerCapability,
    PreferenceKey, PreferencePoll, PreferenceReads, PreferenceValue, SessionEvent, ShellAction,
    Support, TerminalReceipt, TimeCapabilities, TimeState,
};
use pf_shell_core::scene::{
    BorderWeight, NodeAction, Picture, PlateArt, Role, SceneNode, Token, TypeRole,
};
use pf_shell_core::stage::{quiet_console_corner, Corner, Scene};
use pf_shell_core::state::{
    ControlBinding, ControlsFlow, Effect, LibraryFilter, LibraryGrid, NetworkFlow, PowerDialog,
    Presentation, Route, SettingsRoom, ShellCore, SystemFlow,
};
use pf_shell_core::surface::SurfaceFacts;

fn snapshot() -> CatalogSnapshot {
    CatalogSnapshot {
        items: ["Ridgeline", "Hollow Tides"]
            .iter()
            .enumerate()
            .map(|(i, title)| CatalogItem {
                id: format!("i{i}"),
                title: title.to_string(),
                kind: AppKind::Game,
                presentation: CatalogPresentation {
                    icon_reference: None,
                    icon_decodable: false,
                },
                tags: vec![],
                variants: vec![Variant {
                    id: "default".to_string(),
                    availability: Availability::Ready,
                    requirements: vec![],
                    provenance: Provenance {
                        provider_id: "fixture".to_string(),
                        app_version: None,
                        runtime_family: "native".to_string(),
                    },
                    launch_target: AppManifestRef {
                        app_id: format!("app-{i}"),
                        descriptor_stem: Some("app".to_string()),
                    },
                }],
            })
            .collect(),
        user_projection: no_projection(),
    }
}

fn no_projection() -> UserProjection {
    UserProjection {
        favorite_item_ids: vec![],
        pinned_variant_ids: vec![],
    }
}

fn motion() -> LaunchMotion {
    LaunchMotion {
        normal_ms: 240,
        reduced_ms: 0,
    }
}

fn shell_core() -> ShellCore {
    let mut shell = ShellCore::boot(&snapshot(), &motion(), false);
    shell.authority_snapshot(false);
    shell
}

fn variant(id: &str, app_id: &str, availability: Availability) -> Variant {
    Variant {
        id: id.to_string(),
        availability,
        requirements: vec![],
        provenance: Provenance {
            provider_id: format!("provider-{id}"),
            app_version: Some("1.0".to_string()),
            runtime_family: "native".to_string(),
        },
        launch_target: AppManifestRef {
            app_id: app_id.to_string(),
            descriptor_stem: Some(id.to_string()),
        },
    }
}

fn item(id: &str, title: &str, variants: Vec<Variant>) -> CatalogItem {
    CatalogItem {
        id: id.to_string(),
        title: title.to_string(),
        kind: AppKind::Game,
        presentation: CatalogPresentation {
            icon_reference: None,
            icon_decodable: false,
        },
        tags: vec!["fictional".to_string(), format!("group-{id}")],
        variants,
    }
}

fn ready_item(id: &str, title: &str) -> CatalogItem {
    item(id, title, vec![variant("native", id, Availability::Ready)])
}

fn numbered_items(count: usize) -> Vec<CatalogItem> {
    (0..count)
        .map(|index| {
            item(
                &format!("item-{index}"),
                &format!("Item {index}"),
                vec![variant(
                    "native",
                    &format!("app-{index}"),
                    Availability::Ready,
                )],
            )
        })
        .collect()
}

struct FixtureStatus;

impl DeviceStatusPort for FixtureStatus {
    fn status(&self) -> Result<DeviceStatus, String> {
        Ok(DeviceStatus {
            battery_percent: 82,
            attention_message: None,
        })
    }
}

fn fixture_core(items: Vec<CatalogItem>) -> ShellCore {
    let snapshot = CatalogSnapshot {
        items,
        user_projection: no_projection(),
    };
    let mut shell = ShellCore::boot(&snapshot, &motion(), false);
    shell.authority_snapshot(false);
    shell.load_device_status(&FixtureStatus);
    shell
}

fn history_entry(
    item_id: &str,
    started_at: Option<SystemTime>,
    ended_at: Option<(SystemTime, EndPrecision)>,
) -> HistoryEntry {
    HistoryEntry {
        item_id: item_id.to_string(),
        started_at,
        ended_at: ended_at.map(|(at, precision)| EndStamp { at, precision }),
    }
}

fn at(secs: i64) -> SystemTime {
    SystemTime::from_unix_secs(secs)
}

fn report(key: &str, value: PreferenceValue, applied: bool) -> EffectivePreference {
    EffectivePreference {
        key: PreferenceKey(key.to_string()),
        effective: value.clone(),
        stored: value,
        applied,
    }
}

fn text_value(value: &str) -> PreferenceValue {
    PreferenceValue::Text(value.to_string())
}

fn preferences(applied: bool) -> PreferenceReads {
    PreferenceReads {
        text_scale: Ok(Some(report("textScale", text_value("100%"), applied))),
        high_contrast: Ok(Some(report(
            "highContrast",
            PreferenceValue::Bool(false),
            applied,
        ))),
        reduce_motion: Ok(Some(report(
            "reduceMotion",
            PreferenceValue::Bool(false),
            applied,
        ))),
        reduce_flashing: Ok(Some(report(
            "reduceFlashing",
            PreferenceValue::Bool(false),
            applied,
        ))),
        appearance: Ok(None),
    }
}

fn press(name: &str) -> ShellAction {
    ShellAction::Custom(name.to_string())
}

fn launch(app_id: &str) -> Option<Effect> {
    Some(Effect::Launch(LaunchRequest {
        item_id: app_id.to_string(),
    }))
}

fn binding(context: &str, action: &str, label: &str, button: &str) -> ControlBinding {
    ControlBinding {
        context: context.to_string(),
        action: action.to_string(),
        label: label.to_string(),
        binding: button.to_string(),
    }
}

fn crash(session_id: &str, summary: &str) -> SessionEvent {
    SessionEvent::Terminal(TerminalReceipt::Crash {
        session_id: session_id.to_string(),
        summary: summary.to_string(),
    })
}

fn blocked(reason: &str) -> Availability {
    Availability::NeedsNetwork {
        reason: reason.to_string(),
    }
}

fn unset(reason: &str) -> Availability {
    Availability::NeedsSetup {
        reason: reason.to_string(),
    }
}

/// A surface of 1280 by 720 at the plain scale.
fn desktop() -> SurfaceFacts {
    SurfaceFacts {
        grid: LibraryGrid {
            columns: 6,
            toolbar_columns: 4,
        },
        portrait: false,
        status_fits: true,
        shelf_capacity: 6,
        caption_fits: true,
        shelf_cells: 20,
        shelf_badge_cells: 18,
        shelf_reason_cells: 40,
        chip_cells: [20; 4],
        library_rows: 2,
        card_cells: 20,
        card_badge_cells: 18,
        result_capacity: 8,
        result_cells: vec![(80, 40); 600],
        facts_fit: true,
        row_capacity: 8,
        truth_fits: true,
    }
}

/// A surface of 640 by 720.
fn compact() -> SurfaceFacts {
    SurfaceFacts {
        grid: LibraryGrid {
            columns: 3,
            toolbar_columns: 2,
        },
        shelf_capacity: 2,
        library_rows: 1,
        ..desktop()
    }
}

/// A surface of 480 by 800.
fn upright() -> SurfaceFacts {
    SurfaceFacts {
        grid: LibraryGrid {
            columns: 2,
            toolbar_columns: 2,
        },
        portrait: true,
        shelf_capacity: 1,
        library_rows: 1,
        ..desktop()
    }
}

/// Every node lies within the nodes that it stands below.
fn nested(nodes: &[SceneNode]) -> Vec<(usize, usize)> {
    let mut pairs: Vec<(usize, usize)> = vec![];
    for outer in 0..nodes.len() {
        for inner in outer + 1..nodes.len() {
            if nodes[inner].depth <= nodes[outer].depth {
                break;
            }
            pairs.push((outer, inner));
        }
    }
    pairs
}

fn paint(shell: &mut ShellCore, facts: &SurfaceFacts, footer: &str) -> Scene {
    let within = nested(&shell.draft_scene(facts, footer));
    shell.scene(facts, &within, footer).unwrap()
}

fn show(shell: &mut ShellCore) -> Scene {
    paint(shell, &desktop(), "")
}

fn settings_scene(shell: &mut ShellCore) -> Scene {
    paint(shell, &desktop(), "A Open · B Back")
}

fn portrait_settings_scene(shell: &mut ShellCore) -> Scene {
    paint(shell, &upright(), "A Open · B Back")
}

fn quick_scene(shell: &mut ShellCore) -> Scene {
    paint(shell, &desktop(), "A Open · B Back")
}

fn place_of(nodes: &[SceneNode], id: &str) -> Option<usize> {
    nodes.iter().position(|node| node.id == id)
}

fn find<'a>(scene: &'a Scene, id: &str) -> Option<&'a SceneNode> {
    scene.nodes.iter().find(|node| node.id == id)
}

fn label<'a>(scene: &'a Scene, id: &str) -> &'a str {
    find(scene, id).unwrap_or_else(|| panic!("missing {id}")).label.as_str()
}

fn top<'a>(scene: &'a Scene, id: &str) -> Option<&'a SceneNode> {
    scene
        .nodes
        .iter()
        .find(|node| node.depth == 0 && node.id == id)
}

fn below<'a>(scene: &'a Scene, id: &str) -> &'a [SceneNode] {
    let place = place_of(&scene.nodes, id).unwrap_or_else(|| panic!("missing {id}"));
    let depth = scene.nodes[place].depth;
    let rest = &scene.nodes[place + 1..];
    let end = rest
        .iter()
        .position(|node| node.depth <= depth)
        .unwrap_or(rest.len());
    &rest[..end]
}

fn find_below<'a>(scene: &'a Scene, outer: &str, id: &str) -> Option<&'a SceneNode> {
    below(scene, outer).iter().find(|node| node.id == id)
}

fn children<'a>(scene: &'a Scene, id: &str) -> Vec<&'a SceneNode> {
    let depth = find(scene, id).unwrap().depth;
    below(scene, id)
        .iter()
        .filter(|node| node.depth == depth + 1)
        .collect()
}

fn shows(scene: &Scene, text: &str) -> bool {
    scene
        .nodes
        .iter()
        .any(|node| node.id.contains(text) || node.label.contains(text))
}

fn uses(scene: &Scene, token: Token) -> bool {
    scene.nodes.iter().any(|node| {
        node.look.token == token
            || node.look.ink == Some(token)
            || matches!(node.look.border, Some((border, _)) if border == token)
    })
}

fn focused(scene: &Scene) -> Vec<&SceneNode> {
    scene
        .nodes
        .iter()
        .filter(|node| node.state.focused)
        .collect()
}

fn ids_starting(scene: &Scene, prefix: &str) -> Vec<String> {
    scene
        .nodes
        .iter()
        .filter(|node| node.depth == 0 && node.id.starts_with(prefix))
        .map(|node| node.id.clone())
        .collect()
}

fn prompt_labels(scene: &Scene) -> Vec<String> {
    children(scene, "prompts")
        .into_iter()
        .filter(|child| {
            child
                .id
                .strip_prefix("home-prompt-keycap-")
                .is_some_and(|suffix| suffix.parse::<usize>().is_ok())
                || child
                    .id
                    .strip_prefix("home-prompt-verb-")
                    .is_some_and(|suffix| suffix.parse::<usize>().is_ok())
        })
        .map(|child| child.label.clone())
        .collect()
}

fn change_of(effect: Option<Effect>) -> pf_shell_core::ports::PreferenceChange {
    match effect {
        Some(Effect::ChangePreference(change)) => change,
        _ => panic!("the row must ask for a change"),
    }
}

fn commit(shell: &mut ShellCore, effect: Option<Effect>) {
    let change = change_of(effect);
    shell.preference_changed(&EffectivePreference {
        key: change.key,
        effective: change.value.clone(),
        stored: change.value,
        applied: true,
    });
}

#[test]
fn supported_rows_change_only_after_applied_observation() {
    let mut c = shell_core();
    c.load_preferences(&preferences(true), true).unwrap();
    c.go(Route::Settings);
    c.action(&ShellAction::Move(AxisMove::Right));
    let change = change_of(c.action(&ShellAction::Activate));
    assert_eq!(
        c.text_scale(),
        100,
        "submission is never rendered optimistically"
    );
    let observed = EffectivePreference {
        key: change.key,
        effective: change.value.clone(),
        stored: change.value,
        applied: true,
    };
    assert_eq!(
        c.drive_preferences(Ok(PreferencePoll::Changed(observed))),
        Ok(true)
    );
    assert_eq!(c.drive_preferences(Ok(PreferencePoll::Idle)), Ok(false));
    assert_eq!(c.text_scale(), 150);
    assert!(shows(
        &settings_scene(&mut c),
        "settings-text-scale-value-150%"
    ));

    let mut unsupported = shell_core();
    unsupported
        .load_preferences(&preferences(false), true)
        .unwrap();
    unsupported.go(Route::Settings);
    unsupported.action(&ShellAction::Move(AxisMove::Right));
    assert!(unsupported.action(&ShellAction::Activate).is_none());
    assert!(shows(&show(&mut unsupported), "cannot apply"));
}

#[test]
fn first_run_uses_one_filtered_index_space() {
    let mut mixed = preferences(true);
    mixed.high_contrast = Ok(Some(report(
        "highContrast",
        PreferenceValue::Bool(false),
        false,
    )));
    mixed.reduce_flashing = Ok(Some(report(
        "reduceFlashing",
        PreferenceValue::Bool(false),
        false,
    )));
    let mut c = shell_core();
    c.load_preferences(&mixed, false).unwrap();

    assert!(shows(&show(&mut c), "rooms"));

    let first = change_of(c.action(&ShellAction::Activate));
    assert_eq!(first.key, PreferenceKey("textScale".to_string()));
    c.action(&ShellAction::Move(AxisMove::Down));
    let second = change_of(c.action(&ShellAction::Activate));
    assert_eq!(second.key, PreferenceKey("reduceMotion".to_string()));
    c.action(&ShellAction::Move(AxisMove::Down));
    assert!(c.action(&ShellAction::Activate) == Some(Effect::CompleteFirstRun));
}

#[test]
fn controls_and_licenses_are_honest_disabled_rows_for_any_binding_count() {
    for bindings in [
        vec![binding("global", "Activate", "Activate", "A")],
        vec![
            binding("global", "Activate", "Activate", "A"),
            binding("global", "Back", "Back", "B"),
        ],
    ] {
        let mut shell = shell_core();
        shell.set_control_bindings(bindings);
        shell.go(Route::Settings);
        shell.settings.settings_room = SettingsRoom::Controls;
        shell.settings.settings_in_rows = false;

        assert!(shell.action(&ShellAction::Activate).is_none());
        assert!(
            shell.settings.settings_in_rows,
            "disabled sections still open"
        );
        assert!(
            !shell.settings.settings_row_focused,
            "disabled rows cannot receive focus"
        );

        let scene = settings_scene(&mut shell);
        assert!(shows(&scene, "Current map:"));
        assert!(shows(&scene, "settings-row-controls-remap"));
        assert!(shows(&scene, "settings-row-controls-safe-return"));
        assert!(uses(&scene, Token::DisabledBorder));
        for focus in 0..shell.settings_scene_rows().len() {
            shell.nav.focus = focus;
            assert!(shell.action(&ShellAction::Activate).is_none());
        }
        assert_eq!(shell.settings.controls_flow, ControlsFlow::Rows);
    }

    let mut shell = shell_core();
    shell.go(Route::Settings);
    shell.settings.settings_room = SettingsRoom::System;
    shell.settings.settings_in_rows = false;
    assert!(shell.action(&ShellAction::Activate).is_none());
    assert!(
        shell.settings.settings_in_rows,
        "System still opens without Recovery"
    );
    assert!(
        !shell.settings.settings_row_focused,
        "Licenses cannot receive focus"
    );
    shell.nav.focus = 2;
    let scene = settings_scene(&mut shell);
    assert!(shows(&scene, "settings-row-system-licenses"));
    assert!(shows(&scene, "Licenses"));
    assert!(shows(&scene, "Open-source notices"));
    assert!(shell.action(&ShellAction::Activate).is_none());
}

#[test]
fn settings_section_visibility_is_independent_of_row_focus() {
    let mut portrait = shell_core();
    portrait.go(Route::Settings);
    portrait.action(&ShellAction::Move(AxisMove::Down));
    assert_eq!(portrait.settings.settings_room, SettingsRoom::Controls);

    portrait.action(&ShellAction::Activate);
    assert!(portrait.settings.settings_in_rows);
    assert!(!portrait.settings.settings_row_focused);
    let section = portrait_settings_scene(&mut portrait);
    assert!(shows(&section, "settings-row-controls-remap"));
    assert!(shows(&section, "settings-row-controls-source"));
    assert!(focused(&section).is_empty());
    assert!(portrait.action(&ShellAction::Activate).is_none());

    portrait.action(&ShellAction::Back);
    assert!(!portrait.settings.settings_in_rows);
    assert_eq!(portrait.focus(), 1, "section position is held on Back");
    let nav = portrait_settings_scene(&mut portrait);
    assert!(shows(&nav, "settings-nav-controls"));
    assert!(!shows(&nav, "settings-row-controls-remap"));

    let mut wide = shell_core();
    wide.go(Route::Settings);
    wide.action(&ShellAction::Move(AxisMove::Down));
    assert!(!wide.settings.settings_in_rows);
    let wide_scene = settings_scene(&mut wide);
    assert!(shows(&wide_scene, "settings-row-controls-remap"));
    assert!(shows(&wide_scene, "settings-row-controls-source"));

    let mut focusable = shell_core();
    focusable
        .load_preferences(&preferences(true), true)
        .unwrap();
    focusable.go(Route::Settings);
    focusable.action(&ShellAction::Activate);
    assert!(focusable.settings.settings_in_rows);
    assert!(focusable.settings.settings_row_focused);
    assert_eq!(focusable.focus(), 0);
}

#[test]
fn first_run_rows_show_current_values_and_redraw_after_toggle() {
    let mut shell = shell_core();
    shell.load_preferences(&preferences(true), true).unwrap();
    shell.go(Route::Settings);
    let before = settings_scene(&mut shell);
    assert!(shows(&before, "Reduce motion"));
    assert!(shows(
        &before,
        "settings-toggle-accessibility-reduceMotion-state"
    ));
    assert!(before.nodes.iter().any(|node| node.label == "OFF"));

    shell.preference_changed(&report("reduceMotion", PreferenceValue::Bool(true), true));
    let after = settings_scene(&mut shell);
    assert!(shows(&after, "Reduce motion"));
    assert!(after.nodes.iter().any(|node| node.label == "ON"));
}

#[test]
fn accessibility_rows_distinguish_applied_and_stored_only_values() {
    let mut shell = shell_core();
    shell.load_preferences(&preferences(true), true).unwrap();
    shell.go(Route::Settings);
    let scene = settings_scene(&mut shell);
    assert!(shows(&scene, "High contrast"));
    assert!(shows(
        &scene,
        "settings-toggle-accessibility-highContrast-state"
    ));
    assert!(shows(&scene, "Reduce motion"));
    assert!(shows(&scene, "Reduce flashing"));
    assert!(shows(&scene, "settings-text-scale-value-100%"));
}

#[test]
fn text_scale_edit_mode_preserves_row_ink_and_styles_value_chips() {
    for effective in ["100%", "150%", "200%"] {
        let mut shell = shell_core();
        shell.load_preferences(&preferences(true), true).unwrap();
        shell.go(Route::Settings);
        shell.preference_changed(&report("textScale", text_value(effective), true));

        let resting = settings_scene(&mut shell);
        let resting_title =
            find(&resting, "settings-row-accessibility-textScale-line-0").unwrap();
        let resting_caption =
            find(&resting, "settings-row-accessibility-textScale-line-1").unwrap();
        assert_eq!(resting_title.look.ink, Some(Token::TextPrimary));
        assert_eq!(resting_caption.look.ink, Some(Token::TextSecondary));

        shell.enter_settings_rows();
        shell.nav.focus = shell
            .settings_scene_rows()
            .iter()
            .position(|row| row.id == "accessibility-textScale")
            .unwrap();
        let scene = settings_scene(&mut shell);
        let title = find(&scene, "settings-row-accessibility-textScale-line-0").unwrap();
        let caption = find(&scene, "settings-row-accessibility-textScale-line-1").unwrap();
        assert_eq!(title.look.token, resting_title.look.token);
        assert_eq!(title.look.ink, resting_title.look.ink);
        assert_eq!(caption.look.token, resting_caption.look.token);
        assert_eq!(caption.look.ink, resting_caption.look.ink);
        assert!(find(&scene, "settings-text-scale-segmented-control").is_some());
        for value in ["100%", "150%", "200%"] {
            let chosen = value == effective;
            let chip = find(&scene, &format!("settings-text-scale-chip-{value}")).unwrap();
            assert_eq!(
                chip.look.token,
                if chosen {
                    Token::SelectedAccent
                } else {
                    Token::RestSurface
                }
            );
            assert_eq!(
                chip.look.border.map(|(token, _)| token),
                Some(if chosen {
                    Token::FocusedRing
                } else {
                    Token::BorderHairline
                })
            );
            assert_eq!(chip.state.selected, chosen);
            let value_text = find(&scene, &format!("settings-text-scale-value-{value}")).unwrap();
            assert_eq!(
                value_text.look.ink,
                Some(if chosen {
                    Token::TextInverse
                } else {
                    Token::TextPrimary
                })
            );
        }
    }
}

#[test]
fn quiet_settings_navigation_cues_filtering_and_scroll_window_conform() {
    let mut shell = shell_core();
    shell.load_preferences(&preferences(true), true).unwrap();
    shell.go(Route::Settings);
    let nav = settings_scene(&mut shell);
    assert!(shows(&nav, "settings-nav-accessibility"));
    assert!(shows(&nav, "settings-nav-controls"));
    assert!(shows(&nav, "settings-nav-display"));
    assert!(!shows(&nav, "settings-nav-network"));
    assert_eq!(
        nav.nodes
            .iter()
            .filter(|node| node.id.contains("settings-rows-scroll-region"))
            .count(),
        1
    );

    shell.action(&ShellAction::Move(AxisMove::Right));
    shell.action(&ShellAction::Move(AxisMove::Down));
    assert_eq!(shell.focus(), 1);
    shell.action(&ShellAction::Move(AxisMove::Left));
    assert!(!shell.settings.settings_in_rows);
    shell.action(&ShellAction::Move(AxisMove::Right));
    assert_eq!(
        shell.focus(),
        1,
        "row position is held when returning from nav"
    );

    shell.preference_changed(&report("textScale", text_value("200%"), true));
    let scaled = SurfaceFacts {
        row_capacity: 3,
        ..desktop()
    };
    shell.nav.focus = 0;
    let first = paint(&mut shell, &scaled, "A Open · B Back");
    assert!(shows(&first, "settings-row-accessibility-textScale"));
    assert!(!shows(&first, "settings-row-accessibility-diagnostic"));
    shell.nav.focus = shell.focus_count() - 1;
    let bottom = paint(&mut shell, &scaled, "A Open · B Back");
    assert!(shows(&bottom, "settings-row-accessibility-diagnostic"));
    assert!(!shows(&bottom, "settings-row-accessibility-textScale"));
    assert!(uses(&bottom, Token::DisabledBorder));
    assert!(shows(&bottom, "—"));
}

#[test]
fn quiet_settings_toggle_and_appearance_have_redundant_real_state() {
    let mut shell = shell_core();
    shell.load_preferences(&preferences(true), true).unwrap();
    shell.go(Route::Settings);
    shell.action(&ShellAction::Move(AxisMove::Right));
    let off = settings_scene(&mut shell);
    assert!(off.nodes.iter().any(|node| node.label == "OFF"));
    shell.nav.focus = 1;
    let effect = shell.action(&ShellAction::Activate);
    commit(&mut shell, effect);
    let on = settings_scene(&mut shell);
    assert!(on.nodes.iter().any(|node| node.label == "ON"));

    shell.settings.settings_room = SettingsRoom::Display;
    shell.nav.focus = 0;
    let effect = shell.action(&ShellAction::Activate);
    commit(&mut shell, effect);
    assert_eq!(
        shell.theme_base(),
        Base::HighContrast,
        "high contrast composes over Day"
    );
    shell.preference_changed(&report("highContrast", PreferenceValue::Bool(false), true));
    assert_eq!(shell.theme_base(), Base::Day);
}

#[test]
fn back_restores_route_focus_and_one_owner() {
    let mut c = shell_core();
    c.action(&ShellAction::Move(AxisMove::Down));
    c.action(&press("Quick"));
    c.action(&ShellAction::Back);
    assert_eq!((c.route(), c.focus()), (Route::Home, 1));
    assert_eq!(focused(&show(&mut c)).len(), 1);
}

#[test]
fn receipts_wait_for_ack_and_recovery_has_no_frame() {
    let mut c = shell_core();
    c.session_event(&crash("s", "exit status 9"));
    assert!(c.needs_presentation_ack());
    assert!(c.scene(&desktop(), &vec![], "").is_some());
    assert!(c.acknowledge_presentation());
    c.session_event(&SessionEvent::RecoveryRequired {
        session_id: "s".to_string(),
        reason: "owner unavailable".to_string(),
    });
    assert!(!c.has_shell_frame());
    assert!(c.scene(&desktop(), &vec![], "").is_none());
}

#[test]
fn crash_scene_includes_local_receipt_diagnostic() {
    let mut c = shell_core();
    c.session_event(&crash("receipt-7", "exit status 9"));
    let scene = show(&mut c);
    let diagnostic = top(&scene, "crash-diagnostic").expect("crash diagnostic row");
    assert_eq!(
        diagnostic.label,
        "receipt-7 · kept on this device · exit status 9"
    );
    assert_eq!(diagnostic.look.token, Token::TextSecondary);
}

struct Unavailable;

impl DeviceStatusPort for Unavailable {
    fn status(&self) -> Result<DeviceStatus, String> {
        Err("unavailable".to_string())
    }
}

#[test]
fn unavailable_device_status_and_time_are_absent_from_chrome() {
    let mut shell = fixture_core(vec![]);
    shell.load_device_status(&Unavailable);
    let scene = settings_scene(&mut shell);
    for id in [
        "battery-outline",
        "battery-cavity",
        "battery-level",
        "battery-terminal",
        "status-cluster",
        "attention-pill",
    ] {
        assert!(find(&scene, id).is_none(), "unexpected {id}");
    }
    assert!(find(&scene, "status-bar").is_none());
}

#[test]
fn ready_now_skips_unavailable_catalog_entries_but_library_keeps_their_cues() {
    let mut items = vec![item(
        "offline",
        "Offline Stream",
        vec![variant(
            "stream",
            "offline-stream",
            blocked("connect to Wi-Fi"),
        )],
    )];
    items.extend((0..6).map(|index| {
        item(
            &format!("ready-{index}"),
            &format!("Ready {index}"),
            vec![variant(
                "native",
                &format!("ready-app-{index}"),
                Availability::Ready,
            )],
        )
    }));
    let mut shell = fixture_core(items);

    let home = show(&mut shell);
    assert_eq!(label(&home, "home-shelf-label"), "READY NOW · 6");
    assert!(find(&home, "item-offline").is_none());
    for index in 0..6 {
        assert!(find(&home, &format!("item-ready-{index}")).is_some());
    }

    shell.go(Route::Library);
    let library = show(&mut shell);
    assert!(find(&library, "library-item-offline").is_some());
    assert!(find(&library, "library-card-badge-offline").is_some());
    assert!(find(&library, "library-card-reason-offline").is_some());
}

#[test]
fn compact_scaled_library_filter_keeps_full_accessible_name_when_paint_is_ellipsized() {
    let mut shell = fixture_core(vec![ready_item("game", "Game")]);
    shell.comfort.text_scale = 200;
    shell.go(Route::Library);

    let facts = SurfaceFacts {
        chip_cells: [13; 4],
        ..compact()
    };
    let scene = paint(&mut shell, &facts, "");
    assert_eq!(label(&scene, "library-filter-3"), "Everything else · 0");
    let painted = find_below(&scene, "library-filter-3", "library-filter-3-label").unwrap();
    assert_eq!(painted.label, "Everything…");
}

#[test]
fn narrow_scaled_search_row_caps_title_and_preserves_inline_caption() {
    let title = "An Extraordinary Ridgeline Adventure With A Deliberately Long Title";
    let mut shell = fixture_core(vec![item(
        "long-search-result",
        title,
        vec![variant("native", "game", Availability::Ready)],
    )]);
    shell.comfort.text_scale = 200;
    shell.go(Route::Search);
    shell.set_search_query("extraordinary".to_string());

    let facts = SurfaceFacts {
        result_cells: vec![(20, 15)],
        ..compact()
    };
    let scene = paint(&mut shell, &facts, "A Open     PF Safe Return");
    assert_eq!(
        label(&scene, "search-result-long-search-result"),
        format!("{title} · GAME · Ready")
    );
    let row = "search-result-long-search-result";
    let painted = find_below(&scene, row, "search-result-long-search-result-title").unwrap();
    let caption = find_below(&scene, row, "search-result-long-search-result-caption").unwrap();
    assert!(painted.label.ends_with('…'));
    assert_eq!(caption.label, " · GAME · Ready");
}

#[test]
fn search_has_one_semantic_focus_owner_and_grouped_prompts() {
    let mut shell = fixture_core(vec![item(
        "search-result",
        "Ridgeline",
        vec![variant("native", "game", Availability::Ready)],
    )]);
    shell.go(Route::Search);
    shell.set_search_query("ridge".to_string());

    let footer = "A Open     PF Safe Return";
    let populated = paint(&mut shell, &desktop(), footer);
    assert_eq!(focused(&populated).len(), 1);
    assert_eq!(focused(&populated)[0].id, "search-result-search-result");
    assert_eq!(populated.focus, "search-result-search-result");
    let query = find(&populated, "search-query").unwrap();
    assert!(!query.state.focused);
    assert_eq!(
        query.look.border.map(|(token, _)| token),
        Some(Token::BorderHairline)
    );
    let results = children(&populated, "search-results-scroll-region");
    assert_eq!(results.len(), 1);
    assert_eq!(results[0].id, "search-result-search-result");
    assert!(ids_starting(&populated, "search-result-").is_empty());
    let prompts = find(&populated, "prompts").unwrap();
    assert_eq!(prompts.role, Role::Group);
    assert!(prompts.label.is_empty());
    assert!(!children(&populated, "prompts").is_empty());

    shell.set_search_query("no match".to_string());
    let empty = paint(&mut shell, &desktop(), footer);
    assert_eq!(focused(&empty).len(), 1);
    assert_eq!(focused(&empty)[0].id, "search-query");
    assert_eq!(empty.focus, "search-query");
}

#[test]
fn library_never_paints_a_full_width_fold_band() {
    for count in [3, 24] {
        let mut shell = fixture_core(numbered_items(count));
        shell.go(Route::Library);
        let scene = paint(&mut shell, &compact(), "");
        assert!(top(&scene, "library-fold-fade").is_none());
    }
}

#[test]
fn library_has_no_empty_painted_grid_container() {
    let mut shell = fixture_core(numbered_items(1));
    shell.go(Route::Library);
    assert!(
        top(&show(&mut shell), "library-grid-scroll").is_none(),
        "the Library grid must not add an empty full-width painted strip"
    );
}

#[test]
fn library_filter_counts_match_the_catalog_snapshot() {
    let mut tool = ready_item("tool", "Button Tester");
    tool.kind = AppKind::System;
    let mut shell = fixture_core(vec![
        ready_item("game-a", "Game A"),
        ready_item("game-b", "Game B"),
        tool,
    ]);
    shell.go(Route::Library);
    let scene = show(&mut shell);
    for name in ["Recent", "A–Z", "Games", "Everything else"] {
        assert!(scene.nodes.iter().any(|node| node.label == name));
    }
    assert_eq!(label(&scene, "library-filter-2-count"), "2");
    assert_eq!(label(&scene, "library-filter-3-count"), "1");
}

#[test]
fn artless_library_cards_keep_identity_plate_label_and_optional_reason() {
    let mut shell = fixture_core(vec![item(
        "setup",
        "Setup Game",
        vec![variant("stream", "setup-game", unset("choose a profile"))],
    )]);
    shell.go(Route::Library);
    let scene = show(&mut shell);
    let card = find(&scene, "library-item-setup").unwrap();
    assert_eq!(card.look.token, Token::Canvas);
    assert!(find_below(&scene, "library-item-setup", "library-card-art-setup").is_some());
    for required in [
        "library-title-setup",
        "library-card-reason-setup",
        "library-card-initial-plate-setup",
        "library-card-plate-kind-setup",
    ] {
        assert!(
            find_below(&scene, "library-item-setup", required).is_some(),
            "missing {required}"
        );
    }
    assert_eq!(
        label(&scene, "library-card-reason-setup"),
        "⊘ Finish setup — choose a profile"
    );
}

#[test]
fn ready_network_cues_follow_the_selected_variants_requirement_not_item_identity() {
    let networked = |app_id: &str| {
        let mut way = variant("stream", app_id, Availability::Ready);
        way.requirements.push(Requirement {
            capability: "network".to_string(),
            optional: false,
        });
        way
    };
    let mut shell = fixture_core(vec![
        item("moonlight", "Moonlight", vec![networked("moonlight")]),
        ready_item("ordinary", "Ordinary"),
        item("steam-link", "Steam Link", vec![networked("steam-link")]),
    ]);
    let scene = show(&mut shell);

    for id in ["moonlight", "steam-link"] {
        let card = format!("item-{id}");
        assert_eq!(
            find_below(&scene, &card, &format!("home-card-badge-{id}"))
                .unwrap()
                .label,
            "⊘ Network"
        );
        assert_eq!(
            find_below(&scene, &card, &format!("home-card-reason-{id}"))
                .unwrap()
                .label,
            "⊘ Network required"
        );
    }
    assert!(find_below(&scene, "item-ordinary", "home-card-badge-ordinary").is_none());
    assert!(find_below(&scene, "item-ordinary", "home-card-reason-ordinary").is_none());
    assert_eq!(label(&scene, "home-shelf-label"), "READY NOW · 3");
}

#[test]
fn identity_plate_text_uses_the_selected_palette_foreground() {
    for (id, plate) in [
        ("steam-link", PlateArt::A),
        ("tidelines", PlateArt::D),
        ("button-tester", PlateArt::C),
        // The hash-picked fallback for `setup` selects plate D.
        ("setup", PlateArt::D),
    ] {
        let shell = fixture_core(vec![ready_item(id, "Plate")]);
        let nodes = show_art(&shell.titles.items[0], 0, Showcase::Shelf, 20, 100);

        for suffix in ["initial-plate", "plate-kind"] {
            let place = place_of(&nodes, &format!("home-card-{suffix}-{id}")).unwrap();
            assert_eq!(nodes[place].look.token, Token::Transparent);
            assert_eq!(nodes[place].look.ink, Some(Token::PlateInk(plate)));
        }
    }
}

#[test]
fn focused_library_search_uses_the_focus_pairing_and_full_placeholder() {
    let mut shell = fixture_core(vec![ready_item("game", "Game")]);
    shell.go(Route::Library);
    shell.nav.focus = 0;
    let scene = show(&mut shell);
    let search = find(&scene, "library-search").unwrap();
    assert_eq!(search.label, "⌕  Search 1 titles");
    assert!(search.state.focused);
    assert_eq!(search.look.token, Token::RestSurface);
}

#[test]
fn home_hero_reports_nothing_ready_when_catalog_only_needs_setup() {
    let mut shell = fixture_core(vec![item(
        "setup",
        "Setup Game",
        vec![variant("setup", "setup", unset("choose a profile"))],
    )]);
    let scene = show(&mut shell);
    let status = label(&scene, "hero-status");
    assert_eq!(status, "⊘ Unavailable · Game");
    assert!(!status.contains("Ready"));
    assert_eq!(label(&scene, "hero-title"), "Nothing ready");
}

#[test]
fn home_hero_ready_suffix_follows_selected_variant_capability() {
    for (id, runtime_family, expected, locally_installed) in [
        (
            "native",
            "pocketforge/native",
            "● Ready · Game · Installed",
            true,
        ),
        (
            "stream",
            "pc-stream",
            "● Ready · Game · Available over the network",
            false,
        ),
        (
            "unknown",
            "other-runtime",
            "● Ready · Game · Source availability unknown",
            false,
        ),
    ] {
        let mut ready = variant(id, id, Availability::Ready);
        ready.provenance.runtime_family = runtime_family.to_string();
        let unavailable_native = variant("unavailable-native", id, unset("install first"));
        let mut shell = fixture_core(vec![item(id, "Game", vec![unavailable_native, ready])]);
        let scene = show(&mut shell);
        let status = label(&scene, "hero-status");
        assert_eq!(status, expected, "case {id}");
        assert_eq!(
            status.contains("Installed"),
            locally_installed,
            "case {id} local-installation claim"
        );
    }
}

fn details(items: Vec<CatalogItem>) -> ShellCore {
    let mut shell = fixture_core(items);
    shell.nav.selected_item = Some(0);
    shell.go(Route::Details);
    shell
}

#[test]
fn details_humanizes_catalog_source_without_descriptor_filename() {
    let mut shell = details(vec![item(
        "game",
        "Game",
        vec![variant("app.toml", "game", Availability::Ready)],
    )]);
    let scene = show(&mut shell);
    let source = label(&scene, "detail-provenance");
    assert_eq!(source, "Game · Provider app toml · App toml");
    assert!(!source.contains("app.toml"));
}

#[test]
fn details_source_copy_follows_variant_provenance_and_availability() {
    for (id, availability, runtime_family, expected) in [
        (
            "network",
            blocked("connect first"),
            "native",
            "Game · Provider network · Network",
        ),
        (
            "setup",
            unset("choose a profile"),
            "native",
            "Game · Provider setup · Setup",
        ),
        (
            "stream",
            Availability::Ready,
            "pc-stream",
            "Game · Provider stream · Stream",
        ),
        (
            "unknown",
            Availability::Ready,
            "other-runtime",
            "Game · Provider unknown · Unknown",
        ),
    ] {
        let mut way = variant(id, id, availability);
        way.provenance.runtime_family = runtime_family.to_string();
        let mut shell = details(vec![item(id, "Game", vec![way])]);
        let scene = show(&mut shell);
        let source = label(&scene, "detail-provenance");
        assert_eq!(source, expected, "case {id}");
        assert!(
            !source.contains("Installed on this device"),
            "non-local case {id} made a false local claim"
        );
    }
}

#[test]
fn details_hide_raw_provenance_and_show_one_setup_reason_with_runtime_cue() {
    let reason = "choose a profile once";
    let mut setup = variant("standard-edition", "setup-app", unset(reason));
    setup.provenance.provider_id = "provider.debug/raw-id".to_string();
    setup.launch_target.descriptor_stem = Some("setup.app".to_string());
    let mut shell = details(vec![item("setup", "Setup Game", vec![setup])]);
    let scene = show(&mut shell);
    let labels: Vec<String> = scene.nodes.iter().map(|node| node.label.clone()).collect();
    let joined = labels.join("\n");
    assert!(!joined.contains("provider.debug/raw-id"));
    assert!(!joined.contains("/srv/apps/private"));
    assert_eq!(joined.matches(reason).count(), 2);
    let availability = top(&scene, "detail-availability-reason").unwrap();
    assert!(
        availability.state.unavailable,
        "runtime supplies the slash cue"
    );
    assert!(top(&scene, "detail-open").is_none());
    assert!(
        ids_starting(&scene, "detail-fact-").is_empty(),
        "unavailable variants must not produce installed or offline claims"
    );
}

#[test]
fn details_without_a_ready_variant_omit_readiness_copy() {
    let mut unavailable = item(
        "setup",
        "Setup Game",
        vec![variant(
            "standard-edition",
            "setup-app",
            unset("choose a profile once"),
        )],
    );
    unavailable.tags.clear();
    let mut shell = details(vec![unavailable]);
    let scene = show(&mut shell);
    assert!(label(&scene, "detail-availability-reason").contains("choose a profile once"));
    assert!(find(&scene, "detail-description").is_none());
    assert!(!shows(&scene, "ready to play"));
}

#[test]
fn details_facts_come_from_a_ready_variant_and_stay_above_the_footer() {
    let mut unavailable = variant("setup", "setup-app", unset("choose a profile once"));
    unavailable.provenance.provider_id = "unavailable-provider".to_string();
    unavailable.provenance.app_version = Some("0.1".to_string());
    let mut ready = variant("native", "ready-app", Availability::Ready);
    ready.provenance.provider_id = "ready-provider".to_string();
    ready.provenance.app_version = Some("2.4".to_string());
    let mut shell = details(vec![item("mixed", "Mixed Game", vec![unavailable, ready])]);

    let scene = show(&mut shell);
    let fact = |id: &str| top(&scene, id).unwrap().label.clone();
    assert_eq!(fact("detail-fact-developer"), "Ready provider");
    assert_eq!(fact("detail-fact-installed"), "Version 2.4");
    assert_eq!(fact("detail-fact-offline"), "Yes");

    let crowded = SurfaceFacts {
        facts_fit: false,
        ..desktop()
    };
    assert!(
        ids_starting(&paint(&mut shell, &crowded, ""), "detail-fact-").is_empty(),
        "facts that would cross the footer are left out"
    );
}

#[test]
fn details_offline_claims_require_observed_native_runtime() {
    let native = show(&mut details(vec![item(
        "game",
        "Game",
        vec![variant("native", "game", Availability::Ready)],
    )]));
    assert_eq!(label(&native, "detail-availability-reason"), "● Ready");
    assert!(find(&native, "detail-fact-offline").is_some());
    assert!(label(&native, "detail-variant-0-sub").contains("works offline"));

    let mut way = variant("stream", "game", Availability::Ready);
    way.provenance.runtime_family = "pocketforge/stream".to_string();
    let streaming = show(&mut details(vec![item("game", "Game", vec![way])]));
    let streaming_copy = [
        label(&streaming, "detail-availability-reason"),
        label(&streaming, "detail-variant-0-name"),
    ]
    .join("\n");
    assert!(streaming_copy.contains("Stream from your PC"));
    assert!(!streaming_copy.to_ascii_lowercase().contains("install"));
    assert!(find(&streaming, "detail-fact-installed").is_none());
    assert!(find(&streaming, "detail-fact-offline").is_none());
    assert!(!label(&streaming, "detail-variant-0-sub").contains("offline"));

    let mut way = variant("unknown", "game", Availability::Ready);
    way.provenance.runtime_family.clear();
    let unknown = show(&mut details(vec![item("game", "Game", vec![way])]));
    assert!(find(&unknown, "detail-fact-offline").is_none());
    assert_eq!(label(&unknown, "detail-variant-0-sub"), "Version 1.0");
}

#[test]
fn details_controls_follow_variant_then_button_focus_order_and_dispatch_by_focus() {
    let mut shell = details(vec![item(
        "game",
        "Game",
        vec![
            variant("native", "game-native", Availability::Ready),
            variant("cloud", "game-cloud", blocked("offline")),
        ],
    )]);

    assert_eq!(shell.focus(), 0, "the ready variant row is first");
    shell.action(&ShellAction::Move(AxisMove::Down));
    assert_eq!(shell.focus(), 1, "Play follows the variant rows");
    shell.action(&ShellAction::Move(AxisMove::Right));
    assert_eq!(shell.focus(), 2, "Pin is beside Play");
    assert!(
        shell.action(&ShellAction::Activate)
            == Some(Effect::ToggleFavorite {
                item_id: "game".to_string(),
                favorite: true,
            }),
        "activating Pin must never launch"
    );
    shell.favorite_committed("game", true);
    let scene = show(&mut shell);
    let pin = top(&scene, "detail-pin").unwrap();
    assert!(pin.state.focused);
    assert_eq!(pin.action, Some(NodeAction::Activate));
    assert_eq!(pin.label, "★ Unpin");

    shell.action(&ShellAction::Move(AxisMove::Left));
    assert_eq!(shell.focus(), 1);
    assert!(shell.action(&ShellAction::Activate) == launch("game-native"));
}

#[test]
fn details_selection_focus_and_play_follow_the_launchable_variant() {
    let mut shell = details(vec![item(
        "game",
        "Game",
        vec![
            variant("cloud", "game-cloud", blocked("offline")),
            variant("native", "game-native", Availability::Ready),
        ],
    )]);

    assert_eq!(
        shell.focus(),
        0,
        "the launchable variant row has default focus"
    );
    let scene = show(&mut shell);
    let unavailable = find(&scene, "detail-variant-0").unwrap();
    let launchable = find(&scene, "detail-variant-1").unwrap();
    assert!(!unavailable.state.selected);
    assert!(!unavailable.state.focused);
    assert!(launchable.state.selected);
    assert!(launchable.state.focused);
    assert!(find(&scene, "detail-variant-1-selection-mark").is_some());

    shell.action(&ShellAction::Move(AxisMove::Down));
    assert!(shell.action(&ShellAction::Activate) == launch("game-native"));
}

#[test]
fn details_variant_window_includes_the_active_ready_variant() {
    let mut shell = details(vec![item(
        "game",
        "Game",
        vec![
            variant("cloud", "game-cloud", blocked("offline")),
            variant("setup", "game-setup", unset("setup required")),
            variant("native", "game-native", Availability::Ready),
        ],
    )]);

    assert_eq!(shell.focus(), 0, "the active row has default focus");
    let scene = show(&mut shell);
    assert!(find(&scene, "detail-variant-0").is_none());
    assert!(find(&scene, "detail-variant-1").is_some());
    let active = find(&scene, "detail-variant-2").unwrap();
    assert!(active.state.selected);
    assert!(active.state.focused);
    assert!(find_below(
        &scene,
        "detail-variant-2",
        "detail-variant-2-selection-mark"
    )
    .is_some());

    shell.action(&ShellAction::Move(AxisMove::Down));
    assert!(shell.action(&ShellAction::Activate) == launch("game-native"));
}

#[test]
fn ready_native_and_stream_variants_have_distinct_human_labels() {
    let native = variant("native", "many-native", Availability::Ready);
    let mut stream = variant("stream", "many-stream", Availability::Ready);
    stream.provenance.runtime_family = "pocketforge/stream".to_string();
    let mut shell = details(vec![item("many", "Many Moons", vec![native, stream])]);
    let scene = show(&mut shell);
    let native_label = label(&scene, "detail-variant-0-name");
    let stream_label = label(&scene, "detail-variant-1-name");
    assert_eq!(native_label, "Native · Installed on this device");
    assert_eq!(stream_label, "Stream · Stream from your PC");
    assert_ne!(native_label, stream_label);
}

#[test]
fn ready_variants_within_the_same_capability_family_have_distinct_labels() {
    let mut shell = details(vec![item(
        "many",
        "Many Moons",
        vec![
            variant("standard-edition", "many-standard", Availability::Ready),
            variant("deluxe-edition", "many-deluxe", Availability::Ready),
        ],
    )]);
    let scene = show(&mut shell);
    let standard_label = label(&scene, "detail-variant-0-name");
    let deluxe_label = label(&scene, "detail-variant-1-name");
    assert_eq!(
        standard_label,
        "Standard edition · Installed on this device"
    );
    assert_eq!(deluxe_label, "Deluxe edition · Installed on this device");
    assert_ne!(standard_label, deluxe_label);
}

#[test]
fn item_without_variants_renders_as_unavailable() {
    let mut shell = fixture_core(vec![item("empty", "Empty Orbit", vec![])]);
    let scene = show(&mut shell);
    assert!(shows(&scene, "Unavailable"));
    assert!(!shows(&scene, "home-card-reason-empty"));
    assert!(shell.action(&ShellAction::Activate).is_none());
}

#[test]
fn details_without_variants_renders_honest_unavailable_reason() {
    let mut shell = fixture_core(vec![item("empty", "Empty Orbit", vec![])]);
    shell.action(&press("Search"));
    shell.set_search_query("Empty Orbit".to_string());
    assert!(shell.action(&ShellAction::Activate).is_none());
    assert_eq!(shell.route(), Route::Details);

    let scene = show(&mut shell);
    assert!(shows(
        &scene,
        "Not supported on this device — catalog item has no variants"
    ));
    assert!(!shows(&scene, "No provider"));
    assert!(!shows(&scene, "No descriptor"));
}

#[test]
fn remembered_pin_does_not_bypass_per_launch_variant_choice() {
    let mut snapshot = CatalogSnapshot {
        items: vec![item(
            "many",
            "Many Moons",
            vec![
                variant("native", "many-native", Availability::Ready),
                variant("stream", "many-stream", Availability::Ready),
            ],
        )],
        user_projection: UserProjection {
            favorite_item_ids: vec![],
            pinned_variant_ids: vec![("many".to_string(), "stream".to_string())],
        },
    };
    let mut pinned = ShellCore::boot(&snapshot, &motion(), false);
    pinned.authority_snapshot(false);
    pinned.nav.selected_item = Some(0);
    pinned.go(Route::Details);
    assert!(top(&show(&mut pinned), "detail-pinned-variant").is_none());
    pinned.go(Route::Home);
    assert!(pinned.action(&ShellAction::Activate).is_none());
    assert_eq!(pinned.route(), Route::VariantChooser);

    snapshot.items[0].variants[1].availability = blocked("offline");
    let mut fallback = ShellCore::boot(&snapshot, &motion(), false);
    fallback.authority_snapshot(false);
    assert!(fallback.action(&ShellAction::Activate) == launch("many-native"));
}

#[test]
fn real_art_uses_an_image_node_and_missing_bytes_use_a_plate() {
    let with_art = |decodable: bool| {
        let mut source = item(
            "plate-id",
            "Paper Comet",
            vec![variant("native", "paper-comet", Availability::Ready)],
        );
        source.presentation.icon_reference = Some("art/paper-comet.png".to_string());
        source.presentation.icon_decodable = decodable;
        source
    };
    let snapshot = CatalogSnapshot {
        items: vec![with_art(true)],
        user_projection: no_projection(),
    };
    let mut shell =
        ShellCore::boot_with_art(&snapshot, &motion(), false, &vec![Some(b"png".to_vec())]);
    shell.authority_snapshot(false);
    assert_eq!(
        shell.art_treatment("plate-id"),
        Some(ArtTreatment::CatalogArt)
    );
    let scene = paint(&mut shell, &desktop(), "A Open · B Back");
    let card = top(&scene, "item-plate-id").unwrap();
    let parts = children(&scene, "item-plate-id");
    let art = parts
        .iter()
        .find(|node| node.id == "home-card-art-plate-id")
        .unwrap();
    assert_eq!(art.label, "Paper Comet cover art");
    assert_eq!(art.look.picture, Some(Picture::Art(0)));
    assert!(!parts.iter().any(|node| matches!(
        node.id.as_str(),
        "home-card-label-mask-plate-id"
            | "home-card-motif-plate-id"
            | "home-card-initial-plate-id"
            | "home-card-plate-plate-id"
    )));
    assert_eq!(card.label, "Paper Comet");
    assert!(parts.iter().all(|node| {
        !node.label.contains("art/paper-comet.png") && !node.label.contains("Catalog art")
    }));

    let corrupt_core = fixture_core(vec![with_art(false)]);
    let corrupt = corrupt_core.art_treatment("plate-id").unwrap();
    assert!(matches!(
        corrupt,
        ArtTreatment::EditionPlate {
            palette: 0..=5,
            motif: 0..=5
        }
    ));
    assert_eq!(corrupt, corrupt_core.art_treatment("plate-id").unwrap());
}

fn assert_action_contract(scene: &Scene) {
    for (place, node) in scene.nodes.iter().enumerate() {
        assert!(
            node.role != Role::Group || node.action.is_none(),
            "structural group {} must not carry an action",
            node.id
        );
        if node.action.is_some() {
            let named = !node.label.trim().is_empty()
                || scene.nodes[place + 1..]
                    .iter()
                    .take_while(|other| other.depth > node.depth)
                    .any(|other| !other.label.trim().is_empty());
            assert!(
                named,
                "actionable node {} must have an accessible name in its component tree",
                node.id
            );
        }
    }
}

#[test]
fn emitted_routes_keep_actions_named_and_off_structural_groups() {
    let mut shell = fixture_core(vec![item(
        "many",
        "Many Moons",
        vec![
            variant("native", "many-native", Availability::Ready),
            variant("stream", "many-stream", Availability::Ready),
        ],
    )]);

    for route in [
        Route::Home,
        Route::Library,
        Route::Search,
        Route::Details,
        Route::VariantChooser,
        Route::Settings,
        Route::Quick,
    ] {
        shell.go(route);
        assert_action_contract(&show(&mut shell));
    }

    shell.session.recovery_available = true;
    for room in [
        SettingsRoom::Accessibility,
        SettingsRoom::Display,
        SettingsRoom::Controls,
        SettingsRoom::Network,
        SettingsRoom::System,
    ] {
        shell.settings.settings_room = room;
        shell.settings.settings_in_rows = true;
        assert_action_contract(&show(&mut shell));
    }
}

#[test]
fn deep_library_focus_is_windowed_inside_surface() {
    let items = (0..500)
        .map(|index| {
            item(
                &format!("title-{index:03}"),
                &format!("Fictional Title {index:03}"),
                vec![variant(
                    "native",
                    &format!("app-{index:03}"),
                    Availability::Ready,
                )],
            )
        })
        .collect();
    let mut shell = fixture_core(items);
    shell.go(Route::Library);
    // Search plus four filter chips precede the deterministic item index space.
    shell.nav.focus = 5 + 480;
    let scene = paint(&mut shell, &desktop(), "A Open · B Back");
    let owner = scene
        .nodes
        .iter()
        .find(|node| node.state.focused && node.id.starts_with("library-item-"))
        .unwrap();
    assert_eq!(owner.id, "library-item-title-480");
    assert!(find_below(
        &scene,
        "library-item-title-480",
        "library-title-title-480"
    )
    .is_some());
}

#[test]
fn compact_library_emits_only_the_focused_visible_row() {
    let mut shell = fixture_core(numbered_items(12));
    shell.go(Route::Library);
    shell.nav.focus = 5 + 7;
    let scene = paint(&mut shell, &compact(), "");
    let cards = ids_starting(&scene, "library-item-");
    assert!(cards.len() <= 3, "only one row fits at 640x720");
    assert!(
        find(&scene, "library-item-item-7").unwrap().state.focused,
        "the focused card must remain in the emitted row"
    );
}

#[test]
fn desktop_library_emits_every_card_in_the_first_row() {
    let mut shell = fixture_core(numbered_items(12));
    shell.go(Route::Library);
    shell.nav.focus = 5;
    let expected: Vec<String> = (0..12)
        .map(|index| format!("library-item-item-{index}"))
        .collect();
    assert_eq!(ids_starting(&show(&mut shell), "library-item-"), expected);
}

fn top_ids(scene: &Scene) -> Vec<String> {
    ids_starting(scene, "")
}

fn order_of(ids: &[String], id: &str) -> usize {
    ids.iter()
        .position(|other| other == id)
        .unwrap_or_else(|| panic!("missing {id}"))
}

#[test]
fn library_footer_stacking_matches_mockup() {
    let mut shell = fixture_core(vec![item(
        "ready",
        "Ready Game",
        vec![variant("native", "ready-app", Availability::Ready)],
    )]);
    shell.go(Route::Library);
    let scene = show(&mut shell);
    let ids = top_ids(&scene);
    let fade = order_of(&ids, "library-grid-footer-fade");
    let prompts = order_of(&ids, "prompts");
    let prompt_bar = order_of(&ids, "prompt-bar");
    let card = order_of(&ids, "library-item-ready");
    assert!(
        card < fade && fade < prompt_bar && prompt_bar < prompts,
        "cards (with labels) must paint below the fade, prompt bar, and prompts"
    );
    assert!(
        ids_starting(&scene, "library-label-layer-").is_empty(),
        "library labels must remain card children, never lifted layers"
    );
    assert!(find_below(&scene, "library-item-ready", "library-title-ready").is_some());
}

#[test]
fn actionable_fade_band_item_keeps_its_single_in_bounds_name_ink() {
    let mut items = numbered_items(12);
    items[7].id = "low-orbit".to_string();
    items[7].title = "Low Orbit".to_string();
    items[7].presentation.icon_reference = Some("fixture-art:low-orbit.png".to_string());
    items[7].presentation.icon_decodable = true;
    let snapshot = CatalogSnapshot {
        items,
        user_projection: no_projection(),
    };
    let art: Vec<Option<Vec<u8>>> = (0..12).map(|_| Some(b"png".to_vec())).collect();
    let mut shell = ShellCore::boot_with_art(&snapshot, &motion(), false, &art);
    shell.authority_snapshot(false);
    shell.go(Route::Library);
    let scene = show(&mut shell);
    let action = find(&scene, "library-item-low-orbit").unwrap();
    assert!(action.action.is_some());
    let parts = children(&scene, "library-item-low-orbit");
    assert!(parts.iter().any(|child| {
        matches!(child.role, Role::Text | Role::Heading) && child.label == "Low Orbit"
    }));
    assert_eq!(
        parts
            .iter()
            .filter(|child| child.label == "Low Orbit")
            .count(),
        1,
        "the actionable subtree must expose one painted name node"
    );
    let ids = top_ids(&scene);
    assert!(
        order_of(&ids, "library-item-low-orbit") < order_of(&ids, "library-grid-footer-fade"),
        "card name ink must dim below the fade"
    );
    assert!(
        parts
            .iter()
            .any(|child| child.id == "library-card-art-low-orbit"),
        "the intact card must paint below the fade"
    );
    assert!(ids_starting(&scene, "library-fade-lift-").is_empty());
}

#[test]
fn status_group_is_atomic_and_yields_when_scaled_extent_cannot_clear_room_strip() {
    let mut shell = fixture_core(vec![]);
    shell.comfort.text_scale = 200;
    shell.load_network(connected(), Ok(vec![]));

    for expected_group in [false, true] {
        let facts = SurfaceFacts {
            status_fits: expected_group,
            ..desktop()
        };
        let scene = paint(&mut shell, &facts, "");
        for id in [
            "wifi-glyph",
            "battery-outline",
            "battery-cavity",
            "battery-level",
            "battery-terminal",
            "status-cluster",
        ] {
            assert_eq!(
                find(&scene, id).is_some(),
                expected_group,
                "the status group must be admitted atomically ({id})"
            );
        }
    }
}

fn connected() -> Result<NetworkState, String> {
    Ok(NetworkState {
        interface_present: true,
        enabled: true,
        connected_ssid: Some("Moonlit Arcade".to_string()),
        signal: Some(78),
    })
}

#[test]
fn selected_library_chip_uses_uniform_strong_border_and_full_inner_accent() {
    let mut shell = fixture_core(numbered_items(1));
    shell.go(Route::Library);
    let scene = show(&mut shell);
    let chip = find(&scene, "library-filter-0").unwrap();
    assert_eq!(chip.look.token, Token::RestSurface);
    for edge in ["top", "right", "bottom", "left"] {
        assert_eq!(
            find_below(
                &scene,
                "library-filter-0",
                &format!("library-filter-0-border-{edge}")
            )
            .unwrap()
            .look
            .token,
            Token::BorderStrong
        );
    }
    assert!(find(&scene, "library-selected-underline-0").is_some());
}

#[test]
fn library_card_label_paint_order_never_occludes_footer_ink() {
    let items = (0..12)
        .map(|index| {
            item(
                &format!("item-{index}"),
                &format!("Library Label {index}"),
                vec![variant(
                    "native",
                    &format!("app-{index}"),
                    Availability::Ready,
                )],
            )
        })
        .collect();
    let mut shell = fixture_core(items);
    shell.set_control_bindings(vec![binding("global", "Activate", "Activate", "A")]);
    shell.go(Route::Library);
    shell.nav.focus = 5;
    let scene = show(&mut shell);
    let fade = place_of(&scene.nodes, "library-grid-footer-fade").unwrap();
    let prompts = place_of(&scene.nodes, "prompts").unwrap();
    let titles: Vec<usize> = (0..scene.nodes.len())
        .filter(|place| scene.nodes[*place].id.starts_with("library-title-"))
        .collect();
    assert_eq!(titles.len(), 12);
    assert!(titles.iter().all(|place| *place < fade));
    assert!(titles
        .iter()
        .all(|place| matches!(scene.nodes[*place].role, Role::Text | Role::Heading)));
    assert!(fade < prompts);
    assert!(ids_starting(&scene, "library-label-layer-").is_empty());
    assert!(below(&scene, "prompts")
        .iter()
        .any(|node| matches!(node.role, Role::Text | Role::Heading)));
}

#[test]
fn focused_library_card_footer_only_advertises_resolvable_actions() {
    let mut shell = fixture_core(vec![ready_item("game", "Game")]);
    shell.set_control_bindings(vec![
        binding("global", "Search.open", "Search", "SELECT"),
        binding("library", "Filter.next", "Filter", "Y"),
        binding("global", "Activate", "Activate", "A"),
    ]);
    shell.go(Route::Library);
    shell.nav.focus = 5;
    let scene = show(&mut shell);
    assert_eq!(
        label(&scene, "prompts"),
        "SELECT Search     Y Filter     A Details"
    );

    shell.action(&press("Filter.next"));
    assert_eq!(shell.titles.library_filter, LibraryFilter::Alphabetical);
}

#[test]
fn home_scene_preserves_full_anatomy() {
    let mut shell = fixture_core(vec![
        ready_item("ridge", "Ridgeline"),
        ready_item("tides", "Hollow Tides"),
    ]);
    let scene = paint(&mut shell, &desktop(), "A Open · B Back");
    for (id, role) in [
        ("hero-title", Role::Heading),
        ("hero-status", Role::Text),
        ("home-shelf-label", Role::Heading),
        ("status-cluster", Role::Text),
    ] {
        assert_eq!(find(&scene, id).map(|node| node.role), Some(role));
    }
    for (id, lettering) in [
        ("rooms", TypeRole::Label),
        ("status-cluster", TypeRole::Caption),
        ("route-heading", TypeRole::Eyebrow),
        ("hero-title", TypeRole::Hero),
        ("hero-status", TypeRole::Label),
        ("home-shelf-label", TypeRole::Eyebrow),
        ("prompts", TypeRole::Label),
    ] {
        assert_eq!(
            find(&scene, id).unwrap().look.lettering,
            Some(lettering),
            "{id}"
        );
    }
    assert!(
        label(&scene, "home-scroll-region").is_empty(),
        "structural region metadata must not become rasterizable label content"
    );
    for id in ["ridge", "tides"] {
        for (part, role) in [("art", Role::Group), ("title", Role::Text)] {
            let node_id = format!("home-card-{part}-{id}");
            assert_eq!(
                find(&scene, &node_id).map(|node| node.role),
                Some(role),
                "missing Home card anatomy node {node_id}"
            );
        }
        assert!(
            find(&scene, &format!("home-card-plate-{id}")).is_none(),
            "Home cards must not paint an edition plate below their art"
        );
        let title = find(&scene, &format!("home-card-title-{id}")).unwrap();
        assert_eq!(
            (title.look.lettering, title.look.token),
            (Some(TypeRole::Label), Token::Canvas)
        );
    }
    assert_eq!(label(&scene, "home-shelf-label"), "READY NOW · 2");
}

#[test]
fn chrome_navigation_and_system_status_float_on_the_wash() {
    let mut shell = fixture_core(vec![item(
        "ready",
        "Ready Game",
        vec![variant("native", "ready-app", Availability::Ready)],
    )]);
    let scene = show(&mut shell);

    for id in [
        "rooms",
        "status-cluster",
        "room-home",
        "room-library",
        "room-settings",
    ] {
        assert_eq!(
            find(&scene, id).unwrap().look.token,
            Token::Transparent,
            "{id} must not paint a raised strip behind floating chrome"
        );
    }
    for id in ["room-keycap-left-fill", "room-keycap-right-fill"] {
        assert_eq!(
            find(&scene, id).unwrap().look.token,
            Token::Raised,
            "keycaps retain their designed raised fill"
        );
    }
}

#[test]
fn home_layout_pass_desktop_smoke_indicator() {
    let mut shell = shell_core();
    for _ in 0..12 {
        let scene = show(&mut shell);
        assert!(find(&scene, "rooms-layout-anchor").is_some());
    }
}

#[test]
fn fraunces_plate_role_is_reserved_for_edition_monograms() {
    let mut shell = fixture_core(vec![ready_item("ridge", "Ridgeline")]);
    let scene = paint(&mut shell, &desktop(), "A Open · B Back");
    for node in &scene.nodes {
        if node.look.lettering == Some(TypeRole::Plate) {
            assert!(
                node.id.contains("-initial-"),
                "Fraunces escaped the edition monogram: {}",
                node.id
            );
        }
    }
}

#[test]
fn max_text_scale_routes_keep_full_truthful_labels() {
    let mut shell = fixture_core(vec![item(
        "long",
        "The Unabridged Cartographer of Hollow Tides",
        vec![variant(
            "network-edition",
            "long-network",
            blocked("connect to Wi-Fi to use this edition"),
        )],
    )]);
    shell.go(Route::Library);
    let facts = SurfaceFacts {
        portrait: true,
        ..compact()
    };
    let scene = paint(&mut shell, &facts, "A Open · B Back");
    assert!(scene
        .nodes
        .iter()
        .any(|node| node.label.contains("connect to Wi-Fi to use this edition")));
    assert!(!top(&scene, "library-item-long")
        .unwrap()
        .label
        .contains("EDITION PLATE"));
    assert!(
        children(&scene, "library-item-long")
            .iter()
            .all(|node| node.id != "library-card-plate-long"),
        "Library captions sit on the canvas without an edition plate"
    );
}

#[test]
fn favorites_shelf_filters_and_details_badges_have_ruled_anatomy() {
    let mut snapshot = CatalogSnapshot {
        items: vec![
            item(
                "ridge",
                "Ridgeline",
                vec![variant("standard", "ridge", Availability::Ready)],
            ),
            item(
                "tides",
                "Hollow Tides",
                vec![variant("standard", "tides", unset("choose a profile"))],
            ),
        ],
        user_projection: UserProjection {
            favorite_item_ids: vec!["ridge".to_string()],
            pinned_variant_ids: vec![],
        },
    };
    let mut shell = ShellCore::boot(&snapshot, &motion(), false);
    shell.authority_snapshot(false);
    shell.nav.focus = 0;
    let home = show(&mut shell);
    let parts = children(&home, "item-ridge");
    assert!(parts.iter().any(|node| node.id == "favorite-pin-ridge"));
    for part in ["art", "initial-plate", "plate-kind"] {
        assert!(parts
            .iter()
            .any(|node| node.id == format!("home-card-{part}-ridge")));
    }
    assert!(
        parts.iter().any(|node| node.id == "home-card-title-ridge"),
        "the painted Home title belongs to its focus owner"
    );
    assert!(parts
        .iter()
        .any(|node| node.id == "home-card-initial-plate-ridge" && node.label == "R"));
    snapshot.user_projection.favorite_item_ids.clear();
    let empty = show(&mut ShellCore::boot(&snapshot, &motion(), false));
    assert!(find(&empty, "favorite-pin-ridge").is_none());

    shell.go(Route::Library);
    shell.nav.focus = 2;
    shell.action(&ShellAction::Activate);
    assert_eq!(shell.titles.library_items, vec![1, 0]);
    shell.set_search_query("ridge".to_string());
    assert_eq!(shell.search_result_ids(), vec!["ridge"]);
    shell.set_search_query("tides".to_string());
    assert_eq!(shell.search_result_ids(), vec!["tides"]);

    shell.nav.selected_item = Some(1);
    shell.go(Route::Details);
    assert!(
        top(&show(&mut shell), "detail-playtime").is_none(),
        "unknown playtime must not render as zero"
    );
    shell.load_history(&[history_entry(
        "tides",
        Some(at(1_000)),
        Some((
            at(1_000 + 3 * 3_600 + 20 * 60),
            EndPrecision::Approximate,
        )),
    )]);
    let scene = show(&mut shell);
    let played = top(&scene, "detail-playtime").expect("known playtime anatomy");
    assert_eq!(played.label, "Played ~3h 20m");
    for id in [
        "detail-cover",
        "detail-provenance",
        "detail-availability-reason",
    ] {
        assert!(top(&scene, id).is_some(), "missing {id}");
    }
    assert!(label(&scene, "detail-availability-reason").contains("choose a profile"));
}

#[test]
fn home_ready_card_focus_owner_is_actionable() {
    let mut shell = fixture_core(vec![item(
        "ready",
        "Ready Game",
        vec![variant("native", "ready-app", Availability::Ready)],
    )]);
    shell.nav.focus = 0;
    let scene = show(&mut shell);
    let card = find(&scene, "item-ready").unwrap();
    assert!(find(&scene, "home-card-art-ready").is_some());

    assert_eq!(card.role, Role::ListItem);
    assert_eq!(scene.focus, card.id);
    assert!(card.action.is_some(), "the focus owner must be actionable");
    assert!(
        !card.label.trim().is_empty(),
        "the focus owner must have an accessible label"
    );
    assert_eq!(card.look.token, Token::Canvas);
    assert!(find(&scene, "home-card-initial-plate-ready").is_some());
    assert!(
        find(&scene, "home-card-veil-ready").is_none(),
        "a ready card must not receive an unavailable veil"
    );
    assert!(
        find_below(&scene, "item-ready", "home-card-title-ready").is_some(),
        "the painted title must belong to the card focus owner"
    );
}

#[test]
fn home_activation_and_footer_follow_the_filtered_ready_shelf() {
    let supplied_footer = "A  Open     PF  Safe Return";
    let mut shell = fixture_core(vec![
        item(
            "ready",
            "Ready Game",
            vec![variant("native", "ready-app", Availability::Ready)],
        ),
        item(
            "unavailable",
            "Unavailable Game",
            vec![variant(
                "stream",
                "unavailable-app",
                blocked("connect to Wi-Fi"),
            )],
        ),
        item(
            "setup",
            "Setup Game",
            vec![variant("setup", "setup-app", unset("choose a profile"))],
        ),
        item(
            "ready-two",
            "Ready Game Two",
            vec![variant("native", "ready-app-two", Availability::Ready)],
        ),
    ]);
    shell.titles.items[3].favorite = true;
    shell.set_control_bindings(vec![binding("global", "Activate", "Activate", "A")]);
    let home = paint(&mut shell, &desktop(), supplied_footer);
    assert_eq!(label(&home, "prompts"), "A Open · PF  Safe Return");
    assert!(find(&home, "home-prompt-keycap-0").is_some());
    assert!(shell.action(&ShellAction::Activate) == launch("ready-app"));

    shell.go(Route::Home);
    shell.nav.focus = 1;
    let home = paint(&mut shell, &desktop(), supplied_footer);
    assert_eq!(label(&home, "prompts"), "A Open · PF  Safe Return");
    assert!(shell.action(&ShellAction::Activate) == launch("ready-app-two"));
}

#[test]
fn quiet_console_mockup_cues_and_binding_derived_footers_are_emitted() {
    let mut shell = fixture_core(vec![
        item(
            "ready",
            "Ready Game",
            vec![variant("installed", "ready", Availability::Ready)],
        ),
        item(
            "setup",
            "Setup Game",
            vec![variant("stream", "setup", unset("choose a profile"))],
        ),
    ]);
    let desktop_bindings = |quick: &str| {
        vec![
            binding("global", "Activate", "Activate", "A"),
            binding("global", "Back", "Back", "B"),
            binding("shell", "Quick", "Quick", quick),
        ]
    };
    shell.set_control_bindings(vec![
        binding("shell", "Back", "Back", "B"),
        binding("shell", "Quick", "Quick", "X"),
        binding("shell", "Activate", "Open", "A"),
    ]);
    let footer = "wrong caller footer";

    shell.go(Route::Library);
    shell.nav.focus = 5;
    let library = paint(&mut shell, &desktop(), footer);
    assert!(find(&library, "library-selected-underline-0").is_some());
    assert!(find(&library, "room-library-underline").is_some());
    assert!(find(&library, "room-keycap-left-border").is_some());
    assert_eq!(label(&library, "prompts"), "A Details");
    assert!(!label(&library, "prompts").contains("SELECT"));
    assert!(!label(&library, "prompts").contains('Y'));

    shell.nav.selected_item = Some(0);
    shell.go(Route::Details);
    let ready = paint(&mut shell, &desktop(), footer);
    assert_eq!(
        ready.nodes.iter().filter(|node| node.id == "prompts").count(),
        1,
        "Details must emit exactly one footer hint cluster"
    );
    let details_prompts = top(&ready, "prompts").unwrap();
    assert_eq!(
        details_prompts.role,
        Role::Group,
        "Details footer must not retain a centered plain-text prompt sibling"
    );
    assert!(
        details_prompts.label.is_empty(),
        "Details footer cluster must not carry the legacy centered text label"
    );
    assert!(
        children(&ready, "prompts")
            .iter()
            .any(|node| node.id.starts_with("home-prompt-keycap-")),
        "Details footer cluster must contain the keycap chips"
    );
    assert_eq!(
        find(&ready, "detail-title").unwrap().look.token,
        Token::Canvas
    );
    assert!(find(&ready, "detail-ways-heading").is_some());
    assert_eq!(label(&ready, "detail-open"), "▶ Play");
    assert_eq!(
        prompt_labels(&ready),
        ["B", "Back", "X", "Favorite", "A", "Play"]
    );

    shell.set_control_bindings(desktop_bindings("START"));
    let remapped = prompt_labels(&paint(&mut shell, &desktop(), footer));
    assert!(remapped.contains(&"START".to_string()));
    assert!(remapped.contains(&"Favorite".to_string()));

    let mut unbound = desktop_bindings("X");
    unbound.retain(|other| other.action != "Quick");
    shell.set_control_bindings(unbound);
    let labels = prompt_labels(&paint(&mut shell, &desktop(), footer));
    assert!(!labels.contains(&"Favorite".to_string()));
    assert!(!labels.contains(&"Unfavorite".to_string()));

    shell.nav.selected_item = Some(1);
    let unavailable = paint(&mut shell, &desktop(), footer);
    assert!(shows(&unavailable, "⊘ Stream"));
    assert!(shows(&unavailable, "choose a profile"));
    assert!(find(&unavailable, "detail-open").is_none());
    let labels = prompt_labels(&unavailable);
    assert!(!labels.contains(&"Play".to_string()));
    assert!(!labels.contains(&"Open".to_string()));
}

#[test]
fn emitted_text_on_light_surfaces_has_a_declared_paired_on_color() {
    let mut shell = fixture_core(vec![item(
        "ready",
        "Ready Game",
        vec![variant("installed", "ready", Availability::Ready)],
    )]);
    shell.load_preferences(&preferences(true), true).unwrap();
    shell.go(Route::Library);
    shell.nav.focus = 3;
    let library = show(&mut shell);
    assert_eq!(
        find(&library, "library-filter-2-label").unwrap().look.token,
        Token::RestSurface
    );

    shell.nav.selected_item = Some(0);
    shell.go(Route::Details);
    let scene = show(&mut shell);
    for id in [
        "detail-provenance",
        "detail-availability-reason",
        "detail-ways-heading",
    ] {
        assert_eq!(find(&scene, id).unwrap().look.token, Token::Canvas);
    }
    assert_eq!(
        find(&scene, "detail-variant-0-name").unwrap().look.token,
        Token::RestSurface
    );

    shell.go(Route::Settings);
    let settings = show(&mut shell);
    assert_eq!(
        find(&settings, "settings-section-title").unwrap().look.token,
        Token::Canvas
    );
    assert_eq!(
        find(&settings, "settings-nav-accessibility-label")
            .unwrap()
            .look
            .token,
        Token::RestSurface
    );
    assert!(
        find(&settings, "settings-nav-accessibility")
            .unwrap()
            .state
            .focused,
        "the navigation label must declare the surface painted by its focused parent"
    );
}

#[test]
fn chrome_keycaps_emit_border_fill_then_on_surface_label() {
    let scene = show(&mut shell_core());
    for id in ["room-keycap-left", "room-keycap-right"] {
        let border = place_of(&scene.nodes, &format!("{id}-border")).unwrap();
        let fill = place_of(&scene.nodes, &format!("{id}-fill")).unwrap();
        let glyph = place_of(&scene.nodes, id).unwrap();
        assert!(border < fill && fill < glyph);
        assert_eq!(scene.nodes[border].look.token, Token::BorderStrong);
        assert_eq!(scene.nodes[fill].look.token, Token::Raised);
        assert_eq!(scene.nodes[glyph].look.token, Token::Raised);
    }
}

#[test]
fn every_action_in_evidence_scenes_has_an_accessible_label() {
    let mut shell = shell_core();
    for route in [Route::Home, Route::Library, Route::Details, Route::Settings] {
        shell.go(route);
        if route == Route::Details {
            shell.nav.selected_item = Some(0);
        }
        for node in &show(&mut shell).nodes {
            if node.action.is_some() {
                assert!(
                    !node.label.trim().is_empty(),
                    "action has no accessible label on {}",
                    node.id
                );
            }
        }
    }
}

#[test]
fn focused_variant_is_one_surface_without_per_line_plates() {
    let mut shell = shell_core();
    shell.nav.selected_item = Some(0);
    shell.go(Route::Details);
    let scene = show(&mut shell);
    let row = find(&scene, "detail-variant-0").unwrap();
    assert!(row.state.focused);
    assert_eq!(row.look.token, Token::RestSurface);
    assert!(children(&scene, "detail-variant-0")
        .iter()
        .all(|child| child.role == Role::Text && child.look.token == row.look.token));
}

#[test]
fn details_match_quiet_console_structural_roles() {
    let mut source = item(
        "quiet-detail",
        "Quiet Detail",
        vec![
            variant("native", "quiet-detail", Availability::Ready),
            variant("stream", "quiet-detail", Availability::Ready),
        ],
    );
    source.tags.extend([
        "description:A measured catalog description that may wrap across two lines.".to_string(),
        "last-played:Yesterday".to_string(),
        "size:2.4 GB".to_string(),
    ]);
    let mut shell = details(vec![source]);
    shell.set_control_bindings(vec![
        binding("shell", "Back", "Back", "B"),
        binding("shell", "Quick", "Quick", "X"),
        binding("shell", "Activate", "Open", "A"),
    ]);
    shell.load_history(&[history_entry(
        "quiet-detail",
        Some(at(1_000)),
        Some((at(4_600), EndPrecision::Observed)),
    )]);
    let scene = show(&mut shell);

    assert!(find(&scene, "detail-cover").is_some());
    assert!(find(&scene, "detail-provenance").is_some());
    assert_eq!(
        find(&scene, "detail-title").unwrap().look.lettering,
        Some(TypeRole::Hero)
    );
    assert!(find_below(
        &scene,
        "detail-variant-0",
        "detail-variant-0-selection-mark"
    )
    .is_some());
    assert!(find_below(
        &scene,
        "detail-variant-1",
        "detail-variant-1-selection-mark"
    )
    .is_none());
    for id in [
        "detail-fact-developer-heading",
        "detail-fact-installed-heading",
        "detail-fact-time-played-heading",
        "detail-fact-offline-heading",
    ] {
        assert!(find(&scene, id).is_some(), "missing {id}");
    }
    for index in 0..3 {
        assert!(find_below(
            &scene,
            "prompts",
            &format!("home-prompt-keycap-{index}-border")
        )
        .is_some());
    }
}

#[test]
fn text_scale_values_are_individual_bordered_chips() {
    let mut shell = shell_core();
    shell.load_preferences(&preferences(true), true).unwrap();
    shell.go(Route::Settings);
    let scene = show(&mut shell);
    for value in ["100%", "150%", "200%"] {
        let chip = find(&scene, &format!("settings-text-scale-chip-{value}")).unwrap();
        assert_eq!(
            chip.look.border.map(|(token, _)| token),
            Some(Token::BorderHairline)
        );
    }
}

fn capability(action: PowerAction, support: Support) -> PowerCapability {
    PowerCapability { action, support }
}

fn no_idle() -> IdlePolicy {
    IdlePolicy {
        sleep_after: None,
        power_off_after: None,
    }
}

fn idle_after(minutes: u64) -> IdlePolicy {
    IdlePolicy {
        sleep_after: Some(Duration::from_secs(minutes * 60)),
        power_off_after: None,
    }
}

#[test]
fn quick_power_anatomy_is_capability_gated() {
    let mut shell = shell_core();
    shell.load_power(
        Ok(vec![
            capability(PowerAction::PowerOff, Support::Supported),
            capability(PowerAction::Restart, Support::Supported),
            capability(PowerAction::Sleep, Support::Unsupported),
        ]),
        Ok(no_idle()),
    );
    shell.go(Route::Quick);
    let unsupported_scene = quick_scene(&mut shell);
    for required in [
        "quick-panel-surface",
        "quick-section-divider",
        "quick-power-power-off",
        "quick-power-restart",
        "quick-power-idle",
    ] {
        assert!(
            top(&unsupported_scene, required).is_some(),
            "missing semantic anatomy {required}"
        );
    }
    assert!(top(&unsupported_scene, "quick-power-heading").is_none());
    assert!(top(&unsupported_scene, "quick-power-sleep").is_none());

    let panel = find(&unsupported_scene, "quick-panel-surface").unwrap();
    assert_eq!(panel.look.token, Token::Raised);
    assert_eq!(
        panel.look.border,
        Some((Token::BorderHairline, BorderWeight::Thin))
    );
    assert!(panel.look.elevated);
    assert_eq!(
        quiet_console_corner("quick-panel-surface", false, true),
        Some(Corner::Large)
    );
    let row = find(&unsupported_scene, "quick-0").unwrap();
    assert_eq!(row.look.token, Token::RestSurface);
    assert_eq!(
        row.look.border,
        Some((Token::FocusedRing, BorderWeight::Thick))
    );
    assert_eq!(
        quiet_console_corner("quick-0", row.action.is_some(), true),
        Some(Corner::Medium)
    );
    let prompts = find(&unsupported_scene, "prompts").unwrap();
    assert_eq!(prompts.role, Role::Group);
    assert_eq!(
        children(&unsupported_scene, "prompts").len(),
        6,
        "two prompts use one keycap cluster"
    );

    shell.load_power(
        Ok(vec![capability(PowerAction::Sleep, Support::Supported)]),
        Ok(no_idle()),
    );
    assert!(top(&quick_scene(&mut shell), "quick-power-sleep").is_some());
}

#[test]
fn quick_default_scale_keeps_truth_note() {
    let mut shell = shell_core();
    shell.go(Route::Quick);

    assert!(find(&quick_scene(&mut shell), "quick-truth").is_some());
    let crowded = SurfaceFacts {
        truth_fits: false,
        ..desktop()
    };
    assert!(find(&paint(&mut shell, &crowded, ""), "quick-truth").is_none());
}

#[test]
fn quick_capture_row_emits_capture_and_reports_honest_results() {
    let mut shell = shell_core();
    shell.go(Route::Quick);
    let scene = quick_scene(&mut shell);
    let row =
        top(&scene, "quick-capture-screenshot").expect("Quick must expose screenshot capture");
    assert_eq!(row.label, "Capture screenshot");
    assert_eq!(row.action, Some(NodeAction::Activate));

    shell.nav.focus = shell.screenshot_row();
    assert!(shell.action(&ShellAction::Activate) == Some(Effect::CaptureScreenshot));
    shell.screenshot_result(Ok("screenshot-42.png"));
    assert_eq!(
        shell.session_status(),
        Some("Screenshot saved · screenshot-42.png")
    );
    shell.screenshot_result(Err(()));
    assert_eq!(
        shell.session_status(),
        Some("Screenshot could not be saved")
    );
}

#[test]
fn quick_power_keeps_capabilities_when_idle_policy_load_fails() {
    let mut shell = shell_core();
    shell.load_power(
        Ok(vec![
            capability(PowerAction::PowerOff, Support::Supported),
            capability(PowerAction::Restart, Support::Supported),
        ]),
        Err("BackendUnavailable".to_string()),
    );
    shell.go(Route::Quick);
    let scene = quick_scene(&mut shell);
    for id in ["quick-power-power-off", "quick-power-restart"] {
        let row = top(&scene, id).unwrap();
        assert!(!row.state.disabled, "{id} should retain capability result");
        assert_eq!(row.action, Some(NodeAction::Activate));
    }
    assert!(top(&scene, "quick-power-idle").is_none());
    assert_eq!(
        label(&scene, "quick-power-status"),
        "Auto-sleep is unavailable"
    );
}

#[test]
fn quick_power_keeps_idle_policy_when_capabilities_load_fails() {
    let mut shell = shell_core();
    shell.load_power(Err("BackendUnavailable".to_string()), Ok(idle_after(15)));
    shell.go(Route::Quick);
    let scene = quick_scene(&mut shell);
    let idle = top(&scene, "quick-power-idle").unwrap();
    assert_eq!(idle.label, "Auto-sleep · 15 min");
    assert!(!idle.state.disabled);
    let parts = children(&scene, "quick-power-idle");
    assert!(parts.iter().all(|child| !child.state.disabled));
    assert_eq!(parts[0].look.ink, Some(Token::RestText));
    assert_eq!(parts[1].look.ink, Some(Token::TextMuted));
    for id in ["quick-power-power-off", "quick-power-restart"] {
        let row = top(&scene, id).unwrap();
        assert!(
            row.state.disabled,
            "{id} should degrade without capabilities"
        );
        assert_eq!(row.action, None);
        let parts = children(&scene, id);
        assert!(!parts.is_empty());
        for child in parts {
            assert_eq!(child.look.ink, Some(Token::UnavailableText));
            assert!(child.state.disabled);
        }
    }
    assert_eq!(
        label(&scene, "quick-power-status"),
        "Power actions are unavailable"
    );
}

#[test]
fn destructive_power_defaults_to_cancel_and_cancel_has_no_effect() {
    let mut shell = shell_core();
    shell.load_power(
        Ok(vec![capability(PowerAction::PowerOff, Support::Supported)]),
        Ok(no_idle()),
    );
    shell.go(Route::Quick);
    shell.nav.focus = 2;
    assert!(shell.action(&ShellAction::Activate).is_none());
    let scene = quick_scene(&mut shell);
    let cancel = top(&scene, "power-confirm-0").unwrap();
    assert_eq!(cancel.label, "Cancel");
    assert!(cancel.state.focused);
    assert!(shell.action(&ShellAction::Activate).is_none());
    assert_eq!(shell.power.power_dialog, PowerDialog::Closed);

    shell.action(&ShellAction::Activate);
    shell.action(&ShellAction::Move(AxisMove::Down));
    assert!(
        shell.action(&ShellAction::Activate) == Some(Effect::RequestPower(PowerAction::PowerOff))
    );
}

#[test]
fn idle_selector_displays_applied_not_requested_policy() {
    let mut shell = shell_core();
    shell.load_power(Ok(vec![]), Ok(idle_after(5)));
    shell.go(Route::Quick);
    shell.nav.focus = shell.idle_row();
    let requested = match shell.action(&ShellAction::Activate) {
        Some(Effect::SetIdlePolicy(requested)) => requested,
        _ => panic!("idle row must write through the power port"),
    };
    assert_eq!(requested.sleep_after, Some(Duration::from_secs(10 * 60)));
    shell.idle_policy_result(Ok(AppliedIdlePolicy {
        requested,
        applied: idle_after(15),
    }));
    let scene = quick_scene(&mut shell);
    let row = top(&scene, "quick-power-idle").unwrap();
    assert_eq!(row.label, "Auto-sleep · 15 min");
    assert!(!row.label.contains("10 min"));
}

#[test]
fn attention_and_the_clock_are_shown_where_they_are_known() {
    let mut shell = shell_core();
    shell.device_status_read(Ok(DeviceStatus {
        battery_percent: 25,
        attention_message: Some("Controller battery low".to_string()),
    }));
    shell.load_system(
        Ok(TimeCapabilities {
            manual_set_time: Support::Supported,
        }),
        Ok(TimeState {
            wall_clock: at(9 * 3_600 + 41 * 60),
            timezone: "UTC".to_string(),
            ntp_state: NtpState::Active,
        }),
        Ok(vec![]),
    );
    let scene = show(&mut shell);
    assert_eq!(label(&scene, "attention"), "Controller battery low");
    assert_eq!(
        find(&scene, "attention-dot").unwrap().look.token,
        Token::StatusAttention
    );
    assert_eq!(
        find(&scene, "attention").unwrap().look.ink,
        Some(Token::TextSecondary)
    );
    assert!(label(&scene, "status-cluster").contains("9:41"));
    assert!(label(&scene, "status-cluster").contains("25"));
    assert!(find(&scene, "wifi-glyph").is_none());
    shell.load_network(connected(), Ok(vec![]));
    assert_eq!(
        find(&show(&mut shell), "wifi-glyph").unwrap().look.picture,
        Some(Picture::WifiGlyph)
    );
}

#[test]
fn prompts_are_outlines_and_plain_text() {
    let mut shell = fixture_core(vec![ready_item("ready", "Ready Game")]);
    shell.set_control_bindings(vec![
        binding("shell", "Search.open", "Search", "SELECT"),
        binding("shell", "Filter.next", "Filter", "Y"),
        binding("shell", "Quick", "Quick", "X"),
        binding("global", "Activate", "Activate", "A"),
    ]);
    let home = paint(&mut shell, &desktop(), "A Open     PF Safe Return");
    for index in 0..4 {
        let key = format!("home-prompt-keycap-{index}");
        let keycap = find(&home, &key).unwrap();
        let border = find(&home, &format!("{key}-border")).unwrap();
        let verb = find(&home, &format!("home-prompt-verb-{index}")).unwrap();
        assert_eq!(keycap.look.token, Token::Transparent);
        assert_eq!(keycap.look.ink, Some(Token::TextSecondary));
        assert_eq!(verb.look.token, Token::Transparent);
        assert_eq!(verb.look.ink, Some(Token::TextSecondary));
        assert_eq!(
            border.look.border,
            Some((Token::BorderStrong, BorderWeight::Keycap))
        );
    }
    assert!(find(&home, "home-prompt-keycap-4").is_none());
    assert_eq!(
        quiet_console_corner("home-prompt-keycap-0-border", false, true),
        Some(Corner::Small)
    );
    assert_eq!(
        quiet_console_corner("home-prompt-keycap-1-border", false, false),
        Some(Corner::Pill)
    );
}

#[test]
fn corners_are_cut_by_what_a_node_is() {
    for (id, corner) in [
        ("item-i0", Some(Corner::Medium)),
        ("home-card-art-i0", Some(Corner::Medium)),
        ("room-keycap-left", Some(Corner::Small)),
        ("library-search", Some(Corner::Medium)),
        ("library-filter-0", Some(Corner::Medium)),
        ("library-filter-0-label", None),
        ("library-item-i0", Some(Corner::Medium)),
        ("detail-cover", Some(Corner::Large)),
        ("detail-variant-0", Some(Corner::Medium)),
        ("detail-variant-0-name", None),
        ("settings-nav-accessibility", Some(Corner::Medium)),
        ("settings-nav-accessibility-label", None),
        ("settings-row-accessibility-textScale", Some(Corner::Medium)),
        ("settings-text-scale-segmented-control", Some(Corner::Medium)),
        (
            "settings-toggle-accessibility-highContrast-track",
            Some(Corner::Pill),
        ),
        (
            "settings-toggle-accessibility-highContrast-knob",
            Some(Corner::Pill),
        ),
    ] {
        assert_eq!(quiet_console_corner(id, false, false), corner, "{id}");
    }
}

#[test]
fn choosers_list_every_way_and_keep_the_focus_visible() {
    let variants = (0..3)
        .map(|index| {
            variant(
                &format!("variant-{index}"),
                &format!("game-{index}"),
                Availability::Ready,
            )
        })
        .collect();
    let mut shell = fixture_core(vec![item("game", "Many Moons", variants)]);
    shell.nav.selected_item = Some(0);
    shell.go(Route::VariantChooser);
    for focus in 0..3 {
        shell.nav.focus = focus;
        let scene = show(&mut shell);
        assert_eq!(ids_starting(&scene, "chooser-").len(), 5);
        for way in 0..3 {
            let row = top(&scene, &format!("chooser-variant-{way}")).unwrap();
            assert_eq!(row.role, Role::Button);
            assert_eq!(row.action, Some(NodeAction::Activate));
            assert_eq!(row.state.focused, way == focus);
        }
    }
}

#[test]
fn nameless_buttons_get_a_name_of_their_own() {
    let mut shell = shell_core();
    shell.go(Route::Library);
    let draft = shell.draft_scene(&desktop(), "");
    let acting = draft
        .iter()
        .filter(|node| node.action.is_some() && !node.label.trim().is_empty())
        .count();
    let scene = shell.scene(&desktop(), &vec![], "").unwrap();
    let added: Vec<&SceneNode> = scene
        .nodes
        .iter()
        .filter(|node| node.id.starts_with("action-name-"))
        .collect();
    assert_eq!(added.len(), acting);
    assert_eq!(scene.nodes.len(), draft.len() + acting);
    for name in added {
        let owner = name.id.strip_prefix("action-name-").unwrap();
        assert_eq!(name.label, label(&scene, owner));
    }
    let named = show(&mut shell);
    assert!(find(&named, "action-name-library-item-i0").is_none());
    assert_eq!(named.focus, scene.focus);
}

#[test]
fn secrets_are_shown_as_dots() {
    let mut shell = shell_core();
    shell.load_network(
        connected(),
        Ok(vec![pf_shell_core::ports::WifiNetwork {
            ssid: "Cedar Workshop".to_string(),
            security: pf_shell_core::ports::WifiSecurity::Personal,
            strength: 64,
        }]),
    );
    shell.go(Route::Settings);
    shell.settings.settings_room = SettingsRoom::Network;
    shell.network.network_flow = NetworkFlow::Credential;
    shell.network.selected_wifi = Some(0);
    shell.set_wifi_passphrase(b"pine-secret".to_vec());
    let scene = settings_scene(&mut shell);
    assert!(shows(&scene, "•••••••••••"));
    assert!(!shows(&scene, "pine-secret"));
}

#[test]
fn the_manual_clock_is_shown_while_it_is_set() {
    let mut shell = shell_core();
    shell.load_system(
        Ok(TimeCapabilities {
            manual_set_time: Support::Supported,
        }),
        Ok(TimeState {
            wall_clock: at(0),
            timezone: "UTC".to_string(),
            ntp_state: NtpState::Inactive,
        }),
        Ok(vec![]),
    );
    shell.go(Route::Settings);
    shell.settings.settings_room = SettingsRoom::System;
    shell.manual_time_refresh_result(Ok(TimeState {
        wall_clock: at(1_709_210_040),
        timezone: "UTC".to_string(),
        ntp_state: NtpState::Inactive,
    }));
    assert_eq!(shell.system.system_flow, SystemFlow::ManualTime);
    assert!(shows(&settings_scene(&mut shell), "manual-time-fields"));
    assert!(shell.action(&ShellAction::Back).is_none());
    assert!(!shows(&settings_scene(&mut shell), "manual-time-fields"));
}

#[test]
fn shelves_keep_the_focus_in_their_window() {
    let mut shell = fixture_core(numbered_items(6));
    for focus in 0..6 {
        shell.nav.focus = focus;
        let scene = paint(&mut shell, &compact(), "");
        let cards = ids_starting(&scene, "item-");
        assert_eq!(cards.len(), 2, "two cards fit");
        assert!(cards.contains(&format!("item-item-{focus}")));
        assert_eq!(scene.focus, format!("item-item-{focus}"));
    }
}

#[test]
fn first_runs_and_crashes_take_the_screen() {
    let mut shell = shell_core();
    shell.load_preferences(&preferences(true), false).unwrap();
    let scene = show(&mut shell);
    assert!(find(&scene, "first-run-panel").is_some());
    assert!(find(&scene, "hero-title").is_none());
    assert_eq!(shell.presentation(), &Presentation::FirstRun);
    let mut fallen = shell_core();
    fallen.session_event(&crash("s", "signal 11"));
    let scene = show(&mut fallen);
    assert!(find(&scene, "hero-title").is_none());
    assert_eq!(scene.focus, "crash-action-0");
    let ids: Vec<&str> = focused(&scene).iter().map(|node| node.id.as_str()).collect();
    assert_eq!(ids, ["crash-action-0", "action-name-crash-action-0"]);
}

#[test]
fn names_take_the_state_of_what_they_name() {
    let mut fallen = shell_core();
    fallen.session_event(&crash("s", "signal 11"));
    for focus in 0..2usize {
        fallen.nav.focus = focus;
        let scene = show(&mut fallen);
        for index in 0..2usize {
            let owner = find(&scene, &format!("crash-action-{index}")).unwrap();
            let name = find(&scene, &format!("action-name-crash-action-{index}")).unwrap();
            assert_eq!(owner.state.focused, index == focus);
            assert_eq!(name.state, owner.state);
            assert_eq!(name.label, owner.label);
        }
        assert_eq!(scene.focus, format!("crash-action-{focus}"));
    }

    let mut searching = shell_core();
    searching.go(Route::Search);
    searching.set_search_query("no match".to_string());
    let scene = show(&mut searching);
    let name = find(&scene, "action-name-search-query").unwrap();
    assert_eq!(name.label, "no match│");
    assert!(!name.state.focused);
}

#[test]
fn identity_plate_centers_its_initial_and_kind_stack_without_an_inner_box() {
    let mut plate = item(
        "steam-link",
        "Steam Link",
        vec![variant("stream", "steam-link", Availability::Ready)],
    );
    plate.kind = AppKind::Stream;
    plate.tags.push("kind-label:Stream".to_string());
    let shell = fixture_core(vec![plate]);
    let nodes = show_art(&shell.titles.items[0], 0, Showcase::Shelf, 20, 100);
    let art = &nodes[place_of(&nodes, "home-card-art-steam-link").unwrap()];
    let initial = &nodes[place_of(&nodes, "home-card-initial-plate-steam-link").unwrap()];
    let kind = &nodes[place_of(&nodes, "home-card-plate-kind-steam-link").unwrap()];

    assert!(initial.look.centered);
    assert!(kind.look.centered);
    assert_eq!(initial.look.token, Token::Transparent);
    assert_eq!(kind.look.token, Token::Transparent);
    assert_eq!(initial.look.ink, Some(Token::PlateInk(PlateArt::A)));
    assert_eq!(kind.look.ink, Some(Token::PlateInk(PlateArt::A)));
    assert!(art.look.picture.is_some());
    assert!(nodes.iter().all(|node| {
        !node.id.contains("plate-chip")
            && !node.id.contains("plate-box")
            && !node.id.contains("plate-motif")
            && !node.id.contains("plate-frame")
    }));
}

#[test]
fn library_prompt_row_is_transparent_over_derived_grid_gutters() {
    let mut shell = fixture_core(numbered_items(12));
    shell.go(Route::Library);
    for focus in [0, 5] {
        shell.nav.focus = focus;
        let scene = show(&mut shell);
        assert_eq!(
            find(&scene, "prompt-bar").unwrap().look.token,
            Token::Transparent
        );
        assert_eq!(
            find(&scene, "prompts").unwrap().look.token,
            Token::Transparent
        );
    }
}

#[test]
fn desktop_library_footer_matches_promptbar_css_without_separators() {
    let mut shell = fixture_core(vec![item(
        "item-0",
        "Item 0",
        vec![variant("native", "item-0", Availability::Ready)],
    )]);
    shell.set_control_bindings(vec![
        binding("shell", "Search.open", "Search", "SELECT"),
        binding("shell", "Filter.next", "Filter", "Y"),
        binding("global", "Activate", "Activate", "A"),
    ]);
    shell.go(Route::Library);
    shell.nav.focus = 5;
    let scene = show(&mut shell);
    assert!(!label(&scene, "prompts").contains('·'));
    assert!(!children(&scene, "prompts")
        .iter()
        .any(|node| node.label == "·" || node.id.contains("separator")));
    assert!(find_below(&scene, "prompts", "home-prompt-verb-2").is_some());
}

#[test]
fn chips_are_captioned_with_what_they_count() {
    let mut tool = ready_item("tool", "Button Tester");
    tool.kind = AppKind::System;
    let shell = fixture_core(vec![ready_item("a", "A"), ready_item("b", "B"), tool]);
    assert_eq!(shell.chip_caption(0), ("Recent", None));
    assert_eq!(shell.chip_caption(1), ("A–Z", None));
    assert_eq!(shell.chip_caption(2), ("Games", Some(2)));
    assert_eq!(shell.chip_caption(3), ("Everything else", Some(1)));
}

#[test]
fn compositions_name_the_parts_of_a_plate() {
    let compose = |showcase: Showcase, focused: bool| {
        procedural_art_nodes("games:quiet", "Quiet", Some("FIRST"), showcase, focused, 4, 150)
    };
    let shelf = compose(Showcase::Shelf, false);
    assert_eq!(shelf[0].id, "home-card-label-mask-games:quiet");
    assert_eq!(shelf[1].id, "home-card-art-games:quiet");
    assert!(place_of(&shelf, "home-card-plate-games:quiet").is_none());
    assert_eq!(shelf.last().unwrap().label, "Qui…");
    let library = compose(Showcase::Library, true);
    let plate = place_of(&library, "library-card-plate-games:quiet").unwrap();
    assert_eq!(library[plate].label, "FIRST");
    assert_eq!(library.last().unwrap().label, "Quiet");
    assert_eq!(library.last().unwrap().look.token, Token::FocusedText);
    let wide = compose(Showcase::Details, false);
    assert!(place_of(&wide, "detail-art-title-scrim-games:quiet").is_some());
    assert_eq!(wide.last().unwrap().look.token, Token::Scrim);
}

#[test]
fn at_most_one_node_that_can_be_chosen_is_in_focus() {
    let mut shell = fixture_core(numbered_items(8));
    shell.load_preferences(&preferences(true), true).unwrap();
    shell.nav.selected_item = Some(0);
    for route in [
        Route::Home,
        Route::Library,
        Route::Search,
        Route::Details,
        Route::VariantChooser,
        Route::Settings,
        Route::Quick,
    ] {
        shell.go(route);
        for focus in 0..shell.focus_count() {
            shell.nav.focus = focus;
            let scene = show(&mut shell);
            let owners = focused(&scene)
                .into_iter()
                .filter(|node| node.action.is_some())
                .count();
            assert!(owners <= 1, "{route:?} at {focus}");
        }
    }
}

#[test]
fn settings_toggle_state_and_disabled_remap_value_are_not_clipped() {
    let mut shell = shell_core();
    shell.load_preferences(&preferences(true), true).unwrap();
    shell.go(Route::Settings);
    let scene = settings_scene(&mut shell);
    assert_eq!(
        label(&scene, "settings-toggle-accessibility-highContrast-state"),
        "OFF"
    );

    shell.settings.settings_room = SettingsRoom::Controls;
    let controls = settings_scene(&mut shell);
    assert!(find_below(
        &controls,
        "settings-row-controls-remap",
        "settings-row-controls-remap-control"
    )
    .is_some());
    assert_eq!(label(&controls, "settings-row-controls-remap-control"), "—");
}

#[test]
fn details_facts_flow_after_recorded_playtime() {
    let mut shell = fixture_core(vec![item(
        "played",
        "Played Game",
        vec![variant("native", "played", Availability::Ready)],
    )]);
    shell.nav.selected_item = Some(0);
    shell.go(Route::Details);
    shell.load_history(&[history_entry(
        "played",
        Some(at(1_000)),
        Some((at(4_600), EndPrecision::Observed)),
    )]);
    let scene = show(&mut shell);
    assert!(top(&scene, "detail-playtime").is_some());
    assert_eq!(
        ids_starting(&scene, "detail-fact-"),
        vec![
            "detail-fact-developer-heading",
            "detail-fact-developer",
            "detail-fact-installed-heading",
            "detail-fact-installed",
            "detail-fact-time-played-heading",
            "detail-fact-offline-heading",
            "detail-fact-offline",
        ]
    );
}

#[test]
fn details_description_spacing_only_applies_when_description_is_emitted() {
    let without_description = item(
        "plain",
        "Plain",
        vec![variant("native", "plain-native", Availability::Ready)],
    );
    let mut with_description = without_description.clone();
    with_description
        .tags
        .push("description:A concise description.".to_string());
    for (catalog_item, described) in [
        (without_description, None),
        (with_description, Some("A concise description.")),
    ] {
        let mut shell = fixture_core(vec![catalog_item]);
        shell.nav.selected_item = Some(0);
        shell.go(Route::Details);
        let scene = show(&mut shell);
        assert!(find(&scene, "detail-availability-reason").is_some());
        assert!(find(&scene, "detail-ways-heading").is_some());
        assert_eq!(
            find(&scene, "detail-description").map(|node| node.label.as_str()),
            described
        );
    }
}

#[test]
fn library_and_details_scene_styles_are_token_keys_only() {
    let mut shell = fixture_core(vec![item(
        "game",
        "Game",
        vec![variant("native", "game", Availability::Ready)],
    )]);
    shell.go(Route::Library);
    let library = show(&mut shell);
    shell.nav.selected_item = Some(0);
    shell.go(Route::Details);
    let details = show(&mut shell);
    for node in library.nodes.iter().chain(&details.nodes) {
        assert!(
            node.look.token != Token::UnderlayRole && node.look.token != Token::OverlayRole,
            "{} must be styled by a colour of the design",
            node.id
        );
    }
}

#[test]
fn shared_prompt_rows_are_outline_only_plain_text_with_token_spacing() {
    fn assert_prompt_paint(scene: &Scene, prompt_count: usize) {
        assert!(
            !below(scene, "prompts")
                .iter()
                .any(|node| node.id.contains("-fill")),
            "prompt rows must not emit filled chip surfaces"
        );
        for index in 0..prompt_count {
            let prefix = format!("home-prompt-keycap-{index}");
            let keycap = find_below(scene, "prompts", &prefix).unwrap();
            let border_id = format!("{prefix}-border");
            let border = find_below(scene, "prompts", &border_id).unwrap();
            let verb_id = format!("home-prompt-verb-{index}");
            let verb = find_below(scene, "prompts", &verb_id).unwrap();
            assert_eq!(keycap.look.token, Token::Transparent);
            assert_eq!(verb.look.token, Token::Transparent);
            assert_eq!(keycap.look.ink, Some(Token::TextSecondary));
            assert_eq!(verb.look.ink, Some(Token::TextSecondary));
            assert_eq!(border.look.token, Token::Transparent);
            assert_eq!(
                border.look.border,
                Some((Token::BorderStrong, BorderWeight::Keycap))
            );
            assert_eq!(
                quiet_console_corner(&border_id, false, true),
                Some(Corner::Small)
            );
            assert_eq!(
                quiet_console_corner(&border_id, false, false),
                Some(Corner::Pill)
            );
            assert!(
                below(scene, &border_id).is_empty(),
                "runtime border node must replace scanline outline children"
            );
        }
    }

    let mut shell = fixture_core(vec![item(
        "ready",
        "Ready Game",
        vec![variant("native", "ready-app", Availability::Ready)],
    )]);
    shell.set_control_bindings(vec![
        binding("shell", "Search.open", "Search", "SELECT"),
        binding("shell", "Filter.next", "Filter", "Y"),
        binding("shell", "Quick", "Quick", "X"),
        binding("global", "Activate", "Activate", "A"),
    ]);
    let home = paint(&mut shell, &desktop(), "A Open     PF Safe Return");
    assert_prompt_paint(&home, 4);

    shell.go(Route::Library);
    assert_prompt_paint(&show(&mut shell), 2);
    shell.nav.focus = 5;
    assert_prompt_paint(&show(&mut shell), 3);
}

#[test]
fn chrome_status_uses_observed_battery_and_optional_attention() {
    struct Status(u8, Option<&'static str>);
    impl DeviceStatusPort for Status {
        fn status(&self) -> Result<DeviceStatus, String> {
            Ok(DeviceStatus {
                battery_percent: self.0,
                attention_message: self.1.map(str::to_owned),
            })
        }
    }
    let mut shell = fixture_core(vec![item(
        "ready",
        "Ready Game",
        vec![variant("native", "ready-app", Availability::Ready)],
    )]);
    shell.load_device_status(&Status(25, None));
    assert_eq!(shell.power.battery_percent, Some(25));
    let scene = show(&mut shell);
    assert!(find(&scene, "battery-level").is_some());
    assert!(find(&scene, "attention-pill").is_none());
    assert!(find(&scene, "wifi-glyph").is_none());

    shell.load_network(
        Ok(NetworkState {
            interface_present: true,
            enabled: true,
            connected_ssid: Some("Moonlit Arcade".to_string()),
            signal: Some(78),
        }),
        Ok(vec![]),
    );
    assert!(find(&show(&mut shell), "wifi-glyph").is_some());

    shell.load_device_status(&Status(100, Some("Controller battery low")));
    assert_eq!(shell.power.battery_percent, Some(100));
    let scene = show(&mut shell);
    assert!(find(&scene, "battery-level").is_some());
    assert_eq!(label(&scene, "attention"), "Controller battery low");
    assert_eq!(
        children(&scene, "rooms")
            .iter()
            .map(|node| node.id.as_str())
            .collect::<Vec<_>>(),
        vec![
            "room-keycap-left-border",
            "room-home",
            "room-library",
            "room-settings",
            "room-keycap-right-border",
        ]
    );
    assert_eq!(
        children(&scene, "attention-pill-border")
            .iter()
            .map(|node| node.id.as_str())
            .collect::<Vec<_>>(),
        vec!["attention-pill", "attention-dot", "attention"]
    );
}

#[test]
fn chrome_room_strip_follows_css_geometry() {
    let mut shell = shell_core();
    for text_scale in [100, 150, 200] {
        shell.comfort.text_scale = text_scale;
        for route in [Route::Home, Route::Library, Route::Settings] {
            shell.go(route);
            let scene = show(&mut shell);
            assert!(
                find_below(&scene, "rooms-layout-anchor", "rooms").is_some(),
                "{route:?} must render the status strip through the layout seam"
            );
            for id in [
                "room-home",
                "room-library",
                "room-settings",
                "room-keycap-left",
                "room-keycap-right",
            ] {
                assert!(find_below(&scene, "rooms", id).unwrap().look.centered);
            }
        }
    }
}

#[test]
fn quiet_console_component_radii_follow_tokens_and_text_scale() {
    fn assert_corner(scene: &Scene, id: &str, corner: Corner) {
        let node = find(scene, id).unwrap_or_else(|| panic!("missing scene node {id}"));
        assert_eq!(
            quiet_console_corner(id, node.action.is_some(), true),
            Some(corner),
            "{id}"
        );
    }

    for text_scale in [100, 200] {
        let mut shell = shell_core();
        shell.comfort.text_scale = text_scale;

        let home = show(&mut shell);
        assert_corner(&home, "item-i0", Corner::Medium);
        assert_corner(&home, "home-card-art-i0", Corner::Medium);
        assert_corner(&home, "room-keycap-left", Corner::Small);

        shell.go(Route::Library);
        let library = show(&mut shell);
        assert_corner(&library, "library-search", Corner::Medium);
        assert_corner(&library, "library-filter-0", Corner::Medium);
        assert_corner(&library, "library-item-i0", Corner::Medium);

        shell.nav.selected_item = Some(0);
        shell.go(Route::Details);
        let details = show(&mut shell);
        assert_corner(&details, "detail-cover", Corner::Large);
        assert_corner(&details, "detail-variant-0", Corner::Medium);

        shell.load_preferences(&preferences(true), true).unwrap();
        shell.comfort.text_scale = text_scale;
        shell.go(Route::Settings);
        let settings = settings_scene(&mut shell);
        assert_corner(&settings, "settings-nav-accessibility", Corner::Medium);
        assert_corner(
            &settings,
            "settings-row-accessibility-textScale",
            Corner::Medium,
        );
        assert_corner(
            &settings,
            "settings-text-scale-segmented-control",
            Corner::Medium,
        );
        assert_corner(
            &settings,
            "settings-toggle-accessibility-highContrast-track",
            Corner::Pill,
        );
        assert_corner(
            &settings,
            "settings-toggle-accessibility-highContrast-knob",
            Corner::Pill,
        );
    }
}

#[test]
fn variant_chooser_bounds_are_responsive_and_rows_remain_focusable() {
    let variants = (0..3)
        .map(|index| {
            variant(
                &format!("variant-{index}"),
                &format!("game-{index}"),
                Availability::Ready,
            )
        })
        .collect();
    let mut shell = fixture_core(vec![item("game", "Many Moons", variants)]);
    shell.nav.selected_item = Some(0);
    shell.go(Route::VariantChooser);

    for facts in [compact(), desktop()] {
        for focus in 0..3 {
            shell.nav.focus = focus;
            let scene = paint(&mut shell, &facts, "");
            assert_eq!(ids_starting(&scene, "chooser-").len(), 5);
            for id in ids_starting(&scene, "chooser-variant-") {
                let row = top(&scene, &id).unwrap();
                assert_eq!(row.role, Role::Button);
                assert_eq!(row.action, Some(NodeAction::Activate));
            }
            let focused_id = format!("chooser-variant-{focus}");
            assert!(top(&scene, &focused_id).unwrap().state.focused);
        }
    }
}

/// The ids occur at the top in this order.
fn assert_quick_flow(scene: &Scene, ids: &[&str]) {
    let tops = top_ids(scene);
    for pair in ids.windows(2) {
        assert!(
            order_of(&tops, pair[0]) < order_of(&tops, pair[1]),
            "{pair:?}"
        );
    }
}

fn max_scale_quick_core(power_status: Option<&str>) -> ShellCore {
    let mut shell = shell_core();
    shell.comfort.text_scale = 200;
    shell.load_power(
        Ok(vec![
            capability(PowerAction::PowerOff, Support::Supported),
            capability(PowerAction::Restart, Support::Supported),
            capability(PowerAction::Sleep, Support::Supported),
        ]),
        Ok(no_idle()),
    );
    shell.power.power_status = power_status.map(str::to_owned);
    shell.go(Route::Quick);
    shell
}

/// The quick panel where its reassurance has no room.
fn crowded_quick_scene(shell: &mut ShellCore) -> Scene {
    let crowded = SurfaceFacts {
        truth_fits: false,
        ..desktop()
    };
    paint(shell, &crowded, "A Open · B Back")
}

#[test]
fn quick_max_scale_yields_truth_to_keep_rows_within_panel() {
    let mut shell = max_scale_quick_core(None);
    let scene = crowded_quick_scene(&mut shell);
    assert!(find(&scene, "quick-truth").is_none());
    assert_quick_flow(
        &scene,
        &[
            "quick-power-sleep",
            "quick-power-idle",
            "quick-capture-screenshot",
        ],
    );
}

#[test]
fn quick_max_scale_never_drops_or_overflows_power_status() {
    let mut shell = max_scale_quick_core(Some("Power actions are unavailable"));
    let scene = crowded_quick_scene(&mut shell);
    assert!(find(&scene, "quick-power-status").is_some());
    assert!(find(&scene, "quick-truth").is_none());
    assert_quick_flow(&scene, &["quick-capture-screenshot", "quick-power-status"]);
}

#[test]
fn quick_rows_follow_scaled_sleep_auto_sleep_order() {
    let mut shell = max_scale_quick_core(None);
    assert_quick_flow(
        &quick_scene(&mut shell),
        &[
            "quick-power-sleep",
            "quick-power-idle",
            "quick-capture-screenshot",
        ],
    );
}

#[test]
fn quick_power_status_flows_between_capture_row_and_truth() {
    let mut shell = shell_core();
    shell.comfort.text_scale = 100;
    shell.power.power_status = Some("Power actions are unavailable".to_string());
    shell.go(Route::Quick);
    assert_quick_flow(
        &quick_scene(&mut shell),
        &[
            "quick-capture-screenshot",
            "quick-power-status",
            "quick-truth",
        ],
    );
}

#[test]
fn reasons_are_cut_to_the_cells_above_the_footer() {
    let shell = fixture_core(vec![item(
        "away",
        "Away Game",
        vec![variant("stream", "away", blocked("connect to a network first"))],
    )]);
    let reason = |reasons: bool, room: Option<i64>| {
        show_cues(
            &shell.titles.items[0],
            Showcase::Shelf,
            reasons,
            20,
            18,
            room,
            100,
        )
        .into_iter()
        .find(|node| node.id == "home-card-reason-away")
        .map(|node| node.label)
    };
    assert_eq!(
        reason(true, None).as_deref(),
        Some("⊘ Network required — connect to a network first")
    );
    assert_eq!(
        reason(true, Some(24)).as_deref(),
        Some("⊘ Network required —…")
    );
    assert_eq!(reason(false, None), None);
}
