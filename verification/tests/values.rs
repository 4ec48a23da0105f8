//! Values on their own: time, text, titles and images.

use pf_shell_core::art::{
    catalog_image, draw_fade, draw_wifi_glyph, hash_bytes, image_with_digest,
    hero_wash_source, library_footer_fade_source, plate_treatment, wifi_glyph_source, write_hex, ArtTreatment,
};
use pf_shell_core::calendar::{
    civil_from_days, days_from_civil, days_in_month, is_leap_year, wrap_i32, wrap_u8,
    ManualTimePicker,
};
use pf_shell_core::cards::scale_aware_single_line;
use pf_shell_core::catalog::{
    AppKind, AppManifestRef, Availability, CatalogItem, CatalogPresentation, Provenance,
    UserProjection, Variant,
};
use pf_shell_core::chrome::write_clock;
use pf_shell_core::clock::{Duration, SystemTime};
use pf_shell_core::collection::find_recent_uses;
use pf_shell_core::cutting::{
    drop_char, has_prefix, has_suffix, is_all_digits, is_blank, repeat_char, replace_each,
    rest_after_last, split_at_each, split_lines, split_once, trim_lead, trim_suffix,
};
use pf_shell_core::history::{EndPrecision, EndStamp, HistoryEntry};
use pf_shell_core::library::{find_shelf, order_library, search_items};
use pf_shell_core::playtime::{
    derive_playtime, find_latest_use, format_playtime, later_time, Playtime,
};
use pf_shell_core::ports::{AppliedValue, ConnectResult};
use pf_shell_core::preferences::{preference_is_applied, read_scale};
use pf_shell_core::services::{applied_bool_status, connect_status};
use pf_shell_core::state::{LibraryFilter, LibraryGrid};
use pf_shell_core::text::{
    action_label, ascii_lowercase, capitalize, contains_text, decimal, ellipsize_to_cells,
    humanize_identifier, join, padded_decimal, parse_number, same_text, signed_decimal,
    split_words, strip_prefix, text_precedes, trim_percent, Breaks,
};
use pf_shell_core::textmap::TextMap;
use pf_shell_core::titles::{
    availability_text, detail_provenance_text, find_pair, find_tag, kind_text, make_item,
    ready_variant_capability, ready_variant_capability_cue, ready_variant_label, sentence_kind,
    ReadyVariantCapability,
};

fn history_entry(
    item_id: &str,
    started_at: Option<SystemTime>,
    ended_at: Option<(SystemTime, EndPrecision)>,
) -> HistoryEntry {
    HistoryEntry {
        item_id: item_id.to_string(),
        started_at,
        ended_at: ended_at.map(|(at, precision)| EndStamp { at, precision }),
    }
}

fn at(secs: i64) -> SystemTime {
    SystemTime::from_unix_secs(secs)
}

fn variant(id: &str, app_id: &str, availability: Availability) -> Variant {
    Variant {
        id: id.to_string(),
        availability,
        requirements: vec![],
        provenance: Provenance {
            provider_id: format!("provider-{id}"),
            app_version: Some("1.0".to_string()),
            runtime_family: "native".to_string(),
        },
        launch_target: AppManifestRef {
            app_id: app_id.to_string(),
            descriptor_stem: Some(id.to_string()),
        },
    }
}

fn item(id: &str, title: &str, variants: Vec<Variant>) -> CatalogItem {
    CatalogItem {
        id: id.to_string(),
        title: title.to_string(),
        kind: AppKind::Game,
        presentation: CatalogPresentation {
            icon_reference: None,
            icon_decodable: false,
        },
        tags: vec!["fictional".to_string(), format!("group-{id}")],
        variants,
    }
}

fn no_projection() -> UserProjection {
    UserProjection {
        favorite_item_ids: vec![],
        pinned_variant_ids: vec![],
    }
}

fn decode(bytes: &[u8]) -> (u32, u32, Vec<u8>) {
    let decoder = png::Decoder::new(std::io::Cursor::new(bytes));
    let mut reader = decoder.read_info().unwrap();
    let mut pixels: Vec<u8> = vec![0; reader.output_buffer_size()];
    let info = reader.next_frame(&mut pixels).unwrap();
    pixels.truncate(info.buffer_size());
    (info.width, info.height, pixels)
}

#[test]
fn playtime_requires_both_stamps_and_unknown_is_absent() {
    let now = at(1_000);
    let totals = derive_playtime(&[
        history_entry("no-start", None, Some((now, EndPrecision::Observed))),
        history_entry("no-end", Some(now), None),
    ]);

    assert!(totals.is_empty());
}

#[test]
fn playtime_sums_clamps_and_propagates_approximate_precision() {
    let now = at(10_000);
    let totals = derive_playtime(&[
        history_entry(
            "ridgeline-rally",
            Some(now),
            Some((at(10_000 + 3_600), EndPrecision::Observed)),
        ),
        history_entry(
            "ridgeline-rally",
            Some(now),
            Some((at(10_000 + 600), EndPrecision::Approximate)),
        ),
        history_entry(
            "clock-went-back",
            Some(now),
            Some((at(10_000 - 5), EndPrecision::Observed)),
        ),
    ]);

    assert_eq!(
        totals.get("ridgeline-rally"),
        Some(Playtime {
            duration: Duration::from_secs(4_200),
            approximate: true,
        })
    );
    assert_eq!(
        totals.get("clock-went-back").unwrap().duration,
        Duration::zero()
    );
    assert_eq!(
        format_playtime(totals.get("ridgeline-rally").unwrap()),
        "Played ~1h 10m"
    );
    assert_eq!(
        format_playtime(totals.get("clock-went-back").unwrap()),
        "Played <1m"
    );
}

#[test]
fn playtime_format_omits_seconds_and_handles_sub_minute() {
    assert_eq!(
        format_playtime(Playtime {
            duration: Duration::from_secs(59),
            approximate: false,
        }),
        "Played <1m"
    );
    assert_eq!(
        format_playtime(Playtime {
            duration: Duration::from_secs(3 * 3_600 + 20 * 60 + 59),
            approximate: false,
        }),
        "Played 3h 20m"
    );
}

#[test]
fn playtime_below_an_hour_is_given_in_minutes() {
    let short = Playtime {
        duration: Duration::from_secs(60),
        approximate: true,
    };
    assert_eq!(format_playtime(short), "Played ~1m");
    let hour = Playtime {
        duration: Duration::from_secs(3_600),
        approximate: false,
    };
    assert_eq!(format_playtime(hour), "Played 1h 0m");
}

#[test]
fn playtime_of_a_title_never_shrinks() {
    let first = history_entry("a", Some(at(10)), Some((at(70), EndPrecision::Observed)));
    let back = history_entry("a", Some(at(90)), Some((at(80), EndPrecision::Observed)));
    let one = derive_playtime(&[history_entry(
        "a",
        Some(at(10)),
        Some((at(70), EndPrecision::Observed)),
    )]);
    let two = derive_playtime(&[first, back]);
    assert_eq!(one.get("a").unwrap().duration, Duration::from_secs(60));
    assert_eq!(two.get("a").unwrap().duration, Duration::from_secs(60));
    assert_eq!(two.get("b"), None);
}

#[test]
fn the_latest_use_is_the_latest_stamp_of_all() {
    let entries = [
        history_entry("a", Some(at(100)), Some((at(300), EndPrecision::Observed))),
        history_entry("a", Some(at(200)), None),
        history_entry("b", Some(at(900)), None),
    ];
    assert_eq!(find_latest_use(&entries, "a"), Some(at(300)));
    assert_eq!(find_latest_use(&entries, "c"), None);
    assert_eq!(later_time(Some(at(1)), None), Some(at(1)));
    assert_eq!(later_time(Some(at(1)), Some(at(2))), Some(at(2)));
    assert_eq!(later_time(None, None), None);
}

#[test]
fn durations_saturate_and_instants_subtract() {
    let most = Duration::new(u64::MAX, 999_999_999);
    assert_eq!(most.saturating_add(Duration::from_secs(1)), most);
    assert_eq!(
        Duration::new(1, 600_000_000).saturating_add(Duration::new(1, 600_000_000)),
        Duration::new(3, 200_000_000)
    );
    assert_eq!(
        SystemTime::new(5, 100).duration_since(SystemTime::new(3, 200)),
        Some(Duration::new(1, 999_999_900))
    );
    assert_eq!(at(3).duration_since(at(5)), None);
    assert_eq!(at(5).duration_since(at(5)), Some(Duration::zero()));
}

#[test]
fn leap_years_follow_the_gregorian_rule() {
    assert!(is_leap_year(2024));
    assert!(is_leap_year(2000));
    assert!(!is_leap_year(1900));
    assert!(!is_leap_year(2023));
    assert_eq!(days_in_month(2024, 2), 29);
    assert_eq!(days_in_month(2023, 2), 28);
    assert_eq!(days_in_month(2023, 4), 30);
    assert_eq!(days_in_month(2023, 12), 31);
}

#[test]
fn days_and_dates_are_the_same_thing() {
    assert_eq!(days_from_civil(1970, 1, 1), 0);
    assert_eq!(days_from_civil(2000, 3, 1), 11_017);
    assert_eq!(days_from_civil(1969, 12, 31), -1);
    assert_eq!(days_from_civil(1970, 0, 1), -31);
    assert_eq!(days_from_civil(1970, 13, 1), 365);
    assert_eq!(days_from_civil(1972, 14, 1), 1_127);
    assert_eq!(days_from_civil(1970, 255, 255), 8_024);
    assert_eq!(civil_from_days(0), (1970, 1, 1));
    assert_eq!(civil_from_days(-1), (1969, 12, 31));
    for day in [-800_000i64, -1, 0, 59, 60, 11_016, 11_017, 19_782, 2_932_896] {
        let (year, month, date) = civil_from_days(day);
        assert_eq!(days_from_civil(year, month, date), day);
    }
}

#[test]
fn wheels_wrap_at_both_ends() {
    assert_eq!(wrap_i32(5, 4, 7, 2), 9);
    assert_eq!(wrap_i32(1970, -1, 1970, 9999), 9999);
    assert_eq!(wrap_i32(9999, 1, 1970, 9999), 1970);
    assert_eq!(wrap_u8(12, 1, 1, 12), 1);
    assert_eq!(wrap_u8(0, -1, 0, 23), 23);
}

#[test]
fn the_picker_shows_the_clock_that_it_was_set_from() {
    let picker = ManualTimePicker::from_system_time(at(1_709_210_040));
    assert_eq!(
        (picker.year, picker.month, picker.day),
        (2024, 2, 29)
    );
    assert_eq!((picker.hour, picker.minute, picker.field), (12, 34, 0));
    assert_eq!(picker.system_time(), at(1_709_210_040));

    let early = ManualTimePicker::from_system_time(at(-1));
    assert_eq!(early, ManualTimePicker::default_picker());
}

#[test]
fn adjusting_forth_and_back_changes_nothing() {
    let start = ManualTimePicker {
        year: 2024,
        month: 3,
        day: 15,
        hour: 23,
        minute: 59,
        field: 3,
    };
    let mut picker = start;
    picker.adjust(1);
    assert_eq!(picker.hour, 0);
    picker.adjust(-1);
    assert_eq!(picker, start);
}

#[test]
fn the_clock_is_written_with_two_digits_each() {
    assert_eq!(write_clock(at(9 * 3_600 + 41 * 60)), "9:41");
    assert_eq!(write_clock(at(13 * 3_600 + 5 * 60 + 59)), "13:05");
}

#[test]
fn numbers_are_written_in_decimal() {
    assert_eq!(decimal(0), "0");
    assert_eq!(decimal(u64::MAX), "18446744073709551615");
    assert_eq!(signed_decimal(-70), "-70");
    assert_eq!(signed_decimal(i64::MIN), "-9223372036854775808");
    assert_eq!(padded_decimal(7, 2), "07");
    assert_eq!(padded_decimal(2024, 2), "2024");
}

#[test]
fn numbers_are_read_like_a_number_parser_does() {
    assert_eq!(parse_number("150"), Some(150));
    assert_eq!(parse_number("+150"), Some(150));
    assert_eq!(parse_number("65535"), Some(65_535));
    assert_eq!(parse_number("65536"), None);
    assert_eq!(parse_number(""), None);
    assert_eq!(parse_number("-1"), None);
    assert_eq!(trim_percent("150%%"), "150");
    assert_eq!(read_scale("150%"), 150);
    assert_eq!(read_scale("900%"), 200);
    assert_eq!(read_scale("5%"), 100);
    assert_eq!(read_scale("much"), 100);
}

#[test]
fn text_is_lowered_raised_and_split() {
    assert_eq!(ascii_lowercase("QUICK Ä"), "quick Ä");
    assert_eq!(capitalize("ßen"), "SSen");
    assert_eq!(capitalize(""), "");
    assert_eq!(
        split_words("one\u{2003}two  three", Breaks::Space),
        vec!["one", "two", "three"]
    );
    assert_eq!(
        join(&vec!["a".to_string(), "b".to_string()], " · "),
        "a · b"
    );
    assert!(contains_text("Hollow Tides", "low T"));
    assert!(!contains_text("Hollow", "Tides"));
    assert!(same_text("a", "a"));
    assert_eq!(strip_prefix("size:2.4 GB", "size:").as_deref(), Some("2.4 GB"));
    assert_eq!(strip_prefix("size", "size:"), None);
    assert!(text_precedes("Alpha", "Beta"));
    assert!(!text_precedes("Beta", "Alpha"));
    assert!(text_precedes("Alp", "Alpha"));
    assert!(!text_precedes("Alpha", "Alpha"));
}

#[test]
fn identifiers_become_words() {
    assert_eq!(humanize_identifier("app.toml"), "App toml");
    assert_eq!(humanize_identifier("standard-edition"), "Standard edition");
    assert_eq!(
        humanize_identifier("Installed applications:drift loop:pocketforge native"),
        "Drift Loop"
    );
    assert_eq!(action_label("SafeReturn"), "Safe Return");
    assert_eq!(action_label("Move.Up"), "Move Up");
    assert_eq!(action_label("Activate"), "Activate");
}

#[test]
fn ellipsized_text_keeps_whole_words_and_fits() {
    assert_eq!(ellipsize_to_cells("Everything else", 13), "Everything…");
    assert_eq!(ellipsize_to_cells("Everything else", 15), "Everything else");
    assert_eq!(ellipsize_to_cells("Everything", 5), "Ever…");
    assert_eq!(ellipsize_to_cells("Everything", -3), "…");
    assert!(ellipsize_to_cells("Everything else", 13).chars().count() <= 13);
    assert_eq!(scale_aware_single_line("Everything else", 3, 100), "Everything else");
    assert_eq!(scale_aware_single_line("Everything else", 13, 150), "Everything…");
}

#[test]
fn texts_are_cut_like_strings_are() {
    assert_eq!(
        split_once("A Open     PF", "     "),
        Some(("A Open".to_string(), "PF".to_string()))
    );
    assert_eq!(split_once("A Open", "     "), None);
    assert_eq!(rest_after_last("a:b:c", ":").as_deref(), Some("c"));
    assert_eq!(rest_after_last("abc", ":"), None);
    assert_eq!(split_at_each("a · b · c", " · "), vec!["a", "b", "c"]);
    assert_eq!(split_at_each("", " · "), vec![""]);
    assert_eq!(replace_each("a     b     c", "     ", " · "), "a · b · c");
    assert_eq!(split_lines("one\ntwo\r\nthree"), vec!["one", "two", "three"]);
    assert_eq!(trim_lead("\u{3000}  Safe Return"), "Safe Return");
    assert!(is_blank("\u{3000} \t"));
    assert!(!is_blank(" a "));
    assert!(has_suffix("room-home-underline", "-underline"));
    assert!(has_prefix("room-home", "room-"));
    assert_eq!(trim_suffix("12-border", "-border"), "12");
    assert!(is_all_digits("12"));
    assert!(!is_all_digits(""));
    assert!(!is_all_digits("1a"));
    assert_eq!(drop_char("a%b%", '%'), "ab");
    assert_eq!(repeat_char('•', 3), "•••");
}

#[test]
fn text_maps_hold_the_last_value_of_each_key() {
    let mut map: TextMap<SystemTime> = TextMap::new();
    assert!(map.is_empty());
    map.set("a", at(1));
    map.set("b", at(2));
    map.set("a", at(3));
    assert_eq!(map.get("a"), Some(at(3)));
    assert_eq!(map.get("b"), Some(at(2)));
    assert_eq!(map.get("c"), None);
    assert!(!map.is_empty());
}

#[test]
fn colon_chained_variant_identity_becomes_a_human_name() {
    let mut chained = variant(
        "Installed applications:drift loop:pocketforge native",
        "drift-loop",
        Availability::Ready,
    );
    chained.provenance.runtime_family = "pocketforge/native".to_string();
    let label = ready_variant_label(&chained);
    assert_eq!(label, "Drift Loop · Installed on this device");
    assert!(!label.contains(':'));
    assert!(!label.starts_with("Installed applications"));
}

#[test]
fn single_ready_variant_label_reads_as_a_natural_capability_phrase() {
    let native = variant("native", "only-native", Availability::Ready);

    assert_eq!(
        ready_variant_label(&native),
        "Native · Installed on this device"
    );
}

#[test]
fn capabilities_follow_the_runtime_family() {
    let mut way = variant("way", "way", Availability::Ready);
    for (family, capability, cue) in [
        ("pocketforge/native", ReadyVariantCapability::Native, "Installed"),
        ("native", ReadyVariantCapability::Native, "Installed"),
        ("pc-stream", ReadyVariantCapability::Stream, "Available over the network"),
        ("other-runtime", ReadyVariantCapability::Unknown, "Source availability unknown"),
        ("", ReadyVariantCapability::Unknown, "Source availability unknown"),
    ] {
        way.provenance.runtime_family = family.to_string();
        assert_eq!(ready_variant_capability(&way), capability, "{family}");
        assert_eq!(ready_variant_capability_cue(&way), cue, "{family}");
    }
}

#[test]
fn kinds_and_availabilities_have_their_words() {
    assert_eq!(kind_text(&AppKind::Game), "GAME");
    assert_eq!(sentence_kind(&AppKind::Game), "Game");
    assert_eq!(kind_text(&AppKind::System), "TOOL");
    assert_eq!(availability_text(&Availability::Ready, false), "Ready");
    assert_eq!(
        availability_text(
            &Availability::NeedsSetup {
                reason: "choose a profile".to_string()
            },
            false
        ),
        "Finish setup — choose a profile"
    );
    assert_eq!(
        detail_provenance_text(
            &AppKind::Game,
            &variant("app.toml", "game", Availability::Ready)
        ),
        "Game · Provider app toml · App toml"
    );
}

#[test]
fn items_take_their_facts_from_the_catalog() {
    let mut source = item(
        "a",
        "A",
        vec![variant("native", "app", Availability::Ready)],
    );
    source.tags.push("description:A quiet game.".to_string());
    source.tags.push("size:2.4 GB".to_string());
    let projection = UserProjection {
        favorite_item_ids: vec!["a".to_string()],
        pinned_variant_ids: vec![("a".to_string(), "native".to_string())],
    };
    let made = make_item(&source, &projection, None);
    assert_eq!(made.description.as_deref(), Some("A quiet game."));
    assert_eq!(made.size_fact.as_deref(), Some("2.4 GB"));
    assert_eq!(made.last_played_fact, None);
    assert!(made.favorite);
    assert_eq!(made.pinned_variant_id.as_deref(), Some("native"));
    assert!(made.ready());
    assert_eq!(made.active_ready_variant(), Some(0));
    assert_eq!(find_tag(&source.tags, "size:").as_deref(), Some("2.4 GB"));
    assert_eq!(find_pair(&projection.pinned_variant_ids, "b"), None);
}

#[test]
fn a_ready_title_has_a_ready_variant() {
    let blocked = Availability::NeedsNetwork {
        reason: "offline".to_string(),
    };
    let mixed = make_item(
        &item(
            "a",
            "A",
            vec![
                variant("cloud", "cloud", blocked),
                variant("native", "native", Availability::Ready),
            ],
        ),
        &no_projection(),
        None,
    );
    assert!(mixed.ready());
    assert_eq!(mixed.ready_variants(), vec![1]);
    let none = make_item(&item("b", "B", vec![]), &no_projection(), None);
    assert!(!none.ready());
    assert_eq!(none.active_ready_variant(), None);
    assert!(none.best_variant().is_none());
    assert_eq!(
        none.best_availability(),
        Availability::UnsupportedCapability {
            capability: "catalog item has no variants".to_string()
        }
    );
}

#[test]
fn the_library_is_ordered_and_searched() {
    let items = vec![
        make_item(&item("z", "Zulu", vec![variant("n", "z", Availability::Ready)]), &no_projection(), None),
        make_item(&item("b", "Beta", vec![]), &no_projection(), None),
        make_item(&item("a", "Alpha", vec![variant("n", "a", Availability::Ready)]), &no_projection(), None),
    ];
    assert_eq!(find_shelf(&items), vec![0, 2]);
    let uses = find_recent_uses(&items, &[history_entry("a", Some(at(5)), None)]);
    assert_eq!(order_library(&items, &uses, LibraryFilter::Recent), vec![2, 0, 1]);
    assert_eq!(order_library(&items, &uses, LibraryFilter::Alphabetical), vec![2, 1, 0]);
    assert_eq!(order_library(&items, &uses, LibraryFilter::Games), vec![0, 1, 2]);
    assert_eq!(order_library(&items, &uses, LibraryFilter::EverythingElse), Vec::<usize>::new());
    assert_eq!(search_items(&items, ""), vec![0, 1, 2]);
    assert_eq!(search_items(&items, "ALPHA"), vec![2]);
    assert_eq!(search_items(&items, "group-b fictional"), vec![1]);
    assert_eq!(search_items(&items, "alpha beta"), Vec::<usize>::new());
}

#[test]
fn searching_ignores_case_beyond_ascii() {
    let items = vec![make_item(&item("e", "ÉTÉ", vec![]), &no_projection(), None)];
    assert_eq!(search_items(&items, "été"), vec![0]);
}

#[test]
fn toolbars_wrap_on_narrow_grids() {
    let wide = LibraryGrid {
        columns: 6,
        toolbar_columns: 4,
    };
    let narrow = LibraryGrid {
        columns: 3,
        toolbar_columns: 2,
    };
    assert!(!wide.wrapped_toolbar());
    assert!(narrow.wrapped_toolbar());
    assert_eq!(wide.toolbar_rows(), 1);
    assert_eq!(narrow.toolbar_rows(), 2);
    assert_eq!((narrow.toolbar_row(3), narrow.toolbar_column(3)), (1, 1));
    assert_eq!(narrow.toolbar_to_grid_column(1), 2);
    assert_eq!(narrow.grid_to_toolbar_column(2), 1);
    assert_eq!(wide.toolbar_to_grid_column(3), 5);
}

#[test]
fn digests_name_images() {
    assert_eq!(write_hex(&vec![0x00, 0xab, 0x5f]), "00ab5f");
    assert_eq!(
        image_with_digest(&vec![0x0f], vec![1]).id,
        "sha256:0f"
    );
    let image = catalog_image(b"abc".to_vec());
    assert_eq!(
        image.id,
        "sha256:ba7816bf8f01cfea414140de5dae2223b00361a396177a9cb410ff61f20015ad"
    );
    assert_eq!(image.bytes, b"abc".to_vec());
}

#[test]
fn plates_follow_from_the_id_alone() {
    assert_eq!(hash_bytes(b""), 0xcbf2_9ce4_8422_2325);
    assert_eq!(hash_bytes(b"a"), 0xaf74_d84c_8601_ec8c);
    let plate = plate_treatment("plate-id");
    assert!(matches!(
        plate,
        ArtTreatment::EditionPlate {
            palette: 0..=5,
            motif: 0..=5
        }
    ));
    assert_eq!(plate, plate_treatment("plate-id"));
}

#[test]
fn drawn_images_decode_to_what_was_drawn() {
    let glyph = wifi_glyph_source();
    assert_eq!(decode(&glyph.bytes), (24, 24, draw_wifi_glyph()));
    let fade = library_footer_fade_source(7);
    assert_eq!(fade.id, "quiet-console:library-footer-fade-7");
    assert_eq!(decode(&fade.bytes), (7, 96, draw_fade(7)));
    assert_eq!(
        library_footer_fade_source(1280).id,
        "quiet-console:library-footer-fade"
    );
    let pixels: Vec<u8> = (0..1280 * 344 * 4).map(|byte| (byte % 251) as u8).collect();
    let wash = hero_wash_source(&pixels);
    assert_eq!(
        wash.id,
        "quiet-console:aura-ridgeline:201-111-87@0.5/68%;58-43-78@0.65/70%;opacity=0.55"
    );
    assert_eq!(decode(&wash.bytes), (1280, 344, pixels));
}

#[test]
fn library_footer_fade_spans_the_full_band_on_wide_surfaces() {
    let fade = library_footer_fade_source(1920);
    let (width, height, pixels) = decode(&fade.bytes);
    assert_eq!((width, height), (1920, 96));
    assert!(pixels[3] <= 3, "top row must be effectively transparent");
    let bottom_alpha: u8 = pixels[95 * 1920 * 4 + 3];
    assert_eq!(bottom_alpha, 255, "bottom row must be fully opaque");
}

#[test]
fn results_of_services_are_put_into_words() {
    let same: Result<AppliedValue<bool>, String> = Ok(AppliedValue {
        requested: true,
        applied: true,
    });
    assert_eq!(applied_bool_status("Automatic time", &same), "Automatic time applied · On");
    let other: Result<AppliedValue<bool>, String> = Ok(AppliedValue {
        requested: true,
        applied: false,
    });
    assert_eq!(
        applied_bool_status("Automatic time", &other),
        "Automatic time requested On · applied Off"
    );
    assert_eq!(
        connect_status(&Ok(ConnectResult::Progress("Authenticating".to_string()))),
        "Joining · Authenticating"
    );
    assert_eq!(
        connect_status(&Ok(ConnectResult::Connected {
            ssid: "Cedar Workshop".to_string()
        })),
        "Connected · Cedar Workshop"
    );
    assert!(connect_status(&Ok(ConnectResult::Refused)).contains("authentication refused"));
    assert!(preference_is_applied("textScale"));
    assert!(!preference_is_applied("volume"));
}

#[test]
fn the_order_of_sessions_does_not_matter() {
    let long = || history_entry("a", Some(at(0)), Some((at(3_600), EndPrecision::Observed)));
    let short = || history_entry("a", Some(at(5)), Some((at(65), EndPrecision::Approximate)));
    let other = || history_entry("b", Some(at(7)), Some((at(8), EndPrecision::Observed)));
    let expected = Some(Playtime {
        duration: Duration::from_secs(3_660),
        approximate: true,
    });
    for entries in [
        vec![long(), short(), other()],
        vec![other(), short(), long()],
        vec![short(), other(), long()],
    ] {
        let totals = derive_playtime(&entries);
        assert_eq!(totals.get("a"), expected);
        assert_eq!(totals.get("b").unwrap().duration, Duration::from_secs(1));
    }
}

#[test]
fn sessions_without_both_stamps_add_nothing_wherever_they_stand() {
    let kept = || history_entry("a", Some(at(0)), Some((at(90), EndPrecision::Observed)));
    let open = || history_entry("a", Some(at(10)), None);
    let unstarted = || history_entry("a", None, Some((at(20), EndPrecision::Approximate)));
    for entries in [
        vec![kept()],
        vec![open(), kept()],
        vec![kept(), unstarted()],
        vec![unstarted(), kept(), open()],
    ] {
        assert_eq!(
            derive_playtime(&entries).get("a"),
            Some(Playtime {
                duration: Duration::from_secs(90),
                approximate: false,
            })
        );
    }
}

#[test]
fn humanizing_twice_changes_nothing() {
    for (identifier, name) in [
        ("drift_loop", "Drift loop"),
        ("installed:drift_loop:native", "Drift Loop"),
        ("  pocket-forge__native ", "Pocket forge native"),
        ("émile", "Émile"),
        ("straße", "Straße"),
        ("ßeta", "SSeta"),
        ("", ""),
    ] {
        let once = humanize_identifier(identifier);
        assert_eq!(once, name);
        assert_eq!(humanize_identifier(&once), once);
    }
}

#[test]
fn blank_characters_are_those_of_unicode_white_space() {
    let mut blanks: Vec<u32> = vec![];
    for code in 0..=0x10ffffu32 {
        if let Some(c) = char::from_u32(code) {
            if is_blank(&c.to_string()) {
                blanks.push(code);
            }
        }
    }
    let mut expected: Vec<u32> = vec![];
    expected.extend(0x09..=0x0du32);
    expected.extend([0x20, 0x85, 0xa0, 0x1680]);
    expected.extend(0x2000..=0x200au32);
    expected.extend([0x2028, 0x2029, 0x202f, 0x205f, 0x3000]);
    assert_eq!(blanks, expected);
}

#[test]
fn humanizing_twice_changes_nothing_whatever_begins_a_word() {
    for code in 0..=0x10ffffu32 {
        if let Some(c) = char::from_u32(code) {
            let once = humanize_identifier(&format!("{c}x"));
            assert_eq!(humanize_identifier(&once), once, "{code:x}");
        }
    }
    for letter in 'a'..='z' {
        let raised = letter.to_ascii_uppercase();
        assert_eq!(
            humanize_identifier(&format!("chain:{letter}{letter}_{letter}:rest")),
            format!("{raised}{letter} {raised}")
        );
    }
}
