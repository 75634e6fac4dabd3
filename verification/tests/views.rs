use fp_window::components::{card_heading, icon_button, Glyph, Tone};
use fp_window::details::{details_panel, CloseControl, DetailsTab, PanelBody, PanelTitle, Verification};
use fp_window::exit::{decide_exit, on_close_requested, open_exit_dialog, DialogBody, Exit, ExitMode};
use fp_window::logs::{age, log_filter_chip, Age, LogFilter};
use fp_window::profiles::{profile_list, profiles_page, ActionLabel, EmptyHint, ProfileReading, ProfileRow, RuntimeState};
use fp_window::settings::{
    diagnostics_card, export_card, settings_card, settings_card_heading, settings_card_row, settings_card_view, settings_rows,
    SettingKey, SettingRow, SettingsCard, Source,
};
use fp_window::text::blank;
use fp_window::theme::Palette;
use fp_window::window::{
    footer_action, footer_items, list_chrome, open_data_dir, page_frame, should_refresh, Body, DataDirStep, FooterAction,
    FooterItem, Page, PanelPlacement, Tick, PANEL_WIDTH,
};
use fp_window::exit::{leave, CloseStep};

fn shades() -> Palette {
    Palette {
        bg: 201,
        panel: 202,
        border: 203,
        text: 204,
        text_soft: 205,
        muted: 206,
        dim: 207,
        secondary: 208,
        hover: 209,
        selected: 210,
        accent: 211,
        info: 212,
        success: 213,
        success_bg: 214,
        success_strong: 215,
        warning: 216,
        warning_bg: 217,
        danger: 218,
        danger_bg: 219,
        danger_bg_soft: 220,
        danger_strong: 221,
    }
}

fn row_of(id: u64, name: &str, state: RuntimeState) -> ProfileRow {
    ProfileRow {
        id,
        name: name.to_string(),
        seed: id * 1000,
        brand: "Chrome".to_string(),
        platform: "Win32".to_string(),
        language: "en-US".to_string(),
        timezone: "UTC".to_string(),
        data_dir: format!("/data/profiles/{id}"),
        core_name: "Chromium 148".to_string(),
        proxy_name: Some("Office".to_string()),
        state,
        state_label: format!("{state:?}"),
        state_message: Some("waiting for the proxy".to_string()),
        cdp_port: Some(9333),
        browser_pid: None,
        xray_pid: None,
        socks_port: None,
        started_at_ns: None,
        dropped_events: 3,
        last_warning: None,
        last_error: None,
        can_start: state == RuntimeState::Stopped,
        can_stop: state == RuntimeState::Running || state == RuntimeState::Starting,
        can_restart: state == RuntimeState::Running,
    }
}

#[test]
fn the_list_has_one_row_per_profile_with_the_chosen_one_lit() {
    let p = shades();
    let mut troubled = row_of(2, "Shopping", RuntimeState::Stopped);
    troubled.last_warning = Some("proxy slow".to_string());
    let rows = vec![row_of(1, "Work laptop", RuntimeState::Running), troubled];
    let readings = vec![
        ProfileReading { id: 9, verification: Verification::Unreadable("gone".to_string()), label: "Unreadable".to_string() },
        ProfileReading { id: 1, verification: Verification::Running, label: "Verifying".to_string() },
    ];
    let views = profile_list(&rows, Some(2), &readings, p);
    assert_eq!(views.len(), 2);
    assert_eq!(views[0].id, "profile-1");
    assert_eq!(views[0].paint.background, p.panel);
    assert_eq!(views[1].paint.background, p.selected);
    assert_eq!(views[0].badge.tone, Tone::Success);
    assert_eq!((views[0].badge.id.as_str(), views[0].badge.height), ("state-1", 22));
    assert_eq!(views[0].action.label, ActionLabel::Stop);
    assert_eq!((views[0].action_id.as_str(), views[0].action_for.as_str()), ("stop-1", "Work laptop"));
    assert_eq!(views[0].menu_id, "more-1");
    assert!(!views[0].menu.verify, "a reading in flight is not asked for twice");
    assert!(views[0].menu.restart);
    let badge = views[0].verification.as_ref().unwrap();
    assert_eq!((badge.id.as_str(), badge.tone, badge.label.as_str()), ("verification-Verifying", Tone::Info, "Verifying"));
    assert!(views[1].verification.is_none(), "a profile with nothing filed under its id was never read");
    let reordered = profile_list(
        &vec![row_of(2, "Shopping", RuntimeState::Stopped), row_of(1, "Work laptop", RuntimeState::Running)],
        None,
        &readings,
        p,
    );
    assert!(reordered[0].verification.is_none());
    assert_eq!(reordered[1].verification.as_ref().unwrap().id, "verification-Verifying");
    assert_eq!(views[1].action.label, ActionLabel::Start);
    assert_eq!((views[1].action_id.as_str(), views[1].action_for.as_str()), ("start-2", "Shopping"));
    assert_eq!(views[1].name, "Shopping");
    let signal = views[1].signal.as_ref().unwrap();
    assert_eq!((signal.id.as_str(), signal.message.as_str(), signal.colour), ("warning-2", "proxy slow", p.warning));
    assert_eq!(views[1].route.proxy.as_deref(), Some("Office"));
    assert!(profile_list(&vec![], None, &vec![], p).is_empty());
}

#[test]
fn the_panel_answers_for_the_chosen_profile() {
    let p = shades();
    let row = row_of(9, "Work", RuntimeState::Running);
    let panel = details_panel(Some(&row), None, DetailsTab::Args, true, p);
    assert_eq!(panel.placement, PanelPlacement::Beside { width: PANEL_WIDTH });
    assert!(matches!(panel.title, PanelTitle::Name(ref n) if n == "Work"));
    let verify = panel.verify.unwrap();
    assert_eq!(verify.id, "verify-9");
    assert!(verify.icon_only && verify.enabled);
    assert_eq!(panel.close, CloseControl::IconOnly);
    assert_eq!(panel.body, PanelBody::Args);
    assert!(panel.tabs[1].active && !panel.tabs[0].active && panel.tabs.iter().all(|t| t.enabled));

    let covering = details_panel(Some(&row), Some(&Verification::Running), DetailsTab::Details, false, p);
    assert_eq!(covering.placement, PanelPlacement::Covering);
    assert_eq!(covering.close, CloseControl::Back);
    assert!(!covering.verify.unwrap().enabled);

    let empty = details_panel(None, None, DetailsTab::Log, true, p);
    assert!(matches!(empty.title, PanelTitle::RuntimeDetails));
    assert!(empty.verify.is_none() && empty.subtitle.is_none());
    assert_eq!(empty.body, PanelBody::Empty);
    assert!(empty.tabs.iter().all(|t| !t.enabled));
}

#[test]
fn the_profiles_page_shows_headings_hint_and_panel_as_needed() {
    let page = profiles_page(2, 2, true, "", true, false);
    assert!(page.list_header && page.hint.is_none() && page.new_profile_enabled);
    assert_eq!(page.panel, Some(PanelPlacement::Covering));
    let page = profiles_page(0, 0, false, "", false, true);
    assert!(!page.list_header && !page.new_profile_enabled && page.panel.is_none());
    assert_eq!(page.hint, Some(EmptyHint::NoCore));
    let chrome = list_chrome(0);
    assert!(chrome.empty_state && !chrome.header);
    let chrome = list_chrome(3);
    assert!(!chrome.empty_state && chrome.header);
}

#[test]
fn the_close_button_and_the_menu_agree_for_every_mode() {
    for mode in ExitMode::all() {
        let (step, allowed) = on_close_requested(mode);
        assert_eq!(step, decide_exit(mode));
        assert_eq!(allowed, mode == ExitMode::KeepRunning || mode == ExitMode::ExitAll);
    }
    let dialog = open_exit_dialog(0, true);
    assert_eq!(dialog.body, DialogBody::Idle);
    assert_eq!(dialog.choices, [Exit::Background, Exit::KeepRunning, Exit::ExitAll]);
    assert!(dialog.remember);
}

#[test]
fn an_older_line_never_reads_younger() {
    let rank = |a: Age| match a {
        Age::JustNow => (0, 0),
        Age::Seconds(n) => (1, n),
        Age::Minutes(n) => (2, n),
        Age::Hours(n) => (3, n),
    };
    const S: u128 = 1_000_000_000;
    let mut last = rank(age(10_000 * S, 10_000 * S));
    for seconds in 0..10_000u128 {
        let now = rank(age(10_000 * S, 10_000 * S - seconds * S));
        assert!(now >= last, "{seconds}");
        last = now;
    }
}

#[test]
fn a_text_is_blank_exactly_when_it_is_all_space() {
    for text in ["", " ", "\t\n", "\u{3000}\u{2028}", " a ", "a", "\u{200b}"] {
        assert_eq!(blank(text), text.chars().all(char::is_whitespace), "{text:?}");
    }
}

#[test]
fn the_window_reconciles_within_every_five_ticks() {
    for first in 0..100u64 {
        let refreshed = (first..first + 5).any(|ticks| {
            should_refresh(Tick { ticks, notified: false, verified: false, tested: false, opened: false, copied: false })
        });
        assert!(refreshed, "{first}");
    }
}

#[test]
fn settings_rows_and_cards_are_laid_out_in_order() {
    let p = shades();
    let rows = settings_rows(
        &vec![
            SettingRow {
                key: SettingKey::DataDir,
                source: Source::Default,
                value: "/data".to_string(),
                effect: "after a restart".to_string(),
                shadowed: None,
                note: None,
            },
            SettingRow {
                key: SettingKey::EchoUrl,
                source: Source::Environment,
                value: "https://echo.example".to_string(),
                effect: "next reading".to_string(),
                shadowed: Some("https://old.example".to_string()),
                note: None,
            },
        ],
        p,
    );
    assert_eq!(rows.len(), 2);
    assert_eq!(rows[0].id, "setting-data-dir");
    assert!(rows[0].edit_button.is_none());
    assert_eq!(rows[1].edit_button.as_deref(), Some("edit-setting-echo-url"));
    assert_eq!(rows[1].source_colour, p.warning);
    assert_eq!(rows[1].value.text, "https://echo.example");
    assert_eq!((rows[0].effect.text.as_str(), rows[0].effect.colour), ("after a restart", p.muted));
    assert_eq!(rows[1].shadowed.as_ref().map(|l| (l.text.as_str(), l.colour)), Some(("https://old.example", p.warning)));
    let order: Vec<&str> = SettingsCard::all().iter().map(|c| c.id()).collect();
    assert_eq!(
        order,
        vec![
            "appearance",
            "exit-mode",
            "export-configuration",
            "import-configuration",
            "restore-configuration",
            "browser-data",
            "diagnostics",
        ]
    );
    let data = settings_card_view(SettingsCard::BrowserData, p);
    assert_eq!(data.path_field, Some("browser-data-path"));
    let buttons: Vec<(&str, bool)> = data.buttons.iter().map(|b| (b.id, b.outline)).collect();
    assert_eq!(buttons, vec![("browser-data-out", false), ("browser-data-in", true)]);
    assert_eq!((data.border, data.note_colour), (p.border, p.dim));
    let export = export_card("/home/me/backup.json".to_string(), true, p);
    assert_eq!(export.card.path_field, Some("export-path"));
    assert_eq!(export.card.buttons[0].id, "export-run");
    assert_eq!((export.credentials_box, export.credentials_checked), ("export-credentials", true));
    assert_eq!(export.destination, "/home/me/backup.json");
    assert_eq!((export.hint_colour, export.warning_colour), (p.muted, p.warning));
    let diagnostics = diagnostics_card("/data/diagnostics/report.txt".to_string(), p);
    assert_eq!(diagnostics.card.path_field, None);
    assert_eq!(diagnostics.card.buttons.len(), 1);
    assert_eq!(diagnostics.card.buttons[0].id, "diagnostics-run");
    assert_eq!(diagnostics.destination, "/data/diagnostics/report.txt");
    for card in [SettingsCard::Import, SettingsCard::Restore] {
        let view = settings_card_view(card, p);
        assert_eq!(view.buttons.len(), 1);
        assert!(!view.buttons[0].outline);
    }
    assert!(settings_card_view(SettingsCard::Appearance, p).buttons.is_empty());
    assert_eq!(settings_card(p), p.border);
    let (title, body) = settings_card_heading("Export", "Writes a file", p);
    assert_eq!((title.as_str(), body.text.as_str(), body.colour), ("Export", "Writes a file", p.muted));
    assert_eq!(settings_card_row("Language", p).text, "Language");
}

#[test]
fn an_icon_button_is_named_by_its_tooltip() {
    let p = shades();
    let b = icon_button("details-close".to_string(), Glyph::NavLog, "Close details".to_string());
    assert_eq!((b.tooltip.as_str(), b.aria.as_str()), ("Close details", "Close details"));
    let h = card_heading(Glyph::NavSettings, "Appearance", "How the window looks", p);
    assert_eq!((h.title_size, h.icon_colour, h.body_colour), (15, p.muted, p.muted));
    assert!(log_filter_chip(LogFilter::All, LogFilter::All));
    assert!(!log_filter_chip(LogFilter::Errors, LogFilter::All));
}

#[test]
fn a_page_shows_either_its_list_or_its_hint() {
    for total in 0..4u64 {
        for visible in 0..=total {
            let page = profiles_page(total, visible, total % 2 == 0, "x", false, false);
            assert_ne!(page.list_header, page.hint.is_some(), "{total} {visible}");
        }
    }
}

#[test]
fn each_page_draws_its_own_header_and_body() {
    let frame = page_frame(Page::Cores, true);
    assert_eq!((frame.header, frame.body, frame.banner, frame.details_panel), (Page::Cores, Body::CoreList, true, false));
    let frame = page_frame(Page::Profiles, false);
    assert_eq!((frame.body, frame.banner, frame.details_panel), (Body::ProfileList, false, true));
    assert_eq!(page_frame(Page::Log, false).body, Body::LogList);
    assert_eq!(page_frame(Page::Proxies, false).body, Body::ProxyList);
    assert_eq!(page_frame(Page::Settings, false).body, Body::SettingsRows);
}

#[test]
fn the_sidebar_menu_goes_through_the_saved_answer() {
    assert_eq!(footer_items(), [FooterItem::About, FooterItem::CloseWindow, FooterItem::StopAllAndQuit]);
    assert_eq!(footer_action(FooterItem::About, ExitMode::Ask), FooterAction::Show(Page::Settings));
    for mode in ExitMode::all() {
        assert_eq!(footer_action(FooterItem::CloseWindow, mode), FooterAction::Close(decide_exit(mode)));
    }
    assert_eq!(footer_action(FooterItem::CloseWindow, ExitMode::Ask), FooterAction::Close(CloseStep::OpenDialog));
    assert_eq!(footer_action(FooterItem::StopAllAndQuit, ExitMode::Background), FooterAction::Leave(leave(Exit::ExitAll)));
}

#[test]
fn a_data_directory_of_a_profile_that_is_gone_is_not_opened() {
    assert_eq!(open_data_dir(4, Some("/data/profiles/4".to_string())), DataDirStep::Open("/data/profiles/4".to_string()));
    assert_eq!(open_data_dir(4, None), DataDirStep::Gone { id: 4 });
}
