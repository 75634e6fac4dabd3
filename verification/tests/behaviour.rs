use fp_window::details::{
    accept_reading, args_clipboard, args_heading, can_verify, details_subtitle, elapsed, optional, panel_body,
    runtime_values, configuration_values, verification_badge, verification_block, ArgsHeading, Discrepancy, Headline, PanelBody,
    Report, StateLine, Verification, DetailsTab,
};
use fp_window::exit::{
    answer, decide_exit, enter_background, exit_dialog_body, handle_tray, leave, on_close_requested, tray_started,
    BackgroundStep, CloseStep, DialogBody, Exit, ExitMode, TrayAction, TrayEvent, TrayStarted,
};
use fp_window::logs::{
    age, empty_log, format_age, log_clipboard, log_level_color, log_row, logs_list, panel_log, Age, EmptyLog, LogEntry, LogLevel,
    Toggle,
};
use fp_window::profiles::{ProfileRow, RuntimeState};
use fp_window::proxies::{accept_test_result, proxy_test_cell, proxy_test_reading, test_button, CellBody, CellText, ProxyTest, Reading, ReadingSummary};
use fp_window::settings::{
    exit_choice, prefixed, restart_tray_after_language, repaint_after_theme, restore_step, setting_row, Lang,
    RestoreMode, RestoreStep, SettingKey, SettingRow, Source,
};
use fp_window::text::{blank, join, trim, white_space};
use fp_window::theme::{Palette, ThemeChoice};
use fp_window::window::{filter_update, open_result, opening_step, proxy_diagnostics, should_refresh, Opened, OpeningStep, Page, Tick};
use fp_window::logs::LogFilter;

fn tints() -> Palette {
    Palette {
        bg: 101,
        panel: 102,
        border: 103,
        text: 104,
        text_soft: 105,
        muted: 106,
        dim: 107,
        secondary: 108,
        hover: 109,
        selected: 110,
        accent: 111,
        info: 112,
        success: 113,
        success_bg: 114,
        success_strong: 115,
        warning: 116,
        warning_bg: 117,
        danger: 118,
        danger_bg: 119,
        danger_bg_soft: 120,
        danger_strong: 121,
    }
}

fn running_row() -> ProfileRow {
    ProfileRow {
        id: 11,
        name: "Work".to_string(),
        seed: 7,
        brand: "Chrome".to_string(),
        platform: "MacIntel".to_string(),
        language: "de-DE".to_string(),
        timezone: "Europe/Berlin".to_string(),
        data_dir: "/data/profiles/11".to_string(),
        core_name: "Chromium 148".to_string(),
        proxy_name: None,
        state: RuntimeState::Running,
        state_label: "Running".to_string(),
        state_message: None,
        cdp_port: Some(9333),
        browser_pid: Some(4242),
        xray_pid: None,
        socks_port: None,
        started_at_ns: Some(10_000_000_000),
        dropped_events: 0,
        last_warning: None,
        last_error: None,
        can_start: false,
        can_stop: true,
        can_restart: true,
    }
}

#[test]
fn closing_asks_when_the_mode_is_ask() {
    assert_eq!(on_close_requested(ExitMode::Ask), (CloseStep::OpenDialog, false));
    assert_eq!(decide_exit(ExitMode::Ask), CloseStep::OpenDialog);
    assert_eq!(ExitMode::initial(), ExitMode::Ask);
    let a = answer(Exit::ExitAll, false);
    assert_eq!(a.store, None);
    assert_eq!(a.leave, Exit::ExitAll);
}

#[test]
fn a_remembered_answer_is_carried_out_without_asking() {
    let a = answer(Exit::KeepRunning, true);
    assert_eq!(a.store, Some(ExitMode::KeepRunning));
    let mode = a.store.unwrap();
    assert_eq!(on_close_requested(mode), (CloseStep::Leave(Exit::KeepRunning), true));
    let l = leave(Exit::KeepRunning);
    assert!(l.release_runtime && l.quit && !l.enter_background);
    let l = leave(Exit::ExitAll);
    assert!(!l.release_runtime && l.quit);
    assert_eq!(on_close_requested(ExitMode::Background), (CloseStep::EnterBackground, false));
    let l = leave(Exit::Background);
    assert!(l.enter_background && !l.quit);
}

#[test]
fn the_exit_card_and_dialog_name_every_answer() {
    let codes: Vec<&str> = ExitMode::all().iter().map(|m| m.code()).collect();
    assert_eq!(codes, vec!["ask", "background", "keep-running", "exit-all"]);
    let p = tints();
    let rows: Vec<_> = Exit::all()
        .iter()
        .map(|e| exit_choice(*e, format!("{e:?}"), format!("what {} does", e.code()), p))
        .collect();
    let ids: Vec<&str> = rows.iter().map(|r| r.id.as_str()).collect();
    assert_eq!(ids, vec!["exit-choice-background", "exit-choice-keep-running", "exit-choice-exit-all"]);
    assert!(rows.iter().all(|r| r.height == rows[0].height));
    assert_eq!(rows[0].height, 84);
    for (row, exit) in rows.iter().zip(Exit::all()) {
        assert_eq!(row.answer, exit);
        assert_eq!(row.label, format!("{exit:?}"));
        assert_eq!(row.note.text, format!("what {} does", exit.code()));
        assert_eq!((row.note.colour, row.border), (p.muted, p.dim));
    }
    for exit in Exit::all() {
        assert_eq!(exit.mode().choice(), Some(exit));
    }
    assert_eq!(exit_dialog_body(2), DialogBody::Running);
    assert_eq!(exit_dialog_body(0), DialogBody::Idle);
}

#[test]
fn a_desktop_without_a_tray_keeps_the_window() {
    assert_eq!(enter_background(false), BackgroundStep::StartTray);
    assert_eq!(enter_background(true), BackgroundStep::Hide);
    assert_eq!(tray_started(Ok(())), TrayStarted::KeepAndHide);
    assert_eq!(tray_started(Err("no tray".to_string())), TrayStarted::StayWithNotice("no tray".to_string()));
    assert_eq!(handle_tray(TrayEvent::Quit), TrayAction::Leave(Exit::ExitAll));
    assert_eq!(handle_tray(TrayEvent::Show), TrayAction::ShowWindow);
}

#[test]
fn ages_read_in_the_largest_whole_unit() {
    const S: u128 = 1_000_000_000;
    let now = 10_000 * S;
    assert_eq!(format_age(now, now, "just now"), "just now");
    assert_eq!(format_age(now, now - 2 * S + 1, "just now"), "just now");
    assert_eq!(format_age(now, now - 2 * S, "just now"), "2s");
    assert_eq!(format_age(now, now - 60 * S + 400_000, "just now"), "59s");
    assert_eq!(format_age(now, now - 60 * S, "just now"), "1m");
    assert_eq!(format_age(now, now - 3_599 * S, "just now"), "59m");
    assert_eq!(format_age(now, now - 3_600 * S, "just now"), "1h");
    assert_eq!(format_age(now, now - 9_000 * S, "just now"), "2h");
    assert_eq!(format_age(now, now + 5 * S, "刚刚"), "刚刚");
    assert_eq!(age(now, now - 125 * S), Age::Minutes(2));
}

fn entry(message: &str) -> LogEntry {
    LogEntry { who: "Work".to_string(), level: LogLevel::Warning, message: message.to_string(), at_ns: 0 }
}

#[test]
fn a_long_line_is_clamped_and_can_be_opened() {
    let p = tints();
    let now: u128 = 75 * 1_000_000_000;
    let short: String = "é".repeat(150);
    let line = log_row(&entry(&short), 0, false, now, p);
    assert_eq!(line.id, "log-0");
    assert!(!line.clamped && line.toggle.is_none());
    assert_eq!(line.shown, short);
    assert_eq!(line.message_id, "log-message-0");

    let long: String = "é".repeat(152);
    let line = log_row(&entry(&long), 3, false, now, p);
    assert!(line.clamped);
    assert_eq!(line.shown, format!("{}…", "é".repeat(150)));
    let toggle = line.toggle.as_ref().unwrap();
    assert_eq!((toggle.id.as_str(), toggle.toggle), ("log-toggle-3", Toggle::Expand { hidden: 2 }));
    assert_eq!(line.id, "log-3");
    assert_eq!((line.aria.who.as_str(), line.aria.level, line.aria.message.as_str()), ("Work", LogLevel::Warning, long.as_str()));
    assert_eq!((line.time.id.as_str(), line.time.age, line.time.colour), ("log-time-3", Age::Minutes(1), p.dim));
    assert_eq!((line.level.id.as_str(), line.level.colour), ("log-level-3", p.warning));
    assert_eq!((line.who.id.as_str(), line.who.tooltip.as_str()), ("log-who-3", "Work"));
    let opened = log_row(&entry(&long), 3, true, now, p);
    assert!(!opened.clamped);
    assert_eq!(opened.shown, long);
    assert_eq!(opened.toggle.unwrap().toggle, Toggle::Collapse);
}

#[test]
fn the_log_list_opens_only_the_lines_asked_for() {
    let p = tints();
    let long: String = "x".repeat(200);
    let written = |at_ns: u128, message: &str| LogEntry { at_ns, ..entry(message) };
    let rows = vec![written(300, &long), written(200, &long), written(100, "short")];
    let lines = logs_list(&rows, &vec![200, 999], 300, p);
    assert_eq!(lines.len(), 3);
    assert!(lines[0].clamped && !lines[1].clamped && !lines[2].clamped);
    assert_eq!(lines[2].id, "log-2");
    assert_eq!(lines[2].time.age, Age::JustNow);
    // A new line at the top moves the others down; the one opened stays open.
    let newer = vec![written(400, &long), written(300, &long), written(200, &long), written(100, "short")];
    let lines = logs_list(&newer, &vec![200], 400, p);
    assert!(lines[0].clamped && lines[1].clamped && !lines[2].clamped);
    assert!(logs_list(&newer, &vec![], 400, p).iter().take(3).all(|l| l.clamped));
}

#[test]
fn the_panel_log_lists_the_tail_in_order() {
    let p = tints();
    const S: u128 = 1_000_000_000;
    let empty = panel_log(&vec![], 0, p);
    assert_eq!(empty.id, "panel-log-body");
    assert!(empty.empty && empty.lines.is_empty());
    assert_eq!((empty.count, empty.note_colour), (0, p.dim));
    let rows = vec![
        LogEntry { who: "Work".to_string(), level: LogLevel::Info, message: "started".to_string(), at_ns: 0 },
        LogEntry { who: "Work".to_string(), level: LogLevel::Error, message: "crashed".to_string(), at_ns: 100 * S },
    ];
    let log = panel_log(&rows, 130 * S, p);
    assert!(!log.empty);
    assert_eq!((log.count, log.note_colour), (2, p.muted));
    assert_eq!((log.lines[0].index, log.lines[0].level, log.lines[0].age), (0, LogLevel::Info, Age::Minutes(2)));
    assert_eq!((log.lines[0].message.as_str(), log.lines[0].level_colour), ("started", p.muted));
    assert_eq!((log.lines[1].index, log.lines[1].age, log.lines[1].message.as_str()), (1, Age::Seconds(30), "crashed"));
    assert_eq!((log.lines[1].level_colour, log.lines[1].age_colour, log.lines[1].message_colour), (p.danger_strong, p.dim, p.text_soft));
}

#[test]
fn the_log_page_says_which_kind_of_empty_it_is() {
    let p = tints();
    assert_eq!(empty_log(0, 0), Some(EmptyLog::Nothing));
    assert_eq!(empty_log(0, 4), Some(EmptyLog::NoneOfKind { total: 4 }));
    assert_eq!(empty_log(1, 4), None);
    assert_eq!(log_level_color(LogLevel::Info, p), p.muted);
    assert_eq!(log_level_color(LogLevel::Warning, p), p.warning);
    assert_eq!(log_level_color(LogLevel::Error, p), p.danger_strong);
    assert_eq!(LogFilter::Errors.id(), "log-filter-errors");
    assert_eq!(log_clipboard(&vec![]), None);
    assert_eq!(
        log_clipboard(&vec!["[info] Created Profile 1".to_string(), "[error] crashed".to_string()]),
        Some("[info] Created Profile 1\n[error] crashed".to_string())
    );
}

#[test]
fn trimming_and_joining_match_std() {
    assert_eq!(trim("  work\t"), "work");
    assert_eq!(trim("\u{3000}工作\u{2003}"), "工作");
    assert_eq!(trim("a b"), "a b");
    assert_eq!(trim("   "), "");
    assert!(blank(" \n\t"));
    assert!(blank(""));
    assert!(!blank(" x "));
    assert_eq!(join(&vec!["a".to_string(), "b".to_string(), "c".to_string()], ", "), "a, b, c");
    assert_eq!(join(&vec!["only".to_string()], ", "), "only");
    assert_eq!(join(&vec![], ", "), "");
    assert_eq!(trim(" a "), "a");
    for c in ['\u{0}', ' ', '\t', '\n', '\u{b}', '\u{c}', '\r', '\u{1c}', '\u{85}', '\u{a0}', '\u{1680}', '\u{180e}',
        '\u{2000}', '\u{200a}', '\u{200b}', '\u{2028}', '\u{2029}', '\u{202f}', '\u{205f}', '\u{3000}', '\u{feff}', 'a', '工'] {
        assert_eq!(white_space(c), c.is_whitespace(), "{c:?}");
    }
}

#[test]
fn a_fingerprint_is_verified_only_on_a_live_browser() {
    let row = running_row();
    assert!(can_verify(Some(&row), None));
    assert!(!can_verify(None, None));
    assert!(!can_verify(Some(&row), Some(&Verification::Running)));
    let mut stopped = running_row();
    stopped.state = RuntimeState::Stopped;
    assert!(!can_verify(Some(&stopped), None));
    assert!(accept_reading(Some(&Verification::Running)));
    assert!(!accept_reading(None));
    assert!(!accept_reading(Some(&Verification::Unreadable("gone".to_string()))));
}

#[test]
fn disagreements_are_counted_claim_by_claim() {
    let p = tints();
    let report = Report {
        exit_ip: Some("203.0.113.7".to_string()),
        exit_label: Some("Left from 203.0.113.7".to_string()),
        disagreements: vec![Discrepancy {
            claim: "platform".to_string(),
            expected: "Win32".to_string(),
            observed: "Linux x86_64".to_string(),
        }],
    };
    let v = Verification::Disagreements(report);
    let block = verification_block(Some(&v), p);
    assert_eq!(block.headline, Headline::NotReproduced(1));
    assert_eq!(block.colour, p.warning);
    assert_eq!(block.claims.len(), 1);
    let claim = &block.claims[0];
    assert_eq!((claim.index, claim.claim.as_str(), claim.expected.as_str(), claim.observed.as_str()), (0, "platform", "Win32", "Linux x86_64"));
    assert_eq!(claim.colour, p.warning);
    let exit = block.exit.unwrap();
    assert_eq!((exit.label.as_str(), exit.colour), ("Left from 203.0.113.7", p.info));
    let badge = verification_badge(Some(&v), "1 claim not confirmed", p).unwrap();
    assert_eq!(badge.id, "verification-1 claim not confirmed");
    assert_eq!(badge.tone, fp_window::components::Tone::Warning);

    let confirmed = Verification::Confirmed(Report { exit_ip: None, exit_label: None, disagreements: vec![] });
    let block = verification_block(Some(&confirmed), p);
    assert_eq!((block.headline, block.colour, block.claims.len()), (Headline::Confirmed, p.success_strong, 0));
    assert!(block.exit.is_none());
    assert_eq!(verification_block(None, p).headline, Headline::Unverified);
    assert_eq!(verification_block(Some(&Verification::Running), p).headline, Headline::Reading);
    assert_eq!(
        verification_block(Some(&Verification::Unreadable("no port".to_string())), p).headline,
        Headline::Unreadable("no port".to_string())
    );
    assert!(verification_badge(None, "x", p).is_none());
}

#[test]
fn the_panel_shows_one_view_of_the_profile_at_a_time() {
    let p = tints();
    let row = running_row();
    assert_eq!(panel_body(false, DetailsTab::Args), PanelBody::Empty);
    assert_eq!(panel_body(true, DetailsTab::Args), PanelBody::Args);
    assert_eq!(DetailsTab::Log.id(), "details-tab-log");
    assert!(matches!(details_subtitle(Some(&row)), Some(StateLine::State(s)) if s == "Running"));
    let values = runtime_values(&row, 25_500_000_000, p);
    assert_eq!(values.state, "Running");
    assert_eq!(values.browser_pid, "4242");
    assert_eq!(values.cdp_port, "9333");
    assert_eq!(values.xray_pid, "—");
    assert_eq!(values.started, Some(15));
    assert_eq!(values.dropped_events, "0");
    assert_eq!(optional(None), "—");
    assert_eq!(optional(Some(0)), "0");
    assert_eq!(elapsed(5_000, Some(9_000)), None);
    assert_eq!(elapsed(70_999_999_999, Some(11_000_000_000)), Some(59));
    let config = configuration_values(&row);
    assert_eq!((config.profile_id.as_str(), config.seed.as_str()), ("11", "7"));
    assert_eq!((config.brand.as_str(), config.platform.as_str()), ("Chrome", "MacIntel"));
    assert_eq!((config.language.as_str(), config.timezone.as_str()), ("de-DE", "Europe/Berlin"));
    assert_eq!((config.data_dir.as_str(), config.open_dir_id.as_str()), ("/data/profiles/11", "open-dir-11"));
    assert_eq!(config.proxy, None);
    let args = vec!["--fingerprint=1".to_string(), "about:blank".to_string()];
    assert_eq!(args_heading(&args), (ArgsHeading::Count(2), true));
    assert_eq!(args_heading(&vec![]), (ArgsHeading::NoLaunch, false));
    assert_eq!(args_clipboard(&args), Some("--fingerprint=1\nabout:blank".to_string()));
    assert_eq!(args_clipboard(&vec![]), None);
}

#[test]
fn a_proxy_test_reports_where_the_traffic_left() {
    let p = tints();
    let untested = proxy_test_cell(None, 4, "", None, p);
    assert_eq!(untested.id, "proxy-test-4");
    assert!(matches!(untested.aria, CellText::Untested));
    assert!(matches!(untested.body, CellBody::Untested { colour } if colour == p.dim));

    let passed = ProxyTest::Passed(Reading { live: false, elapsed_ms: 120 });
    let cell = proxy_test_cell(Some(&passed), 4, "198.51.100.9", Some("temporary engine"), p);
    assert!(matches!(&cell.aria, CellText::Text(a) if a == "198.51.100.9 - temporary engine"));
    assert!(matches!(cell.body, CellBody::Passed { colour, elapsed_ms: 120 } if colour == p.info));
    assert_eq!(proxy_test_reading(Some(&passed), p), Some((ReadingSummary::Passed { live: false }, p.info)));

    let failed = ProxyTest::Failed("no route to the upstream".to_string());
    let cell = proxy_test_cell(Some(&failed), 4, "no traffic (unreachable)", None, p);
    assert!(matches!(&cell.hint, CellText::FaultHelp(h) if h == "no route to the upstream"));
    assert!(matches!(&cell.body, CellBody::Failed { colour, diagnostics_id } if *colour == p.danger && diagnostics_id == "proxy-diagnostics-4"));
    assert_eq!(proxy_diagnostics(), (LogFilter::Errors, Page::Log));
}

#[test]
fn a_proxy_being_tested_is_not_tested_twice() {
    let button = test_button(Some(&ProxyTest::Running));
    assert!(button.loading && !button.enabled);
    let button = test_button(None);
    assert!(!button.loading && button.enabled);
    assert!(accept_test_result(Some(&ProxyTest::Running)));
    assert!(!accept_test_result(Some(&ProxyTest::Failed("x".to_string()))));
}

fn setting(key: SettingKey, source: Source) -> SettingRow {
    SettingRow { key, source, value: "/srv/value".to_string(), effect: "next start".to_string(), shadowed: None, note: None }
}

#[test]
fn only_editable_settings_offer_a_button() {
    let p = tints();
    for key in [SettingKey::XrayExecutable, SettingKey::EchoUrl] {
        let row = setting_row(&setting(key, Source::File), p);
        assert_eq!(row.edit_button, Some(format!("edit-setting-{}", key.id())));
    }
    for key in [
        SettingKey::DataDir,
        SettingKey::ChromiumBin,
        SettingKey::ChromiumMajor,
        SettingKey::ConfigFile,
        SettingKey::RuntimeDir,
    ] {
        assert_eq!(setting_row(&setting(key, Source::Default), p).edit_button, None);
    }
    let mut overridden = setting(SettingKey::DataDir, Source::Environment);
    overridden.shadowed = Some("config file: /home/me/data".to_string());
    overridden.note = Some("read at start".to_string());
    let row = setting_row(&overridden, p);
    assert_eq!((row.id.as_str(), row.source_colour), ("setting-data-dir", p.warning));
    assert_eq!((row.value.text.as_str(), row.value.colour), ("/srv/value", p.text_soft));
    assert_eq!((row.effect.text.as_str(), row.effect.colour), ("next start", p.muted));
    let shadowed = row.shadowed.unwrap();
    assert_eq!((shadowed.text.as_str(), shadowed.colour), ("config file: /home/me/data", p.warning));
    let note = row.note.unwrap();
    assert_eq!((note.text.as_str(), note.colour), ("read at start", p.muted));
    let plain = setting_row(&setting(SettingKey::ConfigFile, Source::File), p);
    assert!(plain.shadowed.is_none() && plain.note.is_none());
    assert_eq!(plain.source_colour, p.muted);
}

#[test]
fn restoring_asks_before_replacing() {
    assert_eq!(restore_step(false, Ok(true)), RestoreStep::NeedsPath);
    assert_eq!(restore_step(true, Ok(true)), RestoreStep::Start(RestoreMode::OnlyWhenEmpty));
    assert_eq!(restore_step(true, Ok(false)), RestoreStep::Confirm);
    assert_eq!(restore_step(true, Err("locked".to_string())), RestoreStep::Refuse("locked".to_string()));
}

#[test]
fn appearance_and_language_are_chosen_by_code() {
    assert_eq!(prefixed("theme-", ThemeChoice::Light.code()), "theme-light");
    assert_eq!(prefixed("language-", Lang::Zh.code()), "language-zh");
    assert_eq!(Lang::Zh.label(), "简体中文");
    assert_eq!(Lang::En.label(), "English");
    assert!(repaint_after_theme(true) && !repaint_after_theme(false));
    assert!(restart_tray_after_language(true) && !restart_tray_after_language(false));
}

#[test]
fn the_window_reconciles_on_events_and_every_fifth_tick() {
    let quiet = Tick { ticks: 3, notified: false, verified: false, tested: false, opened: false, copied: false };
    assert!(!should_refresh(quiet));
    assert!(should_refresh(Tick { ticks: 5, ..quiet }));
    assert!(should_refresh(Tick { notified: true, ..quiet }));
    assert!(should_refresh(Tick { copied: true, ..quiet }));
    assert_eq!(filter_update("work".to_string(), "work"), None);
    assert_eq!(filter_update("wor".to_string(), "work"), Some("wor".to_string()));
    assert!(matches!(open_result("/data".to_string(), Ok(())), (Opened::Opened(p), false) if p == "/data"));
    assert!(matches!(open_result("/data".to_string(), Err("could not run xdg-open: not found".to_string())), (Opened::Refused(r), true) if r.contains("xdg-open")));
    assert_eq!(opening_step(Ok(true)), OpeningStep::CheckProxy);
    assert_eq!(opening_step(Ok(false)), OpeningStep::Done);
    assert_eq!(opening_step(Err("busy".to_string())), OpeningStep::Refuse("busy".to_string()));
}
