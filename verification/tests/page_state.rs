use notifications::event::{NotificationEvent, PacketsThresholdExceeded};
use notifications::log::NotificationLog;
use notifications::page_state::{
    handle_command, notifications_page, select_page_state, Command, PageKind, PageState,
    ThresholdConfig,
};
use notifications::presenter::{present, Phrase};

fn words(phrase: Phrase) -> String {
    match phrase {
        Phrase::PacketsExceededValue(n) => format!("{n} packets"),
        Phrase::BytesExceededValue(amount) => format!("{amount} bytes"),
        other => format!("{other:?}"),
    }
}

fn amounts(amount: u128) -> String {
    format!("{amount} B")
}

fn event(n: u32) -> NotificationEvent {
    NotificationEvent::PacketsThresholdExceeded(PacketsThresholdExceeded {
        threshold: 10,
        incoming: n,
        outgoing: 1,
        timestamp: format!("t{n}"),
    })
}

fn log_of(n: u32) -> NotificationLog {
    let mut log = NotificationLog::new();
    for i in 0..n {
        log.append(event(i));
    }
    log
}

fn nothing_enabled() -> ThresholdConfig {
    ThresholdConfig {
        packets_threshold: None,
        bytes_threshold: None,
        favorite_notify_enabled: false,
    }
}

fn every_config() -> Vec<ThresholdConfig> {
    let mut configs = Vec::new();
    for packets_threshold in [None, Some(0), Some(750)] {
        for bytes_threshold in [None, Some(0), Some(u32::MAX)] {
            for favorite_notify_enabled in [false, true] {
                configs.push(ThresholdConfig {
                    packets_threshold,
                    bytes_threshold,
                    favorite_notify_enabled,
                });
            }
        }
    }
    configs
}

#[test]
fn nothing_enabled_and_empty_log_is_unconfigured() {
    let log = NotificationLog::new();
    assert_eq!(select_page_state(&nothing_enabled(), &log), PageKind::Unconfigured);
    assert_eq!(
        notifications_page(&nothing_enabled(), &log, &words, &amounts),
        PageState::Unconfigured
    );
}

#[test]
fn anything_enabled_and_empty_log_is_waiting() {
    let log = NotificationLog::new();
    let mut seen = 0;
    for config in every_config() {
        if config == nothing_enabled() {
            continue;
        }
        seen += 1;
        assert_eq!(select_page_state(&config, &log), PageKind::WaitingForEvents);
        assert_eq!(
            notifications_page(&config, &log, &words, &amounts),
            PageState::WaitingForEvents
        );
    }
    assert_eq!(seen, 17);
}

#[test]
fn each_notification_kind_alone_is_enough_to_wait() {
    let log = NotificationLog::new();
    let packets = ThresholdConfig { packets_threshold: Some(1), ..nothing_enabled() };
    let bytes = ThresholdConfig { bytes_threshold: Some(1), ..nothing_enabled() };
    let favorite = ThresholdConfig { favorite_notify_enabled: true, ..nothing_enabled() };
    assert_eq!(select_page_state(&packets, &log), PageKind::WaitingForEvents);
    assert_eq!(select_page_state(&bytes, &log), PageKind::WaitingForEvents);
    assert_eq!(select_page_state(&favorite, &log), PageKind::WaitingForEvents);
}

#[test]
fn a_threshold_of_zero_counts_as_set() {
    let log = NotificationLog::new();
    let config = ThresholdConfig { packets_threshold: Some(0), ..nothing_enabled() };
    assert_eq!(select_page_state(&config, &log), PageKind::WaitingForEvents);
}

#[test]
fn non_empty_log_is_populated_whatever_the_configuration() {
    let log = log_of(1);
    for config in every_config() {
        assert_eq!(select_page_state(&config, &log), PageKind::Populated);
        assert_eq!(notifications_page(&config, &log, &words, &amounts).kind(), PageKind::Populated);
    }
}

#[test]
fn populated_page_presents_every_event_in_order() {
    let log = log_of(3);
    let page = notifications_page(&nothing_enabled(), &log, &words, &amounts);
    let expected: Vec<_> = (0..3).map(|n| present(&event(n), &words, &amounts)).collect();
    assert_eq!(page, PageState::Populated { records: expected, disclaimer: false });
    match page {
        PageState::Populated { records, .. } => {
            assert_eq!(records[2].timestamp, "t2");
            assert_eq!(records[2].detail_lines[0], "3 packets");
            assert_eq!(records[2].subtitle_lines[0], "Threshold: 10 PerSecond");
        }
        _ => panic!("the page shows no events"),
    }
}

#[test]
fn disclaimer_starts_at_exactly_thirty() {
    for n in [1, 2, 29] {
        match notifications_page(&nothing_enabled(), &log_of(n), &words, &amounts) {
            PageState::Populated { records, disclaimer } => {
                assert_eq!(records.len(), n as usize);
                assert!(!disclaimer);
            }
            _ => panic!("the page shows no events"),
        }
    }
    for n in [30, 31, 64] {
        match notifications_page(&nothing_enabled(), &log_of(n), &words, &amounts) {
            PageState::Populated { records, disclaimer } => {
                assert_eq!(records.len(), 30);
                assert!(disclaimer);
            }
            _ => panic!("the page shows no events"),
        }
    }
}

#[test]
fn notice_of_each_page() {
    assert_eq!(PageState::Unconfigured.notice(), Some(Phrase::NoNotificationsSet));
    assert_eq!(PageState::WaitingForEvents.notice(), Some(Phrase::NoNotificationsReceived));
    assert_eq!(PageState::Populated { records: vec![], disclaimer: false }.notice(), None);
    assert_eq!(
        PageState::Populated { records: vec![], disclaimer: true }.notice(),
        Some(Phrase::OnlyLast30)
    );
    let page = notifications_page(&nothing_enabled(), &log_of(29), &words, &amounts);
    assert_eq!(page.notice(), None);
    let page = notifications_page(&nothing_enabled(), &log_of(30), &words, &amounts);
    assert_eq!(page.notice(), Some(Phrase::OnlyLast30));
}

#[test]
fn only_a_populated_page_offers_clear_all() {
    assert_eq!(PageState::Unconfigured.clear_command(), None);
    assert_eq!(PageState::WaitingForEvents.clear_command(), None);
    assert_eq!(
        PageState::Populated { records: vec![], disclaimer: false }.clear_command(),
        Some(Command::ClearAll)
    );
}

#[test]
fn kind_of_each_page() {
    assert_eq!(PageState::Unconfigured.kind(), PageKind::Unconfigured);
    assert_eq!(PageState::WaitingForEvents.kind(), PageKind::WaitingForEvents);
    assert_eq!(
        PageState::Populated { records: vec![], disclaimer: true }.kind(),
        PageKind::Populated
    );
}

#[test]
fn clear_all_command_empties_the_log() {
    let mut log = log_of(30);
    handle_command(&mut log, Command::ClearAll);
    assert!(log.is_empty());
    assert_eq!(log, NotificationLog::new());
    handle_command(&mut log, Command::ClearAll);
    assert_eq!(log, NotificationLog::new());
}

#[test]
fn after_clear_all_the_page_follows_the_configuration() {
    let enabled = ThresholdConfig { bytes_threshold: Some(1_000), ..nothing_enabled() };
    let mut log = log_of(5);
    assert_eq!(select_page_state(&enabled, &log), PageKind::Populated);
    assert_eq!(select_page_state(&nothing_enabled(), &log), PageKind::Populated);
    handle_command(&mut log, Command::ClearAll);
    assert_eq!(select_page_state(&enabled, &log), PageKind::WaitingForEvents);
    assert_eq!(select_page_state(&nothing_enabled(), &log), PageKind::Unconfigured);
}

#[test]
fn events_logged_before_notifications_were_disabled_stay_on_the_page() {
    let mut log = NotificationLog::new();
    let enabled = ThresholdConfig { packets_threshold: Some(10), ..nothing_enabled() };
    assert_eq!(select_page_state(&enabled, &log), PageKind::WaitingForEvents);
    log.append(event(11));
    assert_eq!(select_page_state(&enabled, &log), PageKind::Populated);
    assert_eq!(select_page_state(&nothing_enabled(), &log), PageKind::Populated);
}
