use sms_terminal::message::SmsMessage;
use sms_terminal::reports::{
    report_entries_from_backend, sort_reports, DeliveryReportsModal, ReportEntry,
    ReportStatusGroup,
};

fn entry(timestamp: Option<i64>, group: ReportStatusGroup) -> ReportEntry {
    ReportEntry { timestamp, group }
}

fn message() -> SmsMessage {
    SmsMessage {
        id: "5".to_string(),
        phone_number: "+1555".to_string(),
        direction: String::new(),
        timestamp: String::new(),
        content: "hello".to_string(),
        is_outgoing: true,
    }
}

#[test]
fn status_codes_map_to_categories() {
    let entries = report_entries_from_backend(vec![
        (0x00, Some(1)),
        (0x01, None),
        (0x1f, None),
        (0x20, None),
        (0x3f, None),
        (0x40, None),
        (0xff, None),
    ]);
    let groups: Vec<ReportStatusGroup> = entries.iter().map(|e| e.group).collect();
    assert_eq!(
        groups,
        vec![
            ReportStatusGroup::Received,
            ReportStatusGroup::Sent,
            ReportStatusGroup::Sent,
            ReportStatusGroup::Retrying,
            ReportStatusGroup::Retrying,
            ReportStatusGroup::Failed,
            ReportStatusGroup::Failed,
        ],
    );
    assert_eq!(entries[0].timestamp, Some(1));
}

#[test]
fn category_labels() {
    assert_eq!(entry(None, ReportStatusGroup::Sent).display_text(), "Sent");
    assert_eq!(entry(None, ReportStatusGroup::Received).display_text(), "Delivered");
    assert_eq!(entry(None, ReportStatusGroup::Retrying).display_text(), "Retry");
    assert_eq!(entry(None, ReportStatusGroup::Failed).display_text(), "Failed");
}

#[test]
fn timeline_sorted_newest_first_unknown_last() {
    let input = vec![
        entry(Some(5), ReportStatusGroup::Sent),
        entry(None, ReportStatusGroup::Failed),
        entry(Some(9), ReportStatusGroup::Received),
        entry(Some(7), ReportStatusGroup::Retrying),
    ];
    let sorted = sort_reports(input);
    let stamps: Vec<Option<i64>> = sorted.iter().map(|e| e.timestamp).collect();
    assert_eq!(stamps, vec![Some(9), Some(7), Some(5), None]);
}

#[test]
fn loaded_modal_adds_synthetic_sent_entry() {
    let api = vec![entry(Some(5), ReportStatusGroup::Received)];
    let modal = DeliveryReportsModal::with_reports(message(), Some(10), api);
    let timeline = modal.reports.expect("loaded");
    assert_eq!(timeline.len(), 2);
    assert_eq!(timeline[0].timestamp, Some(10));
    assert_eq!(timeline[0].group, ReportStatusGroup::Sent);
    assert_eq!(timeline[1].timestamp, Some(5));
}

#[test]
fn unloaded_modal_asks_for_its_reports() {
    let modal = DeliveryReportsModal::new(message());
    assert!(modal.needs_load());
    let loaded = DeliveryReportsModal::with_reports(message(), None, Vec::new());
    assert!(!loaded.needs_load());
}
