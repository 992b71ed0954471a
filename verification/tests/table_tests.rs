use sms_terminal::message::SmsMessage;
use sms_terminal::table::{MessagesView, MESSAGES_PER_PAGE};

fn msg(id: &str, content: &str, is_outgoing: bool) -> SmsMessage {
    SmsMessage {
        id: id.to_string(),
        phone_number: "+1555".to_string(),
        direction: String::new(),
        timestamp: String::new(),
        content: content.to_string(),
        is_outgoing,
    }
}

fn page(start: usize, count: usize) -> Vec<SmsMessage> {
    let mut out = Vec::new();
    for i in start..start + count {
        out.push(msg(&i.to_string(), "hello", false));
    }
    out
}

#[test]
fn pagination_full_pages_advance_offset() {
    let mut t = MessagesView::new();
    let req = t.begin_load(false).expect("fresh table starts a fetch");
    assert_eq!(req.offset, 0);
    assert_eq!(req.limit, MESSAGES_PER_PAGE);
    assert!(!req.reversed);

    t.apply_page(page(0, 20));
    assert_eq!(t.current_offset, 20);
    assert!(t.has_more);
    assert_eq!(t.messages.len(), 20);
    assert_eq!(t.selected, Some(0));

    let req2 = t.begin_fetch().expect("prefetch starts");
    assert_eq!(req2.offset, 20);
    t.apply_page(page(20, 20));
    assert_eq!(t.current_offset, 40);
    assert!(t.has_more);
    assert_eq!(t.messages.len(), 40);
}

#[test]
fn pagination_short_page_ends_cycle() {
    // a full first page and a short second page: the short page neither
    // advances the offset nor leaves more to fetch
    let mut t = MessagesView::new();
    t.begin_load(false).unwrap();
    t.apply_page(page(0, 20));
    t.begin_fetch().unwrap();
    t.apply_page(page(20, 3));
    assert!(!t.has_more);
    assert_eq!(t.messages.len(), 23);
    assert_eq!(t.current_offset, 20);
}

#[test]
fn pagination_empty_page_sets_has_more_false() {
    let mut t = MessagesView::new();
    t.begin_load(false).unwrap();
    t.apply_page(Vec::new());
    assert!(!t.has_more);
    assert_eq!(t.messages.len(), 0);
    assert_eq!(t.current_offset, 0);
}

#[test]
fn live_merge_idempotent() {
    let mut t = MessagesView::new();
    let m = msg("77", "hi", false);
    t.add_live_message(&m);
    t.add_live_message(&m);
    assert_eq!(t.messages.len(), 1);
    assert_eq!(t.messages[0].id, "77");
}

#[test]
fn live_merge_prepends_new_message() {
    let mut t = MessagesView::new();
    t.add_live_message(&msg("1", "first", false));
    t.add_live_message(&msg("2", "second", false));
    assert_eq!(t.messages.len(), 2);
    assert_eq!(t.messages[0].id, "2");
    assert_eq!(t.messages[1].id, "1");
}

#[test]
fn selection_clamped_at_ends() {
    let mut t = MessagesView::new();
    t.begin_load(false).unwrap();
    t.apply_page(vec![msg("1", "a", false), msg("2", "b", true), msg("3", "c", false)]);
    assert_eq!(t.selected, Some(0));
    t.previous_row();
    assert_eq!(t.selected, Some(0));
    t.next_row();
    t.next_row();
    assert_eq!(t.selected, Some(2));
    t.next_row();
    assert_eq!(t.selected, Some(2));
}

#[test]
fn selection_noop_on_empty_table() {
    let mut t = MessagesView::new();
    t.next_row();
    assert_eq!(t.selected, None);
    t.previous_row();
    assert_eq!(t.selected, None);
}

#[test]
fn selection_tracks_outgoing_flag() {
    let mut t = MessagesView::new();
    t.begin_load(false).unwrap();
    t.apply_page(vec![msg("1", "a", false), msg("2", "b", true)]);
    t.next_row();
    assert!(t.is_selected_outgoing);
    t.previous_row();
    assert!(!t.is_selected_outgoing);
}

#[test]
fn prefetch_fires_near_end_only() {
    let mut t = MessagesView::new();
    t.begin_load(false).unwrap();
    t.apply_page(page(0, 20));
    t.selected = Some(14);
    assert!(t.check_load_more().is_none());
    t.selected = Some(15);
    let req = t.check_load_more().expect("within the lookahead threshold");
    assert_eq!(req.offset, 20);
    // the fetch is now in flight: no second one starts
    t.selected = Some(19);
    assert!(t.check_load_more().is_none());
}

#[test]
fn prefetch_never_fires_after_short_page() {
    let mut t = MessagesView::new();
    t.begin_load(false).unwrap();
    t.apply_page(page(0, 19));
    t.selected = Some(18);
    assert!(t.check_load_more().is_none());
}

#[test]
fn begin_fetch_noop_while_loading() {
    let mut t = MessagesView::new();
    assert!(t.begin_fetch().is_some());
    assert!(t.begin_fetch().is_none());
}

#[test]
fn fetch_failed_keeps_data_and_clears_flag() {
    let mut t = MessagesView::new();
    t.begin_load(false).unwrap();
    t.apply_page(page(0, 20));
    t.begin_fetch().unwrap();
    t.fetch_failed();
    assert!(!t.is_loading);
    assert_eq!(t.messages.len(), 20);
}

#[test]
fn column_widths_measure_display_columns() {
    let mut t = MessagesView::new();
    // two CJK characters occupy four terminal columns, not two and not six bytes
    t.add_live_message(&msg("123", "\u{4f60}\u{597d}", false));
    assert_eq!(t.col_widths.content, 4);
    assert_eq!(t.col_widths.id, 3);
    assert_eq!(t.col_widths.direction, 8);
    assert_eq!(t.col_widths.timestamp, 16);
}

#[test]
fn column_widths_capped() {
    let mut t = MessagesView::new();
    let wide = "x".repeat(200);
    let long_id = "9".repeat(30);
    t.add_live_message(&msg(&long_id, &wide, false));
    assert_eq!(t.col_widths.content, 80);
    assert_eq!(t.col_widths.id, 20);
}

#[test]
fn reload_clears_window_but_keeps_order() {
    let mut t = MessagesView::new();
    t.begin_load(true).unwrap();
    t.apply_page(page(0, 20));
    let req = t.begin_reload().expect("reload starts a fetch");
    assert_eq!(req.offset, 0);
    assert!(req.reversed);
    assert_eq!(t.messages.len(), 0);
    assert!(t.has_more);
}
