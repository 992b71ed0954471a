use sms_terminal::keys::{KeyCode, KeyModifiers, KeyPress};
use sms_terminal::notify::{NotificationType, NotificationView};
use sms_terminal::actions::AppAction;
use sms_terminal::views::ViewStateRequest;

fn key(code: KeyCode) -> KeyPress {
    KeyPress { code, modifiers: KeyModifiers { control: false, alt: false, shift: false } }
}

fn generic(title: &str) -> NotificationType {
    NotificationType::GenericMessage { title: title.to_string(), message: String::new() }
}

fn title_of(kind: &NotificationType) -> String {
    match kind {
        NotificationType::GenericMessage { title, .. } => title.clone(),
        _ => panic!("expected a generic notification"),
    }
}

#[test]
fn notification_bounding_ten_leaves_six_newest_first() {
    let mut q = NotificationView::new();
    for i in 0..10 {
        q.add_notification(generic(&i.to_string()), i as u64);
    }
    assert_eq!(q.notifications.len(), 6);
    for (slot, expected) in [(0, "9"), (1, "8"), (2, "7"), (3, "6"), (4, "5"), (5, "4")] {
        assert_eq!(title_of(&q.notifications[slot].kind), expected);
    }
}

#[test]
fn notification_expires_after_display_duration() {
    let mut q = NotificationView::new();
    q.add_notification(generic("a"), 0);
    q.expire_stale(15000);
    assert_eq!(q.notifications.len(), 1);
    q.expire_stale(15001);
    assert_eq!(q.notifications.len(), 0);
}

#[test]
fn notification_expiry_is_per_entry() {
    let mut q = NotificationView::new();
    q.add_notification(generic("old"), 0);
    q.add_notification(generic("new"), 10000);
    q.expire_stale(20000);
    assert_eq!(q.notifications.len(), 1);
    assert_eq!(title_of(&q.notifications[0].kind), "new");
}

#[test]
fn dismiss_oldest_drops_least_recent() {
    let mut q = NotificationView::new();
    q.add_notification(generic("first"), 0);
    q.add_notification(generic("second"), 1);
    let r = q.handle_key(key(KeyCode::Function(1)));
    assert!(r.is_none());
    assert_eq!(q.notifications.len(), 1);
    assert_eq!(title_of(&q.notifications[0].kind), "second");
}

#[test]
fn navigate_clears_queue_and_opens_conversation() {
    let mut q = NotificationView::new();
    q.add_notification(generic("older"), 0);
    q.add_notification(
        NotificationType::IncomingMessage { phone: "+1555".to_string(), content: "hi".to_string() },
        1,
    );
    let r = q.handle_key(key(KeyCode::Function(2)));
    match r {
        Some(AppAction::SetViewState { state, dismiss_modal }) => {
            assert!(!dismiss_modal);
            match state {
                ViewStateRequest::Messages { phone_number, reversed } => {
                    assert_eq!(phone_number, "+1555");
                    assert!(!reversed);
                },
                other => panic!("unexpected state {:?}", other),
            }
        },
        other => panic!("unexpected action {:?}", other),
    }
    assert_eq!(q.notifications.len(), 0);
}

#[test]
fn navigate_refused_when_top_not_viewable() {
    let mut q = NotificationView::new();
    q.add_notification(
        NotificationType::IncomingMessage { phone: "+1555".to_string(), content: "hi".to_string() },
        0,
    );
    q.add_notification(generic("top"), 1);
    let r = q.handle_key(key(KeyCode::Function(2)));
    assert!(r.is_none());
    assert_eq!(q.notifications.len(), 2);
}
