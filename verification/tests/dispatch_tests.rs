use sms_terminal::actions::{AppAction, BackendCommand};
use sms_terminal::dispatch::AppCore;
use sms_terminal::keys::{KeyCode, KeyModifiers, KeyPress};
use sms_terminal::manager::{CurrentView, FetchOutcome};
use sms_terminal::message::SmsMessage;
use sms_terminal::modals::{LoadingModal, ModalKind, AppModal};
use sms_terminal::notify::NotificationType;
use sms_terminal::reports::{ReportEntry, ReportStatusGroup};
use sms_terminal::theme::PresetTheme;
use sms_terminal::views::ViewStateRequest;

fn key(code: KeyCode) -> KeyPress {
    KeyPress { code, modifiers: KeyModifiers { control: false, alt: false, shift: false } }
}

fn ctrl(code: KeyCode) -> KeyPress {
    KeyPress { code, modifiers: KeyModifiers { control: true, alt: false, shift: false } }
}

fn msg(id: &str, phone: &str, is_outgoing: bool) -> SmsMessage {
    SmsMessage {
        id: id.to_string(),
        phone_number: phone.to_string(),
        direction: String::new(),
        timestamp: String::new(),
        content: "hello".to_string(),
        is_outgoing,
    }
}

fn fresh_app() -> AppCore {
    AppCore::new(PresetTheme::Emerald)
}

fn open_conversation(core: &mut AppCore, phone: &str, messages: Vec<SmsMessage>) {
    let step = core.handle_app_action(
        AppAction::SetViewState {
            state: ViewStateRequest::Messages { phone_number: phone.to_string(), reversed: false },
            dismiss_modal: false,
        },
        0,
    );
    assert!(step.command.is_some());
    core.view_manager.finish_fetch(FetchOutcome::MessagePage {
        phone_number: phone.to_string(),
        result: Ok(messages),
    });
}

#[test]
fn dismissing_confirmation_never_sends() {
    // the confirmation modal is opened from the compose screen, the user
    // answers No: the response routed back is a dismissal and no send starts
    let mut app = fresh_app();
    app.handle_app_action(
        AppAction::SetViewState {
            state: ViewStateRequest::Compose { phone_number: "+1555".to_string() },
            dismiss_modal: false,
        },
        0,
    );
    let mut now = 0;
    for c in "hi".chars() {
        now += 100;
        let step = app.handle_key_event(key(KeyCode::Char(c)), now);
        assert!(step.action.is_none());
    }
    now += 100;
    let step = app.handle_key_event(ctrl(KeyCode::Char(' ')), now);
    let modal_action = step.action.expect("the send chord raises the confirmation");
    let step = app.handle_app_action(modal_action, now);
    assert!(step.command.is_none());
    assert!(app.current_modal.is_some());

    // "No" is preselected; Enter answers the confirmation negatively
    now += 100;
    let step = app.handle_key_event(key(KeyCode::Enter), now);
    assert!(step.action.is_none(), "a dismissed confirmation produces no action");
    assert!(step.command.is_none(), "a dismissed confirmation sends nothing");
    assert!(app.current_modal.is_none(), "answering closes the modal");
}

#[test]
fn same_tick_chain_never_shows_loading_modal() {
    // two instructions drained in one tick: show a loading modal, then
    // replace the screen and dismiss the modal; the state rendered after the
    // drain is the conversation, never the loading overlay
    let mut app = fresh_app();
    let loading = AppModal::new(
        "sms_sending",
        ModalKind::Loading(LoadingModal::new("Sending message...".to_string())),
    );
    let step = app.handle_app_action(AppAction::SetModal(Some(loading)), 0);
    assert!(step.command.is_none());
    assert!(!app.render_views);

    let step = app.handle_app_action(
        AppAction::SetViewState {
            state: ViewStateRequest::Messages {
                phone_number: "+1555".to_string(),
                reversed: false,
            },
            dismiss_modal: true,
        },
        0,
    );
    let fetch = step.command.expect("the conversation starts its first fetch");
    assert!(matches!(fetch, BackendCommand::FetchMessagePage { .. }));
    app.view_manager.finish_fetch(FetchOutcome::MessagePage {
        phone_number: "+1555".to_string(),
        result: Ok(vec![msg("1", "+1555", false)]),
    });

    assert!(app.current_modal.is_none());
    assert!(app.render_views);
    assert!(matches!(app.view_manager.current, CurrentView::Messages { .. }));
}

#[test]
fn incoming_message_notifies_unless_on_its_conversation() {
    let mut app = fresh_app();
    app.handle_app_action(
        AppAction::SetViewState { state: ViewStateRequest::MainMenu, dismiss_modal: false },
        0,
    );
    app.handle_app_action(AppAction::HandleIncomingMessage(msg("1", "+1555", false)), 0);
    assert_eq!(app.notifications.notifications.len(), 1);

    open_conversation(&mut app, "+1555", vec![msg("2", "+1555", false)]);
    app.handle_app_action(AppAction::HandleIncomingMessage(msg("3", "+1555", false)), 0);
    // taken by the open conversation: no second notification
    assert_eq!(app.notifications.notifications.len(), 1);
    match &app.view_manager.current {
        CurrentView::Messages { view, .. } => assert_eq!(view.messages.len(), 2),
        _ => panic!("expected the conversation screen"),
    }
}

#[test]
fn outgoing_live_message_never_notifies() {
    let mut app = fresh_app();
    app.handle_app_action(
        AppAction::SetViewState { state: ViewStateRequest::MainMenu, dismiss_modal: false },
        0,
    );
    app.handle_app_action(AppAction::HandleIncomingMessage(msg("1", "+1555", true)), 0);
    assert_eq!(app.notifications.notifications.len(), 0);
}

#[test]
fn fatal_error_not_overwritten_by_transient_failures() {
    let mut app = fresh_app();
    app.handle_app_action(
        AppAction::ShowError { message: "fatal".to_string(), dismissible: false },
        0,
    );
    app.handle_app_action(
        AppAction::ShowError { message: "transient".to_string(), dismissible: true },
        0,
    );
    match &app.view_manager.current {
        CurrentView::Error { message, dismissible, .. } => {
            assert_eq!(message, "fatal");
            assert!(!dismissible);
        },
        _ => panic!("expected the error screen"),
    }
    // a new fatal error still wins
    app.handle_app_action(
        AppAction::ShowError { message: "worse".to_string(), dismissible: false },
        0,
    );
    match &app.view_manager.current {
        CurrentView::Error { message, .. } => assert_eq!(message, "worse"),
        _ => panic!("expected the error screen"),
    }
}

#[test]
fn modal_preempts_view_key_handling() {
    let mut app = fresh_app();
    open_conversation(&mut app, "+1555", vec![msg("1", "+1555", false), msg("2", "+1555", false)]);
    let loading = AppModal::new(
        "sms_sending",
        ModalKind::Loading(LoadingModal::new("wait".to_string())),
    );
    app.handle_app_action(AppAction::SetModal(Some(loading)), 0);
    let step = app.handle_key_event(key(KeyCode::Down), 100);
    assert!(step.action.is_none());
    assert!(step.command.is_none());
    match &app.view_manager.current {
        CurrentView::Messages { view, .. } => {
            assert_eq!(view.selected, Some(0), "the view never saw the key");
        },
        _ => panic!("expected the conversation screen"),
    }
}

#[test]
fn dispatcher_debounces_repeated_keys() {
    let mut app = fresh_app();
    open_conversation(&mut app, "+1555", vec![msg("1", "+1555", false), msg("2", "+1555", false)]);
    app.handle_key_event(key(KeyCode::Down), 100);
    app.handle_key_event(key(KeyCode::Down), 120);
    match &app.view_manager.current {
        CurrentView::Messages { view, .. } => {
            assert_eq!(view.selected, Some(1), "the repeat within the window was dropped");
        },
        _ => panic!("expected the conversation screen"),
    }
}

#[test]
fn theme_chords_cycle_and_toggle() {
    let mut app = fresh_app();
    assert_eq!(app.theme_manager.current_preset, PresetTheme::Emerald);
    app.handle_key_event(key(KeyCode::Function(10)), 100);
    assert_eq!(app.theme_manager.current_preset, PresetTheme::Blue);
    assert!(app.theme_manager.modify_background);
    app.handle_key_event(key(KeyCode::Function(11)), 200);
    assert!(!app.theme_manager.modify_background);
}

#[test]
fn delivery_reports_open_via_loading_overlay() {
    let mut app = fresh_app();
    open_conversation(&mut app, "+1555", vec![msg("8", "+1555", true)]);
    // the first row is selected and outgoing: the reports chord opens the modal
    let step = app.handle_key_event(key(KeyCode::Char('m')), 100);
    let action = step.action.expect("the chord asks for the reports modal");
    let step = app.handle_app_action(action, 100);
    match step.command {
        Some(BackendCommand::FetchDeliveryReports { message_id, limit }) => {
            assert_eq!(message_id, "8");
            assert_eq!(limit, 10);
        },
        other => panic!("unexpected command {:?}", other),
    }
    match &app.current_modal {
        Some(m) => assert_eq!(m.id, "delivery_reports_loading"),
        None => panic!("expected the loading overlay"),
    }
    assert!(!app.render_views);

    let action = app.finish_delivery_reports(
        Ok(vec![ReportEntry { timestamp: Some(5), group: ReportStatusGroup::Received }]),
        Some(9),
    );
    assert!(action.is_none());
    match &app.current_modal {
        Some(m) => {
            assert_eq!(m.id, "delivery_reports");
            match &m.kind {
                ModalKind::DeliveryReports(d) => {
                    let timeline = d.reports.as_ref().expect("loaded");
                    assert_eq!(timeline.len(), 2);
                    assert_eq!(timeline[0].timestamp, Some(9));
                },
                other => panic!("unexpected modal kind {:?}", other),
            }
        },
        None => panic!("expected the loaded reports modal"),
    }
    assert!(app.render_views);
}

#[test]
fn delivery_reports_fetch_failure_surfaces_error() {
    let mut app = fresh_app();
    open_conversation(&mut app, "+1555", vec![msg("8", "+1555", true)]);
    let step = app.handle_key_event(key(KeyCode::Char('m')), 100);
    app.handle_app_action(step.action.unwrap(), 100);
    let action = app.finish_delivery_reports(Err("no reports".to_string()), None);
    match action {
        Some(AppAction::SetViewState { state, dismiss_modal }) => {
            assert!(dismiss_modal);
            assert_eq!(
                state,
                ViewStateRequest::Error { message: "no reports".to_string(), dismissible: false },
            );
        },
        other => panic!("unexpected action {:?}", other),
    }
}

#[test]
fn notification_shown_via_action_queue() {
    let mut app = fresh_app();
    app.handle_app_action(
        AppAction::ShowNotification(NotificationType::WebSocketConnectionUpdate {
            connected: false,
            reconnect: true,
        }),
        1234,
    );
    assert_eq!(app.notifications.notifications.len(), 1);
    assert_eq!(app.notifications.notifications[0].created_at_ms, 1234);
}

#[test]
fn exit_action_stops_the_loop() {
    let mut app = fresh_app();
    let step = app.handle_app_action(AppAction::Exit, 0);
    assert!(step.exit);
    let step = app.handle_app_action(AppAction::DeliveryFailure("x".to_string()), 0);
    assert!(!step.exit);
}
