use sms_terminal::actions::{AppAction, BackendCommand};
use sms_terminal::compose::{send_completion_actions, ComposeView};
use sms_terminal::device_info::{
    get_battery_filled, get_battery_status_text, get_signal_bars, get_signal_quality_text,
    get_signal_strength_percentage, DeviceInfoView,
};
use sms_terminal::error_view::ErrorView;
use sms_terminal::keys::{KeyCode, KeyModifiers, KeyPress};
use sms_terminal::menu::MainMenuView;
use sms_terminal::modals::{ModalKind, ModalMetadata, ModalResponse};
use sms_terminal::phonebook::{Contact, PhonebookView};
use sms_terminal::views::ViewStateRequest;

fn key(code: KeyCode) -> KeyPress {
    KeyPress { code, modifiers: KeyModifiers { control: false, alt: false, shift: false } }
}

fn ctrl(code: KeyCode) -> KeyPress {
    KeyPress { code, modifiers: KeyModifiers { control: true, alt: false, shift: false } }
}

fn expect_view_state(action: Option<AppAction>) -> ViewStateRequest {
    match action {
        Some(AppAction::SetViewState { state, .. }) => state,
        other => panic!("expected a view transition, got {:?}", other),
    }
}

#[test]
fn menu_selection_wraps_both_ways() {
    let mut m = MainMenuView::new();
    assert_eq!(m.selected_index, 0);
    m.select_previous();
    assert_eq!(m.selected_index, 2);
    m.select_next();
    assert_eq!(m.selected_index, 0);
    m.select_next();
    m.select_next();
    m.select_next();
    assert_eq!(m.selected_index, 0);
}

#[test]
fn menu_enter_chooses_selected_entry() {
    let mut m = MainMenuView::new();
    let state = expect_view_state(m.handle_key(key(KeyCode::Enter)));
    assert_eq!(state, ViewStateRequest::Phonebook);
}

#[test]
fn menu_shortcuts_ignore_case() {
    let mut m = MainMenuView::new();
    let state = expect_view_state(m.handle_key(key(KeyCode::Char('d'))));
    assert_eq!(state, ViewStateRequest::DeviceInfo);
    let state2 = expect_view_state(m.handle_key(key(KeyCode::Char('P'))));
    assert_eq!(state2, ViewStateRequest::Phonebook);
    assert!(matches!(m.handle_key(key(KeyCode::Char('q'))), Some(AppAction::Exit)));
}

#[test]
fn menu_quit_chord_exits() {
    let mut m = MainMenuView::new();
    assert!(matches!(m.handle_key(ctrl(KeyCode::Char('c'))), Some(AppAction::Exit)));
}

#[test]
fn error_view_dismissible_offers_way_back() {
    let e = ErrorView::new();
    let state = expect_view_state(e.handle_key(key(KeyCode::Esc), true));
    assert_eq!(state, ViewStateRequest::MainMenu);
}

#[test]
fn error_view_fatal_only_quits() {
    let e = ErrorView::new();
    assert!(e.handle_key(key(KeyCode::Esc), false).is_none());
    assert!(matches!(e.handle_key(ctrl(KeyCode::Char('c')), false), Some(AppAction::Exit)));
}

#[test]
fn phonebook_typed_number_opens_conversation() {
    let mut p = PhonebookView::new();
    for c in "+1555".chars() {
        assert!(p.handle_key(key(KeyCode::Char(c))).is_none());
    }
    let state = expect_view_state(p.handle_key(key(KeyCode::Enter)));
    assert_eq!(
        state,
        ViewStateRequest::Messages { phone_number: "+1555".to_string(), reversed: false },
    );
    assert!(p.input_buffer.is_empty());
}

#[test]
fn phonebook_empty_enter_ignored() {
    let mut p = PhonebookView::new();
    assert!(p.handle_key(key(KeyCode::Enter)).is_none());
}

#[test]
fn phonebook_selected_contact_wins_over_typed_number() {
    let mut p = PhonebookView::new();
    p.set_contacts(vec![
        Contact { phone: "+1111".to_string(), name: None },
        Contact { phone: "+2222".to_string(), name: Some("Bob".to_string()) },
    ]);
    p.handle_key(key(KeyCode::Down));
    p.handle_key(key(KeyCode::Down));
    let state = expect_view_state(p.handle_key(key(KeyCode::Enter)));
    assert_eq!(
        state,
        ViewStateRequest::Messages { phone_number: "+2222".to_string(), reversed: false },
    );
}

#[test]
fn phonebook_typing_clears_selection() {
    let mut p = PhonebookView::new();
    p.set_contacts(vec![Contact { phone: "+1111".to_string(), name: None }]);
    p.handle_key(key(KeyCode::Down));
    assert_eq!(p.selected_contact, Some(0));
    p.handle_key(key(KeyCode::Char('9')));
    assert_eq!(p.selected_contact, None);
}

#[test]
fn phonebook_edit_chord_raises_prefilled_editor() {
    let mut p = PhonebookView::new();
    p.set_contacts(vec![Contact { phone: "+1111".to_string(), name: Some("Ann".to_string()) }]);
    p.handle_key(key(KeyCode::Down));
    let action = p.handle_key(ctrl(KeyCode::Char('e')));
    match action {
        Some(AppAction::SetModal(Some(modal))) => {
            assert_eq!(modal.id, "edit_friendly_name");
            assert_eq!(modal.metadata, ModalMetadata::PhoneNumber("+1111".to_string()));
            match modal.kind {
                ModalKind::TextInput(editor) => {
                    assert_eq!(editor.get_input(), "Ann");
                    assert_eq!(editor.max_length, Some(50));
                },
                other => panic!("unexpected modal kind {:?}", other),
            }
        },
        other => panic!("unexpected action {:?}", other),
    }
}

#[test]
fn phonebook_name_edit_updates_cache_and_backend() {
    let mut p = PhonebookView::new();
    p.set_contacts(vec![Contact { phone: "+1111".to_string(), name: None }]);
    let (action, command) = p.handle_modal_response(
        ModalResponse::TextInput(Some("Bob".to_string())),
        ModalMetadata::PhoneNumber("+1111".to_string()),
    );
    assert!(action.is_none());
    assert_eq!(
        command,
        Some(BackendCommand::SetFriendlyName {
            phone_number: "+1111".to_string(),
            friendly_name: "Bob".to_string(),
        }),
    );
    assert_eq!(p.recent_contacts[0].name, Some("Bob".to_string()));
}

#[test]
fn phonebook_dismissed_editor_changes_nothing() {
    let mut p = PhonebookView::new();
    p.set_contacts(vec![Contact { phone: "+1111".to_string(), name: None }]);
    let (action, command) = p.handle_modal_response(
        ModalResponse::Dismissed,
        ModalMetadata::PhoneNumber("+1111".to_string()),
    );
    assert!(action.is_none());
    assert!(command.is_none());
    assert_eq!(p.recent_contacts[0].name, None);
}

#[test]
fn compose_escape_discards_and_returns() {
    let mut c = ComposeView::new();
    c.handle_key(key(KeyCode::Char('h')), "+1555");
    c.handle_key(key(KeyCode::Char('i')), "+1555");
    let state = expect_view_state(c.handle_key(key(KeyCode::Esc), "+1555"));
    assert_eq!(
        state,
        ViewStateRequest::Messages { phone_number: "+1555".to_string(), reversed: false },
    );
    assert!(c.text_buffer.is_empty());
}

#[test]
fn compose_send_chord_raises_confirmation() {
    let mut c = ComposeView::new();
    c.handle_key(key(KeyCode::Char('h')), "+1555");
    c.handle_key(key(KeyCode::Char('i')), "+1555");
    let action = c.handle_key(ctrl(KeyCode::Char(' ')), "+1555");
    match action {
        Some(AppAction::SetModal(Some(modal))) => {
            assert_eq!(modal.id, "confirm_sms_send");
            assert_eq!(
                modal.metadata,
                ModalMetadata::SendMessage("+1555".to_string(), "hi".to_string()),
            );
            match modal.kind {
                ModalKind::Confirmation(conf) => {
                    assert_eq!(conf.message, "Send SMS to +1555?");
                    assert!(!conf.selected_yes);
                },
                other => panic!("unexpected modal kind {:?}", other),
            }
        },
        other => panic!("unexpected action {:?}", other),
    }
}

#[test]
fn compose_send_chord_on_empty_draft_ignored() {
    let mut c = ComposeView::new();
    assert!(c.handle_key(ctrl(KeyCode::Char(' ')), "+1555").is_none());
}

#[test]
fn compose_confirmed_send_starts_backend_call() {
    let mut c = ComposeView::new();
    let (action, command) = c.handle_modal_response(
        ModalResponse::Confirmed,
        ModalMetadata::SendMessage("+1555".to_string(), "hi".to_string()),
    );
    match action {
        Some(AppAction::SetModal(Some(modal))) => assert_eq!(modal.id, "sms_sending"),
        other => panic!("unexpected action {:?}", other),
    }
    assert_eq!(
        command,
        Some(BackendCommand::SendSms {
            phone_number: "+1555".to_string(),
            content: "hi".to_string(),
            timeout_secs: 30,
        }),
    );
}

#[test]
fn device_refresh_only_fetches_when_empty() {
    let d = DeviceInfoView::new();
    let (action, command) = d.handle_key(key(KeyCode::Char('r')));
    assert!(action.is_none());
    assert_eq!(command, Some(BackendCommand::FetchDeviceInfo));
}

#[test]
fn device_escape_returns_to_menu() {
    let d = DeviceInfoView::new();
    let state = expect_view_state(d.handle_key(key(KeyCode::Esc)).0);
    assert_eq!(state, ViewStateRequest::MainMenu);
}

#[test]
fn signal_percentage_values() {
    assert_eq!(get_signal_strength_percentage(99), 0);
    assert_eq!(get_signal_strength_percentage(0), 0);
    assert_eq!(get_signal_strength_percentage(31), 100);
    assert_eq!(get_signal_strength_percentage(32), 100);
    assert_eq!(get_signal_strength_percentage(15), 48);
    assert_eq!(get_signal_strength_percentage(16), 52);
}

#[test]
fn signal_bars_values() {
    assert_eq!(get_signal_bars(99), 0);
    assert_eq!(get_signal_bars(0), 0);
    assert_eq!(get_signal_bars(1), 1);
    assert_eq!(get_signal_bars(7), 2);
    assert_eq!(get_signal_bars(13), 3);
    assert_eq!(get_signal_bars(31), 5);
}

#[test]
fn signal_quality_labels() {
    assert_eq!(get_signal_quality_text(99), "Unknown");
    assert_eq!(get_signal_quality_text(31), "Excellent");
    assert_eq!(get_signal_quality_text(25), "Good");
    assert_eq!(get_signal_quality_text(17), "Fair");
    assert_eq!(get_signal_quality_text(9), "Poor");
    assert_eq!(get_signal_quality_text(5), "Very Poor");
}

#[test]
fn battery_gauge_values() {
    assert_eq!(get_battery_filled(0), 0);
    assert_eq!(get_battery_filled(50), 7);
    assert_eq!(get_battery_filled(93), 13);
    assert_eq!(get_battery_filled(100), 14);
    assert_eq!(get_battery_filled(255), 14);
    assert_eq!(get_battery_status_text(0), "Not Charging");
    assert_eq!(get_battery_status_text(1), "Charging");
    assert_eq!(get_battery_status_text(2), "No Battery");
    assert_eq!(get_battery_status_text(9), "Unknown");
}

#[test]
fn send_completion_success_syncs_notifies_and_returns() {
    let actions = send_completion_actions("+1555", "hi", Ok((42, 7)));
    assert_eq!(actions.len(), 3);
    match &actions[0] {
        AppAction::HandleIncomingMessage(m) => {
            assert_eq!(m.id, "42");
            assert_eq!(m.phone_number, "+1555");
            assert!(m.is_outgoing);
            assert_eq!(m.content, "hi");
        },
        other => panic!("unexpected action {:?}", other),
    }
    match &actions[1] {
        AppAction::ShowNotification(kind) => match kind {
            sms_terminal::notify::NotificationType::GenericMessage { title, message } => {
                assert_eq!(title, "Message Sent");
                assert_eq!(message, "Message #42 was sent (ref 7)!");
            },
            other => panic!("unexpected notification {:?}", other),
        },
        other => panic!("unexpected action {:?}", other),
    }
    match &actions[2] {
        AppAction::SetViewState { state, dismiss_modal } => {
            assert!(dismiss_modal);
            assert_eq!(
                *state,
                ViewStateRequest::Messages { phone_number: "+1555".to_string(), reversed: false },
            );
        },
        other => panic!("unexpected action {:?}", other),
    }
}

#[test]
fn send_completion_failure_notifies_and_returns() {
    let actions = send_completion_actions("+1555", "hi", Err("gateway down".to_string()));
    assert_eq!(actions.len(), 2);
    match &actions[0] {
        AppAction::ShowNotification(kind) => match kind {
            sms_terminal::notify::NotificationType::GenericMessage { title, message } => {
                assert_eq!(title, "Send Failure");
                assert_eq!(message, "gateway down");
            },
            other => panic!("unexpected notification {:?}", other),
        },
        other => panic!("unexpected action {:?}", other),
    }
    assert!(matches!(&actions[1], AppAction::SetViewState { dismiss_modal: true, .. }));
}

#[test]
fn compose_confirmed_send_blocks_further_input() {
    let mut c = ComposeView::new();
    let (_, command) = c.handle_modal_response(
        ModalResponse::Confirmed,
        ModalMetadata::SendMessage("+1555".to_string(), "hi".to_string()),
    );
    assert!(command.is_some());
    assert!(c.is_sending);
    // keys are swallowed while the send is in flight
    assert!(c.handle_key(key(KeyCode::Char('x')), "+1555").is_none());
    assert!(c.text_buffer.is_empty());
}
