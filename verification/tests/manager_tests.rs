use sms_terminal::actions::{AppAction, BackendCommand};
use sms_terminal::keys::{KeyCode, KeyModifiers, KeyPress};
use sms_terminal::manager::{CurrentView, FetchOutcome, ViewManager};
use sms_terminal::message::SmsMessage;
use sms_terminal::phonebook::Contact;
use sms_terminal::views::ViewStateRequest;

fn key(code: KeyCode) -> KeyPress {
    KeyPress { code, modifiers: KeyModifiers { control: false, alt: false, shift: false } }
}

fn msg(id: &str, phone: &str, is_outgoing: bool) -> SmsMessage {
    SmsMessage {
        id: id.to_string(),
        phone_number: phone.to_string(),
        direction: String::new(),
        timestamp: String::new(),
        content: "hello".to_string(),
        is_outgoing,
    }
}

fn page(start: usize, count: usize, phone: &str) -> Vec<SmsMessage> {
    (start..start + count).map(|i| msg(&i.to_string(), phone, false)).collect()
}

fn open_conversation(vm: &mut ViewManager, phone: &str, first_page: Vec<SmsMessage>) {
    let command = vm.transition_to(ViewStateRequest::Messages {
        phone_number: phone.to_string(),
        reversed: false,
    });
    assert!(command.is_some());
    let action = vm.finish_fetch(FetchOutcome::MessagePage {
        phone_number: phone.to_string(),
        result: Ok(first_page),
    });
    assert!(action.is_none());
}

#[test]
fn transition_to_menu_is_immediate() {
    let mut vm = ViewManager::new();
    let command = vm.transition_to(ViewStateRequest::MainMenu);
    assert!(command.is_none());
    assert!(matches!(vm.current, CurrentView::MainMenu(_)));
    assert!(vm.pending.is_none());
}

#[test]
fn transition_holds_screen_until_load_finishes() {
    let mut vm = ViewManager::new();
    vm.transition_to(ViewStateRequest::MainMenu);
    let command = vm.transition_to(ViewStateRequest::Phonebook);
    assert_eq!(command, Some(BackendCommand::FetchContacts { limit: 14 }));
    // the previous screen stays on show while the load is in flight
    assert!(matches!(vm.current, CurrentView::MainMenu(_)));
    vm.finish_fetch(FetchOutcome::Contacts(Ok(vec![Contact {
        phone: "+1111".to_string(),
        name: None,
    }])));
    match &vm.current {
        CurrentView::Phonebook(p) => assert_eq!(p.recent_contacts.len(), 1),
        other => panic!("unexpected screen {}", screen_name(other)),
    }
}

#[test]
fn failed_load_becomes_fatal_error_screen() {
    let mut vm = ViewManager::new();
    vm.transition_to(ViewStateRequest::Phonebook);
    vm.finish_fetch(FetchOutcome::Contacts(Err("connection refused".to_string())));
    match &vm.current {
        CurrentView::Error { message, dismissible, .. } => {
            assert_eq!(message, "connection refused");
            assert!(!dismissible);
        },
        other => panic!("unexpected screen {}", screen_name(other)),
    }
}

#[test]
fn conversation_load_and_lookahead_prefetch() {
    // the first call returns a full page of 20, the second only 3: after
    // both, 23 records are loaded, the offset stands at 20 and no more data
    // is expected
    let mut vm = ViewManager::new();
    open_conversation(&mut vm, "+1555", page(0, 20, "+1555"));
    match &vm.current {
        CurrentView::Messages { view, .. } => {
            assert_eq!(view.messages.len(), 20);
            assert_eq!(view.current_offset, 20);
            assert!(view.has_more);
            assert_eq!(view.selected, Some(0));
        },
        other => panic!("unexpected screen {}", screen_name(other)),
    }

    // scroll down until the cursor reaches the lookahead threshold
    let mut command = None;
    for _ in 0..15 {
        let (action, cmd) = vm.handle_key(key(KeyCode::Down));
        assert!(action.is_none());
        if cmd.is_some() {
            command = cmd;
            break;
        }
    }
    match command {
        Some(BackendCommand::FetchMessagePage { phone_number, request }) => {
            assert_eq!(phone_number, "+1555");
            assert_eq!(request.offset, 20);
        },
        other => panic!("expected a prefetch, got {:?}", other),
    }

    let action = vm.finish_fetch(FetchOutcome::MessagePage {
        phone_number: "+1555".to_string(),
        result: Ok(page(20, 3, "+1555")),
    });
    assert!(action.is_none());
    match &vm.current {
        CurrentView::Messages { view, .. } => {
            assert!(!view.has_more);
            assert_eq!(view.messages.len(), 23);
            assert_eq!(view.current_offset, 20);
        },
        other => panic!("unexpected screen {}", screen_name(other)),
    }
}

#[test]
fn late_page_for_other_conversation_discarded() {
    let mut vm = ViewManager::new();
    vm.transition_to(ViewStateRequest::Messages {
        phone_number: "+1555".to_string(),
        reversed: false,
    });
    let action = vm.finish_fetch(FetchOutcome::MessagePage {
        phone_number: "+1999".to_string(),
        result: Ok(page(0, 20, "+1999")),
    });
    assert!(action.is_none());
    // the transition is still pending and the old screen still on show
    assert!(vm.pending.is_some());
    assert!(matches!(vm.current, CurrentView::DeviceInfo(_)));
}

#[test]
fn in_view_reload_failure_keeps_data_and_reports() {
    let mut vm = ViewManager::new();
    open_conversation(&mut vm, "+1555", page(0, 20, "+1555"));
    let (action, command) = vm.handle_key(key(KeyCode::Char('r')));
    assert!(action.is_none());
    assert!(command.is_some());
    let action = vm.finish_fetch(FetchOutcome::MessagePage {
        phone_number: "+1555".to_string(),
        result: Err("timeout".to_string()),
    });
    match action {
        Some(AppAction::SetViewState { state, .. }) => match state {
            ViewStateRequest::Error { message, dismissible } => {
                assert_eq!(message, "timeout");
                assert!(!dismissible);
            },
            other => panic!("unexpected state {:?}", other),
        },
        other => panic!("unexpected action {:?}", other),
    }
    // the screen itself keeps its prior, valid data
    match &vm.current {
        CurrentView::Messages { view, .. } => {
            assert!(!view.is_loading);
            assert_eq!(view.messages.len(), 0, "reload cleared the window before fetching");
        },
        other => panic!("unexpected screen {}", screen_name(other)),
    }
}

#[test]
fn order_toggle_requests_reversed_conversation() {
    let mut vm = ViewManager::new();
    open_conversation(&mut vm, "+1555", page(0, 20, "+1555"));
    let (action, _) = vm.handle_key(KeyPress {
        code: KeyCode::Char('r'),
        modifiers: KeyModifiers { control: true, alt: false, shift: false },
    });
    match action {
        Some(AppAction::SetViewState { state, .. }) => assert_eq!(
            state,
            ViewStateRequest::Messages { phone_number: "+1555".to_string(), reversed: true },
        ),
        other => panic!("unexpected action {:?}", other),
    }
}

#[test]
fn live_message_taken_only_for_matching_conversation() {
    let mut vm = ViewManager::new();
    open_conversation(&mut vm, "+1555", page(0, 2, "+1555"));
    assert!(vm.try_add_message(&msg("90", "+1555", false)));
    assert!(!vm.try_add_message(&msg("91", "+1999", false)));
    match &vm.current {
        CurrentView::Messages { view, .. } => {
            assert_eq!(view.messages.len(), 3);
            assert_eq!(view.messages[0].id, "90");
        },
        other => panic!("unexpected screen {}", screen_name(other)),
    }
}

#[test]
fn error_arbitration_rules() {
    let mut vm = ViewManager::new();
    // no error displayed: anything may show
    assert!(vm.should_show_error(true));
    assert!(vm.should_show_error(false));

    vm.transition_to(ViewStateRequest::Error {
        message: "recoverable".to_string(),
        dismissible: true,
    });
    // a dismissible error yields to anything, fatal included
    assert!(vm.should_show_error(false));
    assert!(vm.should_show_error(true));

    vm.transition_to(ViewStateRequest::Error {
        message: "fatal".to_string(),
        dismissible: false,
    });
    // a fatal error yields only to another fatal error
    assert!(vm.should_show_error(false));
    assert!(!vm.should_show_error(true));
}

#[test]
fn titles_follow_the_active_screen() {
    let mut vm = ViewManager::new();
    vm.transition_to(ViewStateRequest::MainMenu);
    assert_eq!(vm.title(), "Main Menu");
    open_conversation(&mut vm, "+1555", page(0, 1, "+1555"));
    assert_eq!(vm.title(), "Viewing Messages \u{ff5c} +1555");
}

#[test]
fn error_title_marks_the_fatal_error() {
    // dismissible=false marks the fatal error that blocks going back
    let mut vm = ViewManager::new();
    vm.transition_to(ViewStateRequest::Error {
        message: "boom".to_string(),
        dismissible: false,
    });
    assert_eq!(vm.title(), "Fatal Error");
    vm.transition_to(ViewStateRequest::Error {
        message: "hiccup".to_string(),
        dismissible: true,
    });
    assert_eq!(vm.title(), "Error");
}

fn screen_name(v: &CurrentView) -> &'static str {
    match v {
        CurrentView::MainMenu(_) => "main menu",
        CurrentView::Phonebook(_) => "phonebook",
        CurrentView::DeviceInfo(_) => "device info",
        CurrentView::Messages { .. } => "messages",
        CurrentView::Compose { .. } => "compose",
        CurrentView::Error { .. } => "error",
    }
}
