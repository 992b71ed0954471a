//! The view manager: exactly one active screen, constructed on demand from a
//! `ViewStateRequest`. A transition whose screen needs backend data is held
//! pending until the fetch comes back; on failure the error screen takes the
//! requested screen's place, so a screen that never loaded is never shown.
//! A fetch outcome that no longer matches the current state is discarded.

use vstd::prelude::*;
use vstd::string::StringExecFns;
use crate::actions::AppAction;
use crate::actions::BackendCommand;
use crate::compose::ComposeView;
use crate::device_info::DeviceInfo;
use crate::device_info::DeviceInfoView;
use crate::error_view::ErrorView;
use crate::keys::KeyCode;
use crate::keys::KeyPress;
use crate::menu::MainMenuView;
use crate::message::SmsMessage;
use crate::modals::AppModal;
use crate::modals::ModalKind;
use crate::modals::ModalMetadata;
use crate::modals::ModalResponse;
use crate::phonebook::Contact;
use crate::phonebook::PhonebookView;
use crate::reports::DeliveryReportsModal;
use crate::table::spec_apply_page;
use crate::table::spec_wants_prefetch;
use crate::table::MessagesView;
use crate::table::PageRequest;
use crate::table::MESSAGES_PER_PAGE;
use crate::views::ViewStateRequest;

verus! {

/// The active screen together with its backing state.
pub enum CurrentView {
    MainMenu(MainMenuView),
    Phonebook(PhonebookView),
    DeviceInfo(DeviceInfoView),
    Messages { view: MessagesView, phone_number: String, reversed: bool },
    Compose { view: ComposeView, phone_number: String },
    Error { view: ErrorView, message: String, dismissible: bool },
}

/// What one fetch came back with, handed in as plain values.
pub enum FetchOutcome {
    Contacts(Result<Vec<Contact>, String>),
    DeviceInfo(Result<DeviceInfo, String>),
    MessagePage { phone_number: String, result: Result<Vec<SmsMessage>, String> },
}

/// A screen built for a transition whose load is still in flight; the
/// previous screen stays active until the fetch comes back.
pub struct PendingTransition {
    pub view: CurrentView,
}

/// The screens' internal invariants: an input cursor never stands past its
/// buffer, and a pending conversation screen has its first fetch in flight.
pub open spec fn current_view_wf(v: CurrentView) -> bool {
    v matches CurrentView::Compose { view, .. } ==> view.wf()
}

pub open spec fn pending_view_wf(v: CurrentView) -> bool {
    &&& current_view_wf(v)
    &&& v matches CurrentView::Messages { view, .. } ==> view.is_loading
}

/// Tracks the current screen and builds the next one on request.
pub struct ViewManager {
    pub current: CurrentView,
    pub pending: Option<PendingTransition>,
}

impl ViewManager {
    pub open spec fn wf(self) -> bool {
        &&& current_view_wf(self.current)
        &&& self.pending matches Some(p) ==> pending_view_wf(p.view)
    }
}

/// Builds the screen a request names, in its freshly initialized state.
pub fn from_request(request: ViewStateRequest) -> (r: CurrentView)
    ensures
        current_view_wf(r),
        request is MainMenu ==> (r matches CurrentView::MainMenu(m) && m.selected_index == 0),
        request is Phonebook ==> (r matches CurrentView::Phonebook(p) && p.recent_contacts@.len()
            == 0 && p.selected_contact is None),
        request is DeviceInfo ==> (r matches CurrentView::DeviceInfo(d) && d.device_info is None),
        request matches ViewStateRequest::Messages { phone_number, reversed } ==> (r matches
            CurrentView::Messages { view, phone_number: p2, reversed: r2 } && p2 == phone_number
            && r2 == reversed && view.messages@.len() == 0 && !view.is_loading
            && view.current_offset == 0 && view.has_more && view.selected is None),
        request matches ViewStateRequest::Compose { phone_number } ==> (r matches
            CurrentView::Compose { view, phone_number: p2 } && p2 == phone_number
            && view.text_buffer@.len() == 0 && view.cursor_position == 0 && !view.is_sending),
        request matches ViewStateRequest::Error { message, dismissible } ==> (r matches
            CurrentView::Error { message: m2, dismissible: d2, .. } && m2 == message && d2
            == dismissible),
{
    match request {
        ViewStateRequest::MainMenu => CurrentView::MainMenu(MainMenuView::new()),
        ViewStateRequest::Phonebook => CurrentView::Phonebook(PhonebookView::new()),
        ViewStateRequest::DeviceInfo => CurrentView::DeviceInfo(DeviceInfoView::new()),
        ViewStateRequest::Messages { phone_number, reversed } => CurrentView::Messages {
            view: MessagesView::new(),
            phone_number,
            reversed,
        },
        ViewStateRequest::Compose { phone_number } => CurrentView::Compose {
            view: ComposeView::new(),
            phone_number,
        },
        ViewStateRequest::Error { message, dismissible } => CurrentView::Error {
            view: ErrorView::new(),
            message,
            dismissible,
        },
    }
}

/// What `transition_to` does for each request: a backend-free screen is
/// activated at once, the others are held pending with their first fetch
/// returned and the previous screen kept on show.
pub open spec fn transition_spec(
    pre: ViewManager,
    request: ViewStateRequest,
    post: ViewManager,
    r: Option<BackendCommand>,
) -> bool {
    &&& request is MainMenu ==> (r is None && post.pending is None && (
    post.current matches CurrentView::MainMenu(m) && m.selected_index == 0))
    &&& request is Phonebook ==> (r == Some(
        BackendCommand::FetchContacts { limit: crate::phonebook::MAX_CONTACTS as u64 },
    ) && post.current == pre.current && (post.pending matches Some(p)
        && p.view matches CurrentView::Phonebook(pb) && pb.recent_contacts@.len() == 0))
    &&& request is DeviceInfo ==> (r == Some(BackendCommand::FetchDeviceInfo) && post.current
        == pre.current && (post.pending matches Some(p)
        && p.view matches CurrentView::DeviceInfo(d) && d.device_info is None))
    &&& request matches ViewStateRequest::Messages { phone_number, reversed } ==> ({
        &&& r == Some(
            BackendCommand::FetchMessagePage {
                phone_number: phone_number,
                request: PageRequest { offset: 0, limit: MESSAGES_PER_PAGE, reversed: reversed },
            },
        )
        &&& post.current == pre.current
        &&& post.pending matches Some(p) && (p.view matches CurrentView::Messages {
            view,
            phone_number: p2,
            reversed: r2,
        } && p2 == phone_number && r2 == reversed && view.is_loading && view.messages@.len() == 0
            && view.current_offset == 0)
    })
    &&& request matches ViewStateRequest::Compose { phone_number } ==> (r is None
        && post.pending is None && (post.current matches CurrentView::Compose {
        view,
        phone_number: p2,
    } && p2 == phone_number && view.text_buffer@.len() == 0))
    &&& request matches ViewStateRequest::Error { message, dismissible } ==> (r is None
        && post.pending is None && (post.current matches CurrentView::Error {
        message: m2,
        dismissible: d2,
        ..
    } && m2 == message && d2 == dismissible))
}

/// Whether the active screen is the error screen showing `message` as a
/// fatal, non-dismissible error.
pub open spec fn spec_fatal_error_screen(v: CurrentView, message: String) -> bool {
    v matches CurrentView::Error { message: m2, dismissible, .. } && m2 == message && !dismissible
}

impl ViewManager {
    /// Starts on the device information screen; the host transitions to the
    /// configured starting screen right away.
    pub fn new() -> (r: ViewManager)
        ensures
            r.wf(),
            r.current is DeviceInfo,
            r.pending is None,
    {
        ViewManager {
            current: from_request(ViewStateRequest::DeviceInfo),
            pending: None,
        }
    }

    /// Switches to the screen a request names. A screen that needs no
    /// backend data becomes current at once; one that does is held pending
    /// and the needed fetch is returned, so the requested screen is only
    /// activated by `finish_fetch` once its load succeeded.
    pub fn transition_to(&mut self, request: ViewStateRequest) -> (r: Option<BackendCommand>)
        requires
            old(self).wf(),
        ensures
            final(self).wf(),
            transition_spec(*old(self), request, *final(self), r),
    {
        let built = from_request(request);
        match built {
            CurrentView::MainMenu(m) => {
                self.current = CurrentView::MainMenu(m);
                self.pending = None;
                None
            },
            CurrentView::Phonebook(p) => {
                // a fresh phonebook always needs its contacts
                self.pending = Some(PendingTransition { view: CurrentView::Phonebook(p) });
                Some(BackendCommand::FetchContacts { limit: crate::phonebook::MAX_CONTACTS as u64 })
            },
            CurrentView::DeviceInfo(d) => {
                self.pending = Some(PendingTransition { view: CurrentView::DeviceInfo(d) });
                Some(BackendCommand::FetchDeviceInfo)
            },
            CurrentView::Messages { view, phone_number, reversed } => {
                let mut view = view;
                let request = match view.begin_load(reversed) {
                    Some(req) => req,
                    None => PageRequest { offset: 0, limit: MESSAGES_PER_PAGE, reversed },
                };
                let command = BackendCommand::FetchMessagePage {
                    phone_number: phone_number.clone(),
                    request,
                };
                self.pending = Some(
                    PendingTransition {
                        view: CurrentView::Messages { view, phone_number, reversed },
                    },
                );
                Some(command)
            },
            CurrentView::Compose { view, phone_number } => {
                self.current = CurrentView::Compose { view, phone_number };
                self.pending = None;
                None
            },
            CurrentView::Error { view, message, dismissible } => {
                self.current = CurrentView::Error { view, message, dismissible };
                self.pending = None;
                None
            },
        }
    }

    /// Applies what a fetch came back with. An outcome for a pending
    /// transition activates the built screen on success and the error screen
    /// on failure; an outcome for the current screen updates it in place, a
    /// failure there asking for the error screen by action instead, so the
    /// error-overwrite arbitration still runs. An outcome that matches
    /// neither — the screen changed or the conversation differs — is
    /// discarded.
    pub fn finish_fetch(&mut self, outcome: FetchOutcome) -> (r: Option<AppAction>)
        requires
            old(self).wf(),
        ensures
            final(self).wf(),
            r matches Some(a) ==> crate::actions::action_wf(a),
            old(self).pending matches Some(p) ==> ({
                &&& p.view matches CurrentView::Phonebook(pb) ==> (match outcome {
                    FetchOutcome::Contacts(result) => {
                        &&& final(self).pending is None
                        &&& r is None
                        &&& match result {
                            Ok(cs) => final(self).current matches CurrentView::Phonebook(pb2) && {
                                &&& pb2.recent_contacts == cs
                                &&& pb2.input_buffer == pb.input_buffer
                                &&& pb2.max_contacts == pb.max_contacts
                            },
                            Err(e) => spec_fatal_error_screen(final(self).current, e),
                        }
                    },
                    _ => *final(self) == *old(self) && r is None,
                })
                &&& p.view matches CurrentView::DeviceInfo(d) ==> (match outcome {
                    FetchOutcome::DeviceInfo(result) => {
                        &&& final(self).pending is None
                        &&& r is None
                        &&& match result {
                            Ok(info) => final(self).current matches CurrentView::DeviceInfo(d2)
                                && d2.device_info == Some(info),
                            Err(e) => spec_fatal_error_screen(final(self).current, e),
                        }
                    },
                    _ => *final(self) == *old(self) && r is None,
                })
                &&& p.view matches CurrentView::Messages { view, phone_number, reversed } ==> (
                match outcome {
                    FetchOutcome::MessagePage { phone_number: pn, result } => if pn@
                        == phone_number@ {
                        &&& final(self).pending is None
                        &&& r is None
                        &&& match result {
                            Ok(msgs) => final(self).current matches CurrentView::Messages {
                                view: v2,
                                phone_number: p2,
                                reversed: r2,
                            } && p2 == phone_number && r2 == reversed && v2.model()
                                == spec_apply_page(view.model(), msgs@) && v2.is_selected_outgoing
                                == (v2.messages@.len() > 0 && v2.messages@[0].is_outgoing),
                            Err(e) => spec_fatal_error_screen(final(self).current, e),
                        }
                    } else {
                        // a late page for another conversation is discarded
                        *final(self) == *old(self) && r is None
                    },
                    _ => *final(self) == *old(self) && r is None,
                })
                &&& (p.view is MainMenu || p.view is Compose || p.view is Error) ==> *final(self)
                    == *old(self) && r is None
            }),
            old(self).pending is None ==> ({
                &&& old(self).current matches CurrentView::Messages {
                    view,
                    phone_number,
                    reversed,
                } ==> (match outcome {
                    FetchOutcome::MessagePage { phone_number: pn, result } => if pn@
                        == phone_number@ && view.is_loading {
                        &&& final(self).pending is None
                        &&& match result {
                            Ok(msgs) => final(self).current matches CurrentView::Messages {
                                view: v2,
                                phone_number: p2,
                                reversed: r2,
                            } && p2 == phone_number && r2 == reversed && v2.model()
                                == spec_apply_page(view.model(), msgs@) && r is None,
                            Err(e) => (final(self).current matches CurrentView::Messages {
                                view: v2,
                                phone_number: p2,
                                reversed: r2,
                            } && p2 == phone_number && r2 == reversed && v2 == (MessagesView {
                                is_loading: false,
                                ..view
                            })) && (r matches Some(AppAction::SetViewState { state, dismiss_modal })
                                && !dismiss_modal && (state matches ViewStateRequest::Error {
                                message,
                                dismissible,
                            } && message == e && !dismissible)),
                        }
                    } else {
                        // stale: the conversation changed or no fetch is in flight
                        *final(self) == *old(self) && r is None
                    },
                    _ => *final(self) == *old(self) && r is None,
                })
                &&& old(self).current matches CurrentView::DeviceInfo(d) ==> (match outcome {
                    FetchOutcome::DeviceInfo(result) => {
                        &&& final(self).pending is None
                        &&& match result {
                            Ok(info) => final(self).current matches CurrentView::DeviceInfo(d2)
                                && d2.device_info == Some(info) && r is None,
                            Err(e) => *final(self) == *old(self) && (r matches Some(
                                AppAction::SetViewState { state, dismiss_modal },
                            ) && dismiss_modal && (state matches ViewStateRequest::Error {
                                message,
                                dismissible,
                            } && message == e && !dismissible)),
                        }
                    },
                    _ => *final(self) == *old(self) && r is None,
                })
                &&& (!(old(self).current is Messages) && !(old(self).current is DeviceInfo)) ==> *final(self) == *old(self) && r is None
            }),
    {
        let pending = self.pending.take();
        match pending {
            Some(p) => {
                match (p.view, outcome) {
                    (CurrentView::Phonebook(pb), FetchOutcome::Contacts(result)) => {
                        match result {
                            Ok(cs) => {
                                let mut pb = pb;
                                pb.set_contacts(cs);
                                self.current = CurrentView::Phonebook(pb);
                            },
                            Err(e) => {
                                self.current = CurrentView::Error {
                                    view: ErrorView::new(),
                                    message: e,
                                    dismissible: false,
                                };
                            },
                        }
                        None
                    },
                    (CurrentView::DeviceInfo(d), FetchOutcome::DeviceInfo(result)) => {
                        match result {
                            Ok(info) => {
                                let mut d = d;
                                d.set_device_info(info);
                                self.current = CurrentView::DeviceInfo(d);
                            },
                            Err(e) => {
                                self.current = CurrentView::Error {
                                    view: ErrorView::new(),
                                    message: e,
                                    dismissible: false,
                                };
                            },
                        }
                        None
                    },
                    (
                        CurrentView::Messages { view, phone_number, reversed },
                        FetchOutcome::MessagePage { phone_number: pn, result },
                    ) => {
                        if pn == phone_number {
                            match result {
                                Ok(msgs) => {
                                    let mut view = view;
                                    view.apply_page(msgs);
                                    view.is_selected_outgoing = if view.messages.len() > 0 {
                                        view.messages[0].is_outgoing
                                    } else {
                                        false
                                    };
                                    self.current = CurrentView::Messages {
                                        view,
                                        phone_number,
                                        reversed,
                                    };
                                },
                                Err(e) => {
                                    self.current = CurrentView::Error {
                                        view: ErrorView::new(),
                                        message: e,
                                        dismissible: false,
                                    };
                                },
                            }
                        } else {
                            // a late response for another conversation
                            self.pending = Some(
                                PendingTransition {
                                    view: CurrentView::Messages { view, phone_number, reversed },
                                },
                            );
                        }
                        None
                    },
                    (other, _) => {
                        self.pending = Some(PendingTransition { view: other });
                        None
                    },
                }
            },
            None => {
                match (&mut self.current, outcome) {
                    (
                        CurrentView::Messages { view, phone_number, .. },
                        FetchOutcome::MessagePage { phone_number: pn, result },
                    ) => {
                        if pn == *phone_number && view.is_loading {
                            match result {
                                Ok(msgs) => {
                                    view.apply_page(msgs);
                                    None
                                },
                                Err(e) => {
                                    view.fetch_failed();
                                    Some(
                                        AppAction::SetViewState {
                                            state: ViewStateRequest::Error {
                                                message: e,
                                                dismissible: false,
                                            },
                                            dismiss_modal: false,
                                        },
                                    )
                                },
                            }
                        } else {
                            None
                        }
                    },
                    (CurrentView::DeviceInfo(d), FetchOutcome::DeviceInfo(result)) => {
                        match result {
                            Ok(info) => {
                                d.set_device_info(info);
                                None
                            },
                            Err(e) => Some(
                                AppAction::SetViewState {
                                    state: ViewStateRequest::Error {
                                        message: e,
                                        dismissible: false,
                                    },
                                    dismiss_modal: true,
                                },
                            ),
                        }
                    },
                    _ => None,
                }
            },
        }
    }

    /// Offers one key to the active screen and carries back what it asks
    /// for: an action for the dispatcher, a fetch for the backend, or both.
    pub fn handle_key(&mut self, key: KeyPress) -> (r: (
        Option<AppAction>,
        Option<BackendCommand>,
    ))
        requires
            old(self).wf(),
        ensures
            final(self).wf(),
            vm_key_spec(*old(self), key, *final(self), r.0, r.1),
            r.0 matches Some(a) ==> crate::actions::action_wf(a),
    {
        match &mut self.current {
            CurrentView::MainMenu(m) => (m.handle_key(key), None),
            CurrentView::Phonebook(p) => (p.handle_key(key), None),
            CurrentView::DeviceInfo(d) => d.handle_key(key),
            CurrentView::Messages { view, phone_number, .. } => messages_handle_key(
                view,
                phone_number,
                key,
            ),
            CurrentView::Compose { view, phone_number } => {
                let phone = phone_number.clone();
                (view.handle_key(key, phone.as_str()), None)
            },
            CurrentView::Error { view, dismissible, .. } => (
                view.handle_key(key, *dismissible),
                None,
            ),
        }
    }

    /// Routes a finished modal's response to the screen that can answer it.
    /// A screen without a handler tolerates a plain dismissal; any other
    /// response there surfaces as a recoverable error.
    pub fn handle_modal_response(&mut self, response: ModalResponse, metadata: ModalMetadata) -> (r:
        (Option<AppAction>, Option<BackendCommand>))
        requires
            old(self).wf(),
        ensures
            final(self).wf(),
            vm_modal_response_spec(*old(self), response, metadata, *final(self), r.0, r.1),
            r.0 matches Some(a) ==> crate::actions::action_wf(a),
    {
        match &mut self.current {
            CurrentView::Phonebook(p) => p.handle_modal_response(response, metadata),
            CurrentView::Compose { view, .. } => view.handle_modal_response(response, metadata),
            _ => {
                match response {
                    ModalResponse::Dismissed => (None, None),
                    _ => (
                        Some(
                            AppAction::ShowError {
                                message: String::from_str(
                                    "Current view cannot handle modal responses!",
                                ),
                                dismissible: true,
                            },
                        ),
                        None,
                    ),
                }
            },
        }
    }

    /// Merges a live message into the conversation screen showing its
    /// number. Returns whether it was taken: a taken message needs no
    /// notification, the user is already looking at its conversation.
    pub fn try_add_message(&mut self, message: &SmsMessage) -> (r: bool)
        requires
            old(self).wf(),
        ensures
            final(self).wf(),
            final(self).pending == old(self).pending,
            r == spec_takes_message(old(self).current, *message),
            old(self).current matches CurrentView::Messages { view, phone_number, reversed } ==> ({
                &&& r == (phone_number@ == message.phone_number@)
                &&& r ==> (final(self).current matches CurrentView::Messages {
                    view: v2,
                    phone_number: p2,
                    reversed: r2,
                } && p2 == phone_number && r2 == reversed && v2.messages@
                    == crate::table::spec_add_live(view.messages@, *message))
                &&& !r ==> *final(self) == *old(self)
            }),
            !(old(self).current is Messages) ==> (*final(self) == *old(self) && !r),
    {
        match &mut self.current {
            CurrentView::Messages { view, phone_number, .. } => {
                if *phone_number == message.phone_number {
                    view.add_live_message(message);
                    true
                } else {
                    false
                }
            },
            _ => false,
        }
    }

    /// Whether the error screen is active, and if so whether dismissible.
    pub fn is_dismissible_error(&self) -> (r: Option<bool>)
        ensures
            self.current matches CurrentView::Error { dismissible, .. } ==> r == Some(dismissible),
            !(self.current is Error) ==> r is None,
    {
        match &self.current {
            CurrentView::Error { dismissible, .. } => Some(*dismissible),
            _ => None,
        }
    }

    /// Error-overwrite arbitration: with no error on screen a new one always
    /// shows; a displayed dismissible error may be superseded by anything,
    /// while a displayed fatal error yields only to another fatal error.
    pub fn should_show_error(&self, new_dismissible: bool) -> (r: bool)
        ensures
            r == spec_should_show_error(
                match self.current {
                    CurrentView::Error { dismissible, .. } => Some(dismissible),
                    _ => None,
                },
                new_dismissible,
            ),
    {
        match self.is_dismissible_error() {
            Some(existing_dismissible) => existing_dismissible || !new_dismissible,
            None => true,
        }
    }

    /// The window title for the active screen.
    pub fn title(&self) -> (r: String)
        ensures
            self.current is MainMenu ==> r@ == "Main Menu"@,
            self.current is Phonebook ==> r@ == "Phonebook"@,
            self.current is DeviceInfo ==> r@ == "Device Info"@,
            self.current matches CurrentView::Messages { phone_number, .. } ==> r@
                == "Viewing Messages ｜ "@ + phone_number@,
            self.current matches CurrentView::Compose { phone_number, .. } ==> r@
                == "Composing Message ｜ "@ + phone_number@,
            self.current matches CurrentView::Error { dismissible, .. } ==> r@ == (if dismissible {
                "Error"@
            } else {
                "Fatal Error"@
            }),
    {
        match &self.current {
            CurrentView::MainMenu(_) => String::from_str("Main Menu"),
            CurrentView::Phonebook(_) => String::from_str("Phonebook"),
            CurrentView::DeviceInfo(_) => String::from_str("Device Info"),
            CurrentView::Messages { phone_number, .. } => String::from_str(
                "Viewing Messages ｜ ",
            ).concat(phone_number.as_str()),
            CurrentView::Compose { phone_number, .. } => String::from_str(
                "Composing Message ｜ ",
            ).concat(phone_number.as_str()),
            CurrentView::Error { dismissible, .. } => {
                // the error that cannot be dismissed is the fatal one
                if *dismissible {
                    String::from_str("Error")
                } else {
                    String::from_str("Fatal Error")
                }
            },
        }
    }
}

/// How the table relates to its prior state after a reset ahead of a fresh
/// load: window, cursor and pagination cleared, the rest kept.
pub open spec fn table_reset_ok(pre: MessagesView, post: MessagesView) -> bool {
    &&& post.messages@.len() == 0
    &&& post.selected is None
    &&& post.current_offset == 0
    &&& post.has_more
    &&& !post.is_selected_outgoing
    &&& post.is_loading == pre.is_loading
    &&& post.reversed == pre.reversed
    &&& post.selected_column == pre.selected_column
    &&& post.col_widths == pre.col_widths
    &&& post.total_messages == pre.total_messages
}

/// What the conversation screen does with one key: Escape resets the table
/// and returns to the phonebook; composing and order-toggling ask for their
/// screens; reload clears the window and starts a fetch unless one is in
/// flight; the report chord opens the delivery modal of a selected outgoing
/// message; the cursor keys step the table, a downward step firing the
/// lookahead prefetch.
pub open spec fn messages_key_spec(
    pre: MessagesView,
    phone_number: String,
    key: KeyPress,
    post: MessagesView,
    action: Option<AppAction>,
    command: Option<BackendCommand>,
) -> bool {
    &&& key.code is Esc ==> (table_reset_ok(pre, post) && command is None && (action matches Some(
        AppAction::SetViewState { state, dismiss_modal },
    ) && state is Phonebook && !dismiss_modal))
    &&& (key.code == KeyCode::Char('c') || key.code == KeyCode::Char('C')) ==> (post == pre
        && command is None && (action matches Some(AppAction::SetViewState { state, dismiss_modal })
        && !dismiss_modal && (state matches ViewStateRequest::Compose { phone_number: p } && p
        == phone_number)))
    &&& ((key.code == KeyCode::Char('r') || key.code == KeyCode::Char('R'))
        && key.modifiers.control) ==> (table_reset_ok(pre, post) && command is None && (
    action matches Some(AppAction::SetViewState { state, dismiss_modal }) && !dismiss_modal && (
    state matches ViewStateRequest::Messages { phone_number: p, reversed: rev } && p == phone_number
        && rev == !pre.reversed)))
    &&& ((key.code == KeyCode::Char('r') || key.code == KeyCode::Char('R'))
        && !key.modifiers.control) ==> ({
        &&& action is None
        &&& post.messages@.len() == 0
        &&& post.selected is None
        &&& post.current_offset == 0
        &&& post.has_more
        &&& !post.is_selected_outgoing
        &&& post.is_loading
        &&& post.reversed == pre.reversed
        &&& post.selected_column == pre.selected_column
        &&& post.col_widths == pre.col_widths
        &&& post.total_messages == pre.total_messages
        &&& pre.is_loading ==> command is None
        &&& !pre.is_loading ==> command == Some(
            BackendCommand::FetchMessagePage {
                phone_number: phone_number,
                request: PageRequest {
                    offset: 0,
                    limit: MESSAGES_PER_PAGE,
                    reversed: pre.reversed,
                },
            },
        )
    })
    &&& (key.code == KeyCode::Char('m') || key.code == KeyCode::Char('M')) ==> (post == pre
        && command is None && (match pre.selected {
        Some(sel) => {
            if sel < pre.messages@.len() && pre.messages@[sel as int].is_outgoing {
                action matches Some(AppAction::SetModal(om)) && om matches Some(m) && m.id@
                    == "delivery_reports"@ && (m.kind matches ModalKind::DeliveryReports(d)
                    && d.reports is None && d.message == pre.messages@[sel as int])
            } else {
                action is None
            }
        },
        None => action is None,
    }))
    &&& key.code is Down ==> (action is None && {
        let stepped = crate::table::spec_next_row(pre);
        if spec_wants_prefetch(stepped.model()) {
            post == (MessagesView { is_loading: true, ..stepped }) && command == Some(
                BackendCommand::FetchMessagePage {
                    phone_number: phone_number,
                    request: PageRequest {
                        offset: stepped.current_offset,
                        limit: MESSAGES_PER_PAGE,
                        reversed: stepped.reversed,
                    },
                },
            )
        } else {
            post == stepped && command is None
        }
    })
    &&& key.code is Up ==> (post == crate::table::spec_previous_row(pre) && action is None
        && command is None)
    &&& key.code is Right ==> (post == crate::table::spec_next_column(pre) && action is None
        && command is None)
    &&& key.code is Left ==> (post == crate::table::spec_previous_column(pre) && action is None
        && command is None)
    &&& key.code matches KeyCode::Char(c) ==> ((c != 'c' && c != 'C' && c != 'r' && c != 'R' && c
        != 'm' && c != 'M') ==> post == pre && action is None && command is None)
    &&& (!(key.code is Esc) && !(key.code matches KeyCode::Char(c)) && !(key.code is Down) && !(
    key.code is Up) && !(key.code is Right) && !(key.code is Left)) ==> post == pre
        && action is None && command is None
}

/// What the view manager does with one key: the key goes to the active
/// screen, which steps as its own key specification says; only the
/// conversation and device screens ever ask for a fetch, and a pending
/// transition is untouched.
pub open spec fn vm_key_spec(
    pre: ViewManager,
    key: KeyPress,
    post: ViewManager,
    action: Option<AppAction>,
    command: Option<BackendCommand>,
) -> bool {
    &&& post.pending == pre.pending
    &&& pre.current matches CurrentView::MainMenu(m) ==> (post.current matches
        CurrentView::MainMenu(m2) && crate::menu::menu_key_spec(m, key, m2, action)
        && command is None)
    &&& pre.current matches CurrentView::Phonebook(p) ==> (post.current matches
        CurrentView::Phonebook(p2) && crate::phonebook::phonebook_key_spec(p, key, p2, action)
        && command is None)
    &&& pre.current matches CurrentView::DeviceInfo(d) ==> (post.current == pre.current
        && crate::device_info::device_key_spec(d, key, action, command))
    &&& pre.current matches CurrentView::Messages { view, phone_number, reversed } ==> (
    post.current matches CurrentView::Messages { view: v2, phone_number: p2, reversed: r2 } && p2
        == phone_number && r2 == reversed && messages_key_spec(
        view,
        phone_number,
        key,
        v2,
        action,
        command,
    ))
    &&& pre.current matches CurrentView::Compose { view, phone_number } ==> (post.current matches
        CurrentView::Compose { view: v2, phone_number: p2 } && p2 == phone_number
        && crate::compose::compose_key_spec(view, key, phone_number@, v2, action)
        && command is None)
    &&& pre.current matches CurrentView::Error { dismissible, .. } ==> (post.current == pre.current
        && crate::error_view::error_key_spec(key, dismissible, action) && command is None)
}

/// What the view manager does with a finished modal's response: the screens
/// that opened modals answer as their own specifications say; any other
/// screen tolerates a plain dismissal and turns anything else into a
/// recoverable error.
pub open spec fn vm_modal_response_spec(
    pre: ViewManager,
    response: ModalResponse,
    metadata: ModalMetadata,
    post: ViewManager,
    action: Option<AppAction>,
    command: Option<BackendCommand>,
) -> bool {
    &&& post.pending == pre.pending
    &&& pre.current matches CurrentView::Phonebook(p) ==> (post.current matches
        CurrentView::Phonebook(p2) && crate::phonebook::phonebook_response_spec(
        p,
        response,
        metadata,
        p2,
        action,
        command,
    ))
    &&& pre.current matches CurrentView::Compose { view, phone_number } ==> (post.current matches
        CurrentView::Compose { view: v2, phone_number: p2 } && p2 == phone_number
        && crate::compose::compose_response_spec(view, response, metadata, v2, action, command))
    &&& (!(pre.current is Phonebook) && !(pre.current is Compose)) ==> (post == pre
        && command is None && (response is Dismissed ==> action is None) && (!(
    response is Dismissed) ==> (action matches Some(AppAction::ShowError { message, dismissible })
        && message@ == "Current view cannot handle modal responses!"@ && dismissible)))
}

/// Whether the active screen takes a live message itself: it is the
/// conversation screen of that message's number.
pub open spec fn spec_takes_message(v: CurrentView, message: SmsMessage) -> bool {
    v matches CurrentView::Messages { phone_number, .. } && phone_number@ == message.phone_number@
}

/// Whether a new error may take the screen, given whether an error is
/// already displayed and how: with none displayed it always may; a displayed
/// error yields if it is dismissible or the new one is not.
pub open spec fn spec_should_show_error(existing: Option<bool>, new_dismissible: bool) -> bool {
    match existing {
        Some(existing_dismissible) => existing_dismissible || !new_dismissible,
        None => true,
    }
}

/// Error arbitration law: a displayed dismissible error is replaced by a
/// new non-dismissible error, while a displayed non-dismissible error is
/// not replaced by a new dismissible one.
pub proof fn lemma_error_arbitration(new_dismissible: bool)
    ensures
        !new_dismissible ==> spec_should_show_error(Some(true), new_dismissible),
        new_dismissible ==> !spec_should_show_error(Some(false), new_dismissible),
{
}

/// The conversation screen's key handling: cursor movement with lookahead
/// prefetch on the way down, manual reload, order toggling, composing, and
/// the delivery-report modal for an outgoing message.
pub fn messages_handle_key(
    view: &mut MessagesView,
    phone_number: &String,
    key: KeyPress,
) -> (r: (Option<AppAction>, Option<BackendCommand>))
    ensures
        messages_key_spec(*old(view), *phone_number, key, *final(view), r.0, r.1),
        r.0 matches Some(a) ==> crate::actions::action_wf(a),
{
    match key.code {
        KeyCode::Esc => {
            view.reset();
            (
                Some(
                    AppAction::SetViewState {
                        state: ViewStateRequest::Phonebook,
                        dismiss_modal: false,
                    },
                ),
                None,
            )
        },
        KeyCode::Char(c) => {
            if c == 'c' || c == 'C' {
                (
                    Some(
                        AppAction::SetViewState {
                            state: ViewStateRequest::Compose { phone_number: phone_number.clone() },
                            dismiss_modal: false,
                        },
                    ),
                    None,
                )
            } else if (c == 'r' || c == 'R') && key.modifiers.control {
                let flipped = !view.reversed;
                view.reset();
                (
                    Some(
                        AppAction::SetViewState {
                            state: ViewStateRequest::Messages {
                                phone_number: phone_number.clone(),
                                reversed: flipped,
                            },
                            dismiss_modal: false,
                        },
                    ),
                    None,
                )
            } else if c == 'r' || c == 'R' {
                let request = view.begin_reload();
                let command = match request {
                    Some(req) => Some(
                        BackendCommand::FetchMessagePage {
                            phone_number: phone_number.clone(),
                            request: req,
                        },
                    ),
                    None => None,
                };
                (None, command)
            } else if c == 'm' || c == 'M' {
                let sel = match view.selected {
                    Some(s) => s,
                    None => {
                        return (None, None);
                    },
                };
                if sel >= view.messages.len() {
                    return (None, None);
                }
                if !view.messages[sel].is_outgoing {
                    return (None, None);
                }
                let modal = AppModal::new(
                    "delivery_reports",
                    ModalKind::DeliveryReports(DeliveryReportsModal::new(view.messages[sel].clone())),
                );
                (Some(AppAction::SetModal(Some(modal))), None)
            } else {
                (None, None)
            }
        },
        KeyCode::Down => {
            view.next_row();
            let request = view.check_load_more();
            let command = match request {
                Some(req) => Some(
                    BackendCommand::FetchMessagePage {
                        phone_number: phone_number.clone(),
                        request: req,
                    },
                ),
                None => None,
            };
            (None, command)
        },
        KeyCode::Up => {
            view.previous_row();
            (None, None)
        },
        KeyCode::Right => {
            view.next_column();
            (None, None)
        },
        KeyCode::Left => {
            view.previous_column();
            (None, None)
        },
        _ => (None, None),
    }
}

} // verus!
