//! The action dispatcher: one state machine owning the active screen, the
//! single modal slot, the notification queue, the key debouncer and the
//! theme. Every instruction funnels through `handle_app_action`; every key
//! press through `handle_key_event`, which offers it to the modal first,
//! then to the notifications, then to the active screen, in that strict
//! priority order.

use vstd::prelude::*;
use vstd::string::StringExecFns;
use crate::actions::AppAction;
use crate::actions::BackendCommand;
use crate::keys::debounce_accepts;
use crate::keys::debounce_after_accept;
use crate::keys::KeyCode;
use crate::keys::KeyDebouncer;
use crate::keys::KeyPress;
use crate::manager::spec_takes_message;
use crate::manager::transition_spec;
use crate::manager::vm_key_spec;
use crate::manager::vm_modal_response_spec;
use crate::manager::ViewManager;
use crate::message::SmsMessage;
use crate::modals::modal_answers;
use crate::modals::modal_outcome;
use crate::modals::modal_step_ok;
use crate::modals::modal_wf;
use crate::modals::AppModal;
use crate::modals::ModalResponse;
use crate::modals::LoadingModal;
use crate::modals::ModalKind;
use crate::notify::notify_key_spec;
use crate::notify::spec_enqueue;
use crate::notify::spec_top_viewable;
use crate::notify::NotificationMessage;
use crate::notify::NotificationType;
use crate::notify::NotificationView;
use crate::reports::DeliveryReportsModal;
use crate::reports::ReportEntry;
use crate::reports::MAX_REPORTS;
use crate::theme::PresetTheme;
use crate::theme::ThemeManager;

verus! {

/// Repeats of one key within this window are dropped.
pub const DEBOUNCE_DURATION_MS: u64 = 50;

/// What handling one action asks of the host: whether to leave, and a
/// backend call to perform.
pub struct ActionStep {
    pub exit: bool,
    pub command: Option<BackendCommand>,
}

/// What handling one key press produced: an action to queue and a backend
/// call to perform.
pub struct KeyStep {
    pub action: Option<AppAction>,
    pub command: Option<BackendCommand>,
}

/// The message whose delivery reports a modal still has to fetch, if it is
/// a delivery-report modal that was created without them.
pub open spec fn unloaded_reports(m: AppModal) -> Option<SmsMessage> {
    match m.kind {
        ModalKind::DeliveryReports(d) => if d.reports is None {
            Some(d.message)
        } else {
            None
        },
        _ => None,
    }
}

/// The application core that the host's tick loop drives.
pub struct AppCore {
    pub view_manager: ViewManager,
    pub notifications: NotificationView,
    pub current_modal: Option<AppModal>,
    pub key_debouncer: KeyDebouncer,
    pub theme_manager: ThemeManager,
    pub render_views: bool,
    pub pending_reports: Option<SmsMessage>,
}

impl AppCore {
    pub open spec fn wf(self) -> bool {
        &&& self.view_manager.wf()
        &&& self.current_modal matches Some(m) ==> modal_wf(m)
    }

    pub fn new(theme: PresetTheme) -> (r: AppCore)
        ensures
            r.wf(),
            r.current_modal is None,
            r.render_views,
            r.key_debouncer.debounce_ms == DEBOUNCE_DURATION_MS,
            r.notifications.notifications@.len() == 0,
            r.theme_manager.current_preset == theme,
            r.pending_reports is None,
    {
        AppCore {
            view_manager: ViewManager::new(),
            notifications: NotificationView::new(),
            current_modal: None,
            key_debouncer: KeyDebouncer::new(DEBOUNCE_DURATION_MS),
            theme_manager: ThemeManager::with_preset(theme),
            render_views: true,
            pending_reports: None,
        }
    }

    /// Fills or clears the modal slot and recomputes whether the screens
    /// behind it keep rendering. A delivery-report modal that still lacks
    /// its reports is not installed yet: the loading overlay takes the slot,
    /// the fetch is returned, and the message is remembered so the loaded
    /// modal can be built when the reports arrive.
    pub fn set_modal(&mut self, modal: Option<AppModal>) -> (r: Option<BackendCommand>)
        requires
            modal matches Some(m) ==> modal_wf(m),
        ensures
            final(self).view_manager == old(self).view_manager,
            final(self).notifications == old(self).notifications,
            final(self).key_debouncer == old(self).key_debouncer,
            final(self).theme_manager == old(self).theme_manager,
            final(self).current_modal matches Some(m) ==> modal_wf(m),
            modal is None ==> (final(self).current_modal is None && final(self).render_views
                && r is None && final(self).pending_reports == old(self).pending_reports),
            modal matches Some(m) ==> (match unloaded_reports(m) {
                Some(msg) => {
                    &&& final(self).current_modal matches Some(shown)
                        && shown.kind matches ModalKind::Loading(l) && shown.id@
                        == "delivery_reports_loading"@ && l.message@ == "Loading delivery reports..."@
                    &&& !final(self).render_views
                    &&& r matches Some(BackendCommand::FetchDeliveryReports { message_id, limit })
                        && message_id == msg.id && limit == MAX_REPORTS
                    &&& final(self).pending_reports == Some(msg)
                },
                None => {
                    &&& final(self).current_modal == Some(m)
                    &&& final(self).render_views == !(m.kind is Loading)
                    &&& r is None
                    &&& final(self).pending_reports == old(self).pending_reports
                },
            }),
    {
        match modal {
            None => {
                self.render_views = true;
                self.current_modal = None;
                None
            },
            Some(m) => {
                let needs_reports = match &m.kind {
                    ModalKind::DeliveryReports(d) => d.needs_load(),
                    _ => false,
                };
                if needs_reports {
                    let message = match m.kind {
                        ModalKind::DeliveryReports(d) => d.message,
                        _ => {
                            return None;  // unreachable: the flag was set from this variant
                        },
                    };
                    let message_id = message.id.clone();
                    self.pending_reports = Some(message);
                    let overlay = AppModal::new(
                        "delivery_reports_loading",
                        ModalKind::Loading(
                            LoadingModal::new(String::from_str("Loading delivery reports...")),
                        ),
                    );
                    self.render_views = false;
                    self.current_modal = Some(overlay);
                    Some(BackendCommand::FetchDeliveryReports { message_id, limit: MAX_REPORTS })
                } else {
                    self.render_views = m.should_render_views();
                    self.current_modal = Some(m);
                    None
                }
            },
        }
    }

    /// Transitions to a screen and resets the debouncer, so stale key
    /// suppression never carries across screens. The window title should be
    /// read again after this.
    pub fn transition_view(&mut self, request: crate::views::ViewStateRequest) -> (r: Option<
        BackendCommand,
    >)
        requires
            old(self).wf(),
        ensures
            final(self).wf(),
            transition_spec(old(self).view_manager, request, final(self).view_manager, r),
            final(self).key_debouncer.last_key is None,
            final(self).current_modal == old(self).current_modal,
            final(self).notifications == old(self).notifications,
            final(self).render_views == old(self).render_views,
            final(self).theme_manager == old(self).theme_manager,
            final(self).pending_reports == old(self).pending_reports,
    {
        let command = self.view_manager.transition_to(request);
        self.key_debouncer.reset();
        command
    }

    /// Consumes one queued instruction. The queue is drained completely once
    /// per tick before rendering, so a chain of instructions queued together
    /// resolves before anything is drawn.
    pub fn handle_app_action(&mut self, action: AppAction, now_ms: u64) -> (r: ActionStep)
        requires
            old(self).wf(),
            crate::actions::action_wf(action),
        ensures
            final(self).wf(),
            action is Exit ==> (r.exit && *final(self) == *old(self)),
            !(action is Exit) ==> !r.exit,
            action matches AppAction::SetViewState { state, dismiss_modal } ==> ({
                &&& dismiss_modal ==> final(self).current_modal is None && final(self).render_views
                &&& !dismiss_modal ==> final(self).current_modal == old(self).current_modal
                    && final(self).render_views == old(self).render_views
                &&& transition_spec(
                    old(self).view_manager,
                    state,
                    final(self).view_manager,
                    r.command,
                )
                &&& final(self).key_debouncer.last_key is None
                &&& final(self).notifications == old(self).notifications
            }),
            action matches AppAction::SetModal(om) ==> ({
                &&& final(self).view_manager == old(self).view_manager
                &&& final(self).notifications == old(self).notifications
                &&& om is None ==> (final(self).current_modal is None && final(self).render_views
                    && r.command is None)
                &&& om matches Some(m) ==> (match unloaded_reports(m) {
                    Some(msg) => final(self).current_modal matches Some(shown)
                        && shown.kind is Loading && !final(self).render_views && (
                    r.command matches Some(
                        BackendCommand::FetchDeliveryReports { message_id, limit },
                    ) && message_id == msg.id && limit == MAX_REPORTS),
                    None => final(self).current_modal == Some(m) && final(self).render_views == !(
                    m.kind is Loading) && r.command is None,
                })
            }),
            action matches AppAction::ShowNotification(kind) ==> ({
                &&& final(self).notifications.notifications@ == spec_enqueue(
                    old(self).notifications.notifications@,
                    NotificationMessage { kind, created_at_ms: now_ms },
                    old(self).notifications.max_notifications as int,
                )
                &&& final(self).view_manager == old(self).view_manager
                &&& final(self).current_modal == old(self).current_modal
                &&& r.command is None
            }),
            action matches AppAction::ShowError { message, dismissible } ==> ({
                let shown = (match old(self).view_manager.current {
                    crate::manager::CurrentView::Error { dismissible: existing, .. } => existing
                        || !dismissible,
                    _ => true,
                });
                &&& shown ==> transition_spec(
                    old(self).view_manager,
                    crate::views::ViewStateRequest::Error { message, dismissible },
                    final(self).view_manager,
                    r.command,
                )
                &&& !shown ==> *final(self) == *old(self)
                &&& final(self).current_modal == old(self).current_modal
            }),
            action matches AppAction::HandleIncomingMessage(msg) ==> ({
                &&& final(self).current_modal == old(self).current_modal
                &&& final(self).render_views == old(self).render_views
                &&& r.command is None
                &&& spec_takes_message(old(self).view_manager.current, msg) ==> ({
                    &&& final(self).notifications == old(self).notifications
                    &&& old(self).view_manager.current matches
                        crate::manager::CurrentView::Messages { view, phone_number, reversed }
                        ==> (final(self).view_manager.current matches
                        crate::manager::CurrentView::Messages {
                        view: v2,
                        phone_number: p2,
                        reversed: r2,
                    } && p2 == phone_number && r2 == reversed && v2.messages@
                        == crate::table::spec_add_live(view.messages@, msg))
                })
                &&& !spec_takes_message(old(self).view_manager.current, msg) ==> ({
                    &&& final(self).view_manager == old(self).view_manager
                    &&& !msg.is_outgoing ==> final(self).notifications.notifications@
                        == spec_enqueue(
                        old(self).notifications.notifications@,
                        NotificationMessage {
                            kind: NotificationType::IncomingMessage {
                                phone: msg.phone_number,
                                content: msg.content,
                            },
                            created_at_ms: now_ms,
                        },
                        old(self).notifications.max_notifications as int,
                    )
                    &&& msg.is_outgoing ==> final(self).notifications == old(self).notifications
                })
            }),
            action is DeliveryFailure ==> (*final(self) == *old(self) && r.command is None),
    {
        match action {
            AppAction::SetViewState { state, dismiss_modal } => {
                if dismiss_modal {
                    let _ = self.set_modal(None);
                }
                let command = self.transition_view(state);
                ActionStep { exit: false, command }
            },
            AppAction::SetModal(modal) => {
                let command = self.set_modal(modal);
                ActionStep { exit: false, command }
            },
            AppAction::Exit => ActionStep { exit: true, command: None },
            AppAction::HandleIncomingMessage(msg) => {
                let taken = self.view_manager.try_add_message(&msg);
                if !taken && !msg.is_outgoing {
                    let kind = NotificationType::IncomingMessage {
                        phone: msg.phone_number.clone(),
                        content: msg.content.clone(),
                    };
                    self.notifications.add_notification(kind, now_ms);
                }
                ActionStep { exit: false, command: None }
            },
            AppAction::ShowNotification(kind) => {
                self.notifications.add_notification(kind, now_ms);
                ActionStep { exit: false, command: None }
            },
            AppAction::ShowError { message, dismissible } => {
                if self.view_manager.should_show_error(dismissible) {
                    let command = self.transition_view(
                        crate::views::ViewStateRequest::Error { message, dismissible },
                    );
                    ActionStep { exit: false, command }
                } else {
                    ActionStep { exit: false, command: None }
                }
            },
            AppAction::DeliveryFailure(_) => {
                // unspecified upstream; deliberately inert
                ActionStep { exit: false, command: None }
            },
        }
    }

    /// Handles one polled key press: debounce first, then the theme chords,
    /// then the modal, then the notifications, then the active screen, in
    /// that strict priority order. A finished modal's response is routed
    /// back through the view manager with the modal's own metadata.
    pub fn handle_key_event(&mut self, key: KeyPress, now_ms: u64) -> (r: KeyStep)
        requires
            old(self).wf(),
        ensures
            final(self).wf(),
            r.action matches Some(a) ==> crate::actions::action_wf(a),
            !debounce_accepts(old(self).key_debouncer, key, now_ms) ==> (*final(self) == *old(self)
                && r.action is None && r.command is None),
            debounce_accepts(old(self).key_debouncer, key, now_ms) ==> final(self).key_debouncer
                == debounce_after_accept(old(self).key_debouncer, key, now_ms),
            (debounce_accepts(old(self).key_debouncer, key, now_ms) && key.code
                == KeyCode::Function(10)) ==> (final(self).theme_manager.current_preset.spec_index()
                == (old(self).theme_manager.current_preset.spec_index() + 1) % 7 && r.action is None
                && final(self).current_modal == old(self).current_modal),
            (debounce_accepts(old(self).key_debouncer, key, now_ms) && key.code
                == KeyCode::Function(11)) ==> (final(self).theme_manager.modify_background == !old(
                self,
            ).theme_manager.modify_background && r.action is None),
            (debounce_accepts(old(self).key_debouncer, key, now_ms) && key.code
                != KeyCode::Function(10) && key.code != KeyCode::Function(11)) ==> ({
                &&& old(self).current_modal matches Some(m) ==> ({
                    &&& final(self).theme_manager == old(self).theme_manager
                    &&& final(self).notifications == old(self).notifications
                    &&& final(self).pending_reports == old(self).pending_reports
                    &&& modal_outcome(m, key) is Stay ==> ({
                        &&& final(self).current_modal matches Some(m2) && modal_step_ok(m, key, m2)
                        &&& final(self).view_manager == old(self).view_manager
                        &&& final(self).render_views == old(self).render_views
                        &&& r.action is None && r.command is None
                    })
                    &&& !(modal_outcome(m, key) is Stay) ==> ({
                        &&& final(self).current_modal is None
                        &&& final(self).render_views
                        &&& exists|resp: ModalResponse|
                            #[trigger] modal_answers(m, key, resp) && vm_modal_response_spec(
                                old(self).view_manager,
                                resp,
                                m.metadata,
                                final(self).view_manager,
                                r.action,
                                r.command,
                            )
                    })
                })
                &&& old(self).current_modal is None ==> ({
                    &&& final(self).current_modal is None
                    &&& final(self).render_views == old(self).render_views
                    &&& final(self).theme_manager == old(self).theme_manager
                    &&& final(self).pending_reports == old(self).pending_reports
                    &&& (key.code == KeyCode::Function(2) && spec_top_viewable(
                        old(self).notifications.notifications@,
                    )) ==> ({
                        &&& final(self).notifications.notifications@.len() == 0
                        &&& final(self).view_manager == old(self).view_manager
                        &&& r.command is None
                        &&& r.action matches Some(AppAction::SetViewState { state, dismiss_modal })
                            && !dismiss_modal && (state matches
                            crate::views::ViewStateRequest::Messages { phone_number, reversed }
                            && old(self).notifications.notifications@[0].kind matches
                            crate::notify::NotificationType::IncomingMessage { phone, .. }
                            && phone_number@ == phone@ && !reversed)
                    })
                    &&& !(key.code == KeyCode::Function(2) && spec_top_viewable(
                        old(self).notifications.notifications@,
                    )) ==> ({
                        &&& notify_key_spec(
                            old(self).notifications,
                            key,
                            final(self).notifications,
                            None::<AppAction>,
                        )
                        &&& vm_key_spec(
                            old(self).view_manager,
                            key,
                            final(self).view_manager,
                            r.action,
                            r.command,
                        )
                    })
                })
            }),
    {
        if !self.key_debouncer.should_process(&key, now_ms) {
            return KeyStep { action: None, command: None };
        }
        match key.code {
            KeyCode::Function(10) => {
                self.theme_manager.next();
                return KeyStep { action: None, command: None };
            },
            KeyCode::Function(11) => {
                self.theme_manager.toggle_modify_background();
                return KeyStep { action: None, command: None };
            },
            _ => {},
        }
        let has_modal = self.current_modal.is_some();
        if has_modal {
            let response = match &mut self.current_modal {
                Some(m) => m.handle_key(key),
                None => None,  // unreachable: the slot was just seen filled
            };
            match response {
                Some(resp) => {
                    let finished = self.current_modal.take();
                    self.render_views = true;
                    let metadata = match finished {
                        Some(m) => m.metadata,
                        None => crate::modals::ModalMetadata::Empty,
                    };
                    let (action, command) = self.view_manager.handle_modal_response(resp, metadata);
                    return KeyStep { action, command };
                },
                None => {
                    // the modal swallows every key it does not answer
                    return KeyStep { action: None, command: None };
                },
            }
        }
        let from_notifications = self.notifications.handle_key(key);
        match from_notifications {
            Some(action) => {
                return KeyStep { action: Some(action), command: None };
            },
            None => {},
        }
        let (action, command) = self.view_manager.handle_key(key);
        KeyStep { action, command }
    }

    /// Builds and installs the loaded delivery-report modal once its fetch
    /// comes back, sorting the timeline newest first; a failed fetch asks
    /// for the error screen instead, dismissing the loading overlay.
    pub fn finish_delivery_reports(
        &mut self,
        result: Result<Vec<ReportEntry>, String>,
        sent_at: Option<i64>,
    ) -> (r: Option<AppAction>)
        requires
            old(self).wf(),
        ensures
            final(self).wf(),
            old(self).pending_reports is None ==> (*final(self) == *old(self) && r is None),
            old(self).pending_reports matches Some(msg) ==> ({
                &&& final(self).pending_reports is None
                &&& result matches Ok(reports) ==> ({
                    &&& final(self).current_modal matches Some(m) && m.id@ == "delivery_reports"@
                        && (m.kind matches ModalKind::DeliveryReports(d) && d.message == msg
                        && d.reports is Some)
                    &&& final(self).render_views
                    &&& r is None
                })
                &&& result matches Err(e) ==> (r matches Some(
                    AppAction::SetViewState { state, dismiss_modal },
                ) && dismiss_modal && (state matches crate::views::ViewStateRequest::Error {
                    message,
                    dismissible,
                } && message == e && !dismissible))
            }),
    {
        let message = match self.pending_reports.take() {
            Some(m) => m,
            None => {
                // a late result with nothing waiting for it is discarded
                return None;
            },
        };
        match result {
            Ok(reports) => {
                let modal = AppModal::new(
                    "delivery_reports",
                    ModalKind::DeliveryReports(
                        DeliveryReportsModal::with_reports(message, sent_at, reports),
                    ),
                );
                // installing a loaded reports modal never starts a fetch
                let _ = self.set_modal(Some(modal));
                None
            },
            Err(e) => {
                Some(
                    AppAction::SetViewState {
                        state: crate::views::ViewStateRequest::Error {
                            message: e,
                            dismissible: false,
                        },
                        dismiss_modal: true,
                    },
                )
            },
        }
    }
}

} // verus!
