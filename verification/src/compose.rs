//! The compose screen: a free-text buffer with a character cursor. Sending
//! is always a two-step action: the send chord only raises a confirmation
//! modal carrying the destination and the draft; the message goes out only
//! once that confirmation is answered positively.

use vstd::prelude::*;
use vstd::string::StrSliceExecFns;
use vstd::string::StringExecFns;
use crate::actions::AppAction;
use crate::actions::BackendCommand;
use crate::keys::KeyCode;
use crate::keys::KeyPress;
use crate::modals::AppModal;
use crate::modals::ConfirmationModal;
use crate::modals::LoadingModal;
use crate::modals::ModalKind;
use crate::modals::ModalMetadata;
use crate::modals::ModalResponse;
use crate::notify::NotificationType;
use crate::textutil::chars_to_string;
use crate::views::ViewStateRequest;

verus! {

/// Base send timeout in seconds, scaled by the number of SMS parts.
pub const BASE_SEND_TIMEOUT: u32 = 30;

/// How many SMS parts a message of `n` characters takes: an empty draft is
/// none, up to 160 characters fit one message, and each part of a longer
/// message carries 153 characters beside its multipart header.
pub open spec fn spec_sms_count(n: int) -> int {
    if n == 0 {
        0
    } else if n <= 160 {
        1
    } else {
        (n + 152) / 153
    }
}

/// The number of SMS parts a message of `char_count` characters takes.
pub fn get_sms_count(char_count: usize) -> (r: usize)
    ensures
        r == spec_sms_count(char_count as int),
{
    if char_count == 0 {
        0
    } else if char_count <= 160 {
        1
    } else {
        let r = 1 + (char_count - 1) / 153;
        proof {
            assert((char_count as int + 152) / 153 == 1 + (char_count as int - 1) / 153);
        }
        r
    }
}

/// The compose screen's mutable state as the contracts speak of it.
pub ghost struct ComposeModel {
    pub buffer: Seq<char>,
    pub cursor: int,
    pub is_sending: bool,
}

/// The compose screen.
pub struct ComposeView {
    pub cursor_position: usize,
    pub text_buffer: Vec<char>,
    pub is_sending: bool,
}

impl ComposeView {
    pub open spec fn model(self) -> ComposeModel {
        ComposeModel {
            buffer: self.text_buffer@,
            cursor: self.cursor_position as int,
            is_sending: self.is_sending,
        }
    }

    /// The cursor always stands inside or just past the buffer.
    pub open spec fn wf(self) -> bool {
        self.cursor_position <= self.text_buffer@.len()
    }
}

/// The compose state after one key. While a send is in flight every key is
/// ignored. Escape clears the draft; a new line is appended at the end of
/// the buffer; editing happens at the cursor.
pub open spec fn compose_step(m: ComposeModel, key: KeyPress) -> ComposeModel {
    if m.is_sending {
        m
    } else {
        match key.code {
            KeyCode::Esc => ComposeModel { buffer: Seq::empty(), cursor: 0, ..m },
            KeyCode::Enter => ComposeModel {
                buffer: m.buffer.push('\n'),
                cursor: if m.cursor < m.buffer.len() + 1 {
                    m.cursor + 1
                } else {
                    m.cursor
                },
                ..m
            },
            KeyCode::Backspace => if m.cursor > 0 {
                ComposeModel { buffer: m.buffer.remove(m.cursor - 1), cursor: m.cursor - 1, ..m }
            } else {
                m
            },
            KeyCode::Delete => if m.cursor < m.buffer.len() {
                ComposeModel { buffer: m.buffer.remove(m.cursor), ..m }
            } else {
                m
            },
            KeyCode::Left => ComposeModel {
                cursor: if m.cursor == 0 {
                    0
                } else {
                    m.cursor - 1
                },
                ..m
            },
            KeyCode::Right => ComposeModel {
                cursor: if m.cursor < m.buffer.len() {
                    m.cursor + 1
                } else {
                    m.cursor
                },
                ..m
            },
            KeyCode::Home => ComposeModel { cursor: 0, ..m },
            KeyCode::End => ComposeModel { cursor: m.buffer.len() as int, ..m },
            KeyCode::Char(c) => if c == ' ' && key.modifiers.control {
                m
            } else {
                ComposeModel { buffer: m.buffer.insert(m.cursor, c), cursor: m.cursor + 1, ..m }
            },
            _ => m,
        }
    }
}

/// Whether one key leaves the compose screen for the conversation.
pub open spec fn compose_leaves(m: ComposeModel, key: KeyPress) -> bool {
    !m.is_sending && key.code is Esc
}

/// Whether one key raises the send confirmation: the send chord on a
/// non-empty draft.
pub open spec fn compose_confirms(m: ComposeModel, key: KeyPress) -> bool {
    !m.is_sending && key.code == KeyCode::Char(' ') && key.modifiers.control && m.buffer.len() > 0
}

/// What the compose screen does with one key, beside stepping its state by
/// `compose_step`: Escape returns to the conversation, the send chord on a
/// non-empty draft raises the confirmation modal carrying the destination
/// and the draft, and everything else produces no action.
pub open spec fn compose_key_spec(
    pre: ComposeView,
    key: KeyPress,
    phone_number: Seq<char>,
    post: ComposeView,
    r: Option<AppAction>,
) -> bool {
    &&& post.model() == compose_step(pre.model(), key)
    &&& compose_leaves(pre.model(), key) ==> (r matches Some(
        AppAction::SetViewState { state, dismiss_modal },
    ) && !dismiss_modal && (state matches ViewStateRequest::Messages { phone_number: p, reversed }
        && p@ == phone_number && !reversed))
    &&& compose_confirms(pre.model(), key) ==> (r matches Some(AppAction::SetModal(om))
        && om matches Some(m) && {
        &&& m.id@ == "confirm_sms_send"@
        &&& m.metadata matches ModalMetadata::SendMessage(p, c) && p@ == phone_number && c@
            == pre.text_buffer@
        &&& m.kind matches ModalKind::Confirmation(conf) && !conf.selected_yes && conf.message@
            == "Send SMS to "@ + phone_number + "?"@
    })
    &&& (!compose_leaves(pre.model(), key) && !compose_confirms(pre.model(), key)) ==> r is None
}

/// What the compose screen does with a modal response: a positive answer
/// over send metadata marks the screen as sending, starts the send — with a
/// timeout scaled to the number of SMS parts — and shows the sending
/// overlay; anything else changes nothing, so a dismissed confirmation never
/// sends.
pub open spec fn compose_response_spec(
    pre: ComposeView,
    response: ModalResponse,
    metadata: ModalMetadata,
    post: ComposeView,
    action: Option<AppAction>,
    command: Option<BackendCommand>,
) -> bool {
    &&& response is Confirmed ==> (metadata matches ModalMetadata::SendMessage(phone, content)
        ==> ({
        &&& post == (ComposeView { is_sending: true, ..pre })
        &&& action matches Some(AppAction::SetModal(om)) && om matches Some(m) && m.id@
            == "sms_sending"@ && (m.kind matches ModalKind::Loading(l) && l.message@
            == "Sending message..."@)
        &&& command matches Some(BackendCommand::SendSms { phone_number, content: c, timeout_secs })
            && phone_number == phone && c == content && timeout_secs == vstd::math::min(
            BASE_SEND_TIMEOUT * spec_sms_count(content@.len() as int),
            u32::MAX as int,
        )
    }))
    &&& !(response is Confirmed) ==> post == pre && action is None && command is None
    &&& !(metadata matches ModalMetadata::SendMessage(..)) ==> post == pre && action is None
        && command is None
}

impl ComposeView {
    pub fn new() -> (r: ComposeView)
        ensures
            r.cursor_position == 0,
            r.text_buffer@.len() == 0,
            !r.is_sending,
            r.wf(),
    {
        ComposeView { cursor_position: 0, text_buffer: Vec::new(), is_sending: false }
    }

    /// Clears the draft and the cursor; run on every transition into the
    /// screen.
    pub fn load(&mut self)
        ensures
            final(self).cursor_position == 0,
            final(self).text_buffer@.len() == 0,
            !final(self).is_sending,
            final(self).wf(),
    {
        self.cursor_position = 0;
        self.is_sending = false;
        self.text_buffer.clear();
    }

    /// Handles one key as `compose_step` describes. Escape returns to the
    /// conversation; the send chord on a non-empty draft raises a
    /// confirmation modal carrying the destination and the draft.
    pub fn handle_key(&mut self, key: KeyPress, phone_number: &str) -> (r: Option<AppAction>)
        requires
            old(self).wf(),
        ensures
            final(self).wf(),
            compose_key_spec(*old(self), key, phone_number@, *final(self), r),
            r matches Some(a) ==> crate::actions::action_wf(a),
    {
        if self.is_sending {
            return None;
        }
        match key.code {
            KeyCode::Esc => {
                self.text_buffer.clear();
                self.cursor_position = 0;
                Some(
                    AppAction::SetViewState {
                        state: ViewStateRequest::view_messages(phone_number),
                        dismiss_modal: false,
                    },
                )
            },
            KeyCode::Char(c) => {
                if c == ' ' && key.modifiers.control {
                    if self.text_buffer.len() > 0 {
                        let message = String::from_str("Send SMS to ").concat(phone_number).concat(
                            "?",
                        );
                        let modal = AppModal::new(
                            "confirm_sms_send",
                            ModalKind::Confirmation(ConfirmationModal::new(message)),
                        ).with_metadata(
                            ModalMetadata::SendMessage(
                                String::from_str(phone_number),
                                chars_to_string(&self.text_buffer),
                            ),
                        );
                        Some(AppAction::SetModal(Some(modal)))
                    } else {
                        None
                    }
                } else {
                    self.text_buffer.insert(self.cursor_position, c);
                    let new_len = self.text_buffer.len();
                    self.cursor_position = self.cursor_position + 1;
                    None
                }
            },
            KeyCode::Enter => {
                self.text_buffer.push('\n');
                let len = self.text_buffer.len();
                if self.cursor_position < len {
                    self.cursor_position = self.cursor_position + 1;
                }
                None
            },
            KeyCode::Backspace => {
                if self.cursor_position > 0 {
                    self.text_buffer.remove(self.cursor_position - 1);
                    self.cursor_position = self.cursor_position - 1;
                }
                None
            },
            KeyCode::Delete => {
                if self.cursor_position < self.text_buffer.len() {
                    self.text_buffer.remove(self.cursor_position);
                }
                None
            },
            KeyCode::Left => {
                if self.cursor_position > 0 {
                    self.cursor_position = self.cursor_position - 1;
                }
                None
            },
            KeyCode::Right => {
                if self.cursor_position < self.text_buffer.len() {
                    self.cursor_position = self.cursor_position + 1;
                }
                None
            },
            KeyCode::Home => {
                self.cursor_position = 0;
                None
            },
            KeyCode::End => {
                self.cursor_position = self.text_buffer.len();
                None
            },
            _ => None,
        }
    }

    /// Routes the confirmation's answer. A positive answer over send
    /// metadata starts the send — with a timeout scaled to the number of
    /// SMS parts — and shows the sending overlay; anything else does
    /// nothing, so a dismissed confirmation never sends.
    pub fn handle_modal_response(&mut self, response: ModalResponse, metadata: ModalMetadata) -> (r:
        (Option<AppAction>, Option<BackendCommand>))
        ensures
            old(self).wf() ==> final(self).wf(),
            compose_response_spec(*old(self), response, metadata, *final(self), r.0, r.1),
            r.0 matches Some(a) ==> crate::actions::action_wf(a),
    {
        match response {
            ModalResponse::Confirmed => {},
            _ => {
                return (None, None);
            },
        }
        let (phone, content) = match metadata {
            ModalMetadata::SendMessage(phone, content) => (phone, content),
            _ => {
                return (None, None);
            },
        };
        self.is_sending = true;
        let parts = get_sms_count(content.as_str().unicode_len());
        let timeout: u32 = if parts as u64 >= u32::MAX as u64 {
            u32::MAX
        } else {
            let timeout64: u64 = (BASE_SEND_TIMEOUT as u64) * (parts as u64);
            if timeout64 > u32::MAX as u64 {
                u32::MAX
            } else {
                timeout64 as u32
            }
        };
        let modal = AppModal::new(
            "sms_sending",
            ModalKind::Loading(LoadingModal::new(String::from_str("Sending message..."))),
        );
        (
            Some(AppAction::SetModal(Some(modal))),
            Some(
                BackendCommand::SendSms {
                    phone_number: phone,
                    content: content,
                    timeout_secs: timeout,
                },
            ),
        )
    }
}

/// The instructions that follow a finished send, in queue order. On success
/// the sent message is pushed into the views — so the conversation stays in
/// sync even with the live channel disabled — and a notification names the
/// message and its reference; on failure the notification carries the error.
/// Either way the conversation screen is re-entered with the sending overlay
/// dismissed.
pub fn send_completion_actions(
    phone_number: &str,
    content: &str,
    result: Result<(u64, u8), String>,
) -> (r: Vec<AppAction>)
    ensures
        result matches Ok(ids) ==> ({
            &&& r@.len() == 3
            &&& r@[0] matches AppAction::HandleIncomingMessage(m) && {
                &&& m.id@ == crate::textutil::decimal_digits(ids.0 as nat)
                &&& m.phone_number@ == phone_number@
                &&& m.is_outgoing
                &&& m.content@ == crate::textutil::sanitized(content@)
            }
            &&& r@[1] matches AppAction::ShowNotification(kind) && (kind matches
                NotificationType::GenericMessage { title, message } && title@ == "Message Sent"@
                && message@ == "Message #"@ + crate::textutil::decimal_digits(ids.0 as nat)
                + " was sent (ref "@ + crate::textutil::decimal_digits(ids.1 as nat) + ")!"@)
            &&& send_return_action(phone_number@, r@[2])
        }),
        result matches Err(e) ==> ({
            &&& r@.len() == 2
            &&& r@[0] matches AppAction::ShowNotification(kind) && (kind matches
                NotificationType::GenericMessage { title, message } && title@ == "Send Failure"@
                && message == e)
            &&& send_return_action(phone_number@, r@[1])
        }),
{
    let mut actions: Vec<AppAction> = Vec::new();
    match result {
        Ok((message_id, reference_id)) => {
            let sent = crate::message::SmsMessage::from_backend(
                message_id,
                String::from_str(phone_number),
                content,
                true,
                None,
                None,
            );
            actions.push(AppAction::HandleIncomingMessage(sent));
            let notice = String::from_str("Message #").concat(
                crate::textutil::u64_to_string(message_id).as_str(),
            ).concat(" was sent (ref ").concat(
                crate::textutil::u64_to_string(reference_id as u64).as_str(),
            ).concat(")!");
            actions.push(
                AppAction::ShowNotification(
                    NotificationType::GenericMessage {
                        title: String::from_str("Message Sent"),
                        message: notice,
                    },
                ),
            );
        },
        Err(e) => {
            actions.push(
                AppAction::ShowNotification(
                    NotificationType::GenericMessage {
                        title: String::from_str("Send Failure"),
                        message: e,
                    },
                ),
            );
        },
    }
    actions.push(
        AppAction::SetViewState {
            state: ViewStateRequest::view_messages(phone_number),
            dismiss_modal: true,
        },
    );
    actions
}

/// The closing instruction of a finished send: re-enter the conversation,
/// dismissing the sending overlay on the way.
pub open spec fn send_return_action(phone_number: Seq<char>, a: AppAction) -> bool {
    a matches AppAction::SetViewState { state, dismiss_modal } && dismiss_modal && (state matches
        ViewStateRequest::Messages { phone_number: p, reversed } && p@ == phone_number && !reversed)
}

} // verus!
