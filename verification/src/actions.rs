//! The one instruction type everything funnels through. Input handlers,
//! modal responders and the live-update listener all produce `AppAction`
//! values; the dispatcher alone consumes them. Work that only the backend
//! can do leaves the core as a `BackendCommand` for the host to perform.

use vstd::prelude::*;
use crate::message::SmsMessage;
use crate::modals::AppModal;
use crate::notify::NotificationType;
use crate::table::PageRequest;
use crate::views::ViewStateRequest;

verus! {

/// One queued instruction for the dispatcher.
#[derive(Debug)]
pub enum AppAction {
    /// Switch to another screen, optionally closing the active modal first.
    SetViewState { state: ViewStateRequest, dismiss_modal: bool },
    /// Replace or clear the modal slot.
    SetModal(Option<AppModal>),
    /// A message arrived over the live channel.
    HandleIncomingMessage(SmsMessage),
    /// Queue a transient notification.
    ShowNotification(NotificationType),
    /// Show the error screen, subject to the overwrite arbitration.
    ShowError { message: String, dismissible: bool },
    /// Leave the application.
    Exit,
    /// A delivery failed after the send was confirmed. What should follow is
    /// unspecified upstream, so the dispatcher deliberately ignores it.
    DeliveryFailure(String),
}

/// An action is well formed when any modal it carries is: a text input's
/// cursor stands inside its buffer. Everything that produces actions keeps
/// this, so the dispatcher may rely on it.
pub open spec fn action_wf(a: AppAction) -> bool {
    a matches AppAction::SetModal(om) ==> (om matches Some(m) ==> crate::modals::modal_wf(m))
}

/// Backend work the core asks its host to perform; the outcome comes back
/// as plain values.
#[derive(Debug, PartialEq)]
pub enum BackendCommand {
    /// Fetch the most recent contacts, at most `limit` of them.
    FetchContacts { limit: u64 },
    /// Fetch the device information summary.
    FetchDeviceInfo,
    /// Fetch one page of a conversation's messages.
    FetchMessagePage { phone_number: String, request: PageRequest },
    /// Send a drafted message, with a timeout scaled to its length.
    SendSms { phone_number: String, content: String, timeout_secs: u32 },
    /// Store a contact's friendly name.
    SetFriendlyName { phone_number: String, friendly_name: String },
    /// Fetch the delivery reports of one outgoing message.
    FetchDeliveryReports { message_id: String, limit: u64 },
}

} // verus!
