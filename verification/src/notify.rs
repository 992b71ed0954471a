//! The timed notification queue: newest first, capped in length, each entry
//! expiring a fixed time after creation. Expiry is enforced lazily by the
//! render pass, never by a timer.

use vstd::prelude::*;
use vstd::math::min;
use crate::actions::AppAction;
use crate::keys::KeyCode;
use crate::keys::KeyPress;
use crate::views::ViewStateRequest;

verus! {

/// The modem states a status-change notification can speak of.
#[derive(Clone, Copy, Debug, PartialEq, Eq, Structural)]
pub enum ModemState {
    Startup,
    Online,
    ShuttingDown,
    Offline,
}

/// What a notification announces.
#[derive(Debug, PartialEq)]
pub enum NotificationType {
    /// A message arrived; the only kind that can be navigated to.
    IncomingMessage { phone: String, content: String },
    /// The modem changed state.
    OnlineStatus { previous: ModemState, current: ModemState },
    /// A send failed after confirmation.
    SendFailure { phone: String, content: String, error: Option<String> },
    /// The live channel connected or dropped.
    WebSocketConnectionUpdate { connected: bool, reconnect: bool },
    /// Anything else worth a transient banner.
    GenericMessage { title: String, message: String },
}

impl Clone for NotificationType {
    fn clone(&self) -> (r: NotificationType)
        ensures
            r == *self,
    {
        match self {
            NotificationType::IncomingMessage { phone, content } =>
                NotificationType::IncomingMessage {
                phone: phone.clone(),
                content: content.clone(),
            },
            NotificationType::OnlineStatus { previous, current } => NotificationType::OnlineStatus {
                previous: *previous,
                current: *current,
            },
            NotificationType::SendFailure { phone, content, error } =>
                NotificationType::SendFailure {
                phone: phone.clone(),
                content: content.clone(),
                error: match error {
                    Some(e) => Some(e.clone()),
                    None => None,
                },
            },
            NotificationType::WebSocketConnectionUpdate { connected, reconnect } =>
                NotificationType::WebSocketConnectionUpdate {
                connected: *connected,
                reconnect: *reconnect,
            },
            NotificationType::GenericMessage { title, message } =>
                NotificationType::GenericMessage {
                title: title.clone(),
                message: message.clone(),
            },
        }
    }
}

/// One queued notification: what it announces and when it was created.
#[derive(Debug, PartialEq)]
pub struct NotificationMessage {
    pub kind: NotificationType,
    pub created_at_ms: u64,
}

impl Clone for NotificationMessage {
    fn clone(&self) -> (r: NotificationMessage)
        ensures
            r == *self,
    {
        NotificationMessage { kind: self.kind.clone(), created_at_ms: self.created_at_ms }
    }
}

/// Whether a notification created at `created_at_ms` has outlived its
/// display duration at time `now_ms`.
pub open spec fn spec_expired(n: NotificationMessage, now_ms: u64, display_ms: u64) -> bool {
    now_ms > n.created_at_ms + display_ms
}

impl NotificationMessage {
    /// The phone number a notification refers to, where it has one.
    pub fn get_phone_number(&self) -> (r: Option<String>)
        ensures
            self.kind matches NotificationType::IncomingMessage { phone, .. } ==> (r matches Some(p)
                && p == phone),
            self.kind matches NotificationType::SendFailure { phone, .. } ==> (r matches Some(p)
                && p == phone),
            self.kind is OnlineStatus ==> r is None,
            self.kind is WebSocketConnectionUpdate ==> r is None,
            self.kind is GenericMessage ==> r is None,
    {
        match &self.kind {
            NotificationType::IncomingMessage { phone, .. } => Some(phone.clone()),
            NotificationType::SendFailure { phone, .. } => Some(phone.clone()),
            NotificationType::OnlineStatus { .. } => None,
            NotificationType::WebSocketConnectionUpdate { .. } => None,
            NotificationType::GenericMessage { .. } => None,
        }
    }

    /// Whether dismiss-and-navigate may target this notification.
    pub fn can_view(&self) -> (r: bool)
        ensures
            r == (self.kind is IncomingMessage),
    {
        matches!(self.kind, NotificationType::IncomingMessage { .. })
    }

    /// Whether this notification has expired at `now_ms`.
    pub fn is_expired(&self, now_ms: u64, display_ms: u64) -> (r: bool)
        ensures
            r == spec_expired(*self, now_ms, display_ms),
    {
        now_ms.saturating_sub(self.created_at_ms) > display_ms
    }
}

/// How long a notification stays visible.
pub const DISPLAY_DURATION_MS: u64 = 15000;

/// How many notifications the queue holds at most.
pub const MAX_NOTIFICATIONS: usize = 6;

/// The queue after enqueuing `n` in front: the newest stands first and the
/// oldest entries beyond the cap are silently dropped.
pub open spec fn spec_enqueue(
    q: Seq<NotificationMessage>,
    n: NotificationMessage,
    max: int,
) -> Seq<NotificationMessage> {
    (seq![n] + q).take(min(q.len() as int + 1, max))
}

/// The notification queue, newest first.
pub struct NotificationView {
    pub notifications: Vec<NotificationMessage>,
    pub display_duration_ms: u64,
    pub max_notifications: usize,
}

/// Whether the newest notification exists and may be navigated to.
pub open spec fn spec_top_viewable(q: Seq<NotificationMessage>) -> bool {
    q.len() > 0 && q[0].kind is IncomingMessage
}

/// What the queue does with one key: the dismiss key drops the oldest
/// entry and is then also offered to the screen below (it answers nothing);
/// the navigate key clears the queue and asks for the newest notification's
/// conversation, but only when that notification is viewable; every other
/// key leaves the queue alone.
pub open spec fn notify_key_spec(
    pre: NotificationView,
    key: KeyPress,
    post: NotificationView,
    r: Option<AppAction>,
) -> bool {
    &&& post.display_duration_ms == pre.display_duration_ms
    &&& post.max_notifications == pre.max_notifications
    &&& key.code == KeyCode::Function(1) ==> {
        &&& r is None
        &&& pre.notifications@.len() == 0 ==> post.notifications@ == pre.notifications@
        &&& pre.notifications@.len() > 0 ==> post.notifications@ == pre.notifications@.drop_last()
    }
    &&& (key.code == KeyCode::Function(2) && spec_top_viewable(pre.notifications@)) ==> {
        &&& post.notifications@.len() == 0
        &&& r matches Some(AppAction::SetViewState { state, dismiss_modal }) && {
            &&& !dismiss_modal
            &&& state matches ViewStateRequest::Messages { phone_number, reversed }
                && pre.notifications@[0].kind matches NotificationType::IncomingMessage {
                phone,
                ..
            } && phone_number@ == phone@ && !reversed
        }
    }
    &&& (key.code == KeyCode::Function(2) && !spec_top_viewable(pre.notifications@)) ==> {
        &&& post.notifications@ == pre.notifications@
        &&& r is None
    }
    &&& (key.code != KeyCode::Function(1) && key.code != KeyCode::Function(2)) ==> {
        &&& post.notifications@ == pre.notifications@
        &&& r is None
    }
}

impl NotificationView {
    pub fn new() -> (r: NotificationView)
        ensures
            r.notifications@.len() == 0,
            r.display_duration_ms == DISPLAY_DURATION_MS,
            r.max_notifications == MAX_NOTIFICATIONS,
    {
        NotificationView {
            notifications: Vec::new(),
            display_duration_ms: DISPLAY_DURATION_MS,
            max_notifications: MAX_NOTIFICATIONS,
        }
    }

    /// Puts a new notification in front, dropping the oldest entries once
    /// the queue is over its cap.
    pub fn add_notification(&mut self, kind: NotificationType, now_ms: u64)
        ensures
            final(self).notifications@ == spec_enqueue(
                old(self).notifications@,
                NotificationMessage { kind, created_at_ms: now_ms },
                old(self).max_notifications as int,
            ),
            final(self).display_duration_ms == old(self).display_duration_ms,
            final(self).max_notifications == old(self).max_notifications,
    {
        let ghost entry = NotificationMessage { kind: kind, created_at_ms: now_ms };
        let ghost pre = self.notifications@;
        self.notifications.insert(0, NotificationMessage { kind, created_at_ms: now_ms });
        proof {
            assert(self.notifications@ =~= seq![entry] + pre);
        }
        if self.notifications.len() > self.max_notifications {
            self.notifications.truncate(self.max_notifications);
        }
        proof {
            assert(self.notifications@ =~= spec_enqueue(
                pre,
                entry,
                old(self).max_notifications as int,
            ));
        }
    }

    /// Empties the queue; navigating away clears the whole attention event.
    pub fn dismiss_all(&mut self)
        ensures
            final(self).notifications@.len() == 0,
            final(self).display_duration_ms == old(self).display_duration_ms,
            final(self).max_notifications == old(self).max_notifications,
    {
        self.notifications.clear();
    }

    /// Drops the least recent notification, if any.
    pub fn dismiss_oldest(&mut self)
        ensures
            old(self).notifications@.len() == 0 ==> final(self).notifications@ == old(
                self,
            ).notifications@,
            old(self).notifications@.len() > 0 ==> final(self).notifications@ == old(
                self,
            ).notifications@.drop_last(),
            final(self).display_duration_ms == old(self).display_duration_ms,
            final(self).max_notifications == old(self).max_notifications,
    {
        if self.notifications.len() > 0 {
            self.notifications.pop();
        }
    }

    /// Drops every expired notification; the filter the render pass applies.
    pub fn expire_stale(&mut self, now_ms: u64)
        ensures
            final(self).notifications@ == old(self).notifications@.filter(
                |n: NotificationMessage|
                    !spec_expired(n, now_ms, old(self).display_duration_ms),
            ),
            final(self).display_duration_ms == old(self).display_duration_ms,
            final(self).max_notifications == old(self).max_notifications,
    {
        let ghost keep = |n: NotificationMessage|
            !spec_expired(n, now_ms, old(self).display_duration_ms);
        let n = self.notifications.len();
        let mut kept: Vec<NotificationMessage> = Vec::new();
        let mut i: usize = 0;
        while i < n
            invariant
                n == self.notifications@.len(),
                i <= n,
                *self == *old(self),
                kept@ == self.notifications@.subrange(0, i as int).filter(keep),
                keep == (|m: NotificationMessage|
                    !spec_expired(m, now_ms, old(self).display_duration_ms)),
            decreases n - i,
        {
            proof {
                reveal(Seq::filter);
                assert(self.notifications@.subrange(0, i + 1).drop_last()
                    =~= self.notifications@.subrange(0, i as int));
                assert(self.notifications@.subrange(0, i + 1).last()
                    == self.notifications@[i as int]);
            }
            let expired = self.notifications[i].is_expired(now_ms, self.display_duration_ms);
            if !expired {
                kept.push(self.notifications[i].clone());
            }
            i = i + 1;
        }
        self.notifications = kept;
        proof {
            assert(old(self).notifications@.subrange(0, n as int) =~= old(self).notifications@);
        }
    }

    /// Offers one key to the queue. The dismiss key drops the oldest entry;
    /// the navigate key, permitted only when the newest notification is
    /// viewable, clears the queue and asks for that conversation's screen.
    pub fn handle_key(&mut self, key: KeyPress) -> (r: Option<AppAction>)
        ensures
            notify_key_spec(*old(self), key, *final(self), r),
            r matches Some(a) ==> crate::actions::action_wf(a),
    {
        match key.code {
            KeyCode::Function(1) => {
                self.dismiss_oldest();
                None
            },
            KeyCode::Function(2) => {
                if self.notifications.len() == 0 {
                    return None;
                }
                let viewable = self.notifications[0].can_view();
                if !viewable {
                    return None;
                }
                let phone = match self.notifications[0].get_phone_number() {
                    Some(p) => p,
                    None => {
                        return None;
                    },
                };
                self.dismiss_all();
                Some(
                    AppAction::SetViewState {
                        state: ViewStateRequest::view_messages(phone.as_str()),
                        dismiss_modal: false,
                    },
                )
            },
            _ => None,
        }
    }
}

/// Notification bounding law: the queue never grows past its cap, the newest
/// entry stands first, and the surviving older entries keep their order.
pub proof fn lemma_notification_bounding(
    q: Seq<NotificationMessage>,
    n: NotificationMessage,
    max: int,
)
    requires
        max > 0,
    ensures
        spec_enqueue(q, n, max).len() == min(q.len() as int + 1, max),
        spec_enqueue(q, n, max)[0] == n,
        forall|i: int|
            1 <= i < spec_enqueue(q, n, max).len() ==> spec_enqueue(q, n, max)[i] == q[i - 1],
{
}

} // verus!
