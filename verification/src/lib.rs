//! Core logic of a terminal SMS client: the navigation state machine, the
//! paginated live-updating message table, modal and notification overlays,
//! and the action dispatcher that ties them together.
//!
//! Terminal rendering, the HTTP/WebSocket transport and the process entry
//! point are collaborators that live outside this crate; the types here
//! exchange only plain values with them.

pub mod actions;
pub mod compose;
pub mod device_info;
pub mod dispatch;
pub mod error_view;
pub mod keys;
pub mod manager;
pub mod menu;
pub mod message;
pub mod modals;
pub mod notify;
pub mod phonebook;
pub mod reports;
pub mod table;
pub mod textutil;
pub mod theme;
pub mod views;

use vstd::prelude::*;

verus! {

} // verus!
