//! The closed set of screens and the request type that names the one to
//! switch to. Transitioning to a conversation or the compose screen always
//! carries the phone number it is about.

use vstd::prelude::*;
use vstd::string::StringExecFns;

verus! {

/// Which screen the application should show next.
#[derive(Debug, PartialEq)]
pub enum ViewStateRequest {
    MainMenu,
    Phonebook,
    DeviceInfo,
    Messages { phone_number: String, reversed: bool },
    Compose { phone_number: String },
    Error { message: String, dismissible: bool },
}

impl Clone for ViewStateRequest {
    fn clone(&self) -> (r: ViewStateRequest)
        ensures
            r == *self,
    {
        match self {
            ViewStateRequest::MainMenu => ViewStateRequest::MainMenu,
            ViewStateRequest::Phonebook => ViewStateRequest::Phonebook,
            ViewStateRequest::DeviceInfo => ViewStateRequest::DeviceInfo,
            ViewStateRequest::Messages { phone_number, reversed } => ViewStateRequest::Messages {
                phone_number: phone_number.clone(),
                reversed: *reversed,
            },
            ViewStateRequest::Compose { phone_number } => ViewStateRequest::Compose {
                phone_number: phone_number.clone(),
            },
            ViewStateRequest::Error { message, dismissible } => ViewStateRequest::Error {
                message: message.clone(),
                dismissible: *dismissible,
            },
        }
    }
}

impl ViewStateRequest {
    /// A request for the message table of one conversation, in the default
    /// newest-first order.
    pub fn view_messages(phone_number: &str) -> (r: ViewStateRequest)
        ensures
            r matches ViewStateRequest::Messages { phone_number: p, reversed } && p@
                == phone_number@ && !reversed,
    {
        ViewStateRequest::Messages {
            phone_number: String::from_str(phone_number),
            reversed: false,
        }
    }

    /// A request for the compose screen of one conversation.
    pub fn compose_sms(phone_number: &str) -> (r: ViewStateRequest)
        ensures
            r matches ViewStateRequest::Compose { phone_number: p } && p@ == phone_number@,
    {
        ViewStateRequest::Compose { phone_number: String::from_str(phone_number) }
    }
}

impl Default for ViewStateRequest {
    /// The screen shown when nothing else was asked for.
    fn default() -> (r: ViewStateRequest)
        ensures
            r is MainMenu,
    {
        ViewStateRequest::MainMenu
    }
}

} // verus!
