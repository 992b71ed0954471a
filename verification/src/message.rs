//! The normalized projection of a backend SMS message: exactly the fields
//! the message table displays, with the content sanitised for single-line
//! terminal output.

use vstd::prelude::*;
use vstd::string::StringExecFns;
use chrono::Local;
use chrono::TimeZone;
use crate::textutil::decimal_digits;
use crate::textutil::sanitize_text;
use crate::textutil::sanitized;
use crate::textutil::u64_to_string;

verus! {

/// One message as the table shows it. Only the fields that the grid and the
/// live-merge logic read are kept; of an outgoing message the caller still
/// holds the full backend payload for later delivery-report lookups.
#[derive(Debug)]
pub struct SmsMessage {
    /// The backend message identifier, written in decimal.
    pub id: String,
    /// The phone number of the conversation this message belongs to.
    pub phone_number: String,
    /// The direction marker shown in the grid.
    pub direction: String,
    /// The creation or completion time, rendered in local time.
    pub timestamp: String,
    /// The sanitised message text: one display line, no control characters.
    pub content: String,
    /// Whether this message was sent by us rather than received.
    pub is_outgoing: bool,
}

/// Relies on chrono's `TimeZone::timestamp_opt` and `DateTime::format`:
/// renders a Unix timestamp as `day/month/year hour:minute` in the machine's
/// local time zone, falling back to the current time when the timestamp is
/// missing or out of range. The result depends on the time zone and the
/// clock, so nothing is assumed of it.
#[verifier::external_body]
fn format_local_timestamp(secs: Option<i64>) -> String {
    let parsed = match secs {
        Some(t) => Local.timestamp_opt(t, 0).single(),
        None => None,
    };
    let dt = parsed.unwrap_or_else(Local::now);
    dt.format("%d/%m/%y %H:%M").to_string()
}

impl Clone for SmsMessage {
    fn clone(&self) -> (r: SmsMessage)
        ensures
            r == *self,
    {
        SmsMessage {
            id: self.id.clone(),
            phone_number: self.phone_number.clone(),
            direction: self.direction.clone(),
            timestamp: self.timestamp.clone(),
            content: self.content.clone(),
            is_outgoing: self.is_outgoing,
        }
    }
}

impl SmsMessage {
    /// Normalizes a stored backend message: the identifier becomes its
    /// decimal text, the direction marker follows `is_outgoing`, and the
    /// content is stripped of ANSI sequences and non-displayable characters.
    /// The completion time is preferred over the creation time.
    pub fn from_backend(
        message_id: u64,
        phone_number: String,
        raw_content: &str,
        is_outgoing: bool,
        completed_at: Option<i64>,
        created_at: Option<i64>,
    ) -> (r: SmsMessage)
        ensures
            r.id@ == decimal_digits(message_id as nat),
            r.phone_number == phone_number,
            r.is_outgoing == is_outgoing,
            is_outgoing ==> r.direction@ == "← OUT"@,
            !is_outgoing ==> r.direction@ == "→ IN"@,
            r.content@ == sanitized(raw_content@),
    {
        let secs = match completed_at {
            Some(t) => Some(t),
            None => created_at,
        };
        let direction = if is_outgoing {
            String::from_str("← OUT")
        } else {
            String::from_str("→ IN")
        };
        SmsMessage {
            id: u64_to_string(message_id),
            phone_number,
            direction,
            timestamp: format_local_timestamp(secs),
            content: sanitize_text(raw_content),
            is_outgoing,
        }
    }

    /// The grid columns of this message, in display order.
    pub fn ref_array(&self) -> (r: [&String; 4])
        ensures
            r[0] == &self.id,
            r[1] == &self.direction,
            r[2] == &self.timestamp,
            r[3] == &self.content,
    {
        [&self.id, &self.direction, &self.timestamp, &self.content]
    }
}

} // verus!
