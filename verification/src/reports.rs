//! Delivery report timeline for one outgoing message: each report reduced to
//! its timestamp and status category, ordered newest first for display.

use vstd::prelude::*;
use vstd::relations::sorted_by;
use vstd::seq_lib::group_to_multiset_ensures;
use sms_client::types::sms::SmsDeliveryReportStatusCategory;

verus! {

/// The four categories a delivery status code falls in.
#[derive(Clone, Copy, Debug, PartialEq, Eq, Structural)]
pub enum ReportStatusGroup {
    /// Sent but not yet delivered.
    Sent,
    /// Delivered to the recipient.
    Received,
    /// A temporary failure; the carrier keeps retrying.
    Retrying,
    /// A permanent failure; delivery is abandoned.
    Failed,
}

/// One entry of the timeline: when the report was created (if known) and
/// what it says.
#[derive(Clone, Copy, Debug, PartialEq, Eq, Structural)]
pub struct ReportEntry {
    pub timestamp: Option<i64>,
    pub group: ReportStatusGroup,
}

/// The category of an SMS TP-Status code, as the backend client assigns it:
/// zero is a delivery, the remaining success codes count as sent, the `0x20`
/// range as a temporary failure, everything else as permanent.
pub open spec fn spec_delivery_category(status: u8) -> ReportStatusGroup {
    if status == 0 {
        ReportStatusGroup::Received
    } else if status <= 0x1f {
        ReportStatusGroup::Sent
    } else if status <= 0x3f {
        ReportStatusGroup::Retrying
    } else {
        ReportStatusGroup::Failed
    }
}

/// Relies on `SmsDeliveryReportStatusCategory::from(u8)`: the source maps
/// status `0x00` to received, `0x01..=0x1F` to sent, `0x20..=0x3F` to a
/// temporary failure, and everything above to a permanent failure.
#[verifier::external_body]
fn delivery_status_group(status: u8) -> (r: ReportStatusGroup)
    ensures
        r == spec_delivery_category(status),
{
    match SmsDeliveryReportStatusCategory::from(status) {
        SmsDeliveryReportStatusCategory::Sent => ReportStatusGroup::Sent,
        SmsDeliveryReportStatusCategory::Received => ReportStatusGroup::Received,
        SmsDeliveryReportStatusCategory::Retrying => ReportStatusGroup::Retrying,
        SmsDeliveryReportStatusCategory::Failed => ReportStatusGroup::Failed,
    }
}

/// The timeline entry a raw backend report — status code and creation
/// time — reduces to.
pub open spec fn spec_report_entry(raw: (u8, Option<i64>)) -> ReportEntry {
    ReportEntry { timestamp: raw.1, group: spec_delivery_category(raw.0) }
}

/// Reduces raw backend delivery reports to timeline entries, categorising
/// each status code.
pub fn report_entries_from_backend(raw: Vec<(u8, Option<i64>)>) -> (r: Vec<ReportEntry>)
    ensures
        r@ == raw@.map_values(|p: (u8, Option<i64>)| spec_report_entry(p)),
{
    let n = raw.len();
    let mut out: Vec<ReportEntry> = Vec::new();
    let mut i: usize = 0;
    while i < n
        invariant
            n == raw@.len(),
            i <= n,
            out@ == raw@.subrange(0, i as int).map_values(
                |p: (u8, Option<i64>)| spec_report_entry(p),
            ),
        decreases n - i,
    {
        let (status, timestamp) = raw[i];
        out.push(ReportEntry { timestamp, group: delivery_status_group(status) });
        proof {
            assert(out@ =~= raw@.subrange(0, i + 1).map_values(
                |p: (u8, Option<i64>)| spec_report_entry(p),
            ));
        }
        i = i + 1;
    }
    proof {
        assert(raw@.subrange(0, n as int) =~= raw@);
    }
    out
}

impl ReportEntry {
    /// The label the timeline prints for this entry.
    pub fn display_text(&self) -> (r: &'static str)
        ensures
            self.group is Sent ==> r@ == "Sent"@,
            self.group is Received ==> r@ == "Delivered"@,
            self.group is Failed ==> r@ == "Failed"@,
            self.group is Retrying ==> r@ == "Retry"@,
    {
        match self.group {
            ReportStatusGroup::Sent => "Sent",
            ReportStatusGroup::Received => "Delivered",
            ReportStatusGroup::Failed => "Failed",
            ReportStatusGroup::Retrying => "Retry",
        }
    }
}

/// The display order of the timeline: newer timestamps first, entries
/// without a timestamp last.
pub open spec fn report_le(a: ReportEntry, b: ReportEntry) -> bool {
    match (a.timestamp, b.timestamp) {
        (Some(x), Some(y)) => x >= y,
        (Some(_), None) => true,
        (None, Some(_)) => false,
        (None, None) => true,
    }
}

fn report_le_exec(a: ReportEntry, b: ReportEntry) -> (r: bool)
    ensures
        r == report_le(a, b),
{
    match (a.timestamp, b.timestamp) {
        (Some(x), Some(y)) => x >= y,
        (Some(_), None) => true,
        (None, Some(_)) => false,
        (None, None) => true,
    }
}

proof fn lemma_insert_to_multiset<A>(s: Seq<A>, k: int, x: A)
    requires
        0 <= k <= s.len(),
    ensures
        s.insert(k, x).to_multiset() =~= s.to_multiset().insert(x),
{
    broadcast use group_to_multiset_ensures;

    let t = s.insert(k, x);
    assert(t.remove(k) =~= s);
    assert(t[k] == x);
    assert(t.remove(k).to_multiset() =~= t.to_multiset().remove(t[k]));
    assert(t.contains(x));
    assert(t.to_multiset().count(x) > 0);
    assert(t.to_multiset() =~= s.to_multiset().insert(x));
}

/// Orders delivery reports for display: newest first, reports without a
/// timestamp at the end. The result is a permutation of the input.
pub fn sort_reports(reports: Vec<ReportEntry>) -> (r: Vec<ReportEntry>)
    ensures
        sorted_by(r@, |a: ReportEntry, b: ReportEntry| report_le(a, b)),
        r@.to_multiset() == reports@.to_multiset(),
{
    broadcast use group_to_multiset_ensures;

    let ghost leq = |a: ReportEntry, b: ReportEntry| report_le(a, b);
    let mut out: Vec<ReportEntry> = Vec::new();
    let n = reports.len();
    let mut i: usize = 0;
    proof {
        assert(reports@.subrange(0, 0).to_multiset() =~= Seq::<ReportEntry>::empty().to_multiset());
    }
    while i < n
        invariant
            n == reports@.len(),
            i <= n,
            sorted_by(out@, leq),
            leq == (|a: ReportEntry, b: ReportEntry| report_le(a, b)),
            out@.to_multiset() == reports@.subrange(0, i as int).to_multiset(),
        decreases n - i,
    {
        let x = reports[i];
        let m = out.len();
        let mut k: usize = 0;
        while k < m && report_le_exec(out[k], x)
            invariant
                m == out@.len(),
                k <= m,
                forall|j: int| 0 <= j < k ==> report_le(#[trigger] out@[j], x),
            decreases m - k,
        {
            k = k + 1;
        }
        let ghost pre = out@;
        out.insert(k, x);
        proof {
            lemma_insert_to_multiset(pre, k as int, x);
            assert(reports@.subrange(0, i + 1).to_multiset() =~= reports@.subrange(
                0,
                i as int,
            ).to_multiset().insert(x)) by {
                assert(reports@.subrange(0, i + 1) =~= reports@.subrange(0, i as int).push(
                    reports@[i as int],
                ));
                reports@.subrange(0, i as int).to_multiset_ensures();
                assert(reports@.subrange(0, i as int).push(x).to_multiset() =~= reports@.subrange(
                    0,
                    i as int,
                ).to_multiset().insert(x));
            }
            assert forall|p: int, q: int| 0 <= p < q < out@.len() implies #[trigger] leq(
                out@[p],
                out@[q],
            ) by {
                if q < k {
                    assert(leq(pre[p], pre[q]));
                } else if p > k {
                    assert(leq(pre[p - 1], pre[q - 1]));
                } else if p == k {
                    // x stands before every element it was not placed after
                    if k < pre.len() {
                        assert(!report_le(pre[k as int], x));
                        assert(report_le(x, pre[k as int]));
                        if q - 1 > k {
                            assert(leq(pre[k as int], pre[q - 1]));
                        }
                    }
                } else {
                    // p < k <= q: elements before the insertion point order
                    // below x, and x orders below everything from k on
                    if q == k {
                        assert(report_le(pre[p], x));
                    } else {
                        assert(leq(pre[p], pre[q - 1]));
                    }
                }
            }
        }
        i = i + 1;
    }
    proof {
        assert(reports@.subrange(0, n as int) =~= reports@);
    }
    out
}

/// The modal that shows the delivery timeline of one outgoing message. It is
/// created without reports; the caller fetches them and builds the loaded
/// modal with `with_reports`.
#[derive(Debug)]
pub struct DeliveryReportsModal {
    pub message: crate::message::SmsMessage,
    pub reports: Option<Vec<ReportEntry>>,
}

/// At most this many reports are requested and shown.
pub const MAX_REPORTS: u64 = 10;

impl DeliveryReportsModal {
    /// An uninitialized modal; becoming active triggers the fetch.
    pub fn new(message: crate::message::SmsMessage) -> (r: DeliveryReportsModal)
        ensures
            r.message == message,
            r.reports is None,
    {
        DeliveryReportsModal { message, reports: None }
    }

    /// The loaded modal: a synthetic `Sent` entry for the message itself (when
    /// it carries a send time) followed by the fetched reports, the whole
    /// timeline ordered newest first.
    pub fn with_reports(
        message: crate::message::SmsMessage,
        sent_at: Option<i64>,
        api_reports: Vec<ReportEntry>,
    ) -> (r: DeliveryReportsModal)
        ensures
            r.message == message,
            r.reports matches Some(timeline) && {
                &&& sorted_by(timeline@, |a: ReportEntry, b: ReportEntry| report_le(a, b))
                &&& sent_at matches Some(t) ==> timeline@.to_multiset() == api_reports@.to_multiset().insert(
                    ReportEntry { timestamp: Some(t), group: ReportStatusGroup::Sent },
                )
                &&& sent_at is None ==> timeline@.to_multiset() == api_reports@.to_multiset()
            },
    {
        broadcast use group_to_multiset_ensures;

        let mut entries = api_reports;
        match sent_at {
            Some(t) => {
                let ghost pre = entries@;
                entries.push(ReportEntry { timestamp: Some(t), group: ReportStatusGroup::Sent });
                proof {
                    assert(entries@.to_multiset() =~= pre.to_multiset().insert(
                        ReportEntry { timestamp: Some(t), group: ReportStatusGroup::Sent },
                    ));
                }
            },
            None => {},
        }
        let timeline = sort_reports(entries);
        DeliveryReportsModal { message, reports: Some(timeline) }
    }

    /// Whether activating this modal must first fetch the reports.
    pub fn needs_load(&self) -> (r: bool)
        ensures
            r == (self.reports is None),
    {
        self.reports.is_none()
    }
}

} // verus!
