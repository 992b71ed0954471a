//! The paginated, live-updating message table of one conversation: the
//! loaded window of messages, incremental fetch with lookahead prefetch,
//! idempotent live-merge, and cursor state.
//!
//! The table never talks to the backend itself. Starting a fetch hands the
//! caller a `PageRequest` describing the page to ask for, and the caller
//! feeds the outcome back through `apply_page` or `fetch_failed`; the
//! `is_loading` flag keeps at most one fetch in flight.

use vstd::prelude::*;
use crate::message::SmsMessage;
use crate::textutil::display_width;
use crate::textutil::text_width;

verus! {

/// Messages fetched per page; a shorter page is the end-of-data signal.
pub const MESSAGES_PER_PAGE: u64 = 20;

/// A fetch is triggered once the cursor is within this many rows of the end.
pub const LOAD_THRESHOLD: usize = 5;

/// What a fetch should ask the backend for.
#[derive(Clone, Copy, Debug, PartialEq, Eq, Structural)]
pub struct PageRequest {
    pub offset: u64,
    pub limit: u64,
    pub reversed: bool,
}

/// The widths, in columns, that the grid reserves for each field; a pure
/// rendering hint derived from the loaded messages.
#[derive(Clone, Copy, Debug, PartialEq, Eq, Structural)]
pub struct ColumnWidths {
    pub id: u16,
    pub direction: u16,
    pub timestamp: u16,
    pub content: u16,
}

/// The table state as the contracts speak of it.
pub ghost struct TableModel {
    pub records: Seq<SmsMessage>,
    pub offset: int,
    pub has_more: bool,
    pub is_loading: bool,
    pub selected: Option<int>,
    pub reversed: bool,
}

/// The message table of one conversation.
pub struct MessagesView {
    pub messages: Vec<SmsMessage>,
    pub selected: Option<usize>,
    pub selected_column: usize,
    pub col_widths: ColumnWidths,
    pub is_loading: bool,
    pub has_more: bool,
    pub reversed: bool,
    pub current_offset: u64,
    pub total_messages: usize,
    pub is_selected_outgoing: bool,
}

impl MessagesView {
    pub open spec fn model(self) -> TableModel {
        TableModel {
            records: self.messages@,
            offset: self.current_offset as int,
            has_more: self.has_more,
            is_loading: self.is_loading,
            selected: match self.selected {
                Some(i) => Some(i as int),
                None => None,
            },
            reversed: self.reversed,
        }
    }
}

/// The page offset after one successful non-empty fetch: it advances by one
/// page size, stopping at the top of the range.
pub open spec fn page_advance(offset: int) -> int {
    if offset + MESSAGES_PER_PAGE <= u64::MAX {
        offset + MESSAGES_PER_PAGE
    } else {
        u64::MAX as int
    }
}

/// The table after a successful fetch returning `page`. A non-empty first
/// page (offset zero) replaces the records and selects the first row; a
/// later page is appended. The offset advances by one page size only for a
/// full page: a shorter page ends the load cycle, clearing `has_more`, and
/// leaves the offset where it was.
pub open spec fn spec_apply_page(t: TableModel, page: Seq<SmsMessage>) -> TableModel {
    TableModel {
        records: if page.len() == 0 {
            t.records
        } else if t.offset == 0 {
            page
        } else {
            t.records + page
        },
        offset: if page.len() == MESSAGES_PER_PAGE {
            page_advance(t.offset)
        } else {
            t.offset
        },
        has_more: page.len() == MESSAGES_PER_PAGE,
        is_loading: false,
        selected: if page.len() > 0 && t.offset == 0 {
            Some(0int)
        } else {
            t.selected
        },
        reversed: t.reversed,
    }
}

/// Whether some loaded record carries the given identifier.
pub open spec fn contains_id(records: Seq<SmsMessage>, id: Seq<char>) -> bool {
    exists|i: int| 0 <= i < records.len() && records[i].id@ == id
}

/// The table's records after a live-merge of `m`: unchanged when a record
/// with the same identifier is already present, else `m` is put in front.
pub open spec fn spec_add_live(records: Seq<SmsMessage>, m: SmsMessage) -> Seq<SmsMessage> {
    if contains_id(records, m.id@) {
        records
    } else {
        seq![m] + records
    }
}

/// Whether the lookahead prefetch fires: there is more data, no fetch is in
/// flight, and the cursor stands within `LOAD_THRESHOLD` rows of the end of
/// a non-empty table.
pub open spec fn spec_wants_prefetch(t: TableModel) -> bool {
    &&& t.has_more
    &&& !t.is_loading
    &&& t.records.len() > 0
    &&& t.selected matches Some(sel) && sel >= (if t.records.len() >= LOAD_THRESHOLD {
        t.records.len() - LOAD_THRESHOLD
    } else {
        0
    })
}

/// The row the cursor moves to on a downward step: one row down, clamped to
/// the last row, never wrapping.
pub open spec fn next_index(current: int, len: int) -> int {
    if current >= len - 1 {
        len - 1
    } else {
        current + 1
    }
}

/// The row the cursor moves to on an upward step: one row up, clamped to the
/// first row, never wrapping.
pub open spec fn previous_index(current: int) -> int {
    if current == 0 {
        0
    } else {
        current - 1
    }
}

/// The table after one downward cursor step: a no-op on an empty table or at
/// the last row; otherwise the next row is selected and the outgoing flag
/// follows it.
pub open spec fn spec_next_row(v: MessagesView) -> MessagesView {
    if v.messages@.len() == 0 {
        v
    } else {
        let current = match v.selected {
            Some(i) => i as int,
            None => 0,
        };
        let next = next_index(current, v.messages@.len() as int);
        if next != current {
            MessagesView {
                selected: Some(next as usize),
                is_selected_outgoing: v.messages@[next].is_outgoing,
                ..v
            }
        } else {
            v
        }
    }
}

/// The table after one upward cursor step, the mirror of `spec_next_row`.
pub open spec fn spec_previous_row(v: MessagesView) -> MessagesView {
    if v.messages@.len() == 0 {
        v
    } else {
        let current = match v.selected {
            Some(i) => i as int,
            None => 0,
        };
        let previous = previous_index(current);
        if previous != current {
            MessagesView {
                selected: Some(previous as usize),
                is_selected_outgoing: if previous < v.messages@.len() {
                    v.messages@[previous].is_outgoing
                } else {
                    false
                },
                ..v
            }
        } else {
            v
        }
    }
}

/// The table after highlighting the next grid column.
pub open spec fn spec_next_column(v: MessagesView) -> MessagesView {
    if v.selected_column < usize::MAX {
        MessagesView { selected_column: (v.selected_column + 1) as usize, ..v }
    } else {
        v
    }
}

/// The table after highlighting the previous grid column.
pub open spec fn spec_previous_column(v: MessagesView) -> MessagesView {
    if v.selected_column > 0 {
        MessagesView { selected_column: (v.selected_column - 1) as usize, ..v }
    } else {
        v
    }
}

/// The widest identifier among the records, in display columns.
pub open spec fn max_id_width(records: Seq<SmsMessage>) -> nat
    decreases records.len(),
{
    if records.len() == 0 {
        0
    } else {
        vstd::math::max(
            max_id_width(records.drop_last()) as int,
            display_width(records.last().id@) as int,
        ) as nat
    }
}

/// The widest content line among the records, in display columns.
pub open spec fn max_content_width(records: Seq<SmsMessage>) -> nat
    decreases records.len(),
{
    if records.len() == 0 {
        0
    } else {
        vstd::math::max(
            max_content_width(records.drop_last()) as int,
            display_width(records.last().content@) as int,
        ) as nat
    }
}

/// The identifier column width: the widest identifier capped at 20, or a
/// default of 10 while no records are loaded.
pub open spec fn id_column_width(records: Seq<SmsMessage>) -> int {
    if records.len() == 0 {
        10
    } else {
        vstd::math::min(max_id_width(records) as int, 20)
    }
}

/// The content column width: the widest content capped at 80, or a default
/// of 50 while no records are loaded.
pub open spec fn content_column_width(records: Seq<SmsMessage>) -> int {
    if records.len() == 0 {
        50
    } else {
        vstd::math::min(max_content_width(records) as int, 80)
    }
}

/// The column widths derived from the records: identifier and content are
/// measured, direction and timestamp are fixed.
pub open spec fn spec_column_widths(records: Seq<SmsMessage>) -> ColumnWidths {
    ColumnWidths {
        id: id_column_width(records) as u16,
        direction: 8,
        timestamp: 16,
        content: content_column_width(records) as u16,
    }
}

impl MessagesView {
    pub fn new() -> (r: MessagesView)
        ensures
            r.messages@.len() == 0,
            r.selected is None,
            r.selected_column == 0,
            r.col_widths == (ColumnWidths { id: 10u16, direction: 10u16, timestamp: 20u16, content: 50u16 }),
            !r.is_loading,
            r.has_more,
            !r.reversed,
            r.current_offset == 0,
            r.total_messages == 0,
            !r.is_selected_outgoing,
    {
        MessagesView {
            messages: Vec::new(),
            selected: None,
            selected_column: 0,
            col_widths: ColumnWidths { id: 10, direction: 10, timestamp: 20, content: 50 },
            is_loading: false,
            has_more: true,
            reversed: false,
            current_offset: 0,
            total_messages: 0,
            is_selected_outgoing: false,
        }
    }

    /// Clears the pagination state ahead of a fresh load. An in-flight fetch
    /// flag is deliberately kept, so a stale response cannot start a second
    /// fetch.
    pub fn reset(&mut self)
        ensures
            final(self).messages@.len() == 0,
            final(self).selected is None,
            final(self).current_offset == 0,
            final(self).has_more,
            !final(self).is_selected_outgoing,
            final(self).is_loading == old(self).is_loading,
            final(self).reversed == old(self).reversed,
            final(self).selected_column == old(self).selected_column,
            final(self).col_widths == old(self).col_widths,
            final(self).total_messages == old(self).total_messages,
    {
        self.current_offset = 0;
        self.has_more = true;
        self.is_selected_outgoing = false;
        self.messages.clear();
        self.selected = None;
    }

    /// Starts an incremental fetch unless one is already in flight; at most
    /// one fetch per table is ever outstanding.
    pub fn begin_fetch(&mut self) -> (r: Option<PageRequest>)
        ensures
            old(self).is_loading ==> r is None && *final(self) == *old(self),
            !old(self).is_loading ==> {
                &&& r == Some(
                    PageRequest {
                        offset: old(self).current_offset,
                        limit: MESSAGES_PER_PAGE,
                        reversed: old(self).reversed,
                    },
                )
                &&& *final(self) == (MessagesView { is_loading: true, ..*old(self) })
            },
    {
        if self.is_loading {
            return None;
        }
        self.is_loading = true;
        Some(
            PageRequest {
                offset: self.current_offset,
                limit: MESSAGES_PER_PAGE,
                reversed: self.reversed,
            },
        )
    }

    /// Sets the sort order, clears the window and starts the first fetch:
    /// the transition into a conversation.
    pub fn begin_load(&mut self, reversed: bool) -> (r: Option<PageRequest>)
        ensures
            final(self).reversed == reversed,
            final(self).messages@.len() == 0,
            final(self).selected is None,
            final(self).current_offset == 0,
            final(self).has_more,
            !final(self).is_selected_outgoing,
            final(self).selected_column == old(self).selected_column,
            final(self).col_widths == old(self).col_widths,
            final(self).total_messages == old(self).total_messages,
            old(self).is_loading ==> r is None && final(self).is_loading,
            !old(self).is_loading ==> r == Some(
                PageRequest { offset: 0, limit: MESSAGES_PER_PAGE, reversed: reversed },
            ) && final(self).is_loading,
    {
        self.reversed = reversed;
        self.reset();
        self.begin_fetch()
    }

    /// Clears the window and fetches again without changing the sort order:
    /// manual refresh.
    pub fn begin_reload(&mut self) -> (r: Option<PageRequest>)
        ensures
            final(self).reversed == old(self).reversed,
            final(self).messages@.len() == 0,
            final(self).selected is None,
            final(self).current_offset == 0,
            final(self).has_more,
            !final(self).is_selected_outgoing,
            final(self).selected_column == old(self).selected_column,
            final(self).col_widths == old(self).col_widths,
            final(self).total_messages == old(self).total_messages,
            old(self).is_loading ==> r is None && final(self).is_loading,
            !old(self).is_loading ==> r == Some(
                PageRequest {
                    offset: 0,
                    limit: MESSAGES_PER_PAGE,
                    reversed: old(self).reversed,
                },
            ) && final(self).is_loading,
    {
        self.reset();
        self.begin_fetch()
    }

    /// Applies a successfully fetched page, as `spec_apply_page` describes:
    /// a non-empty first page replaces the window and selects the first row,
    /// a later page is appended; the offset advances by one page size only
    /// for a non-empty page, and a short page clears `has_more`.
    pub fn apply_page(&mut self, new_messages: Vec<SmsMessage>)
        requires
            old(self).is_loading,
        ensures
            final(self).model() == spec_apply_page(old(self).model(), new_messages@),
            final(self).total_messages == final(self).messages@.len(),
            final(self).col_widths == spec_column_widths(final(self).messages@),
            final(self).is_selected_outgoing == old(self).is_selected_outgoing,
            final(self).selected_column == old(self).selected_column,
    {
        self.is_loading = false;
        let count = new_messages.len();
        if count > 0 {
            if self.current_offset == 0 {
                self.messages = new_messages;
                self.selected = Some(0);
            } else {
                self.append_messages(new_messages);
            }
        }
        if count == MESSAGES_PER_PAGE as usize {
            self.current_offset = if self.current_offset <= u64::MAX - MESSAGES_PER_PAGE {
                self.current_offset + MESSAGES_PER_PAGE
            } else {
                u64::MAX
            };
        }
        self.has_more = count == MESSAGES_PER_PAGE as usize;
        self.total_messages = self.messages.len();
        self.recompute_column_widths();
    }

    /// Ends a failed fetch: the flag clears so a retry can start, and the
    /// window keeps its prior, valid data.
    pub fn fetch_failed(&mut self)
        requires
            old(self).is_loading,
        ensures
            *final(self) == (MessagesView { is_loading: false, ..*old(self) }),
    {
        self.is_loading = false;
    }

    fn append_messages(&mut self, new_messages: Vec<SmsMessage>)
        ensures
            final(self).messages@ == old(self).messages@ + new_messages@,
            *final(self) == (MessagesView { messages: final(self).messages, ..*old(self) }),
    {
        let mut rest = new_messages;
        let n = rest.len();
        let mut i: usize = 0;
        while i < n
            invariant
                n == rest@.len(),
                i <= n,
                self.messages@ == old(self).messages@ + rest@.subrange(0, i as int),
                rest@ == new_messages@,
                *self == (MessagesView { messages: self.messages, ..*old(self) }),
            decreases n - i,
        {
            let m = rest[i].clone();
            self.messages.push(m);
            proof {
                assert(self.messages@ =~= old(self).messages@ + rest@.subrange(0, i + 1));
            }
            i = i + 1;
        }
        proof {
            assert(rest@.subrange(0, n as int) =~= rest@);
        }
    }

    /// Merges a message pushed over the live channel: a no-op when a record
    /// with the same identifier is already loaded, else it is put in front.
    pub fn add_live_message(&mut self, message: &SmsMessage)
        ensures
            contains_id(old(self).messages@, message.id@) ==> *final(self) == *old(self),
            !contains_id(old(self).messages@, message.id@) ==> {
                &&& final(self).messages@ == spec_add_live(old(self).messages@, *message)
                &&& final(self).total_messages == final(self).messages@.len()
                &&& final(self).col_widths == spec_column_widths(final(self).messages@)
                &&& *final(self) == (MessagesView {
                    messages: final(self).messages,
                    total_messages: final(self).total_messages,
                    col_widths: final(self).col_widths,
                    ..*old(self)
                })
            },
    {
        let n = self.messages.len();
        let mut i: usize = 0;
        while i < n
            invariant
                n == self.messages@.len(),
                i <= n,
                forall|j: int| 0 <= j < i ==> self.messages@[j].id@ != message.id@,
                *self == *old(self),
            decreases n - i,
        {
            if self.messages[i].id == message.id {
                return ;
            }
            i = i + 1;
        }
        self.messages.insert(0, message.clone());
        proof {
            assert(self.messages@ =~= seq![*message] + old(self).messages@);
        }
        self.total_messages = self.messages.len();
        self.recompute_column_widths();
    }

    /// Fires the lookahead prefetch when the cursor stands near the end of
    /// the loaded window; called after every downward cursor move.
    pub fn check_load_more(&mut self) -> (r: Option<PageRequest>)
        ensures
            !spec_wants_prefetch(old(self).model()) ==> r is None && *final(self) == *old(self),
            spec_wants_prefetch(old(self).model()) ==> {
                &&& r == Some(
                    PageRequest {
                        offset: old(self).current_offset,
                        limit: MESSAGES_PER_PAGE,
                        reversed: old(self).reversed,
                    },
                )
                &&& *final(self) == (MessagesView { is_loading: true, ..*old(self) })
            },
    {
        if !self.has_more || self.is_loading || self.messages.len() == 0 {
            return None;
        }
        match self.selected {
            None => None,
            Some(sel) => {
                let len = self.messages.len();
                let load_point = if len >= LOAD_THRESHOLD {
                    len - LOAD_THRESHOLD
                } else {
                    0
                };
                if sel >= load_point {
                    self.begin_fetch()
                } else {
                    None
                }
            },
        }
    }

    /// Moves the cursor one row down, clamped to the last row; a no-op on an
    /// empty table.
    pub fn next_row(&mut self)
        ensures
            *final(self) == spec_next_row(*old(self)),
    {
        let len = self.messages.len();
        if len == 0 {
            return ;
        }
        let current = match self.selected {
            Some(i) => i,
            None => 0,
        };
        let next = if current >= len - 1 {
            len - 1
        } else {
            current + 1
        };
        if next != current {
            self.selected = Some(next);
            self.is_selected_outgoing = self.messages[next].is_outgoing;
        }
    }

    /// Moves the cursor one row up, clamped to the first row; a no-op on an
    /// empty table.
    pub fn previous_row(&mut self)
        ensures
            *final(self) == spec_previous_row(*old(self)),
    {
        let len = self.messages.len();
        if len == 0 {
            return ;
        }
        let current = match self.selected {
            Some(i) => i,
            None => 0,
        };
        let previous = if current == 0 {
            0
        } else {
            current - 1
        };
        if previous != current {
            self.selected = Some(previous);
            self.is_selected_outgoing = if previous < len {
                self.messages[previous].is_outgoing
            } else {
                false
            };
        }
    }

    /// Highlights the next grid column; independent of the row cursor.
    pub fn next_column(&mut self)
        ensures
            *final(self) == spec_next_column(*old(self)),
    {
        if self.selected_column < usize::MAX {
            self.selected_column = self.selected_column + 1;
        }
    }

    /// Highlights the previous grid column; independent of the row cursor.
    pub fn previous_column(&mut self)
        ensures
            *final(self) == spec_previous_column(*old(self)),
    {
        if self.selected_column > 0 {
            self.selected_column = self.selected_column - 1;
        }
    }

    /// Recomputes the column width hints from the loaded records.
    fn recompute_column_widths(&mut self)
        ensures
            final(self).col_widths == spec_column_widths(old(self).messages@),
            *final(self) == (MessagesView { col_widths: final(self).col_widths, ..*old(self) }),
    {
        let n = self.messages.len();
        let mut widest_id: usize = 0;
        let mut widest_content: usize = 0;
        let mut i: usize = 0;
        while i < n
            invariant
                n == self.messages@.len(),
                i <= n,
                widest_id == max_id_width(self.messages@.subrange(0, i as int)),
                widest_content == max_content_width(self.messages@.subrange(0, i as int)),
                *self == *old(self),
            decreases n - i,
        {
            let w_id = text_width(self.messages[i].id.as_str());
            let w_content = text_width(self.messages[i].content.as_str());
            if w_id > widest_id {
                widest_id = w_id;
            }
            if w_content > widest_content {
                widest_content = w_content;
            }
            proof {
                assert(self.messages@.subrange(0, i + 1).drop_last() =~= self.messages@.subrange(
                    0,
                    i as int,
                ));
                assert(self.messages@.subrange(0, i + 1).last() == self.messages@[i as int]);
            }
            i = i + 1;
        }
        proof {
            assert(self.messages@.subrange(0, n as int) =~= self.messages@);
        }
        let id_w: u16 = if n == 0 {
            10
        } else if widest_id < 20 {
            widest_id as u16
        } else {
            20
        };
        let content_w: u16 = if n == 0 {
            50
        } else if widest_content < 80 {
            widest_content as u16
        } else {
            80
        };
        self.col_widths = ColumnWidths { id: id_w, direction: 8, timestamp: 16, content: content_w };
    }
}

/// After any number of successful fetches each returning exactly one full
/// page, the offset equals the number of pages times the page size and
/// `has_more` still holds.
pub open spec fn spec_apply_pages(t: TableModel, pages: Seq<Seq<SmsMessage>>) -> TableModel
    decreases pages.len(),
{
    if pages.len() == 0 {
        t
    } else {
        spec_apply_pages(spec_apply_page(t, pages.first()), pages.drop_first())
    }
}

/// Pagination law: starting from offset `t.offset`, applying a run of full
/// pages advances the offset by exactly one page size per page and leaves
/// `has_more` set.
pub proof fn lemma_pagination_full_pages(t: TableModel, pages: Seq<Seq<SmsMessage>>)
    requires
        forall|i: int| 0 <= i < pages.len() ==> (#[trigger] pages[i]).len() == MESSAGES_PER_PAGE,
        t.offset >= 0,
        t.offset + pages.len() * MESSAGES_PER_PAGE <= u64::MAX,
    ensures
        spec_apply_pages(t, pages).offset == t.offset + pages.len() * MESSAGES_PER_PAGE,
        pages.len() > 0 ==> spec_apply_pages(t, pages).has_more,
        pages.len() == 0 ==> spec_apply_pages(t, pages).has_more == t.has_more,
    decreases pages.len(),
{
    if pages.len() > 0 {
        let t1 = spec_apply_page(t, pages.first());
        assert(pages.first().len() == MESSAGES_PER_PAGE);
        assert(t1.offset == t.offset + MESSAGES_PER_PAGE);
        lemma_pagination_full_pages(t1, pages.drop_first());
    }
}

/// End-of-data law: a fetch returning fewer records than one full page
/// (including none) clears `has_more`, and while `has_more` is clear the
/// lookahead prefetch never fires.
pub proof fn lemma_short_page_stops(t: TableModel, page: Seq<SmsMessage>)
    requires
        page.len() < MESSAGES_PER_PAGE,
    ensures
        !spec_apply_page(t, page).has_more,
        !spec_wants_prefetch(spec_apply_page(t, page)),
{
}

/// Live-merge idempotence: merging the same message twice changes nothing
/// the second time, and a message whose identifier was absent appears
/// exactly once.
pub proof fn lemma_live_merge_idempotent(records: Seq<SmsMessage>, m: SmsMessage)
    ensures
        spec_add_live(spec_add_live(records, m), m) == spec_add_live(records, m),
        !contains_id(records, m.id@) ==> spec_add_live(records, m).filter(
            |x: SmsMessage| x.id@ == m.id@,
        ).len() == 1,
{
    let merged = spec_add_live(records, m);
    if !contains_id(records, m.id@) {
        assert(merged == seq![m] + records);
        assert(merged[0].id@ == m.id@);
        assert(contains_id(merged, m.id@));
        let pred = |x: SmsMessage| x.id@ == m.id@;
        Seq::filter_distributes_over_add(seq![m], records, pred);
        assert(seq![m].filter(pred) =~= seq![m]) by {
            reveal(Seq::filter);
            assert(seq![m].drop_last() =~= Seq::<SmsMessage>::empty());
        }
        assert(records.filter(pred).len() == 0) by {
            if records.filter(pred).len() > 0 {
                records.lemma_filter_pred(pred, 0);
                records.lemma_filter_len(pred);
                let witness = records.filter(pred)[0];
                assert(records.contains(witness)) by {
                    reveal(Seq::filter);
                    lemma_filter_subset(records, pred, witness);
                }
                let k = choose|k: int| 0 <= k < records.len() && records[k] == witness;
                assert(records[k].id@ == m.id@);
                assert(contains_id(records, m.id@));
            }
        }
    } else {
        assert(contains_id(merged, m.id@));
    }
}

/// Every element of a filtered sequence occurs in the sequence itself.
proof fn lemma_filter_subset<A>(s: Seq<A>, pred: spec_fn(A) -> bool, x: A)
    requires
        s.filter(pred).contains(x),
    ensures
        s.contains(x),
    decreases s.len(),
{
    reveal(Seq::filter);
    if s.len() > 0 {
        if s.drop_last().filter(pred).contains(x) {
            lemma_filter_subset(s.drop_last(), pred, x);
            let k = choose|k: int| 0 <= k < s.drop_last().len() && s.drop_last()[k] == x;
            assert(s[k] == x);
        } else {
            assert(x == s.last());
            assert(s[s.len() - 1] == x);
        }
    }
}

/// Selection clamping law: from any in-range cursor, one step down or up
/// stays inside `[0, len - 1]` and never wraps.
pub proof fn lemma_selection_clamped(current: int, len: int)
    requires
        len > 0,
        0 <= current < len,
    ensures
        0 <= next_index(current, len) < len,
        next_index(current, len) >= current,
        0 <= previous_index(current) < len,
        previous_index(current) <= current,
{
}

} // verus!
