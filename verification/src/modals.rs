//! The single-slot modal overlay: confirmation, text input, loading and
//! delivery-report dialogs, each a small state machine over one key press.
//! A modal owns input priority until its handler returns a terminal
//! response, whereupon the dispatcher clears the slot and routes the
//! response back to the view that opened it.

use vstd::prelude::*;
use vstd::string::StringExecFns;
use crate::keys::KeyCode;
use crate::keys::KeyPress;
use crate::reports::DeliveryReportsModal;
use crate::textutil::all_blank;
use crate::textutil::chars_to_string;
use crate::textutil::is_blank;
use crate::textutil::string_to_chars;

verus! {

/// What a confirmation refers to, so its response can be routed back to the
/// originating view.
#[derive(Debug, PartialEq, Eq)]
pub enum ModalMetadata {
    /// A drafted message: destination phone number and content.
    SendMessage(String, String),
    /// A phone number alone.
    PhoneNumber(String),
    /// Nothing attached.
    Empty,
}

impl ModalMetadata {
    /// Metadata carrying one phone number.
    pub fn phone(number: &str) -> (r: ModalMetadata)
        ensures
            r matches ModalMetadata::PhoneNumber(p) && p@ == number@,
    {
        ModalMetadata::PhoneNumber(String::from_str(number))
    }

    /// The phone number this metadata refers to, if it carries one.
    pub fn as_phone(&self) -> (r: Option<&str>)
        ensures
            self matches ModalMetadata::SendMessage(p, _) ==> r matches Some(s) && s@ == p@,
            self matches ModalMetadata::PhoneNumber(p) ==> r matches Some(s) && s@ == p@,
            self is Empty ==> r is None,
    {
        match self {
            ModalMetadata::SendMessage(phone, _) => Some(phone.as_str()),
            ModalMetadata::PhoneNumber(phone) => Some(phone.as_str()),
            ModalMetadata::Empty => None,
        }
    }
}

/// A terminal answer from a modal; returning one always closes the modal.
#[derive(Debug, PartialEq, Eq)]
pub enum ModalResponse {
    /// The modal was dismissed without a positive answer.
    Dismissed,
    /// The confirmation was accepted.
    Confirmed,
    /// The text input was submitted with this value.
    TextInput(Option<String>),
}

/// The shape of a modal's answer to one key, without its payload.
pub ghost enum ModalOutcome {
    /// The key was consumed; the modal stays open.
    Stay,
    /// The modal closes answering `Dismissed`.
    Cancel,
    /// The modal closes with its positive answer.
    Accept,
}

/// A confirmation dialog with Yes/No buttons; `No` is preselected so a
/// stray Enter never confirms.
#[derive(Debug, PartialEq, Eq)]
pub struct ConfirmationModal {
    pub message: String,
    pub selected_yes: bool,
}

/// The button selection after one key: the arrow and tab keys toggle it.
pub open spec fn confirmation_selected_after(selected_yes: bool, key: KeyPress) -> bool {
    match key.code {
        KeyCode::Left | KeyCode::Right | KeyCode::Tab => !selected_yes,
        _ => selected_yes,
    }
}

/// The confirmation's answer to one key: Enter accepts only when `Yes` is
/// selected and dismisses otherwise; Escape always dismisses.
pub open spec fn confirmation_outcome(selected_yes: bool, key: KeyPress) -> ModalOutcome {
    match key.code {
        KeyCode::Enter => if selected_yes {
            ModalOutcome::Accept
        } else {
            ModalOutcome::Cancel
        },
        KeyCode::Esc => ModalOutcome::Cancel,
        _ => ModalOutcome::Stay,
    }
}

impl ConfirmationModal {
    pub fn new(message: String) -> (r: ConfirmationModal)
        ensures
            r.message == message,
            !r.selected_yes,
    {
        ConfirmationModal { message, selected_yes: false }
    }

    /// Handles one key as `confirmation_outcome` and
    /// `confirmation_selected_after` describe.
    pub fn handle_key(&mut self, key: KeyPress) -> (r: Option<ModalResponse>)
        ensures
            final(self).message == old(self).message,
            final(self).selected_yes == confirmation_selected_after(old(self).selected_yes, key),
            confirmation_outcome(old(self).selected_yes, key) is Stay ==> r is None,
            confirmation_outcome(old(self).selected_yes, key) is Cancel ==> r == Some(
                ModalResponse::Dismissed,
            ),
            confirmation_outcome(old(self).selected_yes, key) is Accept ==> r == Some(
                ModalResponse::Confirmed,
            ),
    {
        match key.code {
            KeyCode::Left | KeyCode::Right | KeyCode::Tab => {
                self.selected_yes = !self.selected_yes;
                None
            },
            KeyCode::Enter => Some(
                if self.selected_yes {
                    ModalResponse::Confirmed
                } else {
                    ModalResponse::Dismissed
                },
            ),
            KeyCode::Esc => Some(ModalResponse::Dismissed),
            _ => None,
        }
    }
}

/// A one-line text input with OK/Cancel buttons, a character cursor and an
/// optional length cap.
#[derive(Debug, PartialEq, Eq)]
pub struct TextInputModal {
    pub title: String,
    pub prompt: String,
    pub input_buffer: Vec<char>,
    pub cursor_position: usize,
    pub selected_ok: bool,
    pub placeholder: String,
    pub max_length: Option<usize>,
}

/// The mutable part of the text input as the contracts speak of it.
pub ghost struct TextInputModel {
    pub buffer: Seq<char>,
    pub cursor: int,
    pub selected_ok: bool,
    pub max_length: Option<int>,
}

impl TextInputModal {
    pub open spec fn model(self) -> TextInputModel {
        TextInputModel {
            buffer: self.input_buffer@,
            cursor: self.cursor_position as int,
            selected_ok: self.selected_ok,
            max_length: match self.max_length {
                Some(m) => Some(m as int),
                None => None,
            },
        }
    }

    /// The cursor always stands inside or just past the buffer.
    pub open spec fn wf(self) -> bool {
        self.cursor_position <= self.input_buffer@.len()
    }
}

/// The text input state after one key: cursor movement, editing at the
/// cursor, button switching; a character is accepted only below the length
/// cap, and the keys that close the modal leave the state as it was.
pub open spec fn text_input_step(m: TextInputModel, key: KeyPress) -> TextInputModel {
    match key.code {
        KeyCode::Tab => TextInputModel { selected_ok: !m.selected_ok, ..m },
        KeyCode::Left => if key.modifiers.alt {
            TextInputModel { selected_ok: true, ..m }
        } else {
            TextInputModel { cursor: if m.cursor == 0 { 0 } else { m.cursor - 1 }, ..m }
        },
        KeyCode::Right => if key.modifiers.alt {
            TextInputModel { selected_ok: false, ..m }
        } else {
            TextInputModel {
                cursor: if m.cursor < m.buffer.len() { m.cursor + 1 } else { m.cursor },
                ..m
            }
        },
        KeyCode::Home => TextInputModel { cursor: 0, ..m },
        KeyCode::End => TextInputModel { cursor: m.buffer.len() as int, ..m },
        KeyCode::Backspace => if m.cursor > 0 {
            TextInputModel { buffer: m.buffer.remove(m.cursor - 1), cursor: m.cursor - 1, ..m }
        } else {
            m
        },
        KeyCode::Delete => if m.cursor < m.buffer.len() {
            TextInputModel { buffer: m.buffer.remove(m.cursor), ..m }
        } else {
            m
        },
        KeyCode::Char(c) => if m.max_length matches Some(cap) && m.buffer.len() >= cap {
            m
        } else {
            TextInputModel { buffer: m.buffer.insert(m.cursor, c), cursor: m.cursor + 1, ..m }
        },
        _ => m,
    }
}

/// The text input's answer to one key: Escape cancels; Ctrl+Enter always
/// submits; Enter submits when OK is selected and the buffer is not blank,
/// cancels when Cancel is selected, and is ignored otherwise.
pub open spec fn text_input_outcome(m: TextInputModel, key: KeyPress) -> ModalOutcome {
    match key.code {
        KeyCode::Esc => ModalOutcome::Cancel,
        KeyCode::Enter => if key.modifiers.control {
            ModalOutcome::Accept
        } else if m.selected_ok && !is_blank(m.buffer) {
            ModalOutcome::Accept
        } else if !m.selected_ok {
            ModalOutcome::Cancel
        } else {
            ModalOutcome::Stay
        },
        _ => ModalOutcome::Stay,
    }
}

impl TextInputModal {
    pub fn new(title: &str, prompt: &str) -> (r: TextInputModal)
        ensures
            r.title@ == title@,
            r.prompt@ == prompt@,
            r.input_buffer@.len() == 0,
            r.cursor_position == 0,
            r.selected_ok,
            r.placeholder@.len() == 0,
            r.max_length is None,
            r.wf(),
    {
        TextInputModal {
            title: String::from_str(title),
            prompt: String::from_str(prompt),
            input_buffer: Vec::new(),
            cursor_position: 0,
            selected_ok: true,
            placeholder: String::new(),
            max_length: None,
        }
    }

    pub fn with_placeholder(self, placeholder: &str) -> (r: TextInputModal)
        ensures
            r == (TextInputModal { placeholder: r.placeholder, ..self }),
            r.placeholder@ == placeholder@,
    {
        TextInputModal { placeholder: String::from_str(placeholder), ..self }
    }

    pub fn with_max_length(self, max_length: usize) -> (r: TextInputModal)
        ensures
            r == (TextInputModal { max_length: Some(max_length), ..self }),
    {
        TextInputModal { max_length: Some(max_length), ..self }
    }

    /// Starts editing from an existing value, with the cursor at its end.
    pub fn with_initial_value(self, value: &str) -> (r: TextInputModal)
        ensures
            r.input_buffer@ == value@,
            r.cursor_position == value@.len(),
            r == (TextInputModal {
                input_buffer: r.input_buffer,
                cursor_position: r.cursor_position,
                ..self
            }),
            r.wf(),
    {
        let buffer = string_to_chars(value);
        let cursor = buffer.len();
        TextInputModal { input_buffer: buffer, cursor_position: cursor, ..self }
    }

    /// The text currently in the buffer.
    pub fn get_input(&self) -> (r: String)
        ensures
            r@ == self.input_buffer@,
    {
        chars_to_string(&self.input_buffer)
    }

    /// Handles one key as `text_input_step` and `text_input_outcome`
    /// describe; a submit carries the full buffer.
    pub fn handle_key(&mut self, key: KeyPress) -> (r: Option<ModalResponse>)
        requires
            old(self).wf(),
        ensures
            final(self).wf(),
            final(self).title == old(self).title,
            final(self).prompt == old(self).prompt,
            final(self).placeholder == old(self).placeholder,
            final(self).max_length == old(self).max_length,
            final(self).model() == text_input_step(old(self).model(), key),
            text_input_outcome(old(self).model(), key) is Stay ==> r is None,
            text_input_outcome(old(self).model(), key) is Cancel ==> r == Some(
                ModalResponse::Dismissed,
            ),
            text_input_outcome(old(self).model(), key) is Accept ==> (r matches Some(
                ModalResponse::TextInput(v),
            ) && v matches Some(s) && s@ == old(self).input_buffer@),
    {
        match key.code {
            KeyCode::Esc => {
                return Some(ModalResponse::Dismissed);
            },
            KeyCode::Tab => {
                self.selected_ok = !self.selected_ok;
            },
            KeyCode::Enter => {
                if key.modifiers.control {
                    return Some(ModalResponse::TextInput(Some(self.get_input())));
                }
                let blank = all_blank(&self.input_buffer);
                if self.selected_ok && !blank {
                    return Some(ModalResponse::TextInput(Some(self.get_input())));
                } else if !self.selected_ok {
                    return Some(ModalResponse::Dismissed);
                }
            },
            KeyCode::Left => {
                if key.modifiers.alt {
                    self.selected_ok = true;
                } else if self.cursor_position > 0 {
                    self.cursor_position = self.cursor_position - 1;
                }
            },
            KeyCode::Right => {
                if key.modifiers.alt {
                    self.selected_ok = false;
                } else if self.cursor_position < self.input_buffer.len() {
                    self.cursor_position = self.cursor_position + 1;
                }
            },
            KeyCode::Home => {
                self.cursor_position = 0;
            },
            KeyCode::End => {
                self.cursor_position = self.input_buffer.len();
            },
            KeyCode::Backspace => {
                if self.cursor_position > 0 {
                    self.input_buffer.remove(self.cursor_position - 1);
                    self.cursor_position = self.cursor_position - 1;
                }
            },
            KeyCode::Delete => {
                if self.cursor_position < self.input_buffer.len() {
                    self.input_buffer.remove(self.cursor_position);
                }
            },
            KeyCode::Char(c) => {
                let at_cap = match self.max_length {
                    Some(cap) => self.input_buffer.len() >= cap,
                    None => false,
                };
                if !at_cap {
                    self.input_buffer.insert(self.cursor_position, c);
                    let new_len = self.input_buffer.len();
                    self.cursor_position = self.cursor_position + 1;
                }
            },
            _ => {},
        }
        None
    }
}

/// A non-interactive overlay shown while a background call is in flight; it
/// swallows every key and never answers.
#[derive(Debug, PartialEq, Eq)]
pub struct LoadingModal {
    pub message: String,
    pub frame_count: usize,
}

/// The spinner glyph for an animation frame.
pub open spec fn spinner_char(frame: int) -> char {
    let i = frame % 10;
    if i == 0 {
        '⠋'
    } else if i == 1 {
        '⠙'
    } else if i == 2 {
        '⠹'
    } else if i == 3 {
        '⠸'
    } else if i == 4 {
        '⠼'
    } else if i == 5 {
        '⠴'
    } else if i == 6 {
        '⠦'
    } else if i == 7 {
        '⠧'
    } else if i == 8 {
        '⠇'
    } else {
        '⠏'
    }
}

impl LoadingModal {
    pub fn new(message: String) -> (r: LoadingModal)
        ensures
            r.message == message,
            r.frame_count == 0,
    {
        LoadingModal { message, frame_count: 0 }
    }

    /// Advances the spinner by one animation frame, wrapping around.
    pub fn advance_frame(&mut self)
        ensures
            final(self).message == old(self).message,
            final(self).frame_count == (if old(self).frame_count == usize::MAX {
                0int
            } else {
                old(self).frame_count + 1
            }),
    {
        self.frame_count = if self.frame_count == usize::MAX {
            0
        } else {
            self.frame_count + 1
        };
    }

    /// The spinner glyph for the current frame.
    pub fn get_spinner_char(&self) -> (r: char)
        ensures
            r == spinner_char(self.frame_count as int),
    {
        let i = self.frame_count % 10;
        if i == 0 {
            '⠋'
        } else if i == 1 {
            '⠙'
        } else if i == 2 {
            '⠹'
        } else if i == 3 {
            '⠸'
        } else if i == 4 {
            '⠼'
        } else if i == 5 {
            '⠴'
        } else if i == 6 {
            '⠦'
        } else if i == 7 {
            '⠧'
        } else if i == 8 {
            '⠇'
        } else {
            '⠏'
        }
    }

    /// Handles one key by swallowing it.
    pub fn handle_key(&mut self, key: KeyPress) -> (r: Option<ModalResponse>)
        ensures
            *final(self) == *old(self),
            r is None,
    {
        let _ = key;
        None
    }
}

/// Which dialog is in the modal slot.
#[derive(Debug)]
pub enum ModalKind {
    Confirmation(ConfirmationModal),
    TextInput(TextInputModal),
    Loading(LoadingModal),
    DeliveryReports(DeliveryReportsModal),
}

/// The active modal: an identifier naming what it was opened for, metadata
/// routed back with its response, and the dialog itself.
#[derive(Debug)]
pub struct AppModal {
    pub id: String,
    pub metadata: ModalMetadata,
    pub kind: ModalKind,
}

/// A text input modal is well formed when its cursor is in range; the other
/// dialogs carry no such constraint.
pub open spec fn modal_wf(m: AppModal) -> bool {
    m.kind matches ModalKind::TextInput(t) ==> t.wf()
}

/// The shape of the active modal's answer to one key, whatever dialog is in
/// the slot: the loading overlay never answers, the delivery timeline only
/// closes on Escape, the others answer as their own outcome functions say.
pub open spec fn modal_outcome(m: AppModal, key: KeyPress) -> ModalOutcome {
    match m.kind {
        ModalKind::Confirmation(c) => confirmation_outcome(c.selected_yes, key),
        ModalKind::TextInput(t) => text_input_outcome(t.model(), key),
        ModalKind::Loading(_) => ModalOutcome::Stay,
        ModalKind::DeliveryReports(_) => if key.code is Esc {
            ModalOutcome::Cancel
        } else {
            ModalOutcome::Stay
        },
    }
}

/// How the modal's state after one key relates to its state before:
/// identifier and metadata are kept, the kind is kept, and the dialog steps
/// by its own transition function.
pub open spec fn modal_step_ok(pre: AppModal, key: KeyPress, post: AppModal) -> bool {
    &&& post.id == pre.id
    &&& post.metadata == pre.metadata
    &&& pre.kind matches ModalKind::Confirmation(c) ==> (post.kind matches ModalKind::Confirmation(
        c2,
    ) && c2.message == c.message && c2.selected_yes == confirmation_selected_after(
        c.selected_yes,
        key,
    ))
    &&& pre.kind matches ModalKind::TextInput(t) ==> (post.kind matches ModalKind::TextInput(t2)
        && t2.title == t.title && t2.prompt == t.prompt && t2.placeholder == t.placeholder
        && t2.max_length == t.max_length && t2.model() == text_input_step(t.model(), key))
    &&& pre.kind is Loading ==> post.kind == pre.kind
    &&& pre.kind is DeliveryReports ==> post.kind == pre.kind
}

/// Which terminal response a modal that answers gives: a cancel is a
/// dismissal; an accept is the confirmation, or the text input submitting
/// its whole buffer.
pub open spec fn modal_answers(m: AppModal, key: KeyPress, resp: ModalResponse) -> bool {
    match modal_outcome(m, key) {
        ModalOutcome::Stay => false,
        ModalOutcome::Cancel => resp == ModalResponse::Dismissed,
        ModalOutcome::Accept => match m.kind {
            ModalKind::Confirmation(_) => resp == ModalResponse::Confirmed,
            ModalKind::TextInput(t) => resp matches ModalResponse::TextInput(v) && v matches Some(
                submitted,
            ) && submitted@ == t.input_buffer@,
            _ => false,
        },
    }
}

impl AppModal {
    pub fn new(id: &str, kind: ModalKind) -> (r: AppModal)
        ensures
            r.id@ == id@,
            r.metadata is Empty,
            r.kind == kind,
    {
        AppModal { id: String::from_str(id), metadata: ModalMetadata::Empty, kind }
    }

    pub fn with_metadata(self, metadata: ModalMetadata) -> (r: AppModal)
        ensures
            r.id == self.id,
            r.kind == self.kind,
            r.metadata == metadata,
    {
        AppModal { metadata, ..self }
    }

    /// Offers one key to the dialog in the slot; a `Some` response means the
    /// modal is finished and the caller clears the slot.
    pub fn handle_key(&mut self, key: KeyPress) -> (r: Option<ModalResponse>)
        requires
            modal_wf(*old(self)),
        ensures
            modal_wf(*final(self)),
            modal_step_ok(*old(self), key, *final(self)),
            modal_outcome(*old(self), key) is Stay ==> r is None,
            !(modal_outcome(*old(self), key) is Stay) ==> (r matches Some(resp) && modal_answers(
                *old(self),
                key,
                resp,
            )),
    {
        match &mut self.kind {
            ModalKind::Confirmation(c) => c.handle_key(key),
            ModalKind::TextInput(t) => t.handle_key(key),
            ModalKind::Loading(l) => l.handle_key(key),
            ModalKind::DeliveryReports(_) => {
                match key.code {
                    KeyCode::Esc => Some(ModalResponse::Dismissed),
                    _ => None,
                }
            },
        }
    }

    /// Whether the views behind this modal keep rendering: a lightweight
    /// dialog lets them, a full-screen loading state does not.
    pub fn should_render_views(&self) -> (r: bool)
        ensures
            r == !(self.kind is Loading),
    {
        match self.kind {
            ModalKind::Loading(_) => false,
            _ => true,
        }
    }
}

} // verus!
