//! The phonebook screen: a typed phone number, a selectable list of recent
//! contacts, and the friendly-name editor raised over it.

use vstd::prelude::*;
use vstd::string::StrSliceExecFns;
use vstd::string::StringExecFns;
use crate::actions::AppAction;
use crate::actions::BackendCommand;
use crate::keys::KeyCode;
use crate::keys::KeyPress;
use crate::modals::AppModal;
use crate::modals::ModalKind;
use crate::modals::ModalMetadata;
use crate::modals::ModalResponse;
use crate::modals::TextInputModal;
use crate::textutil::chars_to_string;
use crate::textutil::is_control_code;
use crate::textutil::string_to_chars;
use crate::views::ViewStateRequest;

verus! {

/// One recent contact: a phone number and an optional friendly name.
#[derive(Debug, PartialEq)]
pub struct Contact {
    pub phone: String,
    pub name: Option<String>,
}

impl Clone for Contact {
    fn clone(&self) -> (r: Contact)
        ensures
            r == *self,
    {
        Contact {
            phone: self.phone.clone(),
            name: match &self.name {
                Some(n) => Some(n.clone()),
                None => None,
            },
        }
    }
}

/// How many recent contacts are fetched and listed.
pub const MAX_CONTACTS: usize = 14;

/// The friendly-name editor caps names at this many characters.
pub const MAX_FRIENDLY_NAME_LEN: usize = 50;

/// The phonebook screen.
pub struct PhonebookView {
    pub recent_contacts: Vec<Contact>,
    pub selected_contact: Option<usize>,
    pub input_buffer: Vec<char>,
    pub max_contacts: usize,
}

/// Whether some contact in the list carries the given phone number.
pub open spec fn contains_phone(contacts: Seq<Contact>, phone: Seq<char>) -> bool {
    exists|i: int| 0 <= i < contacts.len() && contacts[i].phone@ == phone
}

/// The selection after a downward step: the list is entered at the top and
/// wrapped at the bottom; an empty list leaves it as it was.
pub open spec fn contact_next_selection(sel: Option<usize>, len: int) -> Option<usize> {
    if len == 0 {
        sel
    } else {
        Some(
            (match sel {
                None => 0int,
                Some(i) => if i >= len - 1 {
                    0int
                } else {
                    i + 1
                },
            }) as usize,
        )
    }
}

/// The selection after an upward step: the list is entered at the bottom
/// and wrapped at the top; an empty list leaves it as it was.
pub open spec fn contact_previous_selection(sel: Option<usize>, len: int) -> Option<usize> {
    if len == 0 {
        sel
    } else {
        Some(
            (match sel {
                None => len - 1,
                Some(i) => if i == 0 {
                    len - 1
                } else {
                    i - 1
                },
            }) as usize,
        )
    }
}

/// What the phonebook does with one key: the quit chord exits; Enter opens
/// the conversation of the selected contact or of the typed number and
/// clears the typed number; the edit chord raises the friendly-name editor
/// for the selected contact; the arrows move the selection and clear the
/// typed number; typing extends the number and drops the selection. The
/// contact list itself never changes here.
pub open spec fn phonebook_key_spec(
    pre: PhonebookView,
    key: KeyPress,
    post: PhonebookView,
    r: Option<AppAction>,
) -> bool {
    &&& post.recent_contacts == pre.recent_contacts
    &&& post.max_contacts == pre.max_contacts
    &&& crate::error_view::is_quit_chord(key) ==> r == Some(AppAction::Exit) && post == pre
    &&& key.code is Enter ==> {
        let chosen = match pre.selected_contact {
            Some(s) => if s < pre.recent_contacts@.len() {
                pre.recent_contacts@[s as int].phone@
            } else {
                pre.input_buffer@
            },
            None => pre.input_buffer@,
        };
        &&& chosen.len() > 0 ==> (post.input_buffer@.len() == 0 && (r matches Some(
            AppAction::SetViewState { state, dismiss_modal },
        ) && !dismiss_modal && (state matches ViewStateRequest::Messages { phone_number, reversed }
            && phone_number@ == chosen && !reversed)))
        &&& chosen.len() == 0 ==> r is None
    }
    &&& key.code is Down ==> r is None && post.input_buffer@.len() == 0 && post.selected_contact
        == contact_next_selection(pre.selected_contact, pre.recent_contacts@.len() as int)
    &&& key.code is Up ==> r is None && post.input_buffer@.len() == 0 && post.selected_contact
        == contact_previous_selection(pre.selected_contact, pre.recent_contacts@.len() as int)
    &&& key.code is Backspace ==> {
        &&& r is None
        &&& post.selected_contact is None
        &&& post.input_buffer@ == (if pre.input_buffer@.len() > 0 {
            pre.input_buffer@.drop_last()
        } else {
            pre.input_buffer@
        })
    }
    &&& key.code matches KeyCode::Char(c) ==> ((!(key.modifiers.control && (c == 'c' || c == 'C'
        || c == 'e' || c == 'E')) && !is_control_code(c)) ==> {
        &&& r is None
        &&& post.selected_contact is None
        &&& post.input_buffer@ == pre.input_buffer@.push(c)
    })
    &&& key.code matches KeyCode::Char(c) ==> ((key.modifiers.control && (c == 'e' || c == 'E'))
        ==> {
        &&& post.input_buffer == pre.input_buffer
        &&& post.selected_contact == pre.selected_contact
        &&& match pre.selected_contact {
            Some(s) => if s < pre.recent_contacts@.len() {
                r matches Some(AppAction::SetModal(om)) && om matches Some(m) && {
                    &&& m.id@ == "edit_friendly_name"@
                    &&& m.metadata matches ModalMetadata::PhoneNumber(p) && p@
                        == pre.recent_contacts@[s as int].phone@
                    &&& m.kind matches ModalKind::TextInput(t) && {
                        &&& t.wf()
                        &&& t.title@ == "Edit Friendly Name"@
                        &&& t.max_length == Some(MAX_FRIENDLY_NAME_LEN)
                        &&& pre.recent_contacts@[s as int].name matches Some(existing)
                            ==> t.input_buffer@ == existing@
                        &&& pre.recent_contacts@[s as int].name is None ==> t.input_buffer@.len()
                            == 0
                    }
                }
            } else {
                r is None
            },
            None => r is None,
        }
    })
    &&& (!(key.code is Enter) && !(key.code is Down) && !(key.code is Up) && !(
    key.code is Backspace) && !(key.code matches KeyCode::Char(c))) ==> post == pre && r is None
}

/// What the phonebook does with a modal response: a submitted name over
/// phone-number metadata updates every listed contact with that number and
/// asks the backend to store it; anything else changes nothing.
pub open spec fn phonebook_response_spec(
    pre: PhonebookView,
    response: ModalResponse,
    metadata: ModalMetadata,
    post: PhonebookView,
    action: Option<AppAction>,
    command: Option<BackendCommand>,
) -> bool {
    &&& action is None
    &&& post.selected_contact == pre.selected_contact
    &&& post.input_buffer == pre.input_buffer
    &&& post.max_contacts == pre.max_contacts
    &&& metadata matches ModalMetadata::PhoneNumber(phone) ==> (response matches
        ModalResponse::TextInput(v) ==> (v matches Some(name) ==> {
        &&& command == Some(
            BackendCommand::SetFriendlyName { phone_number: phone, friendly_name: name },
        )
        &&& post.recent_contacts@.len() == pre.recent_contacts@.len()
        &&& forall|i: int|
            0 <= i < pre.recent_contacts@.len() && (#[trigger] pre.recent_contacts@[i]).phone@
                != phone@ ==> post.recent_contacts@[i] == pre.recent_contacts@[i]
        &&& forall|i: int|
            0 <= i < pre.recent_contacts@.len() && (#[trigger] pre.recent_contacts@[i]).phone@
                == phone@ ==> post.recent_contacts@[i] == (Contact {
                name: Some(name),
                ..pre.recent_contacts@[i]
            })
    }))
    &&& (response matches ModalResponse::TextInput(v) ==> v is None) ==> command is None
        && post.recent_contacts == pre.recent_contacts
    &&& !(response is TextInput) ==> command is None && post.recent_contacts == pre.recent_contacts
    &&& !(metadata matches ModalMetadata::PhoneNumber(..)) ==> command is None
        && post.recent_contacts == pre.recent_contacts
}

impl PhonebookView {
    pub fn new() -> (r: PhonebookView)
        ensures
            r.recent_contacts@.len() == 0,
            r.selected_contact is None,
            r.input_buffer@.len() == 0,
            r.max_contacts == MAX_CONTACTS,
    {
        PhonebookView {
            recent_contacts: Vec::new(),
            selected_contact: None,
            input_buffer: Vec::new(),
            max_contacts: MAX_CONTACTS,
        }
    }

    /// Whether entering the screen must first fetch the contacts; a list
    /// already fetched is kept.
    pub fn needs_load(&self) -> (r: bool)
        ensures
            r == (self.recent_contacts@.len() == 0),
    {
        self.recent_contacts.len() == 0
    }

    /// Stores the fetched contacts, dropping a selection that would point
    /// past the new list.
    pub fn set_contacts(&mut self, contacts: Vec<Contact>)
        ensures
            final(self).recent_contacts == contacts,
            final(self).input_buffer == old(self).input_buffer,
            final(self).max_contacts == old(self).max_contacts,
            final(self).selected_contact == (match old(self).selected_contact {
                Some(s) => if s < contacts@.len() {
                    Some(s)
                } else {
                    None
                },
                None => None::<usize>,
            }),
    {
        self.recent_contacts = contacts;
        match self.selected_contact {
            Some(s) => {
                if s >= self.recent_contacts.len() {
                    self.selected_contact = None;
                }
            },
            None => {},
        }
    }

    /// Moves the selection one contact down, entering the list at the top
    /// and wrapping at the bottom.
    pub fn select_next(&mut self)
        ensures
            final(self).recent_contacts == old(self).recent_contacts,
            final(self).input_buffer == old(self).input_buffer,
            final(self).max_contacts == old(self).max_contacts,
            old(self).recent_contacts@.len() == 0 ==> final(self).selected_contact == old(
                self,
            ).selected_contact,
            old(self).recent_contacts@.len() > 0 ==> final(self).selected_contact == Some(
                (match old(self).selected_contact {
                    None => 0int,
                    Some(i) => if i >= old(self).recent_contacts@.len() - 1 {
                        0int
                    } else {
                        i + 1
                    },
                }) as usize,
            ),
    {
        let len = self.recent_contacts.len();
        if len == 0 {
            return ;
        }
        self.selected_contact = Some(
            match self.selected_contact {
                None => 0,
                Some(i) => if i >= len - 1 {
                    0
                } else {
                    i + 1
                },
            },
        );
    }

    /// Moves the selection one contact up, entering the list at the bottom
    /// and wrapping at the top.
    pub fn select_previous(&mut self)
        ensures
            final(self).recent_contacts == old(self).recent_contacts,
            final(self).input_buffer == old(self).input_buffer,
            final(self).max_contacts == old(self).max_contacts,
            old(self).recent_contacts@.len() == 0 ==> final(self).selected_contact == old(
                self,
            ).selected_contact,
            old(self).recent_contacts@.len() > 0 ==> final(self).selected_contact == Some(
                (match old(self).selected_contact {
                    None => old(self).recent_contacts@.len() - 1,
                    Some(i) => if i == 0 {
                        old(self).recent_contacts@.len() - 1
                    } else {
                        i - 1
                    },
                }) as usize,
            ),
    {
        let len = self.recent_contacts.len();
        if len == 0 {
            return ;
        }
        self.selected_contact = Some(
            match self.selected_contact {
                None => len - 1,
                Some(i) => if i == 0 {
                    len - 1
                } else {
                    i - 1
                },
            },
        );
    }

    /// Forgets the selection; typing does this so the typed number wins.
    pub fn clear_selection(&mut self)
        ensures
            final(self).selected_contact is None,
            final(self).recent_contacts == old(self).recent_contacts,
            final(self).input_buffer == old(self).input_buffer,
            final(self).max_contacts == old(self).max_contacts,
    {
        self.selected_contact = None;
    }

    /// The length of the longest listed phone number, for column alignment.
    pub fn get_max_phone_length(&self) -> (r: usize)
        ensures
            self.recent_contacts@.len() == 0 ==> r == 0,
            forall|i: int|
                0 <= i < self.recent_contacts@.len() ==> (#[trigger] self.recent_contacts@[i].phone@).len()
                    <= r,
            self.recent_contacts@.len() > 0 ==> exists|i: int|
                0 <= i < self.recent_contacts@.len() && (#[trigger] self.recent_contacts@[i].phone@).len()
                    == r,
    {
        let n = self.recent_contacts.len();
        let mut best: usize = 0;
        let mut i: usize = 0;
        while i < n
            invariant
                n == self.recent_contacts@.len(),
                i <= n,
                i == 0 ==> best == 0,
                forall|j: int|
                    0 <= j < i ==> (#[trigger] self.recent_contacts@[j].phone@).len() <= best,
                i > 0 ==> exists|j: int|
                    0 <= j < i && (#[trigger] self.recent_contacts@[j].phone@).len() == best,
            decreases n - i,
        {
            let len_i = self.recent_contacts[i].phone.as_str().unicode_len();
            if i == 0 || len_i > best {
                best = len_i;
            }
            i = i + 1;
        }
        best
    }

    /// Handles one key. Enter opens the conversation of the selected contact
    /// or of the typed number; the edit chord raises the friendly-name
    /// editor for the selected contact; typing extends the number and drops
    /// the selection; the arrows move the selection and clear the typed
    /// number; the quit chord exits.
    pub fn handle_key(&mut self, key: KeyPress) -> (r: Option<AppAction>)
        ensures
            phonebook_key_spec(*old(self), key, *final(self), r),
            r matches Some(a) ==> crate::actions::action_wf(a),
    {
        match key.code {
            KeyCode::Char(c) => {
                if key.modifiers.control && (c == 'c' || c == 'C') {
                    return Some(AppAction::Exit);
                }
                if key.modifiers.control && (c == 'e' || c == 'E') {
                    let s = match self.selected_contact {
                        Some(s) => s,
                        None => {
                            return None;
                        },
                    };
                    if s >= self.recent_contacts.len() {
                        return None;
                    }
                    let contact = &self.recent_contacts[s];
                    let prompt = String::from_str("Name for ").concat(contact.phone.as_str());
                    let mut editor = TextInputModal::new(
                        "Edit Friendly Name",
                        prompt.as_str(),
                    ).with_max_length(MAX_FRIENDLY_NAME_LEN);
                    match &contact.name {
                        Some(existing) => {
                            editor = editor.with_initial_value(existing.as_str());
                        },
                        None => {},
                    }
                    let modal = AppModal::new(
                        "edit_friendly_name",
                        ModalKind::TextInput(editor),
                    ).with_metadata(ModalMetadata::PhoneNumber(contact.phone.clone()));
                    return Some(AppAction::SetModal(Some(modal)));
                }
                let u = c as u32;
                if !(u < 0x20 || (0x7f <= u && u < 0xa0)) {
                    self.input_buffer.push(c);
                    self.selected_contact = None;
                }
                None
            },
            KeyCode::Enter => {
                match self.selected_contact {
                    Some(s) => {
                        if s < self.recent_contacts.len() {
                            self.input_buffer = string_to_chars(
                                self.recent_contacts[s].phone.as_str(),
                            );
                        }
                    },
                    None => {},
                }
                if self.input_buffer.len() > 0 {
                    let phone_number = chars_to_string(&self.input_buffer);
                    self.input_buffer.clear();
                    return Some(
                        AppAction::SetViewState {
                            state: ViewStateRequest::view_messages(phone_number.as_str()),
                            dismiss_modal: false,
                        },
                    );
                }
                None
            },
            KeyCode::Down => {
                self.select_next();
                self.input_buffer.clear();
                None
            },
            KeyCode::Up => {
                self.select_previous();
                self.input_buffer.clear();
                None
            },
            KeyCode::Backspace => {
                if self.input_buffer.len() > 0 {
                    self.input_buffer.pop();
                }
                self.selected_contact = None;
                None
            },
            _ => None,
        }
    }

    /// Routes the friendly-name editor's answer: a submitted name over
    /// phone-number metadata updates the listed contact and asks the backend
    /// to store it; the edit failing later only costs a notification, so the
    /// cache is updated optimistically.
    pub fn handle_modal_response(&mut self, response: ModalResponse, metadata: ModalMetadata) -> (r:
        (Option<AppAction>, Option<BackendCommand>))
        ensures
            phonebook_response_spec(*old(self), response, metadata, *final(self), r.0, r.1),
    {
        let phone = match metadata {
            ModalMetadata::PhoneNumber(phone) => phone,
            _ => {
                return (None, None);
            },
        };
        let name = match response {
            ModalResponse::TextInput(Some(name)) => name,
            _ => {
                return (None, None);
            },
        };
        let n = self.recent_contacts.len();
        let mut i: usize = 0;
        while i < n
            invariant
                n == self.recent_contacts@.len(),
                i <= n,
                self.selected_contact == old(self).selected_contact,
                self.input_buffer == old(self).input_buffer,
                self.max_contacts == old(self).max_contacts,
                forall|j: int|
                    0 <= j < n && (#[trigger] old(self).recent_contacts@[j]).phone@ != phone@
                        ==> self.recent_contacts@[j] == old(self).recent_contacts@[j],
                forall|j: int|
                    0 <= j < i && (#[trigger] old(self).recent_contacts@[j]).phone@ == phone@
                        ==> self.recent_contacts@[j] == (Contact {
                        name: Some(name),
                        ..old(self).recent_contacts@[j]
                    }),
                forall|j: int|
                    i <= j < n ==> #[trigger] self.recent_contacts@[j] == old(
                        self,
                    ).recent_contacts@[j],
            decreases n - i,
        {
            if self.recent_contacts[i].phone == phone {
                let updated = Contact {
                    phone: self.recent_contacts[i].phone.clone(),
                    name: Some(name.clone()),
                };
                self.recent_contacts[i] = updated;
            }
            i = i + 1;
        }
        (
            None,
            Some(BackendCommand::SetFriendlyName { phone_number: phone, friendly_name: name }),
        )
    }
}

} // verus!
