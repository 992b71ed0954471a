//! The main menu: a fixed list of entries, a wrapping selection cursor, and
//! one-key shortcuts matched case-insensitively against each entry's hint.

use vstd::prelude::*;
use vstd::string::StrSliceExecFns;
use vstd::string::StringExecFns;
use crate::actions::AppAction;
use crate::keys::KeyCode;
use crate::keys::KeyPress;
use crate::views::ViewStateRequest;

verus! {

/// What choosing a menu entry does.
#[derive(Debug, PartialEq)]
pub enum MenuCommand {
    /// Switch to a screen.
    SetView(ViewStateRequest),
    /// Leave the application.
    ExitApp,
}

/// One entry of the menu.
#[derive(Debug, PartialEq)]
pub struct MenuItem {
    pub label: String,
    pub description: String,
    pub command: MenuCommand,
    pub key_hint: String,
}

/// The action a menu entry produces when chosen.
pub open spec fn spec_menu_action(item: MenuItem, r: AppAction) -> bool {
    match item.command {
        MenuCommand::SetView(state) => r matches AppAction::SetViewState {
            state: s,
            dismiss_modal,
        } && s == state && !dismiss_modal,
        MenuCommand::ExitApp => r is Exit,
    }
}

/// The code point of an ASCII letter folded to lower case; anything else is
/// left as it is.
pub open spec fn ascii_lower(c: char) -> int {
    if 65 <= (c as u32) <= 90 {
        (c as u32) + 32
    } else {
        (c as u32) as int
    }
}

/// Whether a typed character matches an entry's shortcut hint: the hint's
/// first character, compared without ASCII case.
pub open spec fn hint_matches(item: MenuItem, c: char) -> bool {
    item.key_hint@.len() > 0 && ascii_lower(item.key_hint@[0]) == ascii_lower(c)
}

/// What choosing the entry under the cursor yields: its action, or nothing
/// when the cursor stands past the end of the menu.
pub open spec fn menu_selected_action(m: MainMenuView, r: Option<AppAction>) -> bool {
    if m.selected_index < m.menu_items@.len() {
        r matches Some(a) && spec_menu_action(m.menu_items@[m.selected_index as int], a)
    } else {
        r is None
    }
}

/// What a typed character yields as a shortcut: the action of the first
/// entry whose hint matches it without ASCII case, or nothing.
pub open spec fn menu_shortcut_action(items: Seq<MenuItem>, c: char, r: Option<AppAction>) -> bool {
    &&& (forall|j: int| 0 <= j < items.len() ==> !hint_matches(#[trigger] items[j], c)) ==> r is None
    &&& (exists|j: int| 0 <= j < items.len() && hint_matches(#[trigger] items[j], c)) ==> (exists|
        k: int,
    |
        {
            &&& 0 <= k < items.len()
            &&& hint_matches(#[trigger] items[k], c)
            &&& (forall|j: int| 0 <= j < k ==> !hint_matches(#[trigger] items[j], c))
            &&& r matches Some(a) && spec_menu_action(items[k], a)
        })
}

/// The cursor after a downward step, wrapping to the top.
pub open spec fn menu_next_index(sel: int, len: int) -> int {
    if len == 0 {
        sel
    } else if sel >= len - 1 {
        0
    } else {
        sel + 1
    }
}

/// The cursor after an upward step, wrapping to the bottom.
pub open spec fn menu_previous_index(sel: int, len: int) -> int {
    if len == 0 {
        sel
    } else if sel == 0 {
        len - 1
    } else {
        sel - 1
    }
}

/// What the menu does with one key: the quit chord exits, Enter or space
/// chooses the entry under the cursor, the arrows move it with wrap-around,
/// any other character is tried as a shortcut, and everything else is
/// ignored; the entries themselves never change.
pub open spec fn menu_key_spec(
    pre: MainMenuView,
    key: KeyPress,
    post: MainMenuView,
    r: Option<AppAction>,
) -> bool {
    &&& post.menu_items == pre.menu_items
    &&& crate::error_view::is_quit_chord(key) ==> r == Some(AppAction::Exit) && post == pre
    &&& key.code is Enter ==> post == pre && menu_selected_action(pre, r)
    &&& key.code == KeyCode::Char(' ') ==> post == pre && menu_selected_action(pre, r)
    &&& key.code is Down ==> r is None && post.selected_index == menu_next_index(
        pre.selected_index as int,
        pre.menu_items@.len() as int,
    )
    &&& key.code is Up ==> r is None && post.selected_index == menu_previous_index(
        pre.selected_index as int,
        pre.menu_items@.len() as int,
    )
    &&& key.code matches KeyCode::Char(c) ==> ((!crate::error_view::is_quit_chord(key) && c != ' ')
        ==> post == pre && menu_shortcut_action(pre.menu_items@, c, r))
    &&& (!(key.code is Enter) && !(key.code is Down) && !(key.code is Up) && !(
    key.code matches KeyCode::Char(c))) ==> post == pre && r is None
}

impl MenuItem {
    pub fn new(label: &str, description: &str, command: MenuCommand, key_hint: &str) -> (r:
        MenuItem)
        ensures
            r.label@ == label@,
            r.description@ == description@,
            r.command == command,
            r.key_hint@ == key_hint@,
    {
        MenuItem {
            label: String::from_str(label),
            description: String::from_str(description),
            command,
            key_hint: String::from_str(key_hint),
        }
    }

    /// An entry that switches to a screen.
    pub fn view(label: &str, description: &str, state: ViewStateRequest, key_hint: &str) -> (r:
        MenuItem)
        ensures
            r.label@ == label@,
            r.description@ == description@,
            r.command == MenuCommand::SetView(state),
            r.key_hint@ == key_hint@,
    {
        MenuItem::new(label, description, MenuCommand::SetView(state), key_hint)
    }

    /// The action this entry produces.
    pub fn execute(&self) -> (r: AppAction)
        ensures
            spec_menu_action(*self, r),
    {
        match &self.command {
            MenuCommand::SetView(state) => AppAction::SetViewState {
                state: state.clone(),
                dismiss_modal: false,
            },
            MenuCommand::ExitApp => AppAction::Exit,
        }
    }
}

/// The main menu screen.
pub struct MainMenuView {
    pub menu_items: Vec<MenuItem>,
    pub selected_index: usize,
}

impl MainMenuView {
    /// The fixed menu: phonebook, device information, and exit.
    pub fn new() -> (r: MainMenuView)
        ensures
            r.menu_items@.len() == 3,
            r.menu_items@[0].command == MenuCommand::SetView(ViewStateRequest::Phonebook),
            r.menu_items@[0].key_hint@ == "P"@,
            r.menu_items@[1].command == MenuCommand::SetView(ViewStateRequest::DeviceInfo),
            r.menu_items@[1].key_hint@ == "D"@,
            r.menu_items@[2].command == MenuCommand::ExitApp,
            r.menu_items@[2].key_hint@ == "Q"@,
            r.selected_index == 0,
    {
        let mut menu_items: Vec<MenuItem> = Vec::new();
        menu_items.push(
            MenuItem::view(
                "Phonebook",
                "Send and receive messages from contacts",
                ViewStateRequest::Phonebook,
                "P",
            ),
        );
        menu_items.push(
            MenuItem::view(
                "Device Info",
                "View device signal strength, battery level and other info",
                ViewStateRequest::DeviceInfo,
                "D",
            ),
        );
        menu_items.push(
            MenuItem::new("Exit", "Close the terminal", MenuCommand::ExitApp, "Q"),
        );
        MainMenuView { menu_items, selected_index: 0 }
    }

    /// Resets the cursor; run on every transition into the menu.
    pub fn load(&mut self)
        ensures
            final(self).selected_index == 0,
            final(self).menu_items == old(self).menu_items,
    {
        self.selected_index = 0;
    }

    /// Moves the cursor one entry down, wrapping to the top.
    pub fn select_next(&mut self)
        ensures
            final(self).menu_items == old(self).menu_items,
            old(self).menu_items@.len() == 0 ==> final(self).selected_index == old(
                self,
            ).selected_index,
            old(self).menu_items@.len() > 0 ==> final(self).selected_index == (if old(
                self,
            ).selected_index >= old(self).menu_items@.len() - 1 {
                0int
            } else {
                old(self).selected_index + 1
            }),
    {
        let len = self.menu_items.len();
        if len > 0 {
            self.selected_index = if self.selected_index >= len - 1 {
                0
            } else {
                self.selected_index + 1
            };
        }
    }

    /// Moves the cursor one entry up, wrapping to the bottom.
    pub fn select_previous(&mut self)
        ensures
            final(self).menu_items == old(self).menu_items,
            old(self).menu_items@.len() == 0 ==> final(self).selected_index == old(
                self,
            ).selected_index,
            old(self).menu_items@.len() > 0 ==> final(self).selected_index == (if old(
                self,
            ).selected_index == 0 {
                old(self).menu_items@.len() - 1
            } else {
                old(self).selected_index - 1
            }),
    {
        if self.menu_items.len() > 0 {
            self.selected_index = if self.selected_index == 0 {
                self.menu_items.len() - 1
            } else {
                self.selected_index - 1
            };
        }
    }

    /// The action of the entry under the cursor, if the cursor is on one.
    pub fn get_selected_action(&self) -> (r: Option<AppAction>)
        ensures
            self.selected_index < self.menu_items@.len() ==> (r matches Some(a) && spec_menu_action(
                self.menu_items@[self.selected_index as int],
                a,
            )),
            self.selected_index >= self.menu_items@.len() ==> r is None,
    {
        if self.selected_index < self.menu_items.len() {
            Some(self.menu_items[self.selected_index].execute())
        } else {
            None
        }
    }

    /// The action of the first entry whose hint matches the typed character,
    /// compared without ASCII case.
    pub fn handle_key_shortcut(&self, c: char) -> (r: Option<AppAction>)
        ensures
            (forall|j: int|
                0 <= j < self.menu_items@.len() ==> !hint_matches(
                    #[trigger] self.menu_items@[j],
                    c,
                )) ==> r is None,
            (exists|j: int|
                0 <= j < self.menu_items@.len() && hint_matches(
                    #[trigger] self.menu_items@[j],
                    c,
                )) ==> (exists|k: int|
                {
                    &&& 0 <= k < self.menu_items@.len()
                    &&& hint_matches(#[trigger] self.menu_items@[k], c)
                    &&& (forall|j: int| 0 <= j < k ==> !hint_matches(#[trigger] self.menu_items@[j], c))
                    &&& r matches Some(a) && spec_menu_action(self.menu_items@[k], a)
                }),
    {
        let n = self.menu_items.len();
        let mut i: usize = 0;
        while i < n
            invariant
                n == self.menu_items@.len(),
                i <= n,
                forall|j: int| 0 <= j < i ==> !hint_matches(#[trigger] self.menu_items@[j], c),
            decreases n - i,
        {
            let hint = &self.menu_items[i].key_hint;
            if hint.as_str().unicode_len() > 0 {
                let first = hint.as_str().get_char(0);
                if ascii_lower_exec(first) == ascii_lower_exec(c) {
                    return Some(self.menu_items[i].execute());
                }
            }
            i = i + 1;
        }
        None
    }

    /// Handles one key: the quit chord exits, Enter or space chooses the
    /// entry under the cursor, the arrows move it, and any other character
    /// is tried as a shortcut.
    pub fn handle_key(&mut self, key: KeyPress) -> (r: Option<AppAction>)
        ensures
            menu_key_spec(*old(self), key, *final(self), r),
            r matches Some(a) ==> crate::actions::action_wf(a),
    {
        match key.code {
            KeyCode::Char(c) => {
                if (c == 'c' || c == 'C') && key.modifiers.control {
                    Some(AppAction::Exit)
                } else if c == ' ' {
                    self.get_selected_action()
                } else {
                    self.handle_key_shortcut(c)
                }
            },
            KeyCode::Enter => self.get_selected_action(),
            KeyCode::Down => {
                self.select_next();
                None
            },
            KeyCode::Up => {
                self.select_previous();
                None
            },
            _ => None,
        }
    }
}

fn ascii_lower_exec(c: char) -> (r: u32)
    ensures
        r == ascii_lower(c),
{
    let u = c as u32;
    if 65 <= u && u <= 90 {
        u + 32
    } else {
        u
    }
}

} // verus!
