//! The error screen. Its behaviour is gated on whether the error is
//! dismissible: a recoverable error also offers a way back to the menu,
//! a fatal one only lets the user quit.

use vstd::prelude::*;
use crate::actions::AppAction;
use crate::keys::KeyCode;
use crate::keys::KeyPress;
use crate::views::ViewStateRequest;

verus! {

/// The error screen; the message and the dismissible flag live with the
/// view manager, which passes them in.
pub struct ErrorView;

/// Whether a key press asks to quit: the control-C chord.
pub open spec fn is_quit_chord(key: KeyPress) -> bool {
    (key.code == KeyCode::Char('c') || key.code == KeyCode::Char('C')) && key.modifiers.control
}

/// What the error screen does with one key: Escape leaves a dismissible
/// error for the default screen, the quit chord always exits, and everything
/// else is ignored.
pub open spec fn error_key_spec(key: KeyPress, dismissible: bool, r: Option<AppAction>) -> bool {
    &&& key.code is Esc && dismissible ==> (r matches Some(
        AppAction::SetViewState { state, dismiss_modal },
    ) && state is MainMenu && !dismiss_modal)
    &&& key.code is Esc && !dismissible ==> r is None
    &&& is_quit_chord(key) ==> r == Some(AppAction::Exit)
    &&& !(key.code is Esc) && !is_quit_chord(key) ==> r is None
}

impl ErrorView {
    pub fn new() -> (r: ErrorView) {
        ErrorView
    }

    /// Handles one key as `error_key_spec` describes.
    pub fn handle_key(&self, key: KeyPress, dismissible: bool) -> (r: Option<AppAction>)
        ensures
            error_key_spec(key, dismissible, r),
            r matches Some(a) ==> crate::actions::action_wf(a),
    {
        match key.code {
            KeyCode::Esc => {
                if dismissible {
                    Some(
                        AppAction::SetViewState {
                            state: ViewStateRequest::default(),
                            dismiss_modal: false,
                        },
                    )
                } else {
                    None
                }
            },
            KeyCode::Char(c) => {
                if (c == 'c' || c == 'C') && key.modifiers.control {
                    Some(AppAction::Exit)
                } else {
                    None
                }
            },
            _ => None,
        }
    }
}

} // verus!
