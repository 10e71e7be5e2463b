//! The decisions of the input loop: what a key does to the state, and what
//! the caller has to do next.

use vstd::prelude::*;
use crate::line::{Line, LineView, StyleTag, plain};
use crate::screen::{Motion, ScreenState, ScreenView};

verus! {

/// A key, as far as the reader tells keys apart.
#[derive(Clone, Copy, Debug, PartialEq, Eq, Structural)]
pub enum Key {
    /// Arrow up.
    Up,
    /// Arrow down.
    Down,
    /// Page up.
    PageUp,
    /// Page down.
    PageDown,
    /// The key that copies the article's address.
    Copy,
    /// `q` or escape.
    Quit,
    /// Any other key.
    Other,
}

/// What the caller does after a key was handled.
#[derive(Clone, Copy, Debug, PartialEq, Eq, Structural)]
pub enum Action {
    /// Draw the state again.
    Redraw,
    /// Write the article's address to the clipboard, confirm it in the
    /// document, and draw the state again.
    CopyLink,
    /// Leave the loop.
    Quit,
}

/// The key that a character stands for: `q` quits, `c` copies.
pub open spec fn key_of_char(c: char) -> Key {
    if c == 'q' {
        Key::Quit
    } else if c == 'c' {
        Key::Copy
    } else {
        Key::Other
    }
}

/// The movement that a key makes, if it makes one: the arrows move by one
/// line, the page keys by one viewport.
pub open spec fn motion_of(key: Key) -> Option<Motion> {
    match key {
        Key::Up => Some(Motion::ScrollUp(1)),
        Key::Down => Some(Motion::ScrollDown(1)),
        Key::PageUp => Some(Motion::PageUp),
        Key::PageDown => Some(Motion::PageDown),
        _ => None,
    }
}

/// What the caller does after `key`.
pub open spec fn action_of(key: Key) -> Action {
    match key {
        Key::Quit => Action::Quit,
        Key::Copy => Action::CopyLink,
        _ => Action::Redraw,
    }
}

/// The line that confirms that the address was copied.
pub open spec fn copy_confirmation() -> LineView {
    plain("Link copied to clipboard."@)
}

impl ScreenView {
    /// The state after `key` was handled: moved where the key makes a
    /// movement, else as before.
    pub open spec fn after_key(self, key: Key) -> ScreenView {
        match motion_of(key) {
            Some(motion) => self.moved(motion),
            None => self,
        }
    }
}

impl Key {
    /// The key that the character `c` stands for.
    pub fn from_char(c: char) -> (key: Key)
        ensures
            key == key_of_char(c),
    {
        if c == 'q' {
            Key::Quit
        } else if c == 'c' {
            Key::Copy
        } else {
            Key::Other
        }
    }
}

impl ScreenState {
    /// Handles one key: makes its movement, if it has one, and says what the
    /// caller does next.
    pub fn handle_key(&mut self, key: Key) -> (action: Action)
        ensures
            final(self)@ == old(self)@.after_key(key),
            final(self)@.in_range(),
            action == action_of(key),
    {
        proof {
            use_type_invariant(&*self);
        }
        match key {
            Key::Up => {
                self.apply(Motion::ScrollUp(1));
                Action::Redraw
            },
            Key::Down => {
                self.apply(Motion::ScrollDown(1));
                Action::Redraw
            },
            Key::PageUp => {
                self.apply(Motion::PageUp);
                Action::Redraw
            },
            Key::PageDown => {
                self.apply(Motion::PageDown);
                Action::Redraw
            },
            Key::Copy => Action::CopyLink,
            Key::Quit => Action::Quit,
            Key::Other => Action::Redraw,
        }
    }

    /// Adds the line that confirms the copy at the end of the document.
    pub fn confirm_copy(&mut self)
        ensures
            final(self)@ == old(self)@.with_line(copy_confirmation()),
            final(self)@.in_range(),
    {
        let mut text = String::new();
        text.append("Link copied to clipboard.");
        assert(text@ =~= "Link copied to clipboard."@);
        self.append_line(Line { text, style: StyleTag::Normal });
    }
}

/// No key takes a state out of its bounds, and no key changes the document
/// or the geometry of the viewport.
pub proof fn lemma_key_stays_in_range(state: ScreenView, key: Key)
    requires
        state.in_range(),
    ensures
        state.after_key(key).in_range(),
        state.after_key(key).document == state.document,
        state.after_key(key).viewport_height == state.viewport_height,
        state.after_key(key).viewport_width == state.viewport_width,
{
}

} // verus!
