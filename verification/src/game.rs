//! Plain data types of the game-facing API: window parameters, input
//! identities, and the editor's read-only label widget.
//!
//! The interactive loop that produces input events and renders the
//! editor overlay is an external collaborator; only the data it
//! exchanges with a game lives here.

use vstd::prelude::*;
use vstd::string::StringExecFns;

verus! {

/// Maximum MSAA sample count to use.
/// The renderer will use the best supported sample count up to this
/// limit.
#[derive(Debug, Clone, Copy, PartialEq, Eq, Structural)]
pub enum MaxMSAASamples {
    Max8,
    Max4,
    Max2,
}

impl Default for MaxMSAASamples {
    fn default() -> (r: Self)
        ensures
            r is Max8,
    {
        MaxMSAASamples::Max8
    }
}

/// Parameters passed through to the windowing system to create a
/// window.
pub struct WindowDescription {
    pub title: &'static str,
    pub width: u32,
    pub height: u32,
}

/// A mouse button identity, as handed to a game's input handler.
#[derive(Debug, Clone, Copy, PartialEq, Eq, Structural)]
pub enum MouseButton {
    Unknown,
    Left,
    Middle,
    Right,
}

/// A keyboard key identity, as handed to a game's input handler.
#[derive(Debug, Clone, Copy, PartialEq, Eq, Structural)]
pub enum Key {
    W,
    A,
    S,
    D,
    Q,
    E,
    Space,
}

/// A read-only text label for displaying values in the editor UI.
#[derive(Clone, Debug)]
pub struct Label {
    pub text: String,
}

impl Label {
    /// A label showing `text`.
    pub fn new(text: String) -> (r: Self)
        ensures
            r.text@ == text@,
    {
        Self { text }
    }

    /// Replace the label's text.
    pub fn set(&mut self, text: String)
        ensures
            final(self).text@ == text@,
    {
        self.text = text;
    }

    /// The text the label shows.
    pub fn render_text(&self) -> (r: String)
        ensures
            r@ == self.text@,
    {
        let r = self.text.clone();
        r
    }
}

} // verus!
