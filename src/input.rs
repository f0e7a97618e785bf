use vstd::prelude::*;

verus! {

/// The window system's code of the escape key.
pub const KEY_ESCAPE: i32 = 256;

/// What happened to a key.
#[derive(Clone, Copy, Debug, PartialEq, Eq, Structural)]
pub enum KeyAction {
    Release,
    Press,
    Repeat,
}

/// Decides whether a key event asks the render loop to end: a press of escape, and nothing else.
pub fn closes_window(key: i32, action: KeyAction) -> (r: bool)
    ensures
        r == (key == KEY_ESCAPE && action == KeyAction::Press),
{
    key == KEY_ESCAPE && action == KeyAction::Press
}

} // verus!
