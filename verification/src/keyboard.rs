use vstd::prelude::*;

verus! {

/// One key event as the engine hands it to the game: the window system's
/// key code as a plain number, and whether the key went down or up.
#[derive(Debug, Clone, Copy, PartialEq, Eq, Structural)]
pub struct KeyboardInput {
    pub key: u32,
    pub pressed: bool,
}

impl KeyboardInput {
    pub fn new(key: u32, pressed: bool) -> (k: KeyboardInput)
        ensures
            k.key == key,
            k.pressed == pressed,
    {
        KeyboardInput { key, pressed }
    }
}

} // verus!
