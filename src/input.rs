use vstd::prelude::*;

verus! {

/// One logical button: whether it is held, and whether that changed at the last poll.
#[derive(Clone, Copy, Debug, PartialEq, Eq, Structural)]
pub struct InputKey {
    pub state_just_changed: bool,
    pub currently_held: bool,
}

impl InputKey {
    pub fn new() -> (r: InputKey)
        ensures
            !r.state_just_changed,
            !r.currently_held,
    {
        InputKey { state_just_changed: false, currently_held: false }
    }

    pub fn get_held(&self) -> (r: bool)
        ensures
            r == self.currently_held,
    {
        self.currently_held
    }

    pub fn get_state_just_changed(&self) -> (r: bool)
        ensures
            r == self.state_just_changed,
    {
        self.state_just_changed
    }

    /// Takes in one poll of the physical key: it is held now exactly when it is down, and
    /// it changed exactly when that differs from before.
    pub fn update(&mut self, is_down: bool)
        ensures
            final(self).currently_held == is_down,
            final(self).state_just_changed == (is_down != old(self).currently_held),
    {
        if is_down {
            if self.currently_held {
                self.state_just_changed = false;
            } else {
                self.currently_held = true;
                self.state_just_changed = true;
            }
        } else {
            if !self.currently_held {
                self.state_just_changed = false;
            } else {
                self.currently_held = false;
                self.state_just_changed = true;
            }
        }
    }

    pub fn copy_state_from_other(&mut self, other: &InputKey)
        ensures
            *final(self) == *other,
    {
        self.currently_held = other.currently_held;
        self.state_just_changed = other.state_just_changed;
    }
}

} // verus!
