//! The switches of a menu.

use vstd::prelude::*;

verus! {

/// A command-line switch that a menu offers, and whether it is on.
#[derive(Debug)]
pub struct Arg {
    /// The switch as the command line takes it.
    pub arg: &'static str,
    /// What the menu says of it.
    pub display: &'static str,
    /// Whether the switch is on.
    pub state: bool,
}

impl Arg {
    /// Whether the switch is on.
    pub open spec fn active(self) -> bool {
        self.state
    }

    /// A switch that is on or off, and starts as `default` says.
    pub fn new_flag(arg: &'static str, display: &'static str, default: bool) -> (flag: Arg)
        ensures
            flag.arg == arg,
            flag.display == display,
            flag.active() == default,
    {
        Arg { arg, display, state: default }
    }

    pub fn is_active(&self) -> (active: bool)
        ensures
            active == self.active(),
    {
        self.state
    }
}

} // verus!
