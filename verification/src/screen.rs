//! The three screens of a session.

use vstd::prelude::*;
use vstd::std_specs::convert::FromSpecImpl;

verus! {

/// The screen that is currently shown. Exactly one is active at a time.
#[derive(Copy, Clone, Debug, PartialEq, Eq, Structural)]
pub enum MenuItem {
    Home,
    Game,
    GameOver,
}

impl MenuItem {
    /// Position of the screen in the order Home, Game, GameOver.
    pub open spec fn index(self) -> nat {
        match self {
            MenuItem::Home => 0,
            MenuItem::Game => 1,
            MenuItem::GameOver => 2,
        }
    }
}

impl From<MenuItem> for usize {
    fn from(input: MenuItem) -> (index: usize)
        ensures
            index == input.index(),
    {
        match input {
            MenuItem::Home => 0,
            MenuItem::Game => 1,
            MenuItem::GameOver => 2,
        }
    }
}

impl FromSpecImpl<MenuItem> for usize {
    open spec fn obeys_from_spec() -> bool {
        true
    }

    open spec fn from_spec(input: MenuItem) -> usize {
        input.index() as usize
    }
}

} // verus!
