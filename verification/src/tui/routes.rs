//! Which screen the terminal shows.

use vstd::prelude::*;

verus! {

/// Marks what can be shown as a screen.
pub trait Route {

}

/// The screens that the terminal can show.
#[derive(Debug, Copy, Clone, Eq, PartialEq, Structural)]
pub enum Routes {
    Main,
}

/// Remembers the screen that is shown.
#[derive(Debug)]
pub struct Router {
    pub active_route: Routes,
}

impl Router {
    /// The screen that is shown.
    pub fn get_active_route(&self) -> (route: &Routes)
        ensures
            *route == self.active_route,
    {
        &self.active_route
    }

    /// Shows another screen.
    pub fn switch(&mut self, route: Routes)
        ensures
            final(self).active_route == route,
    {
        self.active_route = route;
    }
}

} // verus!
