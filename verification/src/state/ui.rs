//! Which screens are open, as a stack.

use vstd::prelude::*;

verus! {

/// The screens of the application.
#[derive(Debug)]
pub enum Routes {
    Main,
    Error(String),
    RecordEditor,
}

/// The open screens; the last one is shown.
#[derive(Debug)]
pub struct Router {
    pub active_routes: Vec<Routes>,
}

impl Default for Router {
    fn default() -> (router: Self)
        ensures
            router.active_routes@ == seq![Routes::Main],
    {
        let mut active_routes: Vec<Routes> = Vec::new();
        active_routes.push(Routes::Main);
        Self { active_routes }
    }
}

impl Router {
    /// Opens a screen on top of the others.
    pub fn push(&mut self, route: Routes)
        ensures
            final(self).active_routes@ == old(self).active_routes@.push(route),
    {
        self.active_routes.push(route);
    }

    /// Closes the screen on top and hands it out; nothing where no screen
    /// is open.
    pub fn pop(&mut self) -> (route: Option<Routes>)
        ensures
            old(self).active_routes@.len() == 0 ==> route is None && final(self).active_routes@
                == old(self).active_routes@,
            old(self).active_routes@.len() > 0 ==> route == Some(old(self).active_routes@.last())
                && final(self).active_routes@ == old(self).active_routes@.drop_last(),
    {
        self.active_routes.pop()
    }

    /// Replaces the screen on top by another. With fewer than two screens
    /// open nothing changes.
    pub fn switch(&mut self, route: Routes)
        ensures
            final(self).active_routes@ == if old(self).active_routes@.len() >= 2 {
                old(self).active_routes@.drop_last().push(route)
            } else {
                old(self).active_routes@
            },
    {
        if self.active_routes.len() >= 2 {
            self.pop();
            self.push(route)
        }
    }
}

} // verus!
