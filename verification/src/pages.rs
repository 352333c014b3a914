//! The fixed pages of the window and the context drawer.

use vstd::prelude::*;

verus! {

/// The page to display in the application.
#[derive(Copy, Clone, PartialEq, Eq, Structural, Debug)]
pub enum Page {
    Page1,
    Page2,
    Page3,
}

/// The context page to display in the context drawer.
#[derive(Copy, Clone, PartialEq, Eq, Structural, Debug)]
pub enum ContextPage {
    About,
    Settings,
}

impl Default for ContextPage {
    /// The drawer shows the about panel until another is requested.
    fn default() -> (r: Self)
        ensures
            r == ContextPage::About,
    {
        ContextPage::About
    }
}

/// An entry of the application's menu bar.
#[derive(Copy, Clone, PartialEq, Eq, Structural, Debug)]
pub enum MenuAction {
    About,
    Settings,
}

} // verus!
