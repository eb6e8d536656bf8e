//! The home panel.
use vstd::prelude::*;
use crate::app::{ComponentResult, Focus};
use crate::command_bar::{left_key, Key, KeyCode, KeyModifier};

verus! {

/// The panel shown when the application starts.
pub struct HomeComponent {}

impl HomeComponent {
    /// The home panel.
    pub fn new() -> (r: HomeComponent) {
        HomeComponent {}
    }

    /// The answer to a key: the left arrow moves the keyboard to the connection tree; every
    /// other key is done with.
    pub fn handle_event(&self, key: &Key) -> (r: ComponentResult)
        ensures
            *key == (Key { code: KeyCode::Left, modifier: KeyModifier::Plain }) ==> r == ComponentResult::Focus(Focus::LeftPanel),
            *key != (Key { code: KeyCode::Left, modifier: KeyModifier::Plain }) ==> r is Done,
    {
        if *key == left_key() {
            ComponentResult::Focus(Focus::LeftPanel)
        } else {
            ComponentResult::Done
        }
    }
}

} // verus!
