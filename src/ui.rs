use vstd::prelude::*;
use crate::session::{BrowserState, UserAction};

verus! {

/// What a renderer offers the session loop: drawing a state, reading the
/// next action, and the scroll and link selection it keeps.
pub trait UIInterface {
    fn cleanup(&mut self) -> Result<(), String>;

    fn render(&mut self, state: &BrowserState) -> Result<(), String>;

    fn get_user_input(&mut self, state: &BrowserState) -> Result<UserAction, String>;

    fn scroll_up(&mut self);

    fn scroll_down(&mut self);

    fn reset_scroll(&mut self);

    fn select_prev_link(&mut self, total_links: usize);

    fn select_next_link(&mut self, total_links: usize);

    fn get_selected_link(&self) -> usize;
}

} // verus!
