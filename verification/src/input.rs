//! From the host's input to the view: which logical actions were triggered
//! since the last update, and what they do to the view.

use crate::view::{lemma_pans_add_up, Triangles, ViewState};
use vstd::prelude::*;

verus! {

/// The logical actions triggered in one update of the host's input. Each is
/// edge-triggered: `true` when its key went down in this update.
#[derive(Clone, Copy, Debug, PartialEq, Eq, Structural)]
pub struct Actions {
    pub pan_left: bool,
    pub pan_right: bool,
    pub pan_up: bool,
    pub pan_down: bool,
    pub zoom_in: bool,
    pub zoom_out: bool,
    pub quit: bool,
}

/// What the host does after an update.
#[derive(Clone, Copy, Debug, PartialEq, Eq, Structural)]
pub enum Flow {
    /// Request a redraw and go on.
    Redraw,
    /// Leave the event loop.
    Exit,
}

impl ViewState {
    /// The state after one update. A quit leaves it as it is. Otherwise the
    /// pans come first, each by the pan speed at the zoom the update began
    /// with, then the zoom in, then the zoom out.
    pub open spec fn after(self, actions: Actions) -> ViewState {
        if actions.quit {
            self
        } else {
            let speed = self.pan_speed() as int;
            let right = if actions.pan_right { speed } else { 0 };
            let left = if actions.pan_left { speed } else { 0 };
            let down = if actions.pan_down { speed } else { 0 };
            let up = if actions.pan_up { speed } else { 0 };
            let moved = self.panned(right - left, down - up);
            let nearer = if actions.zoom_in { moved.zoomed_in() } else { moved };
            if actions.zoom_out { nearer.zoomed_out() } else { nearer }
        }
    }
}

impl Triangles {
    /// Applies the actions of one update to the view and says whether the
    /// host should redraw or leave its loop.
    pub fn apply(&mut self, actions: &Actions) -> (flow: Flow)
        requires
            actions.zoom_in && !actions.quit ==> old(self)@.zoom < u32::MAX,
        ensures
            flow == (if actions.quit { Flow::Exit } else { Flow::Redraw }),
            final(self)@ == old(self)@.after(*actions),
    {
        if actions.quit {
            return Flow::Exit;
        }
        let speed: u32 = self.pan_speed();
        let step: i32 = speed as i32;
        let ghost start = self@;
        let ghost left = if actions.pan_left { step as int } else { 0 };
        let ghost right = if actions.pan_right { step as int } else { 0 };
        let ghost down = if actions.pan_down { step as int } else { 0 };
        let ghost up = if actions.pan_up { step as int } else { 0 };
        if actions.pan_left {
            self.pan(-step, 0);
        }
        if actions.pan_right {
            self.pan(step, 0);
        }
        if actions.pan_down {
            self.pan(0, step);
        }
        if actions.pan_up {
            self.pan(0, -step);
        }
        proof {
            lemma_pans_add_up(start, -left, 0, right, 0);
            lemma_pans_add_up(start, right - left, 0, 0, down);
            lemma_pans_add_up(start, right - left, down, 0, -up);
        }
        if actions.zoom_in {
            self.zoom_in();
        }
        if actions.zoom_out {
            self.zoom_out();
        }
        Flow::Redraw
    }
}

} // verus!
