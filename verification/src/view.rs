//! The view: where the window sits on the pattern and how far it is zoomed in.

use vstd::prelude::*;

verus! {

/// Width of the frame in pixels.
pub const WIDTH: u32 = 512;

/// Height of the frame in pixels.
pub const HEIGHT: u32 = 512;

/// A pan offset and a zoom factor, as plain values.
///
/// Offsets live in the integers modulo 2^32: panning left of zero wraps
/// around to the far end.
#[derive(Clone, Copy, Debug, PartialEq, Eq, Structural)]
pub struct ViewState {
    pub x: u32,
    pub y: u32,
    pub zoom: u32,
}

impl ViewState {
    /// The zoom factor is at least one: it divides every coordinate.
    pub open spec fn valid(self) -> bool {
        self.zoom >= 1
    }

    /// The state after panning by `(dx, dy)`, each offset wrapping modulo 2^32.
    pub open spec fn panned(self, dx: int, dy: int) -> ViewState {
        ViewState {
            x: ((self.x + dx) % 0x1_0000_0000) as u32,
            y: ((self.y + dy) % 0x1_0000_0000) as u32,
            zoom: self.zoom,
        }
    }

    /// The state after zooming in by one step.
    pub open spec fn zoomed_in(self) -> ViewState
        recommends
            self.zoom < u32::MAX,
    {
        ViewState { x: self.x, y: self.y, zoom: (self.zoom + 1) as u32 }
    }

    /// The state after zooming out by one step, which stops at one.
    pub open spec fn zoomed_out(self) -> ViewState {
        ViewState {
            x: self.x,
            y: self.y,
            zoom: if self.zoom > 1 {
                (self.zoom - 1) as u32
            } else {
                self.zoom
            },
        }
    }

    /// The distance one pan step covers: half the frame width, divided by the zoom.
    pub open spec fn pan_speed(self) -> u32 {
        WIDTH / self.zoom / 2
    }
}

/// Zooming out of a valid state gives a valid state, and at zoom one it
/// changes nothing: the zoom factor never drops below one.
pub proof fn lemma_zoom_out_floor(state: ViewState)
    requires
        state.valid(),
    ensures
        state.zoomed_out().valid(),
        state.zoom == 1 ==> state.zoomed_out() == state,
        state.zoom > 1 ==> state.zoomed_out().zoom == state.zoom - 1,
{
}

/// Pans add up: two in a row move the view as one pan by the sum does, and a
/// pan by nothing leaves it where it is.
pub proof fn lemma_pans_add_up(state: ViewState, dx: int, dy: int, ex: int, ey: int)
    ensures
        state.panned(dx, dy).panned(ex, ey) == state.panned(dx + ex, dy + ey),
        state.panned(0, 0) == state,
{
}

/// The view a host pans and zooms. Its zoom factor is always at least one.
pub struct Triangles {
    x: u32,
    y: u32,
    zoom: u32,
}

impl View for Triangles {
    type V = ViewState;

    closed spec fn view(&self) -> ViewState {
        ViewState { x: self.x, y: self.y, zoom: self.zoom }
    }
}

impl Triangles {
    #[verifier::type_invariant]
    spec fn positive_zoom(self) -> bool {
        self.zoom >= 1
    }

    /// The initial view: no pan, zoom factor one.
    pub fn new() -> (view: Self)
        ensures
            view@ == (ViewState { x: 0, y: 0, zoom: 1 }),
    {
        Triangles { x: 0, y: 0, zoom: 1 }
    }

    /// The current offset and zoom.
    pub fn state(&self) -> (state: ViewState)
        ensures
            state == self@,
            state.valid(),
    {
        proof {
            use_type_invariant(self);
        }
        ViewState { x: self.x, y: self.y, zoom: self.zoom }
    }

    /// Moves the view by `(dx, dy)`. Each offset wraps modulo 2^32.
    pub fn pan(&mut self, dx: i32, dy: i32)
        ensures
            final(self)@ == old(self)@.panned(dx as int, dy as int),
    {
        proof {
            use_type_invariant(&*self);
        }
        self.x = self.x.wrapping_add_signed(dx);
        self.y = self.y.wrapping_add_signed(dy);
    }

    /// Raises the zoom factor by one.
    pub fn zoom_in(&mut self)
        requires
            old(self)@.zoom < u32::MAX,
        ensures
            final(self)@ == old(self)@.zoomed_in(),
            final(self)@.zoom == old(self)@.zoom + 1,
    {
        self.zoom = self.zoom + 1;
    }

    /// Lowers the zoom factor by one, unless it is one already.
    pub fn zoom_out(&mut self)
        ensures
            final(self)@ == old(self)@.zoomed_out(),
            final(self)@.zoom >= 1,
    {
        proof {
            use_type_invariant(&*self);
        }
        if self.zoom > 1 {
            self.zoom = self.zoom - 1;
        }
    }

    /// The distance one pan step covers at the current zoom.
    pub fn pan_speed(&self) -> (speed: u32)
        ensures
            speed == WIDTH / self@.zoom / 2,
            speed == self@.pan_speed(),
            speed <= WIDTH / 2,
    {
        proof {
            use_type_invariant(self);
            assert(WIDTH / self.zoom <= WIDTH) by (nonlinear_arith)
                requires
                    self.zoom >= 1,
            ;
        }
        WIDTH / self.zoom / 2
    }
}

} // verus!
