//! Pointer input: telling a drag from a mere movement.

use vstd::prelude::*;

verus! {

/// What a [`PointerDrag`] stands for.
pub ghost struct PointerDragView<P> {
    /// Whether the left button is down.
    pub pressed: bool,
    /// Where the pointer was last seen with the button down, if it has been
    /// seen since the button went down.
    pub last: Option<P>,
}

/// Follows the left button and the pointer, and reports each step of a drag.
/// `P` is whatever the windowing system gives as a position.
pub struct PointerDrag<P> {
    pressed: bool,
    last: Option<P>,
}

impl<P> View for PointerDrag<P> {
    type V = PointerDragView<P>;

    closed spec fn view(&self) -> PointerDragView<P> {
        PointerDragView { pressed: self.pressed, last: self.last }
    }
}

impl<P: Copy> PointerDrag<P> {
    /// No button is down.
    pub fn new() -> (drag: PointerDrag<P>)
        ensures
            drag@ == (PointerDragView::<P> { pressed: false, last: None }),
    {
        PointerDrag { pressed: false, last: None }
    }

    /// A mouse button went down or up. Only the left button counts; letting
    /// it go ends the drag and forgets where the pointer was.
    pub fn on_button(&mut self, left: bool, pressed: bool)
        ensures
            final(self)@ == if !left {
                old(self)@
            } else if pressed {
                PointerDragView { pressed: true, last: old(self)@.last }
            } else {
                PointerDragView { pressed: false, last: None }
            },
    {
        if left {
            self.pressed = pressed;
            if !pressed {
                self.last = None;
            }
        }
    }

    /// The pointer moved to `position`. With the button down this is a step
    /// of a drag, from where the pointer was last seen to `position`; the
    /// first movement after the button went down only marks the start.
    pub fn on_cursor_moved(&mut self, position: P) -> (step: Option<(P, P)>)
        ensures
            final(self)@ == if old(self)@.pressed {
                PointerDragView { pressed: true, last: Some(position) }
            } else {
                old(self)@
            },
            step == if old(self)@.pressed {
                match old(self)@.last {
                    Some(from) => Some((from, position)),
                    None => None,
                }
            } else {
                None
            },
    {
        if self.pressed {
            let step = match self.last {
                Some(from) => Some((from, position)),
                None => None,
            };
            self.last = Some(position);
            step
        } else {
            None
        }
    }
}

} // verus!
