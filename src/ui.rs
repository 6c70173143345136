//! On-screen controls: buttons that toggle when clicked.
use vstd::prelude::*;
use crate::geometry::{Point, Rect, rect_contains};

verus! {

/// A control that reacts to a mouse click.
pub trait Clickable: Sized {
    /// The control after a click at `mpos`.
    spec fn clicked(&self, mpos: Point) -> Self;

    fn process_click(&mut self, mpos: Point)
        ensures
            *final(self) == old(self).clicked(mpos),
    ;
}

/// A labelled button with an on/off state.
#[derive(Debug)]
pub struct UIButton {
    pub rect: Rect,
    pub text: String,
    pub font_size: u32,
    pub toggle: bool,
}

impl UIButton {
    /// The button with its state flipped.
    pub open spec fn pressed(self) -> UIButton {
        UIButton { toggle: !self.toggle, ..self }
    }

    /// Flips the button's state.
    pub fn press(&mut self)
        ensures
            *final(self) == old(self).pressed(),
    {
        self.toggle = !self.toggle;
    }
}

impl Clickable for UIButton {
    /// A click inside the button's rectangle presses it; one outside does nothing.
    open spec fn clicked(&self, mpos: Point) -> UIButton {
        if rect_contains(self.rect, mpos) {
            self.pressed()
        } else {
            *self
        }
    }

    fn process_click(&mut self, mpos: Point) {
        if self.rect.contains(mpos) {
            self.press();
        }
    }
}

/// A panel holding a column of buttons.
#[derive(Debug)]
pub struct UIMenu {
    pub rect: Rect,
    pub buttons: Vec<UIButton>,
}

/// The area of the screen kept for status readouts.
#[derive(Clone, Copy, Debug, PartialEq, Eq, Structural)]
pub struct HUD {
    pub rect: Rect,
}

} // verus!
