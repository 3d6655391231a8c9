//! The closed sum types of the engine: size-management policy, fill modes,
//! color and style selectors, the value container, and the error kinds.

use vstd::prelude::*;

verus! {

/// Policy that `FrameController::draw` holds the terminal dimensions to:
/// `Auto` rejects any dimension at or below 10, `Manual(min, max)` rejects a
/// dimension at or below `min` or at or above `max`.
#[derive(Clone, Copy)]
pub enum ManagmentMode {
    Auto,
    Manual(u16, u16),
}

/// How `Line::fill` distributes its padding: evenly around the content, or
/// with a fixed margin on the trailing (`Left`) or leading (`Right`) side and
/// the remainder on the other side.
#[derive(PartialEq, Eq)]
pub enum LineFillMode {
    Center,
    Right(usize),
    Left(usize),
}

/// How `Layer::fill` distributes its blank rows: evenly above and below, or
/// with a fixed count above (`Up`) or below (`Down`) and the remainder on the
/// other side.
#[derive(PartialEq, Eq)]
pub enum LayerFillMode {
    Up(usize),
    Down(usize),
    Center,
}

/// Color selector handed to the text-styling collaborator; `NoColor` clears
/// the styled flag and leaves the content untouched.
#[derive(Clone, Copy)]
pub enum Color {
    NoColor,
    Red,
    Green,
    Blue,
    Dark,
    Yellow,
    Orange,
    Purple,
    Grey,
    Cyan,
    Rgb(u8, u8, u8),
}

/// Style selector handed to the text-styling collaborator.
#[derive(Clone, Copy)]
pub enum Style {
    Bold,
    Italic,
    Normal,
    UnderLined,
    Strike,
}

/// Single-variant wrapper that owns a value; rows, layers and the controller
/// hold their content through it.
#[derive(Clone, Debug)]
pub enum Container<T> {
    Ref(T),
}

impl<T> Container<T> {
    /// The value held by the container.
    pub open spec fn spec_value(self) -> T {
        match self {
            Container::Ref(t) => t,
        }
    }

    pub fn get_value(&self) -> (r: &T)
        ensures
            *r == self.spec_value(),
    {
        match self {
            Container::Ref(a) => a,
        }
    }

    pub fn get_mut_value(&mut self) -> (r: &mut T)
        ensures
            *r == old(self).spec_value(),
            *final(self) == Container::Ref(*final(r)),
    {
        match self {
            Container::Ref(a) => a,
        }
    }

    pub fn get_ownership(self) -> (r: T)
        ensures
            r == self.spec_value(),
    {
        match self {
            Container::Ref(a) => a,
        }
    }
}

/// The failure kinds a host can observe: a merge on an unfilled row or layer,
/// a terminal dimension outside the active size-management policy, or an
/// index beyond the z-stack or a layer's rows.
#[derive(Clone, Copy, PartialEq, Eq, Structural, Debug)]
pub enum TuiError {
    PreconditionViolation,
    TerminalTooSmall,
    TerminalTooLarge,
    IndexOutOfBounds,
}

} // verus!
