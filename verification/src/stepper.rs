//! Stepper: two chevron halves sharing one rounded control. The value
//! itself is a float and stays with the drawing layer; the library holds
//! the layout direction and which half steps which way.

use vstd::prelude::*;

verus! {

/// Stepper layout direction.
#[derive(Clone, Copy, Debug, PartialEq, Eq, Structural)]
pub enum StepperOrientation {
    /// Up chevron on top, down chevron at the bottom.
    Vertical,
    /// Left chevron on the left, right chevron on the right.
    Horizontal,
}

impl Default for StepperOrientation {
    fn default() -> (o: StepperOrientation)
        ensures
            o == StepperOrientation::Vertical,
    {
        StepperOrientation::Vertical
    }
}

/// Which half of the control was pressed.
#[derive(Clone, Copy, Debug, PartialEq, Eq, Structural)]
pub enum StepperSide {
    Increment,
    Decrement,
}

/// The side a half of the control steps: the top half of a vertical
/// stepper increments, the left half of a horizontal one decrements.
pub open spec fn side_of_half(orientation: StepperOrientation, leading_half: bool) -> StepperSide {
    match orientation {
        StepperOrientation::Vertical => if leading_half {
            StepperSide::Increment
        } else {
            StepperSide::Decrement
        },
        StepperOrientation::Horizontal => if leading_half {
            StepperSide::Decrement
        } else {
            StepperSide::Increment
        },
    }
}

impl StepperSide {
    /// Side under a pointer inside the control. `leading_half` tells
    /// whether the pointer lies in the first half along the stepper's
    /// axis (above the middle when vertical, left of it when horizontal).
    pub fn of_half(orientation: StepperOrientation, leading_half: bool) -> (side: StepperSide)
        ensures
            side == side_of_half(orientation, leading_half),
    {
        match orientation {
            StepperOrientation::Vertical => if leading_half {
                StepperSide::Increment
            } else {
                StepperSide::Decrement
            },
            StepperOrientation::Horizontal => if leading_half {
                StepperSide::Decrement
            } else {
                StepperSide::Increment
            },
        }
    }
}

} // verus!
