//! Why a placement is turned down.

use vstd::prelude::*;
use crate::text::{decimal, push_decimal};

verus! {

/// A placement that was turned down. The coordinates are those the caller
/// gave, counted from zero.
#[derive(Clone, Copy, Debug, PartialEq, Eq, Structural)]
pub enum PlacementError {
    /// The cell at this row and column already holds a mark.
    FilledSpaceError(usize, usize),
    /// This row and column do not name a cell of a three by three grid.
    InvalidLocationError(usize, usize),
}

impl PlacementError {
    /// The message for the player, with row and column counted from one.
    pub open spec fn message_text(self) -> Seq<char> {
        match self {
            PlacementError::FilledSpaceError(i, j) => "Space is already filled at ("@ + decimal(
                (i + 1) as nat,
            ) + ","@ + decimal((j + 1) as nat) + ")"@,
            PlacementError::InvalidLocationError(i, j) => "Location isn't valid at ("@ + decimal(
                (i + 1) as nat,
            ) + ", "@ + decimal((j + 1) as nat) + ")"@,
        }
    }

    /// The message for the player. Inside the library rows and columns count
    /// from zero; the message counts them from one.
    pub fn message(&self) -> (text: String)
        ensures
            text@ == self.message_text(),
    {
        let mut text = String::new();
        match self {
            PlacementError::FilledSpaceError(i, j) => {
                text.append("Space is already filled at (");
                push_decimal(&mut text, *i as u128 + 1);
                text.append(",");
                push_decimal(&mut text, *j as u128 + 1);
            },
            PlacementError::InvalidLocationError(i, j) => {
                text.append("Location isn't valid at (");
                push_decimal(&mut text, *i as u128 + 1);
                text.append(", ");
                push_decimal(&mut text, *j as u128 + 1);
            },
        }
        text.append(")");
        text
    }
}

} // verus!
