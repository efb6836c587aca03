//! The logical buttons of the console.

use vstd::prelude::*;

verus! {

/// Number of logical buttons.
pub const BUTTON_COUNT: usize = 9;

/// A logical button, in the order of the input bit fields.
#[derive(Clone, Copy, Debug, PartialEq, Eq, Hash, Structural)]
pub enum Input {
    Up,
    Down,
    Left,
    Right,
    Outside,
    Inside,
    Option1,
    Option2,
    Pause,
}

/// The button at position `i` of the declaration order; `Up` past the end.
pub open spec fn button_at(i: int) -> Input {
    if i == 1 {
        Input::Down
    } else if i == 2 {
        Input::Left
    } else if i == 3 {
        Input::Right
    } else if i == 4 {
        Input::Outside
    } else if i == 5 {
        Input::Inside
    } else if i == 6 {
        Input::Option1
    } else if i == 7 {
        Input::Option2
    } else if i == 8 {
        Input::Pause
    } else {
        Input::Up
    }
}

impl Input {
    /// Position of the button in the declaration order.
    pub open spec fn position(self) -> int {
        match self {
            Input::Up => 0,
            Input::Down => 1,
            Input::Left => 2,
            Input::Right => 3,
            Input::Outside => 4,
            Input::Inside => 5,
            Input::Option1 => 6,
            Input::Option2 => 7,
            Input::Pause => 8,
        }
    }

    /// The name of the button as it is shown to the user.
    pub open spec fn label(self) -> Seq<char> {
        match self {
            Input::Up => "Up"@,
            Input::Down => "Down"@,
            Input::Left => "Left"@,
            Input::Right => "Right"@,
            Input::Outside => "Outside"@,
            Input::Inside => "Inside"@,
            Input::Option1 => "Option1"@,
            Input::Option2 => "Option2"@,
            Input::Pause => "Pause"@,
        }
    }

    /// Position of the button in the declaration order.
    pub fn index(self) -> (i: usize)
        ensures
            i == self.position(),
            i < BUTTON_COUNT,
    {
        match self {
            Input::Up => 0,
            Input::Down => 1,
            Input::Left => 2,
            Input::Right => 3,
            Input::Outside => 4,
            Input::Inside => 5,
            Input::Option1 => 6,
            Input::Option2 => 7,
            Input::Pause => 8,
        }
    }

    /// The button at position `i`, if there is one.
    pub fn from_index(i: usize) -> (button: Option<Input>)
        ensures
            i < BUTTON_COUNT ==> button == Some(button_at(i as int)),
            i >= BUTTON_COUNT ==> button is None,
    {
        if i == 0 {
            Some(Input::Up)
        } else if i == 1 {
            Some(Input::Down)
        } else if i == 2 {
            Some(Input::Left)
        } else if i == 3 {
            Some(Input::Right)
        } else if i == 4 {
            Some(Input::Outside)
        } else if i == 5 {
            Some(Input::Inside)
        } else if i == 6 {
            Some(Input::Option1)
        } else if i == 7 {
            Some(Input::Option2)
        } else if i == 8 {
            Some(Input::Pause)
        } else {
            None
        }
    }

    /// Every button once, in declaration order.
    pub fn all() -> (buttons: Vec<Input>)
        ensures
            buttons@.len() == BUTTON_COUNT,
            forall|i: int| 0 <= i < BUTTON_COUNT ==> buttons@[i] == button_at(i),
    {
        vec![
            Input::Up,
            Input::Down,
            Input::Left,
            Input::Right,
            Input::Outside,
            Input::Inside,
            Input::Option1,
            Input::Option2,
            Input::Pause,
        ]
    }

    /// The name of the button as it is shown to the user.
    pub fn name(self) -> (text: &'static str)
        ensures
            text@ == self.label(),
    {
        match self {
            Input::Up => "Up",
            Input::Down => "Down",
            Input::Left => "Left",
            Input::Right => "Right",
            Input::Outside => "Outside",
            Input::Inside => "Inside",
            Input::Option1 => "Option1",
            Input::Option2 => "Option2",
            Input::Pause => "Pause",
        }
    }
}

impl Default for Input {
    fn default() -> (button: Input)
        ensures
            button == Input::Up,
    {
        Input::Up
    }
}

/// Position and button determine each other.
pub proof fn lemma_position_round_trip(button: Input)
    ensures
        0 <= button.position() < BUTTON_COUNT,
        button_at(button.position()) == button,
{
}

} // verus!
