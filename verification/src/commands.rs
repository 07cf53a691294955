//! The command vocabulary spoken between rift's clients and its reactor.
use vstd::prelude::*;

verus! {

/// Easing curves for window animations.
#[derive(Clone, Copy, Debug, PartialEq, Eq, Structural)]
pub enum AnimationEasing {
    EaseInOut,
    Linear,
    EaseInSine,
    EaseOutSine,
    EaseInOutSine,
    EaseInQuad,
    EaseOutQuad,
    EaseInOutQuad,
    EaseInCubic,
    EaseOutCubic,
    EaseInOutCubic,
    EaseInQuart,
    EaseOutQuart,
    EaseInOutQuart,
    EaseInQuint,
    EaseOutQuint,
    EaseInOutQuint,
    EaseInExpo,
    EaseOutExpo,
    EaseInOutExpo,
    EaseInCirc,
    EaseOutCirc,
    EaseInOutCirc,
}

impl Default for AnimationEasing {
    fn default() -> (r: Self)
        ensures
            r == AnimationEasing::EaseInOut,
    {
        AnimationEasing::EaseInOut
    }
}

/// A direction on screen.
#[derive(Clone, Copy, Debug, PartialEq, Eq, Structural)]
pub enum Direction {
    Left,
    Right,
    Up,
    Down,
}

/// Arguments of the `move_focus` layout command: the direction, and whether
/// to bring the newly focused app to the foreground even when
/// `activate_on_focus` is off.
#[derive(Clone, Copy, Debug, PartialEq, Eq, Structural)]
pub struct MoveFocusArgs {
    pub direction: Direction,
    pub activate: bool,
}

/// The two written forms of `move_focus`: the bare direction
/// (`move_focus = "left"`) and the table
/// (`move_focus = { direction = "left", activate = true }`, where a missing
/// `activate` reads as `false`).
#[derive(Clone, Copy, Debug, PartialEq, Eq, Structural)]
pub enum MoveFocusForm {
    Bare(Direction),
    Full { direction: Direction, activate: bool },
}

impl MoveFocusArgs {
    /// The arguments a written form stands for: the bare form never
    /// activates; the table form activates as it says.
    pub fn from_form(form: MoveFocusForm) -> (r: MoveFocusArgs)
        ensures
            r == match form {
                MoveFocusForm::Bare(d) => MoveFocusArgs { direction: d, activate: false },
                MoveFocusForm::Full { direction, activate } => MoveFocusArgs { direction, activate },
            },
    {
        match form {
            MoveFocusForm::Bare(direction) => MoveFocusArgs { direction, activate: false },
            MoveFocusForm::Full { direction, activate } => MoveFocusArgs { direction, activate },
        }
    }
}

/// A named floating-window size.
#[derive(Clone, Copy, Debug, PartialEq, Eq, Structural)]
pub enum FloatingWindowSizePreset {
    Smart,
}

/// Metrics commands.
#[derive(Clone, Copy, Debug, PartialEq, Eq, Structural)]
pub enum MetricsCommand {
    ShowTiming,
}

} // verus!
