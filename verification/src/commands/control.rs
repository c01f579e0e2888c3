//! The commands that act on the turtle.

use vstd::prelude::*;
use crate::commands::{command_outcome, Literal, Outcome};
use crate::error::LogoError;
use crate::heap::Heap;
use crate::tokens::{CommandType, ValueType};

verus! {

#[derive(Clone, Copy, Debug, PartialEq, Eq, Structural)]
pub struct PenUpCommand {}

impl PenUpCommand {
    /// Lifts the pen.
    pub fn call(&self, heap: &mut Heap)
        ensures
            final(heap).turtle == (crate::turtle::Turtle { pen: false, ..old(heap).turtle }),
            final(heap).variables == old(heap).variables,
            final(heap).callables == old(heap).callables,
    {
        heap.mut_turtle().pen_up();
    }
}

#[derive(Clone, Copy, Debug, PartialEq, Eq, Structural)]
pub struct PenDownCommand {}

impl PenDownCommand {
    /// Lowers the pen.
    pub fn call(&self, heap: &mut Heap)
        ensures
            final(heap).turtle == (crate::turtle::Turtle { pen: true, ..old(heap).turtle }),
            final(heap).variables == old(heap).variables,
            final(heap).callables == old(heap).callables,
    {
        heap.mut_turtle().pen_down();
    }
}

/// Whether a call of `command` with `argument` did what the command does:
/// on success the outcome is the command's and the turtle is as the command
/// leaves it; on failure the error is the command's and the turtle is as it
/// was. Variables and procedures stay as they were.
pub open spec fn called(
    command: CommandType,
    argument: Literal,
    before: Heap,
    after: Heap,
    outcome: Result<Outcome, LogoError>,
) -> bool {
    &&& after.variables == before.variables
    &&& after.callables == before.callables
    &&& match command_outcome(command, argument, before.turtle) {
        Ok((expected, turtle)) => outcome == Ok::<Outcome, LogoError>(expected) && after.turtle
            == turtle,
        Err(error) => outcome == Err::<Outcome, LogoError>(error) && after.turtle
            == before.turtle,
    }
}

#[derive(Clone, Copy, Debug, PartialEq, Eq, Structural)]
pub struct ForwardCommand {}

impl ForwardCommand {
    pub fn call(&self, argument: Literal, heap: &mut Heap) -> (outcome: Result<Outcome, LogoError>)
        ensures
            called(CommandType::Forward, argument, *old(heap), *final(heap), outcome),
    {
        match argument {
            ValueType::Float(num_pixel) => match heap.turtle().move_forward(num_pixel) {
                Ok(stroke) => Ok(Outcome::Draw(stroke)),
                Err(error) => Err(error),
            },
            ValueType::Int(num_pixel) => Ok(Outcome::Widen(num_pixel)),
            ValueType::Bool(_) => Ok(Outcome::Finished),
        }
    }
}

#[derive(Clone, Copy, Debug, PartialEq, Eq, Structural)]
pub struct BackCommand {}

impl BackCommand {
    pub fn call(&self, argument: Literal, heap: &mut Heap) -> (outcome: Result<Outcome, LogoError>)
        ensures
            called(CommandType::Back, argument, *old(heap), *final(heap), outcome),
    {
        match argument {
            ValueType::Float(num_pixel) => match heap.turtle().move_back(num_pixel) {
                Ok(stroke) => Ok(Outcome::Draw(stroke)),
                Err(error) => Err(error),
            },
            ValueType::Int(num_pixel) => Ok(Outcome::Widen(num_pixel)),
            ValueType::Bool(_) => Ok(Outcome::Finished),
        }
    }
}

#[derive(Clone, Copy, Debug, PartialEq, Eq, Structural)]
pub struct LeftCommand {}

impl LeftCommand {
    pub fn call(&self, argument: Literal, heap: &mut Heap) -> (outcome: Result<Outcome, LogoError>)
        ensures
            called(CommandType::Left, argument, *old(heap), *final(heap), outcome),
    {
        match argument {
            ValueType::Float(num_pixel) => match heap.turtle().move_left(num_pixel) {
                Ok(stroke) => Ok(Outcome::Draw(stroke)),
                Err(error) => Err(error),
            },
            ValueType::Int(num_pixel) => Ok(Outcome::Widen(num_pixel)),
            ValueType::Bool(_) => Ok(Outcome::Finished),
        }
    }
}

#[derive(Clone, Copy, Debug, PartialEq, Eq, Structural)]
pub struct RightCommand {}

impl RightCommand {
    pub fn call(&self, argument: Literal, heap: &mut Heap) -> (outcome: Result<Outcome, LogoError>)
        ensures
            called(CommandType::Right, argument, *old(heap), *final(heap), outcome),
    {
        match argument {
            ValueType::Float(num_pixel) => match heap.turtle().move_right(num_pixel) {
                Ok(stroke) => Ok(Outcome::Draw(stroke)),
                Err(error) => Err(error),
            },
            ValueType::Int(num_pixel) => Ok(Outcome::Widen(num_pixel)),
            ValueType::Bool(_) => Ok(Outcome::Finished),
        }
    }
}

#[derive(Clone, Copy, Debug, PartialEq, Eq, Structural)]
pub struct SetXCommand {}

impl SetXCommand {
    pub fn call(&self, argument: Literal, heap: &mut Heap) -> (outcome: Result<Outcome, LogoError>)
        ensures
            called(CommandType::Setx, argument, *old(heap), *final(heap), outcome),
    {
        match argument {
            ValueType::Float(place) => {
                heap.mut_turtle().set_x(place);
                Ok(Outcome::Finished)
            },
            ValueType::Int(place) => Ok(Outcome::Widen(place)),
            ValueType::Bool(_) => Ok(Outcome::Finished),
        }
    }
}

#[derive(Clone, Copy, Debug, PartialEq, Eq, Structural)]
pub struct SetYCommand {}

impl SetYCommand {
    pub fn call(&self, argument: Literal, heap: &mut Heap) -> (outcome: Result<Outcome, LogoError>)
        ensures
            called(CommandType::Sety, argument, *old(heap), *final(heap), outcome),
    {
        match argument {
            ValueType::Float(place) => {
                heap.mut_turtle().set_y(place);
                Ok(Outcome::Finished)
            },
            ValueType::Int(place) => Ok(Outcome::Widen(place)),
            ValueType::Bool(_) => Ok(Outcome::Finished),
        }
    }
}

#[derive(Clone, Copy, Debug, PartialEq, Eq, Structural)]
pub struct SetPenColorCommand {}

impl SetPenColorCommand {
    pub fn call(&self, argument: Literal, heap: &mut Heap) -> (outcome: Result<Outcome, LogoError>)
        ensures
            called(CommandType::Setpencolor, argument, *old(heap), *final(heap), outcome),
    {
        match argument {
            ValueType::Int(number) => {
                heap.mut_turtle().set_color(number);
                Ok(Outcome::Finished)
            },
            ValueType::Float(number) => Ok(Outcome::Whole(number)),
            ValueType::Bool(_) => Err(LogoError::TypeError),
        }
    }
}

#[derive(Clone, Copy, Debug, PartialEq, Eq, Structural)]
pub struct SetHeadingCommand {}

impl SetHeadingCommand {
    pub fn call(&self, argument: Literal, heap: &mut Heap) -> (outcome: Result<Outcome, LogoError>)
        ensures
            called(CommandType::Setheading, argument, *old(heap), *final(heap), outcome),
    {
        match argument {
            ValueType::Int(number) => {
                heap.mut_turtle().set_direction(number);
                Ok(Outcome::Finished)
            },
            ValueType::Float(number) => Ok(Outcome::Whole(number)),
            ValueType::Bool(_) => Err(LogoError::TypeError),
        }
    }
}

#[derive(Clone, Copy, Debug, PartialEq, Eq, Structural)]
pub struct TurnCommand {}

impl TurnCommand {
    pub fn call(&self, argument: Literal, heap: &mut Heap) -> (outcome: Result<Outcome, LogoError>)
        ensures
            called(CommandType::Turn, argument, *old(heap), *final(heap), outcome),
    {
        match argument {
            ValueType::Int(degree) => match heap.mut_turtle().turn(degree) {
                Ok(()) => Ok(Outcome::Finished),
                Err(error) => Err(error),
            },
            ValueType::Float(degree) => Ok(Outcome::Whole(degree)),
            ValueType::Bool(_) => Err(LogoError::TypeError),
        }
    }
}

} // verus!
