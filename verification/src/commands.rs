//! The built-in commands and queries, the two ways of assigning, and
//! procedures.

use vstd::prelude::*;
use crate::ast::Statement;
use crate::error::LogoError;
use crate::tokens::{CommandType, QueryType, ValueType};
use crate::turtle::{stroke_of, Stroke, Turtle};

pub use crate::ast::{Literal, Value};

pub mod control;
pub mod factories;
pub mod procedure;
pub mod queries;
pub mod variables;

verus! {

impl ValueType {
    pub fn expect_bool(&self) -> (truth: Option<bool>)
        ensures
            truth == match *self {
                ValueType::Bool(b) => Some(b),
                _ => None,
            },
    {
        match self {
            ValueType::Bool(truth) => Some(*truth),
            _ => None,
        }
    }
}

/// What a built-in command leaves to be done once it has seen its argument.
#[derive(Clone, Copy, Debug, PartialEq, Eq, Structural)]
pub enum Outcome {
    /// Nothing: the command has had its effect.
    Finished,
    /// The argument is an integer where a single-precision number is
    /// taken: it is to be converted, and the command called again.
    Widen(i32),
    /// The argument is a single-precision number where an integer is taken:
    /// it is to be tested for being a whole number.
    Whole(u32),
    /// The line is to be drawn and the turtle moved to its end.
    Draw(Stroke),
}

/// A command that moves the turtle takes a distance: a single-precision
/// number gives the line, an integer is to be converted first, and a truth
/// value is passed over.
pub open spec fn motion(turtle: Turtle, argument: Literal, direction_offset: i32) -> Result<
    (Outcome, Turtle),
    LogoError,
> {
    match argument {
        ValueType::Float(distance) => match stroke_of(turtle, distance, direction_offset) {
            Ok(stroke) => Ok((Outcome::Draw(stroke), turtle)),
            Err(error) => Err(error),
        },
        ValueType::Int(distance) => Ok((Outcome::Widen(distance), turtle)),
        ValueType::Bool(_) => Ok((Outcome::Finished, turtle)),
    }
}

/// What a command of one argument does: the outcome, and the turtle after it.
pub open spec fn command_outcome(command: CommandType, argument: Literal, turtle: Turtle)
    -> Result<(Outcome, Turtle), LogoError> {
    match command {
        CommandType::Penup => Ok((Outcome::Finished, Turtle { pen: false, ..turtle })),
        CommandType::Pendown => Ok((Outcome::Finished, Turtle { pen: true, ..turtle })),
        CommandType::Forward => motion(turtle, argument, 0),
        CommandType::Back => motion(turtle, argument, 180),
        CommandType::Left => motion(turtle, argument, 270),
        CommandType::Right => motion(turtle, argument, 90),
        CommandType::Setx => match argument {
            ValueType::Float(x) => Ok((Outcome::Finished, Turtle { x, ..turtle })),
            ValueType::Int(x) => Ok((Outcome::Widen(x), turtle)),
            ValueType::Bool(_) => Ok((Outcome::Finished, turtle)),
        },
        CommandType::Sety => match argument {
            ValueType::Float(y) => Ok((Outcome::Finished, Turtle { y, ..turtle })),
            ValueType::Int(y) => Ok((Outcome::Widen(y), turtle)),
            ValueType::Bool(_) => Ok((Outcome::Finished, turtle)),
        },
        CommandType::Setpencolor => match argument {
            ValueType::Int(color) => Ok((Outcome::Finished, Turtle { color, ..turtle })),
            ValueType::Float(color) => Ok((Outcome::Whole(color), turtle)),
            ValueType::Bool(_) => Err(LogoError::TypeError),
        },
        CommandType::Setheading => match argument {
            ValueType::Int(direction) => Ok((Outcome::Finished, Turtle { direction, ..turtle })),
            ValueType::Float(direction) => Ok((Outcome::Whole(direction), turtle)),
            ValueType::Bool(_) => Err(LogoError::TypeError),
        },
        CommandType::Turn => match argument {
            ValueType::Int(degrees) => if i32::MIN <= turtle.direction + degrees <= i32::MAX {
                Ok(
                    (
                        Outcome::Finished,
                        Turtle { direction: (turtle.direction + degrees) as i32, ..turtle },
                    ),
                )
            } else {
                Err(LogoError::ArithmeticError)
            },
            ValueType::Float(degrees) => Ok((Outcome::Whole(degrees), turtle)),
            ValueType::Bool(_) => Err(LogoError::TypeError),
        },
    }
}

/// What a query answers.
pub open spec fn query_value(query: QueryType, turtle: Turtle) -> Literal {
    match query {
        QueryType::Xcor => ValueType::Float(turtle.x),
        QueryType::Ycor => ValueType::Float(turtle.y),
        QueryType::Heading => ValueType::Int(turtle.direction),
        QueryType::Color => ValueType::Int(turtle.color),
    }
}

/// A declared procedure: the names of its parameters, in order, and its body.
#[derive(Clone, Copy)]
pub struct Procedure<'a> {
    pub arguments: &'a Vec<String>,
    pub body: &'a Vec<Statement>,
}

/// Something that a call can name.
#[derive(Clone, Copy)]
pub enum Callable<'a> {
    PenUp(control::PenUpCommand),
    PenDown(control::PenDownCommand),
    Forward(control::ForwardCommand),
    Back(control::BackCommand),
    Left(control::LeftCommand),
    Right(control::RightCommand),
    SetPenColor(control::SetPenColorCommand),
    Turn(control::TurnCommand),
    SetHeading(control::SetHeadingCommand),
    SetX(control::SetXCommand),
    SetY(control::SetYCommand),
    XCor(queries::XCorCommand),
    YCor(queries::YCorCommand),
    Heading(queries::HeadingCommand),
    Color(queries::ColorCommand),
    Procedure(Procedure<'a>),
}

/// One of the two ways to assign.
#[derive(Clone, Copy)]
pub enum Assignable {
    Make(variables::MakeCommand),
    AddAssign(variables::AddAssignCommand),
}

pub struct CallableFactory {}

pub struct AssignableFactory {}

} // verus!
