//! The turtle, and the lines that it asks for.

use vstd::prelude::*;
use crate::error::LogoError;

verus! {

/// The number of colours on the palette of `unsvg`, read from the length of
/// its table `COLORS`, which holds sixteen colours.
#[verifier::external_body]
fn palette_size() -> (size: usize)
    ensures
        size == 16,
{
    unsvg::COLORS.len()
}

/// A line that the surface is asked to draw, or only to measure where the
/// pen is up. Coordinates and length are single-precision bit patterns; the
/// direction is in degrees, clockwise from straight up.
#[derive(Clone, Copy, Debug, PartialEq, Eq, Structural)]
pub struct Stroke {
    pub pen: bool,
    pub x: u32,
    pub y: u32,
    pub direction: i32,
    pub distance: u32,
    pub color: usize,
}

/// The cursor: where it is, where it points, whether it marks, and in which
/// colour. The coordinates are single-precision bit patterns.
#[derive(Clone, Copy, Debug, PartialEq, Eq, Structural)]
pub struct Turtle {
    pub pen: bool,
    pub x: u32,
    pub y: u32,
    pub color: i32,
    pub direction: i32,
}

/// The line for a move of `distance` from where the turtle is, along its
/// heading turned by `direction_offset`. The colour must be one of the
/// sixteen of the palette, and the direction must stay a 32-bit integer.
pub open spec fn stroke_of(turtle: Turtle, distance: u32, direction_offset: i32) -> Result<
    Stroke,
    LogoError,
> {
    if !(0 <= turtle.color < 16) {
        Err(LogoError::SurfaceError)
    } else if !(i32::MIN <= turtle.direction + direction_offset <= i32::MAX) {
        Err(LogoError::ArithmeticError)
    } else {
        Ok(
            Stroke {
                pen: turtle.pen,
                x: turtle.x,
                y: turtle.y,
                direction: (turtle.direction + direction_offset) as i32,
                distance,
                color: turtle.color as usize,
            },
        )
    }
}

impl Turtle {
    /// A turtle at the given place, pen up, pointing up, in white.
    pub fn new(x: u32, y: u32) -> (made: Turtle)
        ensures
            made == (Turtle { pen: false, x, y, color: 7, direction: 0 }),
    {
        Turtle { pen: false, x, y, color: 7, direction: 0 }
    }

    pub fn pen(&self) -> (pen: bool)
        ensures
            pen == self.pen,
    {
        self.pen
    }

    pub fn x(&self) -> (x: u32)
        ensures
            x == self.x,
    {
        self.x
    }

    pub fn y(&self) -> (y: u32)
        ensures
            y == self.y,
    {
        self.y
    }

    pub fn direction(&self) -> (direction: i32)
        ensures
            direction == self.direction,
    {
        self.direction
    }

    pub fn color(&self) -> (color: i32)
        ensures
            color == self.color,
    {
        self.color
    }

    pub fn pen_up(&mut self)
        ensures
            *final(self) == (Turtle { pen: false, ..*old(self) }),
    {
        self.pen = false;
    }

    pub fn pen_down(&mut self)
        ensures
            *final(self) == (Turtle { pen: true, ..*old(self) }),
    {
        self.pen = true;
    }

    pub fn set_color(&mut self, color: i32)
        ensures
            *final(self) == (Turtle { color, ..*old(self) }),
    {
        self.color = color;
    }

    pub fn set_x(&mut self, x: u32)
        ensures
            *final(self) == (Turtle { x, ..*old(self) }),
    {
        self.x = x;
    }

    pub fn set_y(&mut self, y: u32)
        ensures
            *final(self) == (Turtle { y, ..*old(self) }),
    {
        self.y = y;
    }

    /// Turns by `degrees`. Where the heading would leave the 32-bit range,
    /// the turtle stays as it is.
    pub fn turn(&mut self, degrees: i32) -> (turned: Result<(), LogoError>)
        ensures
            i32::MIN <= old(self).direction + degrees <= i32::MAX ==> turned is Ok && *final(self)
                == (Turtle { direction: (old(self).direction + degrees) as i32, ..*old(self) }),
            !(i32::MIN <= old(self).direction + degrees <= i32::MAX) ==> turned == Err::<
                (),
                LogoError,
            >(LogoError::ArithmeticError) && *final(self) == *old(self),
    {
        let sum: i64 = self.direction as i64 + degrees as i64;
        if sum < i32::MIN as i64 || sum > i32::MAX as i64 {
            return Err(LogoError::ArithmeticError);
        }
        self.direction = sum as i32;
        Ok(())
    }

    pub fn set_direction(&mut self, degrees: i32)
        ensures
            *final(self) == (Turtle { direction: degrees, ..*old(self) }),
    {
        self.direction = degrees;
    }

    pub fn move_forward(&self, distance: u32) -> (stroke: Result<Stroke, LogoError>)
        ensures
            stroke == stroke_of(*self, distance, 0),
    {
        self.move_(distance, 0)
    }

    pub fn move_back(&self, distance: u32) -> (stroke: Result<Stroke, LogoError>)
        ensures
            stroke == stroke_of(*self, distance, 180),
    {
        self.move_(distance, 180)
    }

    pub fn move_left(&self, distance: u32) -> (stroke: Result<Stroke, LogoError>)
        ensures
            stroke == stroke_of(*self, distance, 270),
    {
        self.move_(distance, 270)
    }

    pub fn move_right(&self, distance: u32) -> (stroke: Result<Stroke, LogoError>)
        ensures
            stroke == stroke_of(*self, distance, 90),
    {
        self.move_(distance, 90)
    }

    /// The line for a move; the turtle itself moves when the surface has
    /// answered with the line's end, see [`Turtle::arrive`].
    fn move_(&self, distance: u32, direction_offset: i32) -> (stroke: Result<Stroke, LogoError>)
        ensures
            stroke == stroke_of(*self, distance, direction_offset),
    {
        if self.color < 0 || self.color as usize >= palette_size() {
            return Err(LogoError::SurfaceError);
        }
        let direction: i64 = self.direction as i64 + direction_offset as i64;
        if direction < i32::MIN as i64 || direction > i32::MAX as i64 {
            return Err(LogoError::ArithmeticError);
        }
        Ok(
            Stroke {
                pen: self.pen,
                x: self.x,
                y: self.y,
                direction: direction as i32,
                distance,
                color: self.color as usize,
            },
        )
    }

    /// Puts the turtle where a line has ended.
    pub fn arrive(&mut self, x: u32, y: u32)
        ensures
            *final(self) == (Turtle { x, y, ..*old(self) }),
    {
        self.x = x;
        self.y = y;
    }
}

/// A move is the same whether the pen is up or down: the line asked for
/// starts, points and ends alike, and differs only in saying whether it is
/// to be drawn.
pub proof fn pen_does_not_steer(turtle: Turtle, pen: bool, distance: u32, direction_offset: i32)
    ensures
        match (
            stroke_of(turtle, distance, direction_offset),
            stroke_of(Turtle { pen, ..turtle }, distance, direction_offset),
        ) {
            (Ok(one), Ok(other)) => other == (Stroke { pen, ..one }),
            (Err(one), Err(other)) => one == other,
            _ => false,
        },
{
}

} // verus!
