//! A generic point.
use vstd::prelude::*;

verus! {

/// A point with two coordinates of the same type.
#[derive(Debug)]
pub struct Point<T> {
    pub x: T,
    pub y: T,
}

impl<T> Point<T> {
    /// The point `(x, y)`.
    pub fn new(x: T, y: T) -> (r: Point<T>)
        ensures
            r.x == x,
            r.y == y,
    {
        Point { x, y }
    }

    /// The first coordinate.
    pub fn get_x(&self) -> (r: &T)
        ensures
            *r == self.x,
    {
        &self.x
    }

    /// The second coordinate.
    pub fn get_y(&self) -> (r: &T)
        ensures
            *r == self.y,
    {
        &self.y
    }
}

/// A greeting message.
pub enum Message {
    Hello { id: i32 },
}

/// Which band the id of a [`Message`] falls in.
#[derive(Clone, Copy, Debug, PartialEq, Eq, Structural)]
pub enum IdBand {
    /// From 3 to 10, with the id.
    Low(i32),
    /// From 11 to 15.
    Middle,
    /// Anything else, with the id.
    Other(i32),
}

/// The band that `id` falls in.
pub open spec fn band_of(id: i32) -> IdBand {
    if 3 <= id <= 10 {
        IdBand::Low(id)
    } else if 11 <= id <= 15 {
        IdBand::Middle
    } else {
        IdBand::Other(id)
    }
}

impl Message {
    /// The band that the id falls in.
    pub fn id_band(&self) -> (r: IdBand)
        ensures
            r == band_of(
                match *self {
                    Message::Hello { id } => id,
                },
            ),
    {
        match self {
            Message::Hello { id } => if 3 <= *id && *id <= 10 {
                IdBand::Low(*id)
            } else if 11 <= *id && *id <= 15 {
                IdBand::Middle
            } else {
                IdBand::Other(*id)
            },
        }
    }
}

/// The longer of two strings by their length in bytes; `y` where they are
/// equally long.
pub fn longer<'a>(x: &'a str, y: &'a str) -> (r: &'a str)
    ensures
        r@ == if x.len() > y.len() {
            x@
        } else {
            y@
        },
{
    if x.len() > y.len() {
        x
    } else {
        y
    }
}

} // verus!
