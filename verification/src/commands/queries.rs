//! The queries, which read the turtle.

use vstd::prelude::*;
use crate::commands::{query_value, Literal};
use crate::heap::Heap;
use crate::tokens::QueryType;

verus! {

#[derive(Clone, Copy, Debug, PartialEq, Eq, Structural)]
pub struct XCorCommand {}

impl XCorCommand {
    pub fn call(&self, heap: &Heap) -> (answer: Literal)
        ensures
            answer == query_value(QueryType::Xcor, heap.turtle),
    {
        Literal::Float(heap.turtle().x())
    }
}

#[derive(Clone, Copy, Debug, PartialEq, Eq, Structural)]
pub struct YCorCommand {}

impl YCorCommand {
    pub fn call(&self, heap: &Heap) -> (answer: Literal)
        ensures
            answer == query_value(QueryType::Ycor, heap.turtle),
    {
        Literal::Float(heap.turtle().y())
    }
}

#[derive(Clone, Copy, Debug, PartialEq, Eq, Structural)]
pub struct HeadingCommand {}

impl HeadingCommand {
    pub fn call(&self, heap: &Heap) -> (answer: Literal)
        ensures
            answer == query_value(QueryType::Heading, heap.turtle),
    {
        Literal::Int(heap.turtle().direction())
    }
}

#[derive(Clone, Copy, Debug, PartialEq, Eq, Structural)]
pub struct ColorCommand {}

impl ColorCommand {
    pub fn call(&self, heap: &Heap) -> (answer: Literal)
        ensures
            answer == query_value(QueryType::Color, heap.turtle),
    {
        Literal::Int(heap.turtle().color())
    }
}

} // verus!
