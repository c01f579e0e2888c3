//! `MAKE` and `ADDASSIGN`.

use vstd::prelude::*;
use crate::commands::Literal;
use crate::error::LogoError;
use crate::heap::Heap;

verus! {

#[derive(Clone, Copy, Debug, PartialEq, Eq, Structural)]
pub struct MakeCommand {}

impl MakeCommand {
    /// Gives the variable `left` the value, whether or not it had one.
    pub fn declare(&self, left: &String, value: Literal, heap: &mut Heap)
        ensures
            final(heap).variables@ == old(heap).variables@.insert(left@, value),
            final(heap).callables == old(heap).callables,
            final(heap).turtle == old(heap).turtle,
    {
        heap.mut_variables().insert(left.clone(), value);
    }
}

#[derive(Clone, Copy, Debug, PartialEq, Eq, Structural)]
pub struct AddAssignCommand {}

impl AddAssignCommand {
    /// The value that the variable `left` has, to which the new one is to be
    /// added; the variable must have one.
    pub fn declare(&self, left: &String, heap: &Heap) -> (current: Result<Literal, LogoError>)
        ensures
            current == (if heap.variables@.contains_key(left@) {
                Ok::<Literal, LogoError>(heap.variables@[left@])
            } else {
                Err::<Literal, LogoError>(LogoError::UndefinedVariableError)
            }),
    {
        match heap.variable_value(left) {
            Some(value) => Ok(value),
            None => Err(LogoError::UndefinedVariableError),
        }
    }
}

} // verus!
