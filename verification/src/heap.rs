//! The variables, the declared procedures and the turtle of a run.

use vstd::prelude::*;
use crate::ast::Callee;
use crate::commands::factories::{assignment, built_in};
use crate::commands::{Assignable, AssignableFactory, Callable, CallableFactory, Literal, Procedure};
use crate::error::LogoError;
use crate::table::Table;
use crate::tokens::AssignmentType;
use crate::turtle::Turtle;

verus! {

/// What a callee stands for among the declared procedures: a procedure
/// declared under its name comes before a built-in of that name, and a name
/// that is neither is not found.
pub open spec fn resolved<'a>(procedures: Map<Seq<char>, Procedure<'a>>, callee: Callee) -> Result<
    Callable<'a>,
    LogoError,
> {
    if procedures.contains_key(callee.name()) {
        Ok(Callable::Procedure(procedures[callee.name()]))
    } else {
        match built_in::<'a>(callee) {
            Some(callable) => Ok(callable),
            None => Err(LogoError::UndefinedCallableError),
        }
    }
}

/// All that a run changes: the variables, the declared procedures, and the
/// turtle. There is one scope: every variable is global.
pub struct Heap<'a> {
    pub variables: Table<Literal>,
    pub callables: Table<Procedure<'a>>,
    pub turtle: Turtle,
}

impl<'a> Heap<'a> {
    /// A heap without variables or procedures, around the given turtle.
    pub fn new(turtle: Turtle) -> (made: Heap<'a>)
        ensures
            made.variables@ == Map::<Seq<char>, Literal>::empty(),
            made.callables@ == Map::<Seq<char>, Procedure<'a>>::empty(),
            made.turtle == turtle,
    {
        Heap { variables: Table::new(), callables: Table::new(), turtle }
    }

    pub fn mut_variables(&mut self) -> (variables: &mut Table<Literal>)
        ensures
            *variables == old(self).variables,
            final(self).variables == *final(variables),
            final(self).callables == old(self).callables,
            final(self).turtle == old(self).turtle,
    {
        &mut self.variables
    }

    /// The value of a variable, if it has one.
    pub fn variable_value(&self, name: &String) -> (value: Option<Literal>)
        ensures
            value == (if self.variables@.contains_key(name@) {
                Some(self.variables@[name@])
            } else {
                None
            }),
    {
        self.variables.get(name)
    }

    pub fn mut_turtle(&mut self) -> (turtle: &mut Turtle)
        ensures
            *turtle == old(self).turtle,
            final(self).turtle == *final(turtle),
            final(self).variables == old(self).variables,
            final(self).callables == old(self).callables,
    {
        &mut self.turtle
    }

    pub fn turtle(&self) -> (turtle: &Turtle)
        ensures
            *turtle == self.turtle,
    {
        &self.turtle
    }

    /// What a call names: the procedure last declared under the callee's
    /// name, if there is one; else the built-in, for a command or a query.
    pub fn get_callable(&self, callee: &Callee) -> (found: Result<Callable<'a>, LogoError>)
        ensures
            found == resolved(self.callables@, *callee),
    {
        let declared = match callee {
            Callee::Procedure(name) => self.callables.get(name),
            Callee::Command(command) => self.callables.get(&String::from_str(command.keyword())),
            Callee::Query(query) => self.callables.get(&String::from_str(query.keyword())),
        };
        match declared {
            Some(procedure) => Ok(Callable::Procedure(procedure)),
            None => match CallableFactory::build(callee) {
                Some(built_in) => Ok(built_in),
                None => Err(LogoError::UndefinedCallableError),
            },
        }
    }

    /// The way of assigning that a keyword stands for.
    pub fn get_assignable(&self, assign_type: &AssignmentType) -> (found: Assignable)
        ensures
            Some(found) == assignment(*assign_type),
    {
        match AssignableFactory::build(assign_type) {
            Some(built_in) => built_in,
            None => {
                proof {
                    assert(false);
                }
                Assignable::Make(crate::commands::variables::MakeCommand {  })
            },
        }
    }

    pub fn declare_variable(&self, assign_type: &AssignmentType) -> (found: Assignable)
        ensures
            Some(found) == assignment(*assign_type),
    {
        self.get_assignable(assign_type)
    }

    /// Declares a procedure, in place of any declared under the same name.
    pub fn declare_procedure(&mut self, name: String, callable: Procedure<'a>)
        ensures
            final(self).callables@ == old(self).callables@.insert(name@, callable),
            final(self).variables == old(self).variables,
            final(self).turtle == old(self).turtle,
    {
        self.callables.insert(name, callable);
    }
}

} // verus!
