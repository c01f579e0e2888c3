//! From a callee or an assignment keyword to what it stands for.

use vstd::prelude::*;
use crate::ast::Callee;
use crate::commands::control::{
    BackCommand, ForwardCommand, LeftCommand, PenDownCommand, PenUpCommand, RightCommand,
    SetHeadingCommand, SetPenColorCommand, SetXCommand, SetYCommand, TurnCommand,
};
use crate::commands::queries::{ColorCommand, HeadingCommand, XCorCommand, YCorCommand};
use crate::commands::variables::{AddAssignCommand, MakeCommand};
use crate::commands::{Assignable, AssignableFactory, Callable, CallableFactory};
use crate::tokens::{AssignmentType, CommandType, QueryType};

verus! {

/// The built-in that a command or a query names; a procedure's name names
/// none.
pub open spec fn built_in<'a>(callee: Callee) -> Option<Callable<'a>> {
    match callee {
        Callee::Command(command) => Some(
            match command {
                CommandType::Penup => Callable::PenUp(PenUpCommand {  }),
                CommandType::Forward => Callable::Forward(ForwardCommand {  }),
                CommandType::Pendown => Callable::PenDown(PenDownCommand {  }),
                CommandType::Back => Callable::Back(BackCommand {  }),
                CommandType::Left => Callable::Left(LeftCommand {  }),
                CommandType::Right => Callable::Right(RightCommand {  }),
                CommandType::Setheading => Callable::SetHeading(SetHeadingCommand {  }),
                CommandType::Setpencolor => Callable::SetPenColor(SetPenColorCommand {  }),
                CommandType::Turn => Callable::Turn(TurnCommand {  }),
                CommandType::Setx => Callable::SetX(SetXCommand {  }),
                CommandType::Sety => Callable::SetY(SetYCommand {  }),
            },
        ),
        Callee::Query(query) => Some(
            match query {
                QueryType::Color => Callable::Color(ColorCommand {  }),
                QueryType::Heading => Callable::Heading(HeadingCommand {  }),
                QueryType::Xcor => Callable::XCor(XCorCommand {  }),
                QueryType::Ycor => Callable::YCor(YCorCommand {  }),
            },
        ),
        Callee::Procedure(_) => None,
    }
}

pub open spec fn assignment(assign_type: AssignmentType) -> Option<Assignable> {
    match assign_type {
        AssignmentType::Make => Some(Assignable::Make(MakeCommand {  })),
        AssignmentType::Addassign => Some(Assignable::AddAssign(AddAssignCommand {  })),
    }
}

impl CallableFactory {
    pub fn build<'a>(callee: &Callee) -> (built: Option<Callable<'a>>)
        ensures
            built == built_in::<'a>(*callee),
    {
        match callee {
            Callee::Command(command) => match command {
                CommandType::Penup => Some(Callable::PenUp(PenUpCommand {  })),
                CommandType::Forward => Some(Callable::Forward(ForwardCommand {  })),
                CommandType::Pendown => Some(Callable::PenDown(PenDownCommand {  })),
                CommandType::Back => Some(Callable::Back(BackCommand {  })),
                CommandType::Left => Some(Callable::Left(LeftCommand {  })),
                CommandType::Right => Some(Callable::Right(RightCommand {  })),
                CommandType::Setheading => Some(Callable::SetHeading(SetHeadingCommand {  })),
                CommandType::Setpencolor => Some(Callable::SetPenColor(SetPenColorCommand {  })),
                CommandType::Turn => Some(Callable::Turn(TurnCommand {  })),
                CommandType::Setx => Some(Callable::SetX(SetXCommand {  })),
                CommandType::Sety => Some(Callable::SetY(SetYCommand {  })),
            },
            Callee::Query(query) => match query {
                QueryType::Color => Some(Callable::Color(ColorCommand {  })),
                QueryType::Heading => Some(Callable::Heading(HeadingCommand {  })),
                QueryType::Xcor => Some(Callable::XCor(XCorCommand {  })),
                QueryType::Ycor => Some(Callable::YCor(YCorCommand {  })),
            },
            _ => None,
        }
    }
}

impl AssignableFactory {
    pub fn build(assign_type: &AssignmentType) -> (built: Option<Assignable>)
        ensures
            built == assignment(*assign_type),
    {
        match assign_type {
            AssignmentType::Make => Some(Assignable::Make(MakeCommand {  })),
            AssignmentType::Addassign => Some(Assignable::AddAssign(AddAssignCommand {  })),
        }
    }
}

} // verus!
