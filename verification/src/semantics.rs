//! What a run does, step by step.

use vstd::prelude::*;
use crate::arithmetic::{fits, quotient};
use crate::ast::{
    name_views, AssignmentExpression, BinaryOperation, CallExpression, Callee, IfStatement,
    Literal, ProcedureDeclaration, Statement, Value, WhileStatement,
};
use crate::commands::procedure::{entered, left, set_aside};
use crate::commands::{command_outcome, query_value, Outcome, Procedure};
use crate::error::LogoError;
use crate::tokens::{
    AssignmentType, CalculationOperation, CommandType, IdentifierType, LogicalOperation, ValueType,
};
use crate::turtle::{Stroke, Turtle};

verus! {

/// What applying an operator to two values comes to.
#[derive(Clone, Copy, Debug, PartialEq, Eq, Structural)]
pub enum Calculated {
    /// The result.
    Value(Literal),
    /// Both are single-precision numbers: their sum, difference, product or
    /// quotient is asked for.
    Arithmetic(CalculationOperation, u32, u32),
    /// Both are single-precision numbers: their comparison is asked for.
    Comparison(LogicalOperation, u32, u32),
    /// The left one is an integer and the right one a single-precision
    /// number: the left one is to be converted first.
    WidenLeft(i32),
    /// The right one is an integer and the left one a single-precision
    /// number: the right one is to be converted first.
    WidenRight(i32),
}

/// Arithmetic on two integers stays within the integers; it fails where the
/// result leaves the 32-bit range or the divisor is zero.
pub open spec fn integer_result(operation: CalculationOperation, a: i32, b: i32) -> Option<i32> {
    let exact = match operation {
        CalculationOperation::Plus => a + b,
        CalculationOperation::Dash => a - b,
        CalculationOperation::Star => a * b,
        CalculationOperation::Slash => quotient(a as int, b as int),
    };
    if fits(exact) && !(operation == CalculationOperation::Slash && b == 0) {
        Some(exact as i32)
    } else {
        None
    }
}

/// Arithmetic: two integers give an integer; an integer beside a
/// single-precision number is converted to one; a truth value fits nowhere.
pub open spec fn arithmetic(operation: CalculationOperation, left: Literal, right: Literal)
    -> Result<Calculated, LogoError> {
    match (left, right) {
        (ValueType::Int(a), ValueType::Int(b)) => match integer_result(operation, a, b) {
            Some(result) => Ok(Calculated::Value(ValueType::Int(result))),
            None => Err(LogoError::ArithmeticError),
        },
        (ValueType::Float(a), ValueType::Float(b)) => Ok(Calculated::Arithmetic(operation, a, b)),
        (ValueType::Int(a), ValueType::Float(_)) => Ok(Calculated::WidenLeft(a)),
        (ValueType::Float(_), ValueType::Int(b)) => Ok(Calculated::WidenRight(b)),
        _ => Err(LogoError::TypeError),
    }
}

pub open spec fn integers_compare(operation: LogicalOperation, a: i32, b: i32) -> bool {
    match operation {
        LogicalOperation::Eq => a == b,
        LogicalOperation::Ne => a != b,
        LogicalOperation::Gt => a > b,
        LogicalOperation::Lt => a < b,
        _ => false,
    }
}

/// Logic: `AND` and `OR` take two truth values. The comparisons take two
/// numbers, an integer beside a single-precision number being converted to
/// one; two truth values can be tested for being equal or not, and for
/// nothing else; a truth value never compares with a number.
pub open spec fn logic(operation: LogicalOperation, left: Literal, right: Literal) -> Result<
    Calculated,
    LogoError,
> {
    match operation {
        LogicalOperation::And => match (left, right) {
            (ValueType::Bool(a), ValueType::Bool(b)) => Ok(
                Calculated::Value(ValueType::Bool(a && b)),
            ),
            _ => Err(LogoError::TypeError),
        },
        LogicalOperation::Or => match (left, right) {
            (ValueType::Bool(a), ValueType::Bool(b)) => Ok(
                Calculated::Value(ValueType::Bool(a || b)),
            ),
            _ => Err(LogoError::TypeError),
        },
        _ => match (left, right) {
            (ValueType::Int(a), ValueType::Int(b)) => Ok(
                Calculated::Value(ValueType::Bool(integers_compare(operation, a, b))),
            ),
            (ValueType::Float(a), ValueType::Float(b)) => Ok(
                Calculated::Comparison(operation, a, b),
            ),
            (ValueType::Int(a), ValueType::Float(_)) => Ok(Calculated::WidenLeft(a)),
            (ValueType::Float(_), ValueType::Int(b)) => Ok(Calculated::WidenRight(b)),
            (ValueType::Bool(a), ValueType::Bool(b)) => match operation {
                LogicalOperation::Eq => Ok(Calculated::Value(ValueType::Bool(a == b))),
                LogicalOperation::Ne => Ok(Calculated::Value(ValueType::Bool(a != b))),
                _ => Err(LogoError::TypeError),
            },
            _ => Err(LogoError::TypeError),
        },
    }
}

/// What an operator makes of two values.
pub open spec fn calculation(operation: BinaryOperation, left: Literal, right: Literal) -> Result<
    Calculated,
    LogoError,
> {
    match operation {
        BinaryOperation::Calculation(operation) => arithmetic(operation, left, right),
        BinaryOperation::Logic(operation) => logic(operation, left, right),
    }
}

/// A piece of work that the evaluator has put off. The last task put off is
/// the first one done.
#[derive(Clone, Copy)]
pub enum Task<'a> {
    /// Run the statements of a body from the given index on.
    Block(&'a Vec<Statement>, usize),
    /// Work out an expression and put its value on the values.
    Evaluate(&'a Value),
    /// Take two values and put back what the operator makes of them.
    Apply(BinaryOperation),
    /// Take a value and give it to the variable.
    Store(&'a String),
    /// Take a value and add it to the variable.
    AddStore(&'a String),
    /// Take the value of a test and run the body if it is true.
    Branch(&'a Vec<Statement>),
    /// Take the value of a loop's test; if it is true, run the body and test
    /// again.
    Repeat(&'a WhileStatement),
    /// Take a value and call the command with it.
    Command(CommandType),
    /// The command's argument was the single-precision number; what comes
    /// back is its whole part, which is now converted back.
    Truncated(CommandType, u32),
    /// What comes back is the whole part as a single-precision number, which
    /// is now compared with the argument.
    Rounded(CommandType, u32, i32),
    /// What comes back says whether the argument was a whole number: if so,
    /// the command is called with it.
    Exact(CommandType, i32),
    /// Take as many values as the call gave arguments and enter the procedure.
    Invoke(Procedure<'a>, usize),
    /// Leave the procedure: put back what the call set aside.
    Restore(Procedure<'a>),
    /// A call that gives no value stood where one was needed.
    Missing,
}

/// What the evaluator waits for before it goes on.
#[derive(Clone, Copy, Debug, PartialEq, Eq, Structural)]
pub enum Pending {
    Nothing,
    /// A single-precision number, which becomes the next value.
    Float,
    /// A single-precision number, which becomes the next value, under the
    /// value held here.
    FloatThen(Literal),
    /// An integer, which becomes the next value.
    Int,
    /// A truth value, which becomes the next value.
    Bool,
    /// The end of a line.
    Position,
}

/// What the evaluator asks of whoever drives it.
#[derive(Clone, Debug, PartialEq, Eq)]
pub enum Action {
    /// Nothing: go on with the next step.
    Continue,
    /// Nothing: the run is over.
    Done,
    /// The single-precision value of a decimal literal.
    ParseFloat(String),
    /// The single-precision number nearest to an integer.
    IntToFloat(i32),
    /// The integer that a single-precision number gives when its fraction is
    /// dropped.
    FloatToInt(u32),
    /// The result of arithmetic on two single-precision numbers.
    Calculate(CalculationOperation, u32, u32),
    /// The result of comparing two single-precision numbers.
    Compare(LogicalOperation, u32, u32),
    /// The end of a line, which is drawn if the pen is down.
    Line(Stroke),
}

/// What the driver answers.
#[derive(Clone, Copy, Debug, PartialEq, Eq, Structural)]
pub enum Reply {
    Nothing,
    Float(u32),
    Int(i32),
    Bool(bool),
    Position(u32, u32),
    /// The surface could not draw the line.
    Refused,
}

/// A moment of a run.
pub struct State<'a> {
    pub variables: Map<Seq<char>, Literal>,
    pub procedures: Map<Seq<char>, Procedure<'a>>,
    pub turtle: Turtle,
    /// The work put off; the last is done next.
    pub tasks: Seq<Task<'a>>,
    /// The values worked out and not yet used; the last is used next.
    pub values: Seq<Literal>,
    /// What the calls under way have set aside; the last belongs to the
    /// innermost call.
    pub scopes: Seq<Map<Seq<char>, Literal>>,
    pub pending: Pending,
}

pub type Stepped<'a> = (State<'a>, Result<Action, LogoError>);

/// The variables once every call under way has given back what it set
/// aside, the innermost call first.
pub open spec fn unwound(
    variables: Map<Seq<char>, Literal>,
    scopes: Seq<Map<Seq<char>, Literal>>,
) -> Map<Seq<char>, Literal>
    decreases scopes.len(),
{
    if scopes.len() == 0 {
        variables
    } else {
        unwound(left(variables, scopes.last()), scopes.drop_last())
    }
}

/// The state after a failure: nothing is left to do; the calls under way
/// have given back what they set aside; procedures and turtle are as they
/// were.
pub open spec fn halted<'a>(state: State<'a>) -> State<'a> {
    State {
        variables: unwound(state.variables, state.scopes),
        tasks: Seq::empty(),
        values: Seq::empty(),
        scopes: Seq::empty(),
        pending: Pending::Nothing,
        ..state
    }
}

pub open spec fn failed<'a>(state: State<'a>, error: LogoError) -> Stepped<'a> {
    (halted(state), Err(error))
}

pub open spec fn goes_on<'a>(state: State<'a>) -> Stepped<'a> {
    (state, Ok(Action::Continue))
}

/// The tasks that work out the arguments of a call, the first argument last
/// in the sequence, so that it is worked out first.
pub open spec fn evaluations<'a>(arguments: &'a Vec<Value>) -> Seq<Task<'a>> {
    Seq::new(
        arguments@.len(),
        |i: int| Task::Evaluate(&arguments@[arguments@.len() - 1 - i]),
    )
}

/// Starts a call. A procedure declared under the callee's name is entered
/// once all the arguments are worked out, also where the name is that of a
/// command or a query. Else a query gives its answer at once; `PENUP` and
/// `PENDOWN` act at once; any other command is called once its first
/// argument is worked out, and passed over where it has none. A name that
/// stands for nothing is not found. Where a value is needed, only a query
/// gives one.
pub open spec fn begin_call<'a>(state: State<'a>, call: &'a CallExpression, needed: bool)
    -> Stepped<'a> {
    let after = if needed {
        State { tasks: state.tasks.push(Task::Missing), ..state }
    } else {
        state
    };
    if state.procedures.contains_key(call.callee.name()) {
        goes_on(
            State {
                tasks: after.tasks.push(
                    Task::Invoke(state.procedures[call.callee.name()], call.arguments.len()),
                ) + evaluations(&call.arguments),
                ..after
            },
        )
    } else {
        match call.callee {
            Callee::Query(query) => if needed {
                goes_on(
                    State { values: state.values.push(query_value(query, state.turtle)), ..state },
                )
            } else {
                goes_on(state)
            },
            Callee::Command(CommandType::Penup) => goes_on(
                State { turtle: Turtle { pen: false, ..state.turtle }, ..after },
            ),
            Callee::Command(CommandType::Pendown) => goes_on(
                State { turtle: Turtle { pen: true, ..state.turtle }, ..after },
            ),
            Callee::Command(command) => if call.arguments@.len() == 0 {
                goes_on(after)
            } else {
                goes_on(
                    State {
                        tasks: after.tasks.push(Task::Command(command)).push(
                            Task::Evaluate(&call.arguments@[0]),
                        ),
                        ..after
                    },
                )
            },
            Callee::Procedure(_) => failed(state, LogoError::UndefinedCallableError),
        }
    }
}

/// Starts an expression.
pub open spec fn evaluate<'a>(state: State<'a>, value: &'a Value) -> Stepped<'a> {
    match value {
        Value::Literal(literal) => goes_on(
            State { values: state.values.push(*literal), ..state },
        ),
        Value::Real(text) => (
            State { pending: Pending::Float, ..state },
            Ok(Action::ParseFloat(*text)),
        ),
        Value::Identifier(IdentifierType::Variable(name)) => if state.variables.contains_key(
            name@,
        ) {
            goes_on(State { values: state.values.push(state.variables[name@]), ..state })
        } else {
            failed(state, LogoError::UndefinedVariableError)
        },
        Value::Identifier(IdentifierType::Procedure(_)) => failed(state, LogoError::SyntaxError),
        Value::Statement(call) => begin_call(state, &**call, true),
        Value::BinaryExpression(binary) => goes_on(
            State {
                tasks: state.tasks.push(Task::Apply(binary.operation)).push(
                    Task::Evaluate(&binary.right),
                ).push(Task::Evaluate(&binary.left)),
                ..state
            },
        ),
    }
}

/// Starts an assignment: the right-hand side is worked out, then stored.
pub open spec fn begin_assignment<'a>(state: State<'a>, assign: &'a AssignmentExpression)
    -> Stepped<'a> {
    goes_on(
        State {
            tasks: state.tasks.push(
                match assign.operation {
                    AssignmentType::Make => Task::Store(&assign.left),
                    AssignmentType::Addassign => Task::AddStore(&assign.left),
                },
            ).push(Task::Evaluate(&assign.right)),
            ..state
        },
    )
}

/// Starts an `IF`: the test is worked out, then the body is run or not.
pub open spec fn begin_branch<'a>(state: State<'a>, branch: &'a IfStatement) -> Stepped<'a> {
    goes_on(
        State {
            tasks: state.tasks.push(Task::Branch(&branch.consequent)).push(
                Task::Evaluate(&branch.test),
            ),
            ..state
        },
    )
}

/// Starts a `WHILE`: the test is worked out, then the body is run and the
/// test worked out again, until it is false.
pub open spec fn begin_loop<'a>(state: State<'a>, repeat: &'a WhileStatement) -> Stepped<'a> {
    goes_on(
        State {
            tasks: state.tasks.push(Task::Repeat(repeat)).push(Task::Evaluate(&repeat.test)),
            ..state
        },
    )
}

/// Declares a procedure, in place of any declared under the same name.
pub open spec fn declare<'a>(state: State<'a>, declaration: &'a ProcedureDeclaration) -> Stepped<
    'a,
> {
    goes_on(
        State {
            procedures: state.procedures.insert(
                declaration.name@,
                Procedure { arguments: &declaration.arguments, body: &declaration.body },
            ),
            ..state
        },
    )
}

/// Starts a statement.
pub open spec fn begin<'a>(state: State<'a>, statement: &'a Statement) -> Stepped<'a> {
    match statement {
        Statement::CallExpression(call) => begin_call(state, call, false),
        Statement::AssignmentExpression(assign) => begin_assignment(state, assign),
        Statement::If(branch) => begin_branch(state, branch),
        Statement::While(repeat) => begin_loop(state, repeat),
        Statement::ProcedureDeclaration(declaration) => declare(state, declaration),
    }
}

/// Applies an operator to the two last values.
pub open spec fn apply<'a>(state: State<'a>, operation: BinaryOperation) -> Stepped<'a> {
    if state.values.len() < 2 {
        failed(state, LogoError::MissingResultError)
    } else {
        let left = state.values[state.values.len() - 2];
        let right = state.values.last();
        let rest = state.values.drop_last().drop_last();
        match calculation(operation, left, right) {
            Ok(Calculated::Value(result)) => goes_on(State { values: rest.push(result), ..state }),
            Ok(Calculated::Arithmetic(operation, a, b)) => (
                State { values: rest, pending: Pending::Float, ..state },
                Ok(Action::Calculate(operation, a, b)),
            ),
            Ok(Calculated::Comparison(operation, a, b)) => (
                State { values: rest, pending: Pending::Bool, ..state },
                Ok(Action::Compare(operation, a, b)),
            ),
            Ok(Calculated::WidenLeft(a)) => (
                State {
                    tasks: state.tasks.push(Task::Apply(operation)),
                    values: rest,
                    pending: Pending::FloatThen(right),
                    ..state
                },
                Ok(Action::IntToFloat(a)),
            ),
            Ok(Calculated::WidenRight(b)) => (
                State {
                    tasks: state.tasks.push(Task::Apply(operation)),
                    values: rest.push(left),
                    pending: Pending::Float,
                    ..state
                },
                Ok(Action::IntToFloat(b)),
            ),
            Err(error) => failed(state, error),
        }
    }
}

/// Calls a command with the last value.
pub open spec fn command<'a>(state: State<'a>, command: CommandType) -> Stepped<'a> {
    if state.values.len() < 1 {
        failed(state, LogoError::MissingResultError)
    } else {
        let rest = state.values.drop_last();
        match command_outcome(command, state.values.last(), state.turtle) {
            Ok((Outcome::Finished, turtle)) => goes_on(State { turtle, values: rest, ..state }),
            Ok((Outcome::Widen(number), _)) => (
                State {
                    tasks: state.tasks.push(Task::Command(command)),
                    values: rest,
                    pending: Pending::Float,
                    ..state
                },
                Ok(Action::IntToFloat(number)),
            ),
            Ok((Outcome::Whole(number), _)) => (
                State {
                    tasks: state.tasks.push(Task::Truncated(command, number)),
                    values: rest,
                    pending: Pending::Int,
                    ..state
                },
                Ok(Action::FloatToInt(number)),
            ),
            Ok((Outcome::Draw(stroke), _)) => (
                State { values: rest, pending: Pending::Position, ..state },
                Ok(Action::Line(stroke)),
            ),
            Err(error) => failed(state, error),
        }
    }
}

/// Enters a procedure with the last `count` values as its arguments.
pub open spec fn invoke<'a>(state: State<'a>, procedure: Procedure<'a>, count: usize) -> Stepped<
    'a,
> {
    if state.values.len() < count {
        failed(state, LogoError::MissingResultError)
    } else {
        let formals = name_views(procedure.arguments@);
        let actuals = state.values.subrange(state.values.len() - count, state.values.len() as int);
        goes_on(
            State {
                variables: entered(state.variables, formals, actuals),
                tasks: state.tasks.push(Task::Restore(procedure)).push(
                    Task::Block(procedure.body, 0),
                ),
                values: state.values.subrange(0, state.values.len() - count),
                scopes: state.scopes.push(set_aside(state.variables, formals)),
                ..state
            },
        )
    }
}

/// Does one task. `state` is the state without that task.
pub open spec fn perform<'a>(state: State<'a>, task: Task<'a>) -> Stepped<'a> {
    match task {
        Task::Block(statements, next) => if next < statements@.len() {
            begin(
                State {
                    tasks: state.tasks.push(Task::Block(statements, (next + 1) as usize)),
                    ..state
                },
                &statements@[next as int],
            )
        } else {
            goes_on(state)
        },
        Task::Evaluate(value) => evaluate(state, value),
        Task::Apply(operation) => apply(state, operation),
        Task::Store(name) => if state.values.len() < 1 {
            failed(state, LogoError::MissingResultError)
        } else {
            goes_on(
                State {
                    variables: state.variables.insert(name@, state.values.last()),
                    values: state.values.drop_last(),
                    ..state
                },
            )
        },
        Task::AddStore(name) => if state.values.len() < 1 {
            failed(state, LogoError::MissingResultError)
        } else if !state.variables.contains_key(name@) {
            failed(state, LogoError::UndefinedVariableError)
        } else {
            goes_on(
                State {
                    tasks: state.tasks.push(Task::Store(name)).push(
                        Task::Apply(BinaryOperation::Calculation(CalculationOperation::Plus)),
                    ),
                    values: state.values.drop_last().push(state.variables[name@]).push(
                        state.values.last(),
                    ),
                    ..state
                },
            )
        },
        Task::Branch(body) => if state.values.len() < 1 {
            failed(state, LogoError::MissingResultError)
        } else {
            match state.values.last() {
                ValueType::Bool(true) => goes_on(
                    State {
                        tasks: state.tasks.push(Task::Block(body, 0)),
                        values: state.values.drop_last(),
                        ..state
                    },
                ),
                ValueType::Bool(false) => goes_on(
                    State { values: state.values.drop_last(), ..state },
                ),
                _ => failed(state, LogoError::TypeError),
            }
        },
        Task::Repeat(repeat) => if state.values.len() < 1 {
            failed(state, LogoError::MissingResultError)
        } else {
            match state.values.last() {
                ValueType::Bool(true) => goes_on(
                    State {
                        tasks: state.tasks.push(Task::Repeat(repeat)).push(
                            Task::Evaluate(&repeat.test),
                        ).push(Task::Block(&repeat.body, 0)),
                        values: state.values.drop_last(),
                        ..state
                    },
                ),
                ValueType::Bool(false) => goes_on(
                    State { values: state.values.drop_last(), ..state },
                ),
                _ => failed(state, LogoError::TypeError),
            }
        },
        Task::Command(name) => command(state, name),
        Task::Truncated(name, number) => if state.values.len() < 1 {
            failed(state, LogoError::MissingResultError)
        } else {
            match state.values.last() {
                ValueType::Int(whole) => (
                    State {
                        tasks: state.tasks.push(Task::Rounded(name, number, whole)),
                        values: state.values.drop_last(),
                        pending: Pending::Float,
                        ..state
                    },
                    Ok(Action::IntToFloat(whole)),
                ),
                _ => failed(state, LogoError::TypeError),
            }
        },
        Task::Rounded(name, number, whole) => if state.values.len() < 1 {
            failed(state, LogoError::MissingResultError)
        } else {
            match state.values.last() {
                ValueType::Float(back) => (
                    State {
                        tasks: state.tasks.push(Task::Exact(name, whole)),
                        values: state.values.drop_last(),
                        pending: Pending::Bool,
                        ..state
                    },
                    Ok(Action::Compare(LogicalOperation::Eq, back, number)),
                ),
                _ => failed(state, LogoError::TypeError),
            }
        },
        Task::Exact(name, whole) => if state.values.len() < 1 {
            failed(state, LogoError::MissingResultError)
        } else {
            match state.values.last() {
                ValueType::Bool(true) => goes_on(
                    State {
                        tasks: state.tasks.push(Task::Command(name)),
                        values: state.values.drop_last().push(ValueType::Int(whole)),
                        ..state
                    },
                ),
                _ => failed(state, LogoError::TypeError),
            }
        },
        Task::Invoke(procedure, count) => invoke(state, procedure, count),
        Task::Restore(_) => if state.scopes.len() < 1 {
            goes_on(state)
        } else {
            goes_on(
                State {
                    variables: left(state.variables, state.scopes.last()),
                    scopes: state.scopes.drop_last(),
                    ..state
                },
            )
        },
        Task::Missing => failed(state, LogoError::MissingResultError),
    }
}

/// Takes in the answer that was waited for.
pub open spec fn answer<'a>(state: State<'a>, reply: Reply) -> Stepped<'a> {
    match (state.pending, reply) {
        (Pending::Float, Reply::Float(number)) => goes_on(
            State {
                values: state.values.push(ValueType::Float(number)),
                pending: Pending::Nothing,
                ..state
            },
        ),
        (Pending::FloatThen(then), Reply::Float(number)) => goes_on(
            State {
                values: state.values.push(ValueType::Float(number)).push(then),
                pending: Pending::Nothing,
                ..state
            },
        ),
        (Pending::Int, Reply::Int(number)) => goes_on(
            State {
                values: state.values.push(ValueType::Int(number)),
                pending: Pending::Nothing,
                ..state
            },
        ),
        (Pending::Bool, Reply::Bool(truth)) => goes_on(
            State {
                values: state.values.push(ValueType::Bool(truth)),
                pending: Pending::Nothing,
                ..state
            },
        ),
        (Pending::Position, Reply::Position(x, y)) => goes_on(
            State { turtle: Turtle { x, y, ..state.turtle }, pending: Pending::Nothing, ..state },
        ),
        (Pending::Position, Reply::Refused) => failed(state, LogoError::SurfaceError),
        _ => failed(state, LogoError::ReplyError),
    }
}

/// One step of a run. Where an answer is waited for, the step takes it in;
/// an answer that was not asked for, or one of the wrong kind, ends the
/// run. Otherwise the step does the task put off last; where none is left,
/// the run is over.
pub open spec fn step<'a>(state: State<'a>, reply: Reply) -> Stepped<'a> {
    if state.pending != Pending::Nothing {
        answer(state, reply)
    } else if reply != Reply::Nothing {
        failed(state, LogoError::ReplyError)
    } else if state.tasks.len() == 0 {
        (state, Ok(Action::Done))
    } else {
        perform(State { tasks: state.tasks.drop_last(), ..state }, state.tasks.last())
    }
}

/// Arithmetic on two integers gives the integer result, where that is a
/// 32-bit integer.
pub proof fn integers_stay_integers(operation: CalculationOperation, a: i32, b: i32)
    ensures
        fits(a + b) ==> arithmetic(CalculationOperation::Plus, ValueType::Int(a), ValueType::Int(b))
            == Ok::<Calculated, LogoError>(Calculated::Value(ValueType::Int((a + b) as i32))),
        fits(a - b) ==> arithmetic(CalculationOperation::Dash, ValueType::Int(a), ValueType::Int(b))
            == Ok::<Calculated, LogoError>(Calculated::Value(ValueType::Int((a - b) as i32))),
        fits(a * b) ==> arithmetic(CalculationOperation::Star, ValueType::Int(a), ValueType::Int(b))
            == Ok::<Calculated, LogoError>(Calculated::Value(ValueType::Int((a * b) as i32))),
        arithmetic(operation, ValueType::Int(a), ValueType::Int(b)) is Ok ==> arithmetic(
            operation,
            ValueType::Int(a),
            ValueType::Int(b),
        )->Ok_0 is Value,
{
}

/// A truth value never meets a number: not in arithmetic, and not in a
/// comparison or a connective.
pub proof fn truth_never_meets_number(operation: BinaryOperation, truth: bool, number: Literal)
    requires
        !(number is Bool),
    ensures
        calculation(operation, ValueType::Bool(truth), number) == Err::<Calculated, LogoError>(
            LogoError::TypeError,
        ),
        calculation(operation, number, ValueType::Bool(truth)) == Err::<Calculated, LogoError>(
            LogoError::TypeError,
        ),
{
}

/// Whether an operator is arithmetic or a comparison, that is, takes numbers.
pub open spec fn takes_numbers(operation: BinaryOperation) -> bool {
    match operation {
        BinaryOperation::Calculation(_) => true,
        BinaryOperation::Logic(LogicalOperation::And) => false,
        BinaryOperation::Logic(LogicalOperation::Or) => false,
        BinaryOperation::Logic(_) => true,
    }
}

/// What is asked for once both operands are single-precision numbers.
pub open spec fn asked(operation: BinaryOperation, a: u32, b: u32) -> Action {
    match operation {
        BinaryOperation::Calculation(operation) => Action::Calculate(operation, a, b),
        BinaryOperation::Logic(operation) => Action::Compare(operation, a, b),
    }
}

/// An integer on the left of a single-precision number is converted before
/// the operator is applied: the step asks for the conversion, the next takes
/// the answer in, and the one after asks for the operation on the converted
/// number and the number on the right.
pub proof fn left_integer_is_widened<'a>(
    state: State<'a>,
    operation: BinaryOperation,
    a: i32,
    b: u32,
    converted: u32,
)
    requires
        takes_numbers(operation),
        state.pending == Pending::Nothing,
        state.tasks.len() > 0,
        state.tasks.last() == Task::Apply(operation),
        state.values.len() >= 2,
        state.values[state.values.len() - 2] == ValueType::Int(a),
        state.values.last() == ValueType::Float(b),
    ensures
        ({
            let (asking, first) = step(state, Reply::Nothing);
            let (answered, second) = step(asking, Reply::Float(converted));
            let (after, third) = step(answered, Reply::Nothing);
            &&& first == Ok::<Action, LogoError>(Action::IntToFloat(a))
            &&& second == Ok::<Action, LogoError>(Action::Continue)
            &&& third == Ok::<Action, LogoError>(asked(operation, converted, b))
            &&& after.tasks == state.tasks.drop_last()
            &&& after.values == state.values.drop_last().drop_last()
        }),
{
    let (asking, first) = step(state, Reply::Nothing);
    let (answered, second) = step(asking, Reply::Float(converted));
    let rest = state.values.drop_last().drop_last();
    assert(asking.tasks.last() == Task::Apply(operation));
    assert(answered.values == rest.push(ValueType::Float(converted)).push(ValueType::Float(b)));
    assert(answered.tasks.drop_last() =~= state.tasks.drop_last());
    assert(answered.values.drop_last().drop_last() =~= rest);
}

/// An integer on the right of a single-precision number is converted before
/// the operator is applied, in the same three steps.
pub proof fn right_integer_is_widened<'a>(
    state: State<'a>,
    operation: BinaryOperation,
    a: u32,
    b: i32,
    converted: u32,
)
    requires
        takes_numbers(operation),
        state.pending == Pending::Nothing,
        state.tasks.len() > 0,
        state.tasks.last() == Task::Apply(operation),
        state.values.len() >= 2,
        state.values[state.values.len() - 2] == ValueType::Float(a),
        state.values.last() == ValueType::Int(b),
    ensures
        ({
            let (asking, first) = step(state, Reply::Nothing);
            let (answered, second) = step(asking, Reply::Float(converted));
            let (after, third) = step(answered, Reply::Nothing);
            &&& first == Ok::<Action, LogoError>(Action::IntToFloat(b))
            &&& second == Ok::<Action, LogoError>(Action::Continue)
            &&& third == Ok::<Action, LogoError>(asked(operation, a, converted))
            &&& after.tasks == state.tasks.drop_last()
            &&& after.values == state.values.drop_last().drop_last()
        }),
{
    let (asking, first) = step(state, Reply::Nothing);
    let (answered, second) = step(asking, Reply::Float(converted));
    let rest = state.values.drop_last().drop_last();
    assert(asking.tasks.last() == Task::Apply(operation));
    assert(answered.values == rest.push(ValueType::Float(a)).push(ValueType::Float(converted)));
    assert(answered.tasks.drop_last() =~= state.tasks.drop_last());
    assert(answered.values.drop_last().drop_last() =~= rest);
}

} // verus!
