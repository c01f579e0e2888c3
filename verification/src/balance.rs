//! An invariant of every run: no task finds the values it takes missing, and
//! every procedure still to be left has something set aside for it.

use vstd::prelude::*;
use crate::ast::{BinaryOperation, CallExpression, Callee, Statement, Value};
use crate::error::LogoError;
use crate::evaluator::initial;
use crate::commands::{command_outcome, Outcome};
use crate::semantics::{begin_call, evaluations, step, Action, Pending, Reply, State, Task};
use crate::tokens::{AssignmentType, CalculationOperation, ValueType};
use crate::turtle::Turtle;

verus! {

/// How many values a task takes when it is done.
pub open spec fn takes(task: Task) -> int {
    match task {
        Task::Block(_, _) => 0,
        Task::Evaluate(_) => 0,
        Task::Apply(_) => 2,
        Task::Store(_) => 1,
        Task::AddStore(_) => 1,
        Task::Branch(_) => 1,
        Task::Repeat(_) => 1,
        Task::Command(_) => 1,
        Task::Truncated(_, _) => 1,
        Task::Rounded(_, _, _) => 1,
        Task::Exact(_, _) => 1,
        Task::Invoke(_, count) => count as int,
        Task::Restore(_) => 0,
        Task::Missing => 0,
    }
}

/// How many values a task has left when it and all that it put off are done.
/// The task that stands for a missing value counts as that value.
pub open spec fn leaves(task: Task) -> int {
    match task {
        Task::Evaluate(_) => 1,
        Task::Apply(_) => 1,
        Task::Missing => 1,
        _ => 0,
    }
}

/// How many values the awaited answer brings.
pub open spec fn brings(pending: Pending) -> int {
    match pending {
        Pending::Nothing => 0,
        Pending::Float => 1,
        Pending::FloatThen(_) => 2,
        Pending::Int => 1,
        Pending::Bool => 1,
        Pending::Position => 0,
    }
}

/// Whether every task, done in turn from the last one, finds the values that
/// it takes, where `height` values are there at the start.
pub open spec fn supplied(tasks: Seq<Task>, height: int) -> bool
    decreases tasks.len(),
{
    if tasks.len() == 0 {
        height >= 0
    } else {
        &&& height >= takes(tasks.last())
        &&& supplied(tasks.drop_last(), height - takes(tasks.last()) + leaves(tasks.last()))
    }
}

/// How many of the tasks leave a procedure.
pub open spec fn leavings(tasks: Seq<Task>) -> nat
    decreases tasks.len(),
{
    if tasks.len() == 0 {
        0
    } else {
        leavings(tasks.drop_last()) + if tasks.last() is Restore {
            1nat
        } else {
            0nat
        }
    }
}

/// A state in which no task will want for a value, and in which something
/// has been set aside for every procedure that is still to be left.
pub open spec fn balanced(state: State) -> bool {
    &&& supplied(state.tasks, state.values.len() + brings(state.pending))
    &&& leavings(state.tasks) == state.scopes.len()
}

proof fn lemma_supplied_push(tasks: Seq<Task>, task: Task, height: int)
    ensures
        supplied(tasks.push(task), height) == (height >= takes(task) && supplied(
            tasks,
            height - takes(task) + leaves(task),
        )),
        leavings(tasks.push(task)) == leavings(tasks) + if task is Restore {
            1nat
        } else {
            0nat
        },
{
    assert(tasks.push(task).drop_last() =~= tasks);
}

proof fn lemma_supplied_evaluations<'a>(
    tasks: Seq<Task<'a>>,
    arguments: &'a Vec<Value>,
    count: int,
    height: int,
)
    requires
        0 <= count <= arguments@.len(),
        0 <= height,
    ensures
        supplied(tasks + evaluations(arguments).take(count), height) == supplied(
            tasks,
            height + count,
        ),
        leavings(tasks + evaluations(arguments).take(count)) == leavings(tasks),
    decreases count,
{
    let all = evaluations(arguments);
    if count == 0 {
        assert(tasks + all.take(0) =~= tasks);
    } else {
        let shorter = tasks + all.take(count - 1);
        assert(tasks + all.take(count) =~= shorter.push(all[count - 1]));
        lemma_supplied_push(shorter, all[count - 1], height);
        lemma_supplied_evaluations(tasks, arguments, count - 1, height + 1);
    }
}

/// A run starts balanced.
pub proof fn initial_is_balanced<'a>(statements: &'a Vec<Statement>, turtle: Turtle)
    ensures
        balanced(initial(statements, turtle)),
{
    let start = initial(statements, turtle);
    assert(start.tasks.drop_last() =~= Seq::<Task>::empty());
    assert(supplied(start.tasks.drop_last(), 0));
    assert(leavings(start.tasks.drop_last()) == 0);
}

proof fn lemma_begin_call<'a>(
    state: State<'a>,
    call: &'a CallExpression,
    needed: bool,
    height: int,
)
    requires
        begin_call(state, call, needed).1 is Ok,
        height >= 0,
        supplied(
            state.tasks,
            height + if needed {
                1int
            } else {
                0int
            },
        ),
    ensures
        ({
            let (after, _) = begin_call(state, call, needed);
            &&& after.pending == state.pending
            &&& after.scopes == state.scopes
            &&& leavings(after.tasks) == leavings(state.tasks)
            &&& supplied(after.tasks, height + after.values.len() - state.values.len())
        }),
{
    let (after, _) = begin_call(state, call, needed);
    let rest = if needed {
        state.tasks.push(Task::Missing)
    } else {
        state.tasks
    };
    lemma_supplied_push(state.tasks, Task::Missing, height);
    assert(supplied(rest, height));
    assert(leavings(rest) == leavings(state.tasks));
    if state.procedures.contains_key(call.callee.name()) {
        let enter = Task::Invoke(state.procedures[call.callee.name()], call.arguments.len());
        vstd::std_specs::vec::axiom_spec_len(&call.arguments);
        let count = call.arguments@.len() as int;
        assert(evaluations(&call.arguments).take(count) =~= evaluations(&call.arguments));
        lemma_supplied_evaluations(rest.push(enter), &call.arguments, count, height);
        lemma_supplied_push(rest, enter, height + count);
    } else {
        match call.callee {
            Callee::Command(name) => {
                if call.arguments@.len() > 0 {
                    let first = Task::Evaluate(&call.arguments@[0]);
                    lemma_supplied_push(rest.push(Task::Command(name)), first, height);
                    lemma_supplied_push(rest, Task::Command(name), height + 1);
                }
            },
            _ => {},
        }
    }
}

/// A step keeps the balance, whether it fails or not.
pub proof fn step_keeps_balance<'a>(state: State<'a>, reply: Reply)
    requires
        balanced(state),
    ensures
        balanced(step(state, reply).0),
{
    let (after, outcome) = step(state, reply);
    let height = state.values.len() + brings(state.pending);
    if outcome is Err {
        assert(after.tasks =~= Seq::<Task>::empty());
    } else if state.pending != Pending::Nothing {
    } else if state.tasks.len() == 0 {
    } else {
        let task = state.tasks.last();
        let rest = state.tasks.drop_last();
        let popped = State { tasks: rest, ..state };
        let low = height - takes(task);
        assert(supplied(rest, low + leaves(task)));
        match task {
            Task::Block(statements, next) => {
                if next < statements@.len() {
                    let again = Task::Block(statements, (next + 1) as usize);
                    lemma_supplied_push(rest, again, height);
                    let pushed = State { tasks: rest.push(again), ..popped };
                    match &statements@[next as int] {
                        Statement::CallExpression(call) => {
                            lemma_begin_call(pushed, call, false, height);
                        },
                        Statement::AssignmentExpression(assign) => {
                            let store = if assign.operation == AssignmentType::Make {
                                Task::Store(&assign.left)
                            } else {
                                Task::AddStore(&assign.left)
                            };
                            lemma_supplied_push(
                                pushed.tasks.push(store),
                                Task::Evaluate(&assign.right),
                                height,
                            );
                            lemma_supplied_push(pushed.tasks, store, height + 1);
                        },
                        Statement::If(branch) => {
                            lemma_supplied_push(
                                pushed.tasks.push(Task::Branch(&branch.consequent)),
                                Task::Evaluate(&branch.test),
                                height,
                            );
                            lemma_supplied_push(
                                pushed.tasks,
                                Task::Branch(&branch.consequent),
                                height + 1,
                            );
                        },
                        Statement::While(repeat) => {
                            lemma_supplied_push(
                                pushed.tasks.push(Task::Repeat(repeat)),
                                Task::Evaluate(&repeat.test),
                                height,
                            );
                            lemma_supplied_push(pushed.tasks, Task::Repeat(repeat), height + 1);
                        },
                        Statement::ProcedureDeclaration(_) => {},
                    }
                }
            },
            Task::Evaluate(value) => {
                match value {
                    Value::Statement(call) => {
                        lemma_begin_call(popped, &**call, true, height);
                    },
                    Value::BinaryExpression(binary) => {
                        let operate = Task::Apply(binary.operation);
                        let right = Task::Evaluate(&binary.right);
                        let left = Task::Evaluate(&binary.left);
                        lemma_supplied_push(rest.push(operate).push(right), left, height);
                        lemma_supplied_push(rest.push(operate), right, height + 1);
                        lemma_supplied_push(rest, operate, height + 2);
                    },
                    _ => {},
                }
            },
            Task::Apply(operation) => {
                lemma_supplied_push(rest, Task::Apply(operation), height);
            },
            Task::Store(_) => {},
            Task::AddStore(name) => {
                let sum = Task::Apply(BinaryOperation::Calculation(CalculationOperation::Plus));
                lemma_supplied_push(rest.push(Task::Store(name)), sum, height + 1);
                lemma_supplied_push(rest, Task::Store(name), height);
            },
            Task::Branch(body) => {
                lemma_supplied_push(rest, Task::Block(body, 0), low);
            },
            Task::Repeat(repeat) => {
                let again = Task::Repeat(repeat);
                let test = Task::Evaluate(&repeat.test);
                let body = Task::Block(&repeat.body, 0);
                lemma_supplied_push(rest.push(again).push(test), body, low);
                lemma_supplied_push(rest.push(again), test, low);
                lemma_supplied_push(rest, again, low + 1);
            },
            Task::Command(name) => {
                lemma_supplied_push(rest, Task::Command(name), height);
                match command_outcome(name, state.values.last(), state.turtle) {
                    Ok((Outcome::Whole(number), _)) => {
                        lemma_supplied_push(rest, Task::Truncated(name, number), height);
                    },
                    _ => {},
                }
            },
            Task::Truncated(name, number) => {
                match state.values.last() {
                    ValueType::Int(whole) => {
                        lemma_supplied_push(rest, Task::Rounded(name, number, whole), height);
                    },
                    _ => {},
                }
            },
            Task::Rounded(name, number, whole) => {
                lemma_supplied_push(rest, Task::Exact(name, whole), height);
            },
            Task::Exact(name, whole) => {
                lemma_supplied_push(rest, Task::Command(name), height);
            },
            Task::Invoke(procedure, count) => {
                lemma_supplied_push(
                    rest.push(Task::Restore(procedure)),
                    Task::Block(procedure.body, 0),
                    low,
                );
                lemma_supplied_push(rest, Task::Restore(procedure), low);
            },
            Task::Restore(_) => {},
            Task::Missing => {},
        }
    }
}

/// In a balanced state no task wants for a value: a step says that a value
/// is missing only where a call that gives none stands where one is needed.
pub proof fn balance_supplies<'a>(state: State<'a>, reply: Reply)
    requires
        balanced(state),
        step(state, reply).1 == Err::<Action, LogoError>(LogoError::MissingResultError),
    ensures
        state.pending == Pending::Nothing,
        state.tasks.len() > 0,
        state.tasks.last() == Task::<'a>::Missing,
{
}

/// The state after a run of steps, one for each of the answers given.
pub open spec fn after<'a>(state: State<'a>, replies: Seq<Reply>) -> State<'a>
    decreases replies.len(),
{
    if replies.len() == 0 {
        state
    } else {
        step(after(state, replies.drop_last()), replies.last()).0
    }
}

/// Every state of a run is balanced, whatever the answers given on the way.
pub proof fn runs_stay_balanced<'a>(
    statements: &'a Vec<Statement>,
    turtle: Turtle,
    replies: Seq<Reply>,
)
    ensures
        balanced(after(initial(statements, turtle), replies)),
    decreases replies.len(),
{
    if replies.len() == 0 {
        initial_is_balanced(statements, turtle);
    } else {
        runs_stay_balanced(statements, turtle, replies.drop_last());
        step_keeps_balance(
            after(initial(statements, turtle), replies.drop_last()),
            replies.last(),
        );
    }
}

} // verus!
