//! What a call does to the variables, seen over the whole of the call.

use vstd::prelude::*;
use crate::ast::{name_views, CallExpression, Statement, Value};
use crate::balance::{after, balanced, leavings, step_keeps_balance};
use crate::commands::procedure::{left, set_aside};
use crate::commands::Procedure;
use crate::semantics::{begin_call, halted, step, unwound, Pending, Reply, State, Task};
use crate::tokens::ValueType;

verus! {

/// Whether a call is under way in `state`: the task that leaves `procedure`
/// stands at index `at`, under work that is still to be done, and what the
/// call set aside is the entry `scope` of the scopes.
pub open spec fn under_way<'a>(
    state: State<'a>,
    procedure: Procedure<'a>,
    at: int,
    scope: int,
    aside: Map<Seq<char>, ValueType>,
) -> bool {
    &&& balanced(state)
    &&& 0 <= at < state.tasks.len()
    &&& state.tasks[at] == Task::Restore(procedure)
    &&& leavings(state.tasks.take(at + 1)) == scope + 1
    &&& 0 <= scope < state.scopes.len()
    &&& state.scopes[scope] == aside
}

/// Whether the body of the call still runs: work stands above the task that
/// leaves the procedure, or an answer is waited for.
pub open spec fn body_runs(state: State, at: int) -> bool {
    state.tasks.len() > at + 1 || state.pending != Pending::Nothing
}

proof fn lemma_leavings_push(tasks: Seq<Task>, task: Task)
    ensures
        leavings(tasks.push(task)) == leavings(tasks) + if task is Restore {
            1nat
        } else {
            0nat
        },
{
    assert(tasks.push(task).drop_last() =~= tasks);
}

/// The tasks up to an index leave no more procedures than all of them.
proof fn lemma_leavings_prefix(tasks: Seq<Task>, upto: int)
    requires
        0 <= upto <= tasks.len(),
    ensures
        leavings(tasks.take(upto)) <= leavings(tasks),
        upto < tasks.len() && tasks.last() is Restore ==> leavings(tasks.take(upto)) < leavings(
            tasks,
        ),
    decreases tasks.len(),
{
    if upto == tasks.len() {
        assert(tasks.take(upto) =~= tasks);
    } else {
        assert(tasks.drop_last().take(upto) =~= tasks.take(upto));
        lemma_leavings_prefix(tasks.drop_last(), upto);
    }
}

/// A step that does a task leaves the tasks under it as they were.
proof fn lemma_step_keeps_lower_tasks<'a>(state: State<'a>, upto: int)
    requires
        state.pending == Pending::Nothing,
        0 <= upto < state.tasks.len(),
        step(state, Reply::Nothing).1 is Ok,
    ensures
        step(state, Reply::Nothing).0.tasks.len() >= upto,
        step(state, Reply::Nothing).0.tasks.take(upto) == state.tasks.take(upto),
{
    let (next, _) = step(state, Reply::Nothing);
    let rest = state.tasks.drop_last();
    assert(rest.take(upto) =~= state.tasks.take(upto));
    match state.tasks.last() {
        Task::Block(statements, index) => {
            if index < statements@.len() {
                let again = rest.push(Task::Block(statements, (index + 1) as usize));
                match &statements@[index as int] {
                    Statement::CallExpression(call) => {
                        lemma_call_keeps_lower_tasks(
                            State { tasks: again, ..state },
                            call,
                            false,
                            upto,
                        );
                        assert(again.take(upto) =~= rest.take(upto));
                    },
                    _ => {
                        assert(next.tasks.take(upto) =~= rest.take(upto));
                    },
                }
            } else {
                assert(next.tasks.take(upto) =~= rest.take(upto));
            }
        },
        Task::Evaluate(value) => {
            match value {
                Value::Statement(call) => {
                    lemma_call_keeps_lower_tasks(
                        State { tasks: rest, ..state },
                        &**call,
                        true,
                        upto,
                    );
                },
                _ => {
                    assert(next.tasks.take(upto) =~= rest.take(upto));
                },
            }
        },
        _ => {
            assert(next.tasks.take(upto) =~= rest.take(upto));
        },
    }
}

proof fn lemma_call_keeps_lower_tasks<'a>(
    state: State<'a>,
    call: &'a CallExpression,
    needed: bool,
    upto: int,
)
    requires
        0 <= upto <= state.tasks.len(),
        begin_call(state, call, needed).1 is Ok,
    ensures
        begin_call(state, call, needed).0.tasks.len() >= upto,
        begin_call(state, call, needed).0.tasks.take(upto) == state.tasks.take(
            upto,
        ),
        begin_call(state, call, needed).0.scopes == state.scopes,
{
    let (next, _) = begin_call(state, call, needed);
    assert(next.tasks.take(upto) =~= state.tasks.take(upto));
}

/// While the body of a call runs, a step that does not fail leaves the call
/// under way.
proof fn lemma_step_keeps_call<'a>(
    state: State<'a>,
    reply: Reply,
    procedure: Procedure<'a>,
    at: int,
    scope: int,
    aside: Map<Seq<char>, ValueType>,
)
    requires
        under_way(state, procedure, at, scope, aside),
        body_runs(state, at),
        step(state, reply).1 is Ok,
    ensures
        under_way(step(state, reply).0, procedure, at, scope, aside),
{
    let (next, _) = step(state, reply);
    step_keeps_balance(state, reply);
    if state.pending == Pending::Nothing {
        lemma_step_keeps_lower_tasks(state, at + 1);
        assert(next.tasks[at] == next.tasks.take(at + 1)[at]);
        assert(state.tasks[at] == state.tasks.take(at + 1)[at]);
        match state.tasks.last() {
            Task::Restore(_) => {
                lemma_leavings_prefix(state.tasks, at + 1);
            },
            Task::Block(statements, index) => {
                if index < statements@.len() {
                    match &statements@[index as int] {
                        Statement::CallExpression(call) => {
                            lemma_call_keeps_lower_tasks(
                                State {
                                    tasks: state.tasks.drop_last().push(
                                        Task::Block(statements, (index + 1) as usize),
                                    ),
                                    ..state
                                },
                                call,
                                false,
                                0,
                            );
                        },
                        _ => {},
                    }
                }
            },
            Task::Evaluate(value) => {
                match value {
                    Value::Statement(call) => {
                        lemma_call_keeps_lower_tasks(
                            State { tasks: state.tasks.drop_last(), ..state },
                            &**call,
                            true,
                            0,
                        );
                    },
                    _ => {},
                }
            },
            _ => {},
        }
    }
}

/// A call gives back what it set aside. Take a balanced state whose next
/// task enters `procedure`, and any run of steps from it: the first does the
/// entering; from then on the body runs, until in the end only the leaving
/// is left to do. Then the step that leaves puts what was set aside on entry
/// over the variables as the body left them: every variable that had a
/// parameter's name when the call began has its value of then again,
/// whatever the body did to it.
pub proof fn call_gives_back<'a>(
    state: State<'a>,
    procedure: Procedure<'a>,
    count: usize,
    replies: Seq<Reply>,
)
    requires
        balanced(state),
        state.pending == Pending::Nothing,
        state.tasks.len() > 0,
        state.tasks.last() == Task::Invoke(procedure, count),
        replies.len() >= 1,
        replies[0] == Reply::Nothing,
        forall|i: int|
            1 <= i < replies.len() ==> body_runs(
                #[trigger] after(state, replies.take(i)),
                state.tasks.len() - 1,
            ),
        after(state, replies).tasks.len() == state.tasks.len(),
        after(state, replies).pending == Pending::Nothing,
    ensures
        ({
            let formals = name_views(procedure.arguments@);
            let body_left = after(state, replies);
            let back = step(body_left, Reply::Nothing).0;
            &&& body_left.tasks.last() == Task::Restore(procedure)
            &&& back.variables == left(body_left.variables, set_aside(state.variables, formals))
            &&& forall|name: Seq<char>|
                formals.contains(name) && state.variables.contains_key(name)
                    ==> back.variables.contains_key(name) && back.variables[name]
                    == state.variables[name]
        }),
{
    let formals = name_views(procedure.arguments@);
    let aside = set_aside(state.variables, formals);
    let at = state.tasks.len() - 1;
    let scope = state.scopes.len() as int;
    lemma_call_under_way(state, procedure, count, replies, replies.len() as int);
    assert(replies.take(replies.len() as int) =~= replies);
    let body_left = after(state, replies);
    assert(body_left.tasks.take(at + 1) =~= body_left.tasks);
}

/// After the entering and any number of steps of the body, the call is
/// under way.
proof fn lemma_call_under_way<'a>(
    state: State<'a>,
    procedure: Procedure<'a>,
    count: usize,
    replies: Seq<Reply>,
    steps: int,
)
    requires
        balanced(state),
        state.pending == Pending::Nothing,
        state.tasks.len() > 0,
        state.tasks.last() == Task::Invoke(procedure, count),
        replies.len() >= 1,
        replies[0] == Reply::Nothing,
        forall|i: int|
            1 <= i < replies.len() ==> body_runs(
                #[trigger] after(state, replies.take(i)),
                state.tasks.len() - 1,
            ),
        after(state, replies).tasks.len() == state.tasks.len(),
        1 <= steps <= replies.len(),
    ensures
        under_way(
            after(state, replies.take(steps)),
            procedure,
            state.tasks.len() - 1,
            state.scopes.len() as int,
            set_aside(state.variables, name_views(procedure.arguments@)),
        ),
    decreases steps,
{
    let at = state.tasks.len() - 1;
    let scope = state.scopes.len() as int;
    let aside = set_aside(state.variables, name_views(procedure.arguments@));
    let before = after(state, replies.take(steps - 1));
    let now = after(state, replies.take(steps));
    assert(replies.take(steps).drop_last() =~= replies.take(steps - 1));
    assert(replies.take(steps).last() == replies[steps - 1]);
    assert(now == step(before, replies[steps - 1]).0);
    // A step that fails leaves no task, which is neither a running body nor
    // a body that has just come to its end.
    assert(step(before, replies[steps - 1]).1 is Ok) by {
        if step(before, replies[steps - 1]).1 is Err {
            assert(now.tasks.len() == 0);
            assert(now.pending == Pending::Nothing);
            if steps < replies.len() {
                assert(body_runs(after(state, replies.take(steps)), at));
            } else {
                assert(replies.take(steps) =~= replies);
            }
        }
    }
    if steps == 1 {
        assert(replies.take(0) =~= Seq::<Reply>::empty());
        assert(before == state);
        step_keeps_balance(state, Reply::Nothing);
        let rest = state.tasks.drop_last();
        lemma_leavings_push(rest, Task::Restore(procedure));
        assert(state.tasks =~= rest.push(state.tasks.last()));
        lemma_leavings_push(rest, state.tasks.last());
        assert(now.tasks.take(at + 1) =~= rest.push(Task::Restore(procedure)));
    } else {
        lemma_call_under_way(state, procedure, count, replies, steps - 1);
        assert(body_runs(after(state, replies.take(steps - 1)), at));
        lemma_step_keeps_call(before, replies[steps - 1], procedure, at, scope, aside);
    }
}

/// Giving back leaves alone a name that no call has set aside.
pub proof fn unwinding_keeps(
    variables: Map<Seq<char>, ValueType>,
    scopes: Seq<Map<Seq<char>, ValueType>>,
    name: Seq<char>,
)
    requires
        forall|j: int| 0 <= j < scopes.len() ==> !(#[trigger] scopes[j]).contains_key(name),
    ensures
        unwound(variables, scopes).contains_key(name) == variables.contains_key(name),
        variables.contains_key(name) ==> unwound(variables, scopes)[name] == variables[name],
    decreases scopes.len(),
{
    if scopes.len() > 0 {
        assert(!scopes[scopes.len() - 1].contains_key(name));
        assert forall|j: int| 0 <= j < scopes.drop_last().len() implies !(
        #[trigger] scopes.drop_last()[j]).contains_key(name) by {
            assert(!scopes[j].contains_key(name));
        }
        unwinding_keeps(left(variables, scopes.last()), scopes.drop_last(), name);
    }
}

/// A failure gives back what the calls under way have set aside: a name has
/// the value that the outermost of the calls which set it aside found it
/// with.
pub proof fn failure_gives_back<'a>(state: State<'a>, outermost: int, name: Seq<char>)
    requires
        0 <= outermost < state.scopes.len(),
        state.scopes[outermost].contains_key(name),
        forall|j: int| 0 <= j < outermost ==> !(#[trigger] state.scopes[j]).contains_key(name),
    ensures
        halted(state).variables.contains_key(name),
        halted(state).variables[name] == state.scopes[outermost][name],
{
    lemma_unwound(state.variables, state.scopes, outermost, name);
}

proof fn lemma_unwound(
    variables: Map<Seq<char>, ValueType>,
    scopes: Seq<Map<Seq<char>, ValueType>>,
    outermost: int,
    name: Seq<char>,
)
    requires
        0 <= outermost < scopes.len(),
        scopes[outermost].contains_key(name),
        forall|j: int| 0 <= j < outermost ==> !(#[trigger] scopes[j]).contains_key(name),
    ensures
        unwound(variables, scopes).contains_key(name),
        unwound(variables, scopes)[name] == scopes[outermost][name],
    decreases scopes.len(),
{
    let lower = scopes.drop_last();
    let next = left(variables, scopes.last());
    if outermost == scopes.len() - 1 {
        assert forall|j: int| 0 <= j < lower.len() implies !(#[trigger] lower[j]).contains_key(
            name,
        ) by {
            assert(!scopes[j].contains_key(name));
        }
        unwinding_keeps(next, lower, name);
    } else {
        assert(lower[outermost] == scopes[outermost]);
        assert forall|j: int| 0 <= j < outermost implies !(#[trigger] lower[j]).contains_key(
            name,
        ) by {
            assert(!scopes[j].contains_key(name));
        }
        lemma_unwound(next, lower, outermost, name);
    }
}

} // verus!
