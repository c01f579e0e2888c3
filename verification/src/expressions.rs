//! Expressions that need no answer from outside: the steps work out what
//! the tree of the expression says.

use vstd::prelude::*;
use crate::ast::{Literal, Value};
use crate::error::LogoError;
use crate::semantics::{calculation, halted, step, Action, Calculated, Pending, Reply, State, Task};
use crate::tokens::IdentifierType;

verus! {

/// The value of an expression made of literals, variables and operators,
/// read off its tree: the left operand first, then the right one, then the
/// operator. `None` where the expression holds a call or a decimal literal,
/// or where an operator meets a single-precision number, so that an answer
/// from outside is needed.
pub open spec fn plain_value(value: Value, variables: Map<Seq<char>, Literal>) -> Option<
    Result<Literal, LogoError>,
>
    decreases value,
{
    match value {
        Value::Literal(literal) => Some(Ok(literal)),
        Value::Identifier(IdentifierType::Variable(name)) => Some(
            if variables.contains_key(name@) {
                Ok(variables[name@])
            } else {
                Err(LogoError::UndefinedVariableError)
            },
        ),
        Value::Identifier(IdentifierType::Procedure(_)) => Some(Err(LogoError::SyntaxError)),
        Value::BinaryExpression(binary) => match plain_value(binary.left, variables) {
            Some(Ok(left)) => match plain_value(binary.right, variables) {
                Some(Ok(right)) => match calculation(binary.operation, left, right) {
                    Ok(Calculated::Value(result)) => Some(Ok(result)),
                    Err(error) => Some(Err(error)),
                    _ => None,
                },
                other => other,
            },
            other => other,
        },
        _ => None,
    }
}

/// How many steps working out such an expression takes, up to and with the
/// step that puts its value on the values, or the step that fails.
pub open spec fn plain_steps(value: Value, variables: Map<Seq<char>, Literal>) -> nat
    decreases value,
{
    match value {
        Value::BinaryExpression(binary) => match plain_value(binary.left, variables) {
            Some(Ok(_)) => match plain_value(binary.right, variables) {
                Some(Ok(_)) => 1 + plain_steps(binary.left, variables) + plain_steps(
                    binary.right,
                    variables,
                ) + 1,
                _ => 1 + plain_steps(binary.left, variables) + plain_steps(
                    binary.right,
                    variables,
                ),
            },
            _ => 1 + plain_steps(binary.left, variables),
        },
        _ => 1,
    }
}

/// The state after `count` steps, none of which is given an answer.
pub open spec fn settled<'a>(state: State<'a>, count: nat) -> State<'a>
    decreases count,
{
    if count == 0 {
        state
    } else {
        step(settled(state, (count - 1) as nat), Reply::Nothing).0
    }
}

/// What the last of `count` such steps comes to.
pub open spec fn settled_outcome<'a>(state: State<'a>, count: nat) -> Result<Action, LogoError>
    recommends
        count > 0,
{
    step(settled(state, (count - 1) as nat), Reply::Nothing).1
}

proof fn lemma_settled_sum<'a>(state: State<'a>, first: nat, second: nat)
    ensures
        settled(state, first + second) == settled(settled(state, first), second),
        second > 0 ==> settled_outcome(state, first + second) == settled_outcome(
            settled(state, first),
            second,
        ),
    decreases second,
{
    if second > 0 {
        lemma_settled_sum(state, first, (second - 1) as nat);
    }
}

/// Whether working out `value` in `state` ended as `expected`: with the
/// value on the values and the task done, all else as it was; or with the
/// failure, and the run halted.
pub open spec fn worked_out<'a>(
    state: State<'a>,
    after: State<'a>,
    outcome: Result<Action, LogoError>,
    expected: Result<Literal, LogoError>,
) -> bool {
    match expected {
        Ok(result) => {
            &&& outcome == Ok::<Action, LogoError>(Action::Continue)
            &&& after == (State {
                tasks: state.tasks.drop_last(),
                values: state.values.push(result),
                ..state
            })
        },
        Err(error) => {
            &&& outcome == Err::<Action, LogoError>(error)
            &&& after == halted(state)
        },
    }
}

/// The steps work out what the tree says. Where the next task is to work
/// out an expression that needs no answer from outside, the evaluator takes
/// as many steps as the expression counts, asks for nothing on the way, and
/// ends with the value of the expression on the values and nothing else
/// changed; or, where the expression fails, with that failure.
#[verifier::rlimit(40)]
pub proof fn steps_work_out_the_tree<'a>(state: State<'a>, value: &'a Value)
    requires
        state.pending == Pending::Nothing,
        state.tasks.len() > 0,
        state.tasks.last() == Task::Evaluate(value),
        plain_value(*value, state.variables) is Some,
    ensures
        plain_steps(*value, state.variables) > 0,
        worked_out(
            state,
            settled(state, plain_steps(*value, state.variables)),
            settled_outcome(state, plain_steps(*value, state.variables)),
            plain_value(*value, state.variables)->0,
        ),
    decreases *value,
{
    let variables = state.variables;
    let rest = state.tasks.drop_last();
    assert(settled(state, 0) == state);
    let (first, started) = step(state, Reply::Nothing);
    assert(settled(state, 1) == first);
    match value {
        Value::BinaryExpression(binary) => {
            assert(first.tasks.drop_last() =~= rest.push(Task::Apply(binary.operation)).push(
                Task::Evaluate(&binary.right),
            ));
            let left_steps = plain_steps(binary.left, variables);
            steps_work_out_the_tree(first, &binary.left);
            lemma_settled_sum(state, 1, left_steps);
            let second = settled(first, left_steps);
            match plain_value(binary.left, variables) {
                Some(Ok(left)) => {
                    assert(second.tasks.drop_last() =~= rest.push(Task::Apply(binary.operation)));
                    let right_steps = plain_steps(binary.right, variables);
                    steps_work_out_the_tree(second, &binary.right);
                    lemma_settled_sum(state, 1 + left_steps, right_steps);
                    let third = settled(second, right_steps);
                    match plain_value(binary.right, variables) {
                        Some(Ok(right)) => {
                            assert(third.tasks.drop_last() =~= rest);
                            assert(third.values.drop_last().drop_last() =~= state.values);
                            lemma_settled_sum(state, 1 + left_steps + right_steps, 1);
                            assert(settled(third, 1) == step(third, Reply::Nothing).0);
                            assert(settled(third, 0) == third);
                        },
                        _ => {},
                    }
                },
                _ => {},
            }
        },
        _ => {},
    }
}

} // verus!
