//! Entering and leaving a procedure: the parameters take the place of the
//! variables of the same names, which come back when the call is over.

use vstd::prelude::*;
use crate::ast::{name_views, Statement};
use crate::commands::{Literal, Procedure};
use crate::heap::Heap;
use crate::table::Table;

verus! {

/// The variables after the first `count` parameters have been given their
/// arguments, in order.
pub open spec fn bound(
    variables: Map<Seq<char>, Literal>,
    formals: Seq<Seq<char>>,
    actuals: Seq<Literal>,
    count: nat,
) -> Map<Seq<char>, Literal>
    decreases count,
{
    if count == 0 || count > formals.len() || count > actuals.len() {
        variables
    } else {
        bound(variables, formals, actuals, (count - 1) as nat).insert(
            formals[count - 1],
            actuals[count - 1],
        )
    }
}

/// How many parameters get an argument: as many as there are of both.
pub open spec fn paired(formals: Seq<Seq<char>>, actuals: Seq<Literal>) -> nat {
    if formals.len() <= actuals.len() {
        formals.len()
    } else {
        actuals.len()
    }
}

/// What a call sets aside: the variables that have a parameter's name.
pub open spec fn set_aside(variables: Map<Seq<char>, Literal>, formals: Seq<Seq<char>>) -> Map<
    Seq<char>,
    Literal,
> {
    variables.restrict(formals.to_set())
}

/// The variables as a procedure's body first sees them: those with a
/// parameter's name are taken out, then each parameter that has an argument
/// is bound to it.
pub open spec fn entered(
    variables: Map<Seq<char>, Literal>,
    formals: Seq<Seq<char>>,
    actuals: Seq<Literal>,
) -> Map<Seq<char>, Literal> {
    bound(variables.remove_keys(formals.to_set()), formals, actuals, paired(formals, actuals))
}

/// The variables after a call: what was set aside is put back over whatever
/// the body left.
pub open spec fn left(variables: Map<Seq<char>, Literal>, aside: Map<Seq<char>, Literal>) -> Map<
    Seq<char>,
    Literal,
> {
    variables.union_prefer_right(aside)
}

impl<'a> Procedure<'a> {
    pub fn new(arguments: &'a Vec<String>, body: &'a Vec<Statement>) -> (made: Procedure<'a>)
        ensures
            made == (Procedure { arguments, body }),
    {
        Procedure { arguments, body }
    }

    /// Enters the procedure: sets aside the variables that have a
    /// parameter's name and binds the parameters to the arguments. Gives
    /// what was set aside.
    pub fn call(&self, args: &Vec<Literal>, heap: &mut Heap) -> (aside: Table<Literal>)
        ensures
            aside@ == set_aside(old(heap).variables@, name_views(self.arguments@)),
            final(heap).variables@ == entered(
                old(heap).variables@,
                name_views(self.arguments@),
                args@,
            ),
            final(heap).callables == old(heap).callables,
            final(heap).turtle == old(heap).turtle,
    {
        let aside = self.handel_variable_conflicts(heap);
        self.push_arguments(heap, args);
        aside
    }

    /// Takes out the variables that have a parameter's name, and gives them.
    fn handel_variable_conflicts(&self, heap: &mut Heap) -> (aside: Table<Literal>)
        ensures
            aside@ == set_aside(old(heap).variables@, name_views(self.arguments@)),
            final(heap).variables@ == old(heap).variables@.remove_keys(
                name_views(self.arguments@).to_set(),
            ),
            final(heap).callables == old(heap).callables,
            final(heap).turtle == old(heap).turtle,
    {
        let ghost formals = name_views(self.arguments@);
        let ghost before = heap.variables@;
        let mut buf: Table<Literal> = Table::new();
        let mut i: usize = 0;
        assert(formals.take(0).to_set() =~= Set::<Seq<char>>::empty());
        assert(before.remove_keys(Set::<Seq<char>>::empty()) =~= before);
        assert(before.restrict(Set::<Seq<char>>::empty()) =~= Map::<Seq<char>, Literal>::empty());
        while i < self.arguments.len()
            invariant
                i <= self.arguments@.len(),
                formals == name_views(self.arguments@),
                before == old(heap).variables@,
                heap.variables@ == before.remove_keys(formals.take(i as int).to_set()),
                buf@ == before.restrict(formals.take(i as int).to_set()),
                heap.callables == old(heap).callables,
                heap.turtle == old(heap).turtle,
            decreases self.arguments@.len() - i,
        {
            let arg = &self.arguments[i];
            let ghost seen = formals.take(i as int).to_set();
            let value = heap.variables.remove(arg);
            proof {
                assert(formals[i as int] == arg@);
                assert(formals.take(i + 1) =~= formals.take(i as int).push(arg@));
                formals.take(i as int).lemma_push_to_set_commute(arg@);
                assert(heap.variables@ =~= before.remove_keys(seen.insert(arg@)));
            }
            if let Some(value) = value {
                buf.insert(arg.clone(), value);
                assert(buf@ =~= before.restrict(seen.insert(arg@)));
            } else {
                assert(buf@ =~= before.restrict(seen.insert(arg@)));
            }
            i += 1;
        }
        assert(formals.take(self.arguments@.len() as int) =~= formals);
        buf
    }

    /// Puts back what a call has set aside.
    pub fn recovry_conflicted_variable(&self, heap: &mut Heap, buf: Table<Literal>)
        ensures
            final(heap).variables@ == left(old(heap).variables@, buf@),
            final(heap).callables == old(heap).callables,
            final(heap).turtle == old(heap).turtle,
    {
        buf.pour_into(&mut heap.variables);
    }

    /// Binds each parameter that has an argument to it.
    fn push_arguments(&self, heap: &mut Heap, args: &Vec<Literal>)
        ensures
            final(heap).variables@ == bound(
                old(heap).variables@,
                name_views(self.arguments@),
                args@,
                paired(name_views(self.arguments@), args@),
            ),
            final(heap).callables == old(heap).callables,
            final(heap).turtle == old(heap).turtle,
    {
        let ghost formals = name_views(self.arguments@);
        let mut i: usize = 0;
        while i < self.arguments.len() && i < args.len()
            invariant
                i <= self.arguments@.len(),
                i <= args@.len(),
                formals == name_views(self.arguments@),
                heap.variables@ == bound(old(heap).variables@, formals, args@, i as nat),
                heap.callables == old(heap).callables,
                heap.turtle == old(heap).turtle,
            decreases self.arguments@.len() - i,
        {
            heap.variables.insert(self.arguments[i].clone(), args[i]);
            i += 1;
        }
    }
}

/// A call gives back every variable that it set aside: whatever the body
/// left in `during`, a parameter's name that was bound before the call is
/// bound to the same value after it.
pub proof fn call_restores(
    variables: Map<Seq<char>, Literal>,
    formals: Seq<Seq<char>>,
    during: Map<Seq<char>, Literal>,
    name: Seq<char>,
)
    requires
        formals.contains(name),
        variables.contains_key(name),
    ensures
        left(during, set_aside(variables, formals)).contains_key(name),
        left(during, set_aside(variables, formals))[name] == variables[name],
{
}

/// A call leaves alone what is no parameter: a name that no parameter has
/// is bound after the call as the body left it.
pub proof fn call_keeps(
    variables: Map<Seq<char>, Literal>,
    formals: Seq<Seq<char>>,
    during: Map<Seq<char>, Literal>,
    name: Seq<char>,
)
    requires
        !formals.contains(name),
    ensures
        left(during, set_aside(variables, formals)).contains_key(name) == during.contains_key(
            name,
        ),
        during.contains_key(name) ==> left(during, set_aside(variables, formals))[name]
            == during[name],
{
}

/// A parameter that was not bound before the call stays bound after it, if
/// the body left it bound: nothing takes it out again.
pub proof fn call_leaves_new_names(
    variables: Map<Seq<char>, Literal>,
    formals: Seq<Seq<char>>,
    during: Map<Seq<char>, Literal>,
    name: Seq<char>,
)
    requires
        formals.contains(name),
        !variables.contains_key(name),
        during.contains_key(name),
    ensures
        left(during, set_aside(variables, formals)).contains_key(name),
        left(during, set_aside(variables, formals))[name] == during[name],
{
}

/// On entry, each parameter that has an argument is bound to it, unless a
/// later parameter has the same name.
pub proof fn call_binds(
    variables: Map<Seq<char>, Literal>,
    formals: Seq<Seq<char>>,
    actuals: Seq<Literal>,
    i: int,
)
    requires
        0 <= i < paired(formals, actuals),
        forall|j: int| i < j < paired(formals, actuals) ==> formals[j] != formals[i],
    ensures
        entered(variables, formals, actuals).contains_key(formals[i]),
        entered(variables, formals, actuals)[formals[i]] == actuals[i],
{
    lemma_bound(
        variables.remove_keys(formals.to_set()),
        formals,
        actuals,
        paired(formals, actuals),
        i,
    );
}

proof fn lemma_bound(
    variables: Map<Seq<char>, Literal>,
    formals: Seq<Seq<char>>,
    actuals: Seq<Literal>,
    count: nat,
    i: int,
)
    requires
        0 <= i < count,
        count <= formals.len(),
        count <= actuals.len(),
        forall|j: int| i < j < count ==> formals[j] != formals[i],
    ensures
        bound(variables, formals, actuals, count).contains_key(formals[i]),
        bound(variables, formals, actuals, count)[formals[i]] == actuals[i],
    decreases count,
{
    if i < count - 1 {
        lemma_bound(variables, formals, actuals, (count - 1) as nat, i);
    }
}

} // verus!
