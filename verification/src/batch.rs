//! Running every item of a batch and keeping every outcome: the items that
//! were made, and the failures of those that were not.

use vstd::prelude::*;
use crate::errors::ErrorView;
use crate::errors::SubparError;
use crate::errors::error_views;

verus! {

/// The values of those of `outcomes` that succeeded, in order.
pub open spec fn successes<T>(outcomes: Seq<Result<T, SubparError>>) -> Seq<T>
    decreases outcomes.len(),
{
    if outcomes.len() == 0 {
        Seq::empty()
    } else {
        match outcomes.last() {
            Ok(v) => successes(outcomes.drop_last()).push(v),
            Err(_) => successes(outcomes.drop_last()),
        }
    }
}

/// What those of `outcomes` that failed say, in order.
pub open spec fn failures<T>(outcomes: Seq<Result<T, SubparError>>) -> Seq<ErrorView>
    decreases outcomes.len(),
{
    if outcomes.len() == 0 {
        Seq::empty()
    } else {
        match outcomes.last() {
            Ok(_) => failures(outcomes.drop_last()),
            Err(e) => failures(outcomes.drop_last()).push(e@),
        }
    }
}

/// No item of a batch is dropped: each outcome is one of the successes or
/// one of the failures.
pub proof fn nothing_is_dropped<T>(outcomes: Seq<Result<T, SubparError>>)
    ensures
        successes(outcomes).len() + failures(outcomes).len() == outcomes.len(),
    decreases outcomes.len(),
{
    if outcomes.len() > 0 {
        nothing_is_dropped(outcomes.drop_last());
    }
}

/// Successes and failures keep the order of the batch: what two batches
/// give, one after the other, is what the two give as one batch.
pub proof fn order_is_kept<T>(
    first: Seq<Result<T, SubparError>>,
    second: Seq<Result<T, SubparError>>,
)
    ensures
        successes(first + second) == successes(first) + successes(second),
        failures(first + second) == failures(first) + failures(second),
    decreases second.len(),
{
    if second.len() == 0 {
        assert(first + second == first);
        assert(successes(first) + successes(second) =~= successes(first));
        assert(failures(first) + failures(second) =~= failures(first));
    } else {
        order_is_kept(first, second.drop_last());
        assert((first + second).drop_last() == first + second.drop_last());
        assert((first + second).last() == second.last());
        match second.last() {
            Ok(v) => {
                assert((successes(first) + successes(second.drop_last())).push(v) =~= successes(
                    first,
                ) + successes(second));
            },
            Err(e) => {
                assert((failures(first) + failures(second.drop_last())).push(e@) =~= failures(first)
                    + failures(second));
            },
        }
    }
}

/// The failures of a batch, in the order in which they were met, with a word
/// on what the batch was.
#[derive(Clone, PartialEq, Eq, Debug)]
pub struct ErrorGroup {
    pub context: String,
    pub errors: Vec<SubparError>,
}

impl ErrorGroup {
    /// How many failures the group holds.
    pub fn len(&self) -> (n: usize)
        ensures
            n == self.errors@.len(),
    {
        self.errors.len()
    }

    /// Splits `outcomes` into the values of those that succeeded and, where
    /// any failed, the group of all failures.
    pub fn unwrap_all<T>(outcomes: Vec<Result<T, SubparError>>) -> (parts: (
        Vec<T>,
        Option<ErrorGroup>,
    ))
        ensures
            parts.0@ == successes(outcomes@),
            parts.1 is Some <==> failures(outcomes@).len() > 0,
            parts.1 matches Some(group) ==> error_views(group.errors@) == failures(outcomes@),
    {
        let mut split: SplitResult<T> = SplitResult::new();
        let ghost all = outcomes@;
        for outcome in it: outcomes
            invariant
                it.seq() == all,
                split.items@ == successes(all.take(it.index() as int)),
                error_views(split.errors@) == failures(all.take(it.index() as int)),
        {
            proof {
                let i = it.index() as int;
                assert(all.take(i + 1).drop_last() == all.take(i));
                assert(all.take(i + 1).last() == outcome);
            }
            split.push(outcome);
        }
        assert(all.take(all.len() as int) == all);
        split.into_parts("")
    }
}

/// The two sides of a batch: what was made, and what failed.
#[derive(Debug)]
pub struct SplitResult<T> {
    pub items: Vec<T>,
    pub errors: Vec<SubparError>,
}

impl<T> SplitResult<T> {
    /// A batch of which nothing has been seen yet.
    pub fn new() -> (split: SplitResult<T>)
        ensures
            split.items@ == Seq::<T>::empty(),
            split.errors@ == Seq::<SubparError>::empty(),
            error_views(split.errors@) == Seq::<ErrorView>::empty(),
    {
        let split = SplitResult { items: Vec::new(), errors: Vec::new() };
        assert(error_views(split.errors@) =~= Seq::<ErrorView>::empty());
        split
    }

    /// Takes one more outcome to its side.
    pub fn push(&mut self, outcome: Result<T, SubparError>)
        ensures
            match outcome {
                Ok(v) => final(self).items@ == old(self).items@.push(v) && final(self).errors@
                    == old(self).errors@,
                Err(e) => final(self).items@ == old(self).items@ && final(self).errors@ == old(
                    self,
                ).errors@.push(e) && error_views(final(self).errors@) == error_views(
                    old(self).errors@,
                ).push(e@),
            },
    {
        match outcome {
            Ok(v) => {
                self.items.push(v);
            },
            Err(e) => {
                self.errors.push(e);
                assert(error_views(self.errors@) =~= error_views(old(self).errors@).push(e@));
            },
        }
    }

    /// Whether anything failed.
    pub fn has_errors(&self) -> (failed: bool)
        ensures
            failed == (self.errors@.len() > 0),
    {
        self.errors.len() > 0
    }

    /// Runs `op` on every one of `inputs`, in order, and keeps every
    /// outcome. A failure stops nothing.
    pub fn map<I, F: Fn(&I) -> Result<T, SubparError>>(inputs: &Vec<I>, op: F) -> (split:
        SplitResult<T>)
        requires
            forall|i: int| 0 <= i < inputs@.len() ==> call_requires(op, (&#[trigger] inputs@[i],)),
        ensures
            exists|outcomes: Seq<Result<T, SubparError>>|
                {
                    &&& outcomes.len() == inputs@.len()
                    &&& forall|i: int|
                        0 <= i < inputs@.len() ==> call_ensures(
                            op,
                            (&inputs@[i],),
                            #[trigger] outcomes[i],
                        )
                    &&& split.items@ == successes(outcomes)
                    &&& error_views(split.errors@) == failures(outcomes)
                },
            split.items@.len() + split.errors@.len() == inputs@.len(),
    {
        let mut split: SplitResult<T> = SplitResult::new();
        let ghost mut outcomes: Seq<Result<T, SubparError>> = Seq::empty();
        let mut i: usize = 0;
        while i < inputs.len()
            invariant
                i <= inputs@.len(),
                forall|k: int|
                    0 <= k < inputs@.len() ==> call_requires(op, (&#[trigger] inputs@[k],)),
                outcomes.len() == i,
                forall|k: int|
                    0 <= k < i ==> call_ensures(op, (&inputs@[k],), #[trigger] outcomes[k]),
                split.items@ == successes(outcomes),
                error_views(split.errors@) == failures(outcomes),
            decreases inputs@.len() - i,
        {
            let outcome = op(&inputs[i]);
            proof {
                let before = outcomes;
                outcomes = outcomes.push(outcome);
                assert(outcomes.drop_last() == before);
            }
            split.push(outcome);
            i = i + 1;
        }
        proof {
            nothing_is_dropped(outcomes);
            assert(error_views(split.errors@).len() == split.errors@.len());
        }
        split
    }

    /// The two sides, for a caller that takes what was made and reports the
    /// rest: the failures are there exactly where something failed.
    pub fn into_parts(self, context: &str) -> (parts: (Vec<T>, Option<ErrorGroup>))
        ensures
            parts.0 == self.items,
            parts.1 is Some <==> self.errors@.len() > 0,
            parts.1 matches Some(group) ==> group.errors == self.errors && group.context@
                == context@,
    {
        if self.errors.len() > 0 {
            (self.items, Some(ErrorGroup { context: context.to_owned(), errors: self.errors }))
        } else {
            (self.items, None)
        }
    }

    /// The items, for a caller to whom any failure fails the batch: then
    /// the group of all failures comes back in their place.
    pub fn as_result(self, context: &str) -> (all: Result<Vec<T>, ErrorGroup>)
        ensures
            match all {
                Ok(items) => self.errors@.len() == 0 && items == self.items,
                Err(group) => self.errors@.len() > 0 && group.errors == self.errors
                    && group.context@ == context@,
            },
    {
        if self.errors.len() > 0 {
            Err(ErrorGroup { context: context.to_owned(), errors: self.errors })
        } else {
            Ok(self.items)
        }
    }
}

/// Runs `op` on every one of `items`, in order, whatever fails, and hands
/// back both sides: what was made, and the group of all failures exactly
/// where something failed. What a failure means is left to the caller.
pub fn fold_all<I, T, F: Fn(&I) -> Result<T, SubparError>>(items: &Vec<I>, op: F) -> (parts: (
    Vec<T>,
    Option<ErrorGroup>,
))
    requires
        forall|i: int| 0 <= i < items@.len() ==> call_requires(op, (&#[trigger] items@[i],)),
    ensures
        exists|outcomes: Seq<Result<T, SubparError>>|
            {
                &&& outcomes.len() == items@.len()
                &&& forall|i: int|
                    0 <= i < items@.len() ==> call_ensures(op, (&items@[i],), #[trigger] outcomes[i])
                &&& parts.0@ == successes(outcomes)
                &&& parts.1 is Some <==> failures(outcomes).len() > 0
                &&& parts.1 matches Some(group) ==> error_views(group.errors@) == failures(outcomes)
            },
        parts.0@.len() + (match parts.1 {
            Some(group) => group.errors@.len(),
            None => 0,
        }) == items@.len(),
{
    let split = SplitResult::map(items, op);
    proof {
        assert(error_views(split.errors@).len() == split.errors@.len());
    }
    split.into_parts("")
}

} // verus!
