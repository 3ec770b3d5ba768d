//! The walk along a chain of causes.

use crate::cause::{Cause, Failure};
use vstd::prelude::*;

verus! {

/// What a chain over `remaining` yields next: the nearest cause with all that
/// lies behind it, or nothing once no cause remains.
pub open spec fn head(remaining: Seq<Seq<char>>) -> Option<Seq<Seq<char>>> {
    if remaining.len() == 0 {
        None
    } else {
        Some(remaining)
    }
}

/// What a chain over `remaining` still holds after one step.
pub open spec fn rest(remaining: Seq<Seq<char>>) -> Seq<Seq<char>> {
    if remaining.len() == 0 {
        remaining
    } else {
        remaining.drop_first()
    }
}

/// What a chain over `remaining` still holds after `steps` steps.
pub open spec fn rest_after(remaining: Seq<Seq<char>>, steps: nat) -> Seq<Seq<char>>
    decreases steps,
{
    if steps == 0 {
        remaining
    } else {
        rest_after(rest(remaining), (steps - 1) as nat)
    }
}

/// The messages of what a step yielded.
pub open spec fn yielded(cause: Option<&Cause>) -> Option<Seq<Seq<char>>> {
    match cause {
        Some(c) => Some(c@),
        None => None,
    }
}

/// A chain over N causes yields N times, each time the cause one level
/// deeper, and from then on nothing.
pub proof fn chain_yields_then_stops(remaining: Seq<Seq<char>>, steps: nat)
    ensures
        steps < remaining.len() ==> head(rest_after(remaining, steps)) == Some(
            remaining.skip(steps as int),
        ),
        steps >= remaining.len() ==> head(rest_after(remaining, steps)) is None,
    decreases steps,
{
    if steps > 0 {
        chain_yields_then_stops(rest(remaining), (steps - 1) as nat);
    }
}

/// A forward walk over an error's causes, nearest first.
///
/// The view is the messages of the causes not yet yielded. A cause is held by
/// value, so a chain is finite: it cannot lead back into itself.
#[derive(Debug)]
pub struct Chain<'a> {
    next: Option<&'a Cause>,
}

impl<'a> View for Chain<'a> {
    type V = Seq<Seq<char>>;

    closed spec fn view(&self) -> Seq<Seq<char>> {
        match self.next {
            Some(c) => c@,
            None => Seq::empty(),
        }
    }
}

impl<'a> Chain<'a> {
    /// The walk that starts at `next`.
    pub fn new(next: Option<&'a Cause>) -> (chain: Self)
        ensures
            chain@ == match next {
                Some(c) => c@,
                None => Seq::empty(),
            },
    {
        Self { next }
    }

    /// Yields the nearest cause not yet yielded and steps on to the cause
    /// that it declares. Once nothing remains it yields nothing, for good.
    pub fn next(&mut self) -> (cause: Option<&'a Cause>)
        ensures
            yielded(cause) == head(old(self)@),
            final(self)@ == rest(old(self)@),
    {
        match self.next {
            Some(c) => {
                proof {
                    c.view_is_nonempty();
                }
                self.next = c.source();
                Some(c)
            },
            None => None,
        }
    }

    /// The deepest cause of the walk: the one that declares no cause.
    pub fn last(self) -> (cause: Option<&'a Cause>)
        ensures
            cause is Some <==> self@.len() > 0,
            cause matches Some(c) ==> c@ == seq![self@.last()],
    {
        let mut chain = self;
        let mut last: Option<&'a Cause> = None;
        let ghost mut taken: int = 0;
        loop
            invariant
                0 <= taken <= self@.len(),
                chain@ == self@.skip(taken),
                last is None <==> taken == 0,
                last matches Some(c) ==> c@ == self@.skip(taken - 1),
            ensures
                taken == self@.len(),
                last is None <==> taken == 0,
                last matches Some(c) ==> c@ == self@.skip(taken - 1),
            decreases chain@.len(),
        {
            match chain.next() {
                Some(c) => {
                    proof {
                        taken = taken + 1;
                    }
                    last = Some(c);
                },
                None => {
                    break ;
                },
            }
        }
        last
    }

    /// Every cause of the walk, nearest first.
    pub fn collect(self) -> (causes: Vec<&'a Cause>)
        ensures
            causes.len() == self@.len(),
            forall|i: int| 0 <= i < causes.len() ==> (#[trigger] causes[i])@ == self@.skip(i),
    {
        let mut chain = self;
        let mut causes: Vec<&'a Cause> = Vec::new();
        loop
            invariant
                causes.len() <= self@.len(),
                chain@ == self@.skip(causes.len() as int),
                forall|i: int| 0 <= i < causes.len() ==> (#[trigger] causes[i])@ == self@.skip(i),
            ensures
                causes.len() == self@.len(),
                forall|i: int| 0 <= i < causes.len() ==> (#[trigger] causes[i])@ == self@.skip(i),
            decreases chain@.len(),
        {
            match chain.next() {
                Some(c) => {
                    causes.push(c);
                },
                None => {
                    break ;
                },
            }
        }
        causes
    }
}

} // verus!
