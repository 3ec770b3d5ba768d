//! The adapter for the outermost boundary: an error shown once with the whole
//! trail of its causes.

use crate::cause::Failure;
use crate::chain::Chain;
use crate::status::Status;
use crate::text::{end_line, newline, Render};
use vstd::prelude::*;

verus! {

/// The words in front of each cause.
pub open spec fn caused_by() -> Seq<char> {
    seq!['C', 'a', 'u', 's', 'e', 'd', ' ', 'b', 'y', ':', ' ']
}

/// For each cause, nearest first: a blank line, then the cause after the
/// words "Caused by: ".
pub open spec fn trail(causes: Seq<Seq<char>>) -> Seq<char>
    decreases causes.len(),
{
    if causes.len() == 0 {
        Seq::empty()
    } else {
        trail(causes.drop_last()) + newline() + caused_by() + causes.last() + newline()
    }
}

/// The line of an error that shows `shown`, followed by the trail of its
/// causes.
pub open spec fn report_text(shown: Seq<char>, causes: Seq<Seq<char>>) -> Seq<char> {
    shown + newline() + trail(causes)
}

/// For use with `main`: wraps the error that ends the program.
pub struct TerminatingStatus<E: Failure = Status> {
    error: E,
}

impl<E: Failure> TerminatingStatus<E> {
    /// The error that was wrapped.
    pub closed spec fn error(&self) -> E {
        self.error
    }

    /// What the program shows as it ends: the error, then every cause that
    /// the error declares, down to the deepest.
    pub fn report(&self) -> (out: String)
        ensures
            out@ == report_text(self.error().text(), self.error().causes()),
    {
        let ghost shown = self.error.text();
        let ghost causes = self.error.causes();
        let mut out = self.error.render();
        end_line(&mut out);
        let mut chain = Chain::new(self.error.source());
        let ghost mut done: int = 0;
        loop
            invariant
                0 <= done <= causes.len(),
                chain@ == causes.skip(done),
                out@ == shown + newline() + trail(causes.take(done)),
            ensures
                out@ == shown + newline() + trail(causes),
            decreases chain@.len(),
        {
            match chain.next() {
                Some(cause) => {
                    proof {
                        reveal_strlit("Caused by: ");
                        assert(causes.take(done + 1).drop_last() =~= causes.take(done));
                    }
                    end_line(&mut out);
                    out.append("Caused by: ");
                    out.append(cause.message());
                    end_line(&mut out);
                    proof {
                        done = done + 1;
                    }
                },
                None => {
                    assert(causes.take(done) =~= causes);
                    break ;
                },
            }
        }
        out
    }
}

impl<E: Failure> From<E> for TerminatingStatus<E> {
    fn from(error: E) -> (wrapped: Self)
        ensures
            wrapped.error() == error,
    {
        Self { error }
    }
}

impl<E: Failure> vstd::std_specs::convert::FromSpecImpl<E> for TerminatingStatus<E> {
    open spec fn obeys_from_spec() -> bool {
        true
    }

    closed spec fn from_spec(error: E) -> Self {
        TerminatingStatus { error }
    }
}

} // verus!
