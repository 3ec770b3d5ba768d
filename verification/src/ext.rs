//! Extending the context of an error on its way through a `Result`.

use crate::context::Context;
use crate::kind::Kind;
use crate::status::Status;
use vstd::prelude::*;

verus! {

/// What [`ResultStatusExt`] reads of a value that may hold an error.
pub trait ErrorContext<C>: Sized where C: Context {
    /// The context of the error, where `self` is an error.
    spec fn error_context(self) -> Option<C>;

    /// `result` is the error that `self` is, with `context` in place of its
    /// own context and nothing else changed.
    spec fn replaced(self, context: C, result: Self) -> bool;
}

impl<T, K, C> ErrorContext<C> for Result<T, Status<K, C>> where K: Kind, C: Context {
    open spec fn error_context(self) -> Option<C> {
        match self {
            Ok(_) => None,
            Err(status) => Some(status@.context),
        }
    }

    open spec fn replaced(self, context: C, result: Self) -> bool {
        &&& self matches Err(status)
        &&& result matches Err(after)
        &&& after@ == status@.with_context(context)
    }
}

/// Modify the [`Status`] inline for error handling.
pub trait ResultStatusExt<C, F>: ErrorContext<C> where C: Context, F: Fn(C) -> C {
    /// Extends the [`Context`] of the error: hands it to `replacements` and
    /// keeps what comes back. A success passes unchanged.
    fn context_with(self, replacements: F) -> (result: Self)
        requires
            self.error_context() matches Some(context) ==> call_requires(
                replacements,
                (context,),
            ),
        ensures
            match self.error_context() {
                Some(context) => result.error_context() matches Some(after) && {
                    &&& call_ensures(replacements, (context,), after)
                    &&& self.replaced(after, result)
                },
                None => result == self,
            },
    ;
}

impl<T, K, C, F> ResultStatusExt<C, F> for Result<T, Status<K, C>> where
    K: Kind,
    C: Context,
    F: Fn(C) -> C,
 {
    fn context_with(self, replacements: F) -> (result: Self) {
        match self {
            Ok(value) => Ok(value),
            Err(status) => Err(status.context_with(replacements)),
        }
    }
}

} // verus!
