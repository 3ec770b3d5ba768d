//! What names an error: the contract of a kind, and the kind that is only a
//! label.

use crate::context::Context;
use crate::status::{SourceView, Status};
use crate::text::Render;
use std::fmt::Debug;
use vstd::prelude::*;

verus! {

/// Programmatically names which error occurred: a small value that is copied
/// freely and shows a stable description.
pub trait Kind: Copy + Debug + Render + Send + Sync + 'static {
    /// Convenience for creating an error.
    fn into_status<C: Context>(self) -> (status: Status<Self, C>)
        ensures
            status@.kind == self,
            status@.context.empty(),
            call_ensures(C::default, (), status@.context),
            status@.source == SourceView::Empty,
    {
        Status::new(self)
    }

    /// Convenience for returning an error.
    fn into_err<T, C: Context>(self) -> (result: Result<T, Status<Self, C>>)
        ensures
            result matches Err(status) && {
                &&& status@.kind == self
                &&& status@.context.empty()
                &&& call_ensures(C::default, (), status@.context)
                &&& status@.source == SourceView::Empty
            },
    {
        Err(Status::new(self))
    }
}

impl<U> Kind for U where U: Copy + Debug + Render + Send + Sync + 'static {

}

/// Adhoc [`Kind`]: a label to show and nothing to match on.
#[derive(Copy, Clone, Debug)]
pub struct Unkind {
    inner: &'static str,
}

impl Unkind {
    /// The label that this kind was made from.
    pub closed spec fn label(&self) -> Seq<char> {
        self.inner@
    }
}

impl From<&'static str> for Unkind {
    fn from(s: &'static str) -> (kind: Self)
        ensures
            kind.label() == s@,
    {
        Self { inner: s }
    }
}

impl vstd::std_specs::convert::FromSpecImpl<&'static str> for Unkind {
    open spec fn obeys_from_spec() -> bool {
        true
    }

    closed spec fn from_spec(s: &'static str) -> Self {
        Unkind { inner: s }
    }
}

impl Render for Unkind {
    /// The label as it is.
    open spec fn text(&self) -> Seq<char> {
        self.label()
    }

    fn render(&self) -> (out: String) {
        String::from_str(self.inner)
    }
}

} // verus!
