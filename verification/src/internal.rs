//! The view of a status that shows its cause whatever the visibility.

use crate::cause::{Cause, Failure};
use crate::chain::Chain;
use crate::context::Context;
use crate::kind::Kind;
use crate::status::{Status, StatusView};
use crate::text::Render;
use vstd::prelude::*;

verus! {

/// View of [`Status`], exposing implementation details: its cause is the one
/// that the status holds, public or private.
#[derive(Debug)]
pub struct InternalStatus<K: Kind, C: Context>(Status<K, C>);

impl<K: Kind, C: Context> View for InternalStatus<K, C> {
    type V = StatusView<K, C>;

    closed spec fn view(&self) -> StatusView<K, C> {
        self.0@
    }
}

impl<K: Kind, C: Context> InternalStatus<K, C> {
    pub(crate) fn new(err: Status<K, C>) -> (internal: Self)
        ensures
            internal@ == err@,
    {
        Self(err)
    }

    /// The walk along the causes, private or public.
    pub fn sources(&self) -> (chain: Chain<'_>)
        ensures
            chain@ == self@.source.any(),
    {
        Chain::new(self.source())
    }

    /// The lowest level cause of this error, private or public: the last
    /// that [`InternalStatus::sources`] yields.
    pub fn root_source(&self) -> (cause: Option<&Cause>)
        ensures
            cause is Some <==> self@.source.any().len() > 0,
            cause matches Some(c) ==> c@ == seq![self@.source.any().last()],
    {
        self.sources().last()
    }
}

impl<K: Kind, C: Context> Render for InternalStatus<K, C> {
    open spec fn text(&self) -> Seq<char> {
        self@.text()
    }

    fn render(&self) -> (out: String) {
        self.0.render()
    }
}

impl<K: Kind, C: Context> Failure for InternalStatus<K, C> {
    open spec fn causes(&self) -> Seq<Seq<char>> {
        self@.source.any()
    }

    fn source(&self) -> (cause: Option<&Cause>) {
        let cause = self.0.held().any();
        proof {
            if let Some(c) = cause {
                c.view_is_nonempty();
            }
        }
        cause
    }
}

} // verus!
