//! The error container: a kind, a context, and at most one cause, which is
//! either open to everyone or kept for debugging.

use crate::cause::{trace, Cause, Failure};
use crate::chain::Chain;
use crate::context::{AdhocContext, Context};
use crate::internal::InternalStatus;
use crate::kind::{Kind, Unkind};
use crate::text::{end_line, newline, Render};
use vstd::prelude::*;

verus! {

/// `std`'s `From<T> for T`, the conversion of a value into its own type:
/// it returns the argument unchanged. This is the conversion that
/// [`Status::new`] makes where it is handed a kind itself.
pub assume_specification<Value>[ <Value as std::convert::From<Value>>::from ](value: Value) -> (same:
    Value)
    ensures
        same == value,
;

/// The one cause that a [`Status`] may hold.
#[derive(Debug)]
pub enum Source {
    /// A cause that anyone may see.
    Public(Cause),
    /// A cause that only the internal view shows.
    Private(Cause),
    /// No cause.
    Empty,
}

/// What a [`Source`] holds: the messages along the cause's chain, nearest
/// first, under the cause's visibility.
pub enum SourceView {
    Public(Seq<Seq<char>>),
    Private(Seq<Seq<char>>),
    Empty,
}

impl SourceView {
    /// The messages of the chain that anyone may see.
    pub open spec fn public(self) -> Seq<Seq<char>> {
        match self {
            SourceView::Public(messages) => messages,
            _ => Seq::empty(),
        }
    }

    /// The messages of the chain, whatever its visibility.
    pub open spec fn any(self) -> Seq<Seq<char>> {
        match self {
            SourceView::Public(messages) => messages,
            SourceView::Private(messages) => messages,
            SourceView::Empty => Seq::empty(),
        }
    }
}

impl View for Source {
    type V = SourceView;

    open spec fn view(&self) -> SourceView {
        match self {
            Source::Public(cause) => SourceView::Public(cause@),
            Source::Private(cause) => SourceView::Private(cause@),
            Source::Empty => SourceView::Empty,
        }
    }
}

impl Source {
    /// The cause, if it is a public one.
    pub fn public(&self) -> (cause: Option<&Cause>)
        ensures
            match cause {
                Some(c) => self@ == SourceView::Public(c@),
                None => !(self@ is Public),
            },
    {
        match self {
            Self::Public(e) => Some(e),
            _ => None,
        }
    }

    /// The cause, public or private.
    pub fn any(&self) -> (cause: Option<&Cause>)
        ensures
            match cause {
                Some(c) => self@ == SourceView::Public(c@) || self@ == SourceView::Private(c@),
                None => self@ is Empty,
            },
    {
        match self {
            Self::Public(e) => Some(e),
            Self::Private(e) => Some(e),
            Self::Empty => None,
        }
    }
}

/// What a [`Status`] is: its kind, its context and what its source holds.
pub struct StatusView<K, C> {
    pub kind: K,
    pub context: C,
    pub source: SourceView,
}

impl<K: Kind, C: Context> StatusView<K, C> {
    /// The same status with `messages` as its public cause, in place of any
    /// cause it held.
    pub open spec fn with_source(self, messages: Seq<Seq<char>>) -> Self {
        StatusView { source: SourceView::Public(messages), ..self }
    }

    /// The same status with `messages` as its private cause, in place of any
    /// cause it held.
    pub open spec fn with_internal(self, messages: Seq<Seq<char>>) -> Self {
        StatusView { source: SourceView::Private(messages), ..self }
    }

    /// The same status with another context.
    pub open spec fn with_context(self, context: C) -> Self {
        StatusView { context, ..self }
    }

    /// What the status shows: the line of its kind and, unless the context is
    /// empty, a blank line and then what the context shows, with nothing
    /// after it. The cause is never part of it.
    pub open spec fn text(self) -> Seq<char> {
        self.kind.text() + newline() + if self.context.empty() {
            Seq::empty()
        } else {
            newline() + self.context.text()
        }
    }
}

#[derive(Debug)]
pub(crate) struct StatusDetails<K, C> {
    pub(crate) kind: K,
    pub(crate) source: Source,
    pub(crate) data: C,
}

/// A container for use in `Result<_, Status>`.
#[derive(Debug)]
pub struct Status<K = Unkind, C = AdhocContext> {
    pub(crate) inner: Box<StatusDetails<K, C>>,
}

impl<K, C> View for Status<K, C> {
    type V = StatusView<K, C>;

    closed spec fn view(&self) -> StatusView<K, C> {
        StatusView {
            kind: self.inner.kind,
            context: self.inner.data,
            source: self.inner.source@,
        }
    }
}

impl<K, C: Context> Status<K, C> {
    /// Create a container for the specified status [`Kind`]: the context is
    /// the default one, which is empty, and there is no cause.
    pub fn new<U>(kind: U) -> (status: Self) where U: Into<K>
        ensures
            call_ensures(<U as Into<K>>::into, (kind,), status@.kind),
            call_ensures(C::default, (), status@.context),
            status@.context.empty(),
            status@.source == SourceView::Empty,
    {
        let data: C = Default::default();
        proof {
            C::default_is_empty(data);
        }
        Self { inner: Box::new(StatusDetails { kind: kind.into(), source: Source::Empty, data }) }
    }
}

impl<K: Kind, C: Context> Status<K, C> {
    /// A cause that a status holds shows at least its own message.
    pub proof fn held_cause_is_nonempty(&self)
        ensures
            self@.source is Empty || self@.source.any().len() > 0,
    {
        match self.inner.source {
            Source::Public(cause) => cause.view_is_nonempty(),
            Source::Private(cause) => cause.view_is_nonempty(),
            Source::Empty => {},
        }
    }

    /// Add a public error, in place of any cause held before.
    pub fn with_source<E>(self, error: E) -> (status: Self) where E: Failure
        ensures
            status@ == self@.with_source(trace(&error)),
    {
        let mut status = self;
        status.inner.source = Source::Public(Cause::capture(&error));
        status
    }

    /// Add an internal error, in place of any cause held before.
    pub fn with_internal<E>(self, error: E) -> (status: Self) where E: Failure
        ensures
            status@ == self@.with_internal(trace(&error)),
    {
        let mut status = self;
        status.inner.source = Source::Private(Cause::capture(&error));
        status
    }

    /// Extend the [`Context`]: hands the context to `context` and keeps what
    /// comes back.
    pub fn context_with<F>(self, context: F) -> (status: Self) where F: Fn(C) -> C
        requires
            call_requires(context, (self@.context,)),
        ensures
            call_ensures(context, (self@.context,), status@.context),
            status@ == self@.with_context(status@.context),
    {
        let mut status = self;
        let mut data: C = Default::default();
        std::mem::swap(&mut data, &mut status.inner.data);
        let mut data = context(data);
        std::mem::swap(&mut data, &mut status.inner.data);
        status
    }

    /// Access the [`Context`] for programmatic usage.
    pub fn context(&self) -> (context: &C)
        ensures
            *context == self@.context,
    {
        &self.inner.data
    }

    /// Programmatic identifier for which error occurred.
    pub fn kind(&self) -> (kind: K)
        ensures
            kind == self@.kind,
    {
        self.inner.kind
    }

    /// The walk along the public causes.
    pub fn sources(&self) -> (chain: Chain<'_>)
        ensures
            chain@ == self@.source.public(),
    {
        Chain::new(self.source())
    }

    /// The lowest level public cause of this error: the last that
    /// [`Status::sources`] yields.
    pub fn root_source(&self) -> (cause: Option<&Cause>)
        ensures
            cause is Some <==> self@.source.public().len() > 0,
            cause matches Some(c) ==> c@ == seq![self@.source.public().last()],
    {
        self.sources().last()
    }

    /// The source as it is held, whatever its visibility.
    pub(crate) fn held(&self) -> (source: &Source)
        ensures
            source@ == self@.source,
    {
        &self.inner.source
    }

    /// View of [`Status`], exposing implementation details.
    pub fn into_internal(self) -> (internal: InternalStatus<K, C>)
        ensures
            internal@ == self@,
    {
        InternalStatus::new(self)
    }

    /// Convenience for returning an error.
    pub fn into_err<T>(self) -> (result: Result<T, Self>)
        ensures
            result matches Err(status) && status == self,
    {
        Err(self)
    }
}

impl<K: Kind, C: Context> Render for Status<K, C> {
    open spec fn text(&self) -> Seq<char> {
        self@.text()
    }

    fn render(&self) -> (out: String) {
        let mut out = self.inner.kind.render();
        end_line(&mut out);
        if !self.inner.data.is_empty() {
            end_line(&mut out);
            let shown = self.inner.data.render();
            out.append(shown.as_str());
        }
        out
    }
}

impl<K: Kind, C: Context> Failure for Status<K, C> {
    open spec fn causes(&self) -> Seq<Seq<char>> {
        self@.source.public()
    }

    fn source(&self) -> (cause: Option<&Cause>) {
        let cause = self.inner.source.public();
        proof {
            if let Some(c) = cause {
                c.view_is_nonempty();
            }
        }
        cause
    }
}

impl<K: Kind, C: Context> std::ops::Deref for Status<K, C> {
    type Target = C;

    fn deref(&self) -> (context: &C)
        ensures
            *context == self@.context,
    {
        &self.inner.data
    }
}

impl<K: Kind, C: Context> std::ops::DerefMut for Status<K, C> {
    fn deref_mut(&mut self) -> (context: &mut C)
        ensures
            *context == old(self)@.context,
            final(self)@ == old(self)@.with_context(*final(context)),
    {
        &mut self.inner.data
    }
}

} // verus!
