//! Errors as this library reads them: a message, and behind it the cause
//! that the error declares.

use crate::text::Render;
use std::fmt::Debug;
use vstd::prelude::*;

verus! {

/// An error, as far as this library reads one: the text it shows and the
/// cause it declares.
pub trait Failure: Debug + Render {
    /// The messages of the causes behind this error, nearest first. Empty
    /// where the error declares no cause.
    spec fn causes(&self) -> Seq<Seq<char>>;

    /// The cause that this error declares, with all that lies behind it.
    fn source(&self) -> (cause: Option<&Cause>)
        ensures
            cause is Some <==> self.causes().len() > 0,
            cause matches Some(c) ==> c@ == self.causes(),
    ;
}

/// The message of an error followed by the messages of its causes.
pub open spec fn trace<E: Failure>(error: &E) -> Seq<Seq<char>> {
    seq![error.text()] + error.causes()
}

/// An error held by value: its message and, if it declares one, its cause.
///
/// The view is the message followed by the messages of the causes behind it,
/// so it is never empty.
#[derive(Debug)]
pub struct Cause {
    message: String,
    source: Option<Box<Cause>>,
}

impl View for Cause {
    type V = Seq<Seq<char>>;

    closed spec fn view(&self) -> Seq<Seq<char>> {
        self.messages()
    }
}

impl Cause {
    spec fn messages(&self) -> Seq<Seq<char>>
        decreases self,
    {
        seq![self.message@] + match self.source {
            Some(inner) => inner.messages(),
            None => Seq::empty(),
        }
    }

    /// Every cause shows at least its own message.
    pub proof fn view_is_nonempty(&self)
        ensures
            self@.len() >= 1,
    {
    }

    /// An error that shows `message` and declares no cause.
    pub fn new(message: String) -> (cause: Self)
        ensures
            cause@ == seq![message@],
    {
        Cause { message, source: None }
    }

    /// Declares `source` as the cause of this error, in place of any cause
    /// it declared before.
    pub fn with_source(self, source: Cause) -> (cause: Self)
        ensures
            cause@ == seq![self@[0]] + source@,
    {
        Cause { message: self.message, source: Some(Box::new(source)) }
    }

    /// The text that this error shows.
    pub fn message(&self) -> (message: &str)
        ensures
            message@ == self@[0],
    {
        self.message.as_str()
    }

    /// Takes down what `error` shows and the causes behind it.
    pub fn capture<E: Failure>(error: &E) -> (cause: Self)
        ensures
            cause@ == trace(error),
    {
        let message = error.render();
        match error.source() {
            Some(inner) => Cause { message, source: Some(Box::new(inner.clone())) },
            None => Cause { message, source: None },
        }
    }
}

impl Clone for Cause {
    fn clone(&self) -> (copy: Self)
        ensures
            copy == *self,
        decreases self,
    {
        Cause {
            message: self.message.clone(),
            source: match &self.source {
                Some(inner) => Some(Box::new((&**inner).clone())),
                None => None,
            },
        }
    }
}

impl Render for Cause {
    open spec fn text(&self) -> Seq<char> {
        self@[0]
    }

    fn render(&self) -> (out: String) {
        self.message.clone()
    }
}

impl Failure for Cause {
    open spec fn causes(&self) -> Seq<Seq<char>> {
        self@.drop_first()
    }

    fn source(&self) -> (cause: Option<&Cause>) {
        match &self.source {
            Some(inner) => {
                proof {
                    inner.view_is_nonempty();
                }
                Some(&**inner)
            },
            None => None,
        }
    }
}

} // verus!
