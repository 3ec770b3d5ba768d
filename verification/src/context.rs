//! What an error carries besides its kind: the contract of a context, the
//! context that holds nothing, and the ordered key-value context.

use crate::ordered::{
    entries, lines, map_clone, map_extend, map_insert, map_is_empty, map_iter, map_new, merge,
    merge_keeps_keys_unique, unique_keys, upsert, upsert_keeps_keys_unique, Entries,
};
use crate::text::{end_line, Render};
use indexmap::IndexMap;
use std::fmt::Debug;
use vstd::prelude::*;

verus! {

/// Adds nuance to errors: a payload that starts out empty and takes up more
/// detail at each level that handles the error.
pub trait Context: Default + Clone + Debug + Render + Send + Sync + 'static {
    /// The context carries nothing to show.
    spec fn empty(&self) -> bool;

    /// The default context is the empty one.
    proof fn default_is_empty(context: Self)
        requires
            call_ensures(Self::default, (), context),
        ensures
            context.empty(),
    ;

    /// Replaces fields in `self` with those populated in `replacements`.
    /// What comes of it is for each context to say.
    fn update(self, replacements: Self) -> (result: Self)
    ;

    /// Whether the context has no content.
    fn is_empty(&self) -> (empty: bool)
        ensures
            empty == self.empty(),
    ;
}

/// No context needed.
#[derive(Copy, Clone, Debug)]
pub struct NoContext;

impl Default for NoContext {
    fn default() -> (context: Self)
        ensures
            context == NoContext,
    {
        NoContext
    }
}

impl Render for NoContext {
    open spec fn text(&self) -> Seq<char> {
        Seq::empty()
    }

    fn render(&self) -> (out: String) {
        String::new()
    }
}

impl Context for NoContext {
    open spec fn empty(&self) -> bool {
        true
    }

    proof fn default_is_empty(context: Self) {
    }

    fn update(self, replacements: Self) -> (result: Self)
        ensures
            result == self,
    {
        self
    }

    fn is_empty(&self) -> (empty: bool) {
        true
    }
}

/// A value that an [`AdhocContext`] can show.
pub trait AdhocValue: Debug + Render + Send + Sync + 'static {

}

impl<V> AdhocValue for V where V: Debug + Render + Send + Sync + 'static {

}

/// Adhoc [`Context`]: keys with values to show, in the order in which the
/// keys first came.
///
/// The view is the entries in their order, each key with the text of its
/// value. No two entries share a key: that is the invariant of the type, and
/// each function here that takes a context says so of it, so that whoever
/// holds a context can learn it from any call.
#[derive(Debug)]
pub struct AdhocContext {
    data: IndexMap<&'static str, String>,
}

impl View for AdhocContext {
    type V = Entries;

    closed spec fn view(&self) -> Entries {
        entries(self.data)
    }
}

impl AdhocContext {
    #[verifier::type_invariant]
    spec fn keys_are_unique(self) -> bool {
        unique_keys(entries(self.data))
    }

    /// Create an empty [`Context`].
    pub fn new() -> (context: Self)
        ensures
            context@ == Seq::<(Seq<char>, Seq<char>)>::empty(),
    {
        Self { data: map_new() }
    }

    /// Puts the text of `value` under `key`.
    ///
    /// If the key is present it keeps its place in the order and takes the
    /// new value. If not, the key and the value go last.
    pub fn insert<V>(self, key: &'static str, value: V) -> (context: Self) where V: AdhocValue
        ensures
            unique_keys(self@),
            context@ == upsert(self@, key@, value.text()),
            unique_keys(context@),
    {
        proof {
            use_type_invariant(&self);
            upsert_keeps_keys_unique(self@, key@, value.text());
        }
        let mut data = self.data;
        map_insert(&mut data, key, value.render());
        Self { data }
    }
}

impl Default for AdhocContext {
    fn default() -> (context: Self)
        ensures
            context@ == Seq::<(Seq<char>, Seq<char>)>::empty(),
    {
        Self::new()
    }
}

impl Clone for AdhocContext {
    fn clone(&self) -> (copy: Self)
        ensures
            unique_keys(self@),
            copy@ == self@,
    {
        proof {
            use_type_invariant(self);
        }
        Self { data: map_clone(&self.data) }
    }
}

impl Render for AdhocContext {
    open spec fn text(&self) -> Seq<char> {
        lines(self@)
    }

    fn render(&self) -> (out: String)
        ensures
            unique_keys(self@),
    {
        proof {
            use_type_invariant(self);
        }
        let items = map_iter(&self.data);
        let mut out = String::new();
        let mut done: usize = 0;
        while done < items.len()
            invariant
                done <= items.len(),
                items.len() == self@.len(),
                forall|i: int|
                    0 <= i < items.len() ==> ((#[trigger] items[i]).0@, items[i].1@) == self@[i],
                out@ == lines(self@.take(done as int)),
            decreases items.len() - done,
        {
            let (key, value) = items[done];
            proof {
                reveal_strlit(": ");
                assert(self@.take(done + 1).drop_last() =~= self@.take(done as int));
            }
            out.append(key);
            out.append(": ");
            out.append(value.as_str());
            end_line(&mut out);
            done = done + 1;
        }
        assert(self@.take(done as int) =~= self@);
        out
    }
}

impl Context for AdhocContext {
    open spec fn empty(&self) -> bool {
        self@.len() == 0
    }

    proof fn default_is_empty(context: Self) {
    }

    fn update(self, replacements: Self) -> (result: Self)
        ensures
            unique_keys(self@),
            unique_keys(replacements@),
            result@ == merge(self@, replacements@),
            unique_keys(result@),
    {
        proof {
            use_type_invariant(&self);
            use_type_invariant(&replacements);
            merge_keeps_keys_unique(self@, replacements@);
        }
        let mut data = self.data;
        map_extend(&mut data, replacements.data);
        Self { data }
    }

    fn is_empty(&self) -> (empty: bool)
        ensures
            unique_keys(self@),
    {
        proof {
            use_type_invariant(self);
        }
        map_is_empty(&self.data)
    }
}

} // verus!
