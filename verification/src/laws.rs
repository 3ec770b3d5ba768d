//! What holds of every status, whatever its kind, context and cause, and of
//! every ordered context.

use crate::cause::{trace, Failure};
use crate::chain::{head, Chain};
use crate::context::{AdhocContext, AdhocValue, Context};
use crate::internal::InternalStatus;
use crate::kind::Kind;
use crate::ordered::{
    merge_is_cumulative, position, unique_keys, upsert_leaves_others, upsert_places_value,
    value_of,
};
use crate::status::{SourceView, Status};
use crate::text::Render;
use vstd::prelude::*;

verus! {

/// A status made from a kind has that kind, an empty context and no cause.
pub proof fn new_status_is_bare<K: Kind, C: Context>(kind: K, status: Status<K, C>)
    requires
        call_ensures(Status::<K, C>::new::<K>, (kind,), status),
    ensures
        status@.kind == kind,
        status@.context.empty(),
        status@.source == SourceView::Empty,
{
}

/// A cause attached in public is what the public walk yields first, and it
/// shows what the error showed.
pub proof fn public_cause_is_yielded_first<'a, K: Kind, C: Context, E: Failure>(
    status: Status<K, C>,
    error: E,
    attached: Status<K, C>,
    chain: Chain<'a>,
)
    requires
        call_ensures(Status::<K, C>::with_source::<E>, (status, error), attached),
        call_ensures(Status::<K, C>::sources, (&attached,), chain),
    ensures
        head(chain@) == Some(trace(&error)),
        trace(&error)[0] == error.text(),
{
}

/// A cause attached in private is not on the public walk, which then yields
/// nothing at all.
pub proof fn private_cause_is_hidden<'a, K: Kind, C: Context, E: Failure>(
    status: Status<K, C>,
    error: E,
    attached: Status<K, C>,
    chain: Chain<'a>,
)
    requires
        call_ensures(Status::<K, C>::with_internal::<E>, (status, error), attached),
        call_ensures(Status::<K, C>::sources, (&attached,), chain),
    ensures
        head(chain@) is None,
{
}

/// A cause attached in private is what the walk of the internal view yields
/// first.
pub proof fn private_cause_shows_internally<'a, K: Kind, C: Context, E: Failure>(
    status: Status<K, C>,
    error: E,
    attached: Status<K, C>,
    internal: InternalStatus<K, C>,
    chain: Chain<'a>,
)
    requires
        call_ensures(Status::<K, C>::with_internal::<E>, (status, error), attached),
        call_ensures(Status::<K, C>::into_internal, (attached,), internal),
        call_ensures(InternalStatus::<K, C>::sources, (&internal,), chain),
    ensures
        head(chain@) == Some(trace(&error)),
        trace(&error)[0] == error.text(),
{
}

/// A status holds one cause: a second cause takes the place of the first,
/// and the walk shows the second alone.
pub proof fn second_cause_replaces_first<'a, K: Kind, C: Context, E1: Failure, E2: Failure>(
    status: Status<K, C>,
    first: E1,
    second: E2,
    once: Status<K, C>,
    twice: Status<K, C>,
    chain: Chain<'a>,
)
    requires
        call_ensures(Status::<K, C>::with_source::<E1>, (status, first), once),
        call_ensures(Status::<K, C>::with_source::<E2>, (once, second), twice),
        call_ensures(Status::<K, C>::sources, (&twice,), chain),
    ensures
        chain@ == trace(&second),
        twice@ == status@.with_source(trace(&second)),
{
}

/// A private cause takes the place of a public one as well: nothing of the
/// first cause is left on the public walk.
pub proof fn private_cause_replaces_public<'a, K: Kind, C: Context, E1: Failure, E2: Failure>(
    status: Status<K, C>,
    first: E1,
    second: E2,
    once: Status<K, C>,
    twice: Status<K, C>,
    chain: Chain<'a>,
)
    requires
        call_ensures(Status::<K, C>::with_source::<E1>, (status, first), once),
        call_ensures(Status::<K, C>::with_internal::<E2>, (once, second), twice),
        call_ensures(Status::<K, C>::sources, (&twice,), chain),
    ensures
        head(chain@) is None,
        twice@ == status@.with_internal(trace(&second)),
{
}

/// What a status shows does not depend on its cause: attaching one, in public
/// or in private, leaves the text as it was.
pub proof fn cause_is_never_shown<K: Kind, C: Context, E: Failure>(
    status: Status<K, C>,
    error: E,
    attached: Status<K, C>,
)
    requires
        call_ensures(Status::<K, C>::with_source::<E>, (status, error), attached) || call_ensures(
            Status::<K, C>::with_internal::<E>,
            (status, error),
            attached,
        ),
    ensures
        attached.text() == status.text(),
        attached@.kind == status@.kind,
        attached@.context == status@.context,
{
}

/// The internal view shows the very text that the status shows: visibility
/// decides which cause is reached, not what is shown.
pub proof fn internal_view_shows_the_same<K: Kind, C: Context>(
    status: Status<K, C>,
    internal: InternalStatus<K, C>,
)
    requires
        call_ensures(Status::<K, C>::into_internal, (status,), internal),
    ensures
        internal.text() == status.text(),
        internal@ == status@,
{
}

/// Putting a value under a key of an [`AdhocContext`] leaves the key where it
/// stood, or puts it last if it is new; the key then holds the value, and
/// every other key keeps its place and its value.
pub proof fn insert_keeps_place<V: AdhocValue>(
    context: AdhocContext,
    key: &'static str,
    value: V,
    result: AdhocContext,
    other: Seq<char>,
)
    requires
        call_ensures(AdhocContext::insert::<V>, (context, key, value), result),
    ensures
        unique_keys(result@),
        value_of(result@, key@) == Some(value.text()),
        position(result@, key@) == match position(context@, key@) {
            Some(place) => Some(place),
            None => Some(context@.len() as int),
        },
        other != key@ ==> position(result@, other) == position(context@, other),
        other != key@ ==> value_of(result@, other) == value_of(context@, other),
{
    upsert_places_value(context@, key@, value.text());
    if other != key@ {
        upsert_leaves_others(context@, key@, value.text(), other);
    }
}

/// Updating an [`AdhocContext`] accumulates: a key is present afterwards
/// exactly if either side held it, a key of the base keeps its place, and a
/// key holds the value of the replacements where they have one and its old
/// value where they have none.
pub proof fn update_accumulates(
    base: AdhocContext,
    replacements: AdhocContext,
    result: AdhocContext,
    key: Seq<char>,
)
    requires
        call_ensures(<AdhocContext as Context>::update, (base, replacements), result),
    ensures
        unique_keys(base@),
        unique_keys(replacements@),
        unique_keys(result@),
        value_of(result@, key) is Some <==> value_of(base@, key) is Some || value_of(
            replacements@,
            key,
        ) is Some,
        position(base@, key) is Some ==> position(result@, key) == position(base@, key),
        value_of(result@, key) == match value_of(replacements@, key) {
            Some(value) => Some(value),
            None => value_of(base@, key),
        },
{
    merge_is_cumulative(base@, replacements@, key);
}

} // verus!
