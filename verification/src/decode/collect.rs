//! Decoding lists: element by element, in order, joining what is found.

use crate::error::Error;
use vstd::prelude::*;

verus! {

/// Decodes the elements of `items` in order with `each`, which finds any
/// number of results in an element, and joins what it finds. The error of
/// the first element that is refused is the error of the whole.
pub open spec fn collect<A, B>(items: Seq<A>, each: spec_fn(A) -> Result<Seq<B>, Error>) -> Result<
    Seq<B>,
    Error,
>
    decreases items.len(),
{
    if items.len() == 0 {
        Ok(Seq::empty())
    } else {
        match collect(items.drop_last(), each) {
            Err(e) => Err(e),
            Ok(before) => match each(items.last()) {
                Err(e) => Err(e),
                Ok(these) => Ok(before + these),
            },
        }
    }
}

/// One more element decoded: how `collect` on the first `i + 1` elements
/// comes from `collect` on the first `i`.
pub proof fn lemma_collect_step<A, B>(
    items: Seq<A>,
    each: spec_fn(A) -> Result<Seq<B>, Error>,
    i: int,
)
    requires
        0 <= i < items.len(),
    ensures
        collect(items.take(i + 1), each) == match collect(items.take(i), each) {
            Err(e) => Err(e),
            Ok(before) => match each(items[i]) {
                Err(e) => Err(e),
                Ok(these) => Ok(before + these),
            },
        },
{
    assert(items.take(i + 1).drop_last() == items.take(i));
}

/// Once a prefix is refused, the whole is refused with the same error.
pub proof fn lemma_collect_refused<A, B>(
    items: Seq<A>,
    each: spec_fn(A) -> Result<Seq<B>, Error>,
    i: int,
)
    requires
        0 <= i <= items.len(),
        collect(items.take(i), each) is Err,
    ensures
        collect(items, each) == collect(items.take(i), each),
    decreases items.len() - i,
{
    if i == items.len() {
        assert(items.take(i) == items);
    } else {
        lemma_collect_step(items, each, i);
        lemma_collect_refused(items, each, i + 1);
    }
}

/// Reads the elements of `items` in order with `each`, which finds any
/// number of results in an element, and joins what it finds.
pub open spec fn gather<A, B>(items: Seq<A>, each: spec_fn(A) -> Seq<B>) -> Seq<B>
    decreases items.len(),
{
    if items.len() == 0 {
        Seq::empty()
    } else {
        gather(items.drop_last(), each) + each(items.last())
    }
}

/// One more element read: how `gather` on the first `i + 1` elements comes
/// from `gather` on the first `i`.
pub proof fn lemma_gather_step<A, B>(items: Seq<A>, each: spec_fn(A) -> Seq<B>, i: int)
    requires
        0 <= i < items.len(),
    ensures
        gather(items.take(i + 1), each) == gather(items.take(i), each) + each(items[i]),
{
    assert(items.take(i + 1).drop_last() == items.take(i));
}

/// The literal `""` holds no character.
pub proof fn lemma_empty_text()
    ensures
        ""@ == Seq::<char>::empty(),
{
    reveal_strlit("");
    assert(""@ =~= Seq::<char>::empty());
}

/// A list of decoded records as a sequence of their views.
pub open spec fn listed<T: DeepView>(r: Result<Vec<T>, Error>) -> Result<Seq<T::V>, Error> {
    match r {
        Ok(v) => Ok(v.deep_view()),
        Err(e) => Err(e),
    }
}

/// What one element yields: nothing, or one record.
pub open spec fn found<T: DeepView>(r: Result<Option<T>, Error>) -> Result<Seq<T::V>, Error> {
    match r {
        Ok(Some(t)) => Ok(seq![t.deep_view()]),
        Ok(None) => Ok(Seq::empty()),
        Err(e) => Err(e),
    }
}

/// Appending one element to a vector appends its view to the vector's.
pub proof fn lemma_push_view<T: DeepView>(before: Vec<T>, after: Vec<T>, x: T)
    requires
        after@ == before@.push(x),
    ensures
        after.deep_view() == before.deep_view().push(x.deep_view()),
        after.deep_view() == before.deep_view() + seq![x.deep_view()],
{
    assert(after.deep_view() =~= before.deep_view().push(x.deep_view()));
    assert(after.deep_view() =~= before.deep_view() + seq![x.deep_view()]);
}

} // verus!
