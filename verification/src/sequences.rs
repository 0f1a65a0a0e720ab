//! Facts about sequences.
use vstd::prelude::*;

verus! {

/// Where `f` gives something for every element, `filter_map` leaves none out.
pub proof fn lemma_filter_map_total<A, B>(elements: Seq<A>, f: spec_fn(A) -> Option<B>)
    requires
        forall|i: int| 0 <= i < elements.len() ==> f(#[trigger] elements[i]) is Some,
    ensures
        elements.filter_map(f) == elements.map_values(|element: A| f(element)->Some_0),
    decreases elements.len(),
{
    let given = |element: A| f(element)->Some_0;
    if elements.len() > 0 {
        let rest = elements.drop_last();
        assert forall|i: int| 0 <= i < rest.len() implies f(#[trigger] rest[i]) is Some by {
            assert(rest[i] == elements[i]);
        }
        lemma_filter_map_total(rest, f);
        assert(f(elements[elements.len() - 1]) is Some);
        assert(elements.map_values(given) =~= rest.map_values(given).push(given(elements.last())));
    }
    assert(elements.filter_map(f) =~= elements.map_values(given));
}

/// What `filter_map` keeps comes from certain places of the sequence, in their
/// order: every place for which `f` gives something, and no other.
pub proof fn lemma_filter_map_places<A, B>(elements: Seq<A>, f: spec_fn(A) -> Option<B>) -> (places:
    Seq<int>)
    ensures
        places.len() == elements.filter_map(f).len(),
        forall|k: int|
            0 <= k < places.len() ==> 0 <= #[trigger] places[k] < elements.len() && f(
                elements[places[k]],
            ) == Some(elements.filter_map(f)[k]),
        forall|k: int, l: int| 0 <= k < l < places.len() ==> places[k] < places[l],
        forall|i: int|
            0 <= i < elements.len() && f(#[trigger] elements[i]) is Some ==> places.contains(i),
    decreases elements.len(),
{
    reveal(Seq::filter_map);
    if elements.len() == 0 {
        Seq::empty()
    } else {
        let rest = elements.drop_last();
        let last = elements.len() - 1;
        let before = lemma_filter_map_places(rest, f);
        let places = if f(elements[last]) is Some {
            before.push(last)
        } else {
            before
        };
        assert forall|k: int| 0 <= k < places.len() implies 0 <= #[trigger] places[k]
            < elements.len() && f(elements[places[k]]) == Some(elements.filter_map(f)[k]) by {
            if k < before.len() {
                assert(rest[before[k]] == elements[places[k]]);
            }
        }
        assert forall|i: int|
            0 <= i < elements.len() && f(#[trigger] elements[i]) is Some implies places.contains(
            i,
        ) by {
            if i < last {
                assert(rest[i] == elements[i]);
                assert(before.contains(i));
                let k = choose|k: int| 0 <= k < before.len() && before[k] == i;
                assert(places[k] == i);
            } else {
                assert(places[places.len() - 1] == i);
            }
        }
        places
    }
}

} // verus!
