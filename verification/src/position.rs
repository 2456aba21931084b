//! The first place of a value in a sequence.

use vstd::prelude::*;

verus! {

/// The first place at which `wanted` stands among `items`, if it stands
/// there at all.
pub open spec fn first_position<T>(items: Seq<T>, wanted: T) -> Option<int>
    decreases items.len(),
{
    if items.len() == 0 {
        None
    } else {
        match first_position(items.drop_last(), wanted) {
            Some(at) => Some(at),
            None => if items.last() == wanted {
                Some(items.len() - 1)
            } else {
                None
            },
        }
    }
}

/// Where a place is found, `wanted` stands there and nowhere before; where
/// none is found, `wanted` stands nowhere.
pub proof fn lemma_first_position<T>(items: Seq<T>, wanted: T)
    ensures
        match first_position(items, wanted) {
            Some(at) => 0 <= at < items.len() && items[at] == wanted && forall|j: int|
                0 <= j < at ==> #[trigger] items[j] != wanted,
            None => forall|j: int| 0 <= j < items.len() ==> #[trigger] items[j] != wanted,
        },
        first_position(items, wanted) is Some <==> items.contains(wanted),
    decreases items.len(),
{
    if items.len() > 0 {
        let front = items.drop_last();
        lemma_first_position(front, wanted);
        assert forall|j: int| 0 <= j < front.len() implies front[j] == items[j] by {}
        match first_position(front, wanted) {
            Some(at) => {
                assert(items[at] == wanted);
            },
            None => {
                assert forall|j: int| 0 <= j < items.len() - 1 implies #[trigger] items[j]
                    != wanted by {
                    assert(front[j] == items[j]);
                }
                if items.last() == wanted {
                    assert(items[items.len() - 1] == wanted);
                }
            },
        }
    }
}

/// A place that is found among the first `count` items is the place among
/// all of them.
pub proof fn lemma_first_position_in_prefix<T>(items: Seq<T>, wanted: T, count: int, at: int)
    requires
        0 <= count <= items.len(),
        first_position(items.subrange(0, count), wanted) == Some(at),
    ensures
        first_position(items, wanted) == Some(at),
    decreases items.len() - count,
{
    if count < items.len() {
        assert(items.subrange(0, count + 1).drop_last() =~= items.subrange(0, count));
        lemma_first_position_in_prefix(items, wanted, count + 1, at);
    } else {
        assert(items.subrange(0, count) =~= items);
    }
}

/// Looking among one item more: a place that was found stays, and the new
/// item is the place where none was found and the item is `wanted`.
pub proof fn lemma_first_position_step<T>(items: Seq<T>, wanted: T, count: int)
    requires
        0 <= count < items.len(),
    ensures
        first_position(items.subrange(0, count + 1), wanted) == match first_position(
            items.subrange(0, count),
            wanted,
        ) {
            Some(at) => Some(at),
            None => if items[count] == wanted {
                Some(count)
            } else {
                None
            },
        },
{
    assert(items.subrange(0, count + 1).drop_last() =~= items.subrange(0, count));
    assert(items.subrange(0, count + 1).last() == items[count]);
}

} // verus!
