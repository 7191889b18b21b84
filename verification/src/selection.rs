//! Which row a selection lands on. Headings cannot be selected, and the list wraps around.

use crate::items::ListItemType;
use vstd::prelude::*;

verus! {

/// The way that a selection looks for a row from where it starts.
#[derive(Clone, Copy, Debug, PartialEq, Eq, Structural)]
pub enum Bias {
    /// Toward the start of the list.
    Left,
    /// Toward the end of the list.
    Right,
}

/// Some row stands for a thread.
pub open spec fn has_entry(items: Seq<ListItemType>) -> bool {
    exists|i: int| 0 <= i < items.len() && (#[trigger] items[i]).is_entry()
}

/// `index` is the first row at or after `start` that stands for a thread.
pub open spec fn is_first_entry_from(items: Seq<ListItemType>, start: int, index: int) -> bool {
    &&& start <= index < items.len()
    &&& items[index].is_entry()
    &&& forall|i: int| start <= i < index ==> !(#[trigger] items[i]).is_entry()
}

/// `index` is the last row at or before `end` that stands for a thread.
pub open spec fn is_last_entry_to(items: Seq<ListItemType>, end: int, index: int) -> bool {
    &&& 0 <= index <= end
    &&& items[index].is_entry()
    &&& forall|i: int| index < i <= end ==> !(#[trigger] items[i]).is_entry()
}

/// `target` is the row that a selection lands on from `start`. To the right, that is the first
/// thread from there on, or the first of the list if there is none. To the left, it is the last
/// thread up to there, or the last of the list if there is none. A start beyond the list counts as
/// its start to the right, and as its end to the left.
pub open spec fn is_selection_target(
    items: Seq<ListItemType>,
    start: int,
    bias: Bias,
    target: int,
) -> bool {
    match bias {
        Bias::Right => {
            let from = if start < items.len() {
                start
            } else {
                0
            };
            ||| is_first_entry_from(items, from, target)
            ||| {
                &&& forall|i: int| from <= i < items.len() ==> !(#[trigger] items[i]).is_entry()
                &&& is_first_entry_from(items, 0, target)
            }
        },
        Bias::Left => {
            let to = if start < items.len() {
                start
            } else {
                items.len() - 1
            };
            ||| is_last_entry_to(items, to, target)
            ||| {
                &&& forall|i: int| 0 <= i <= to ==> !(#[trigger] items[i]).is_entry()
                &&& is_last_entry_to(items, items.len() - 1, target)
            }
        },
    }
}

/// Where the selection starts to look for the next row.
pub open spec fn next_start(items: Seq<ListItemType>, selected: int) -> int {
    if selected == items.len() - 1 {
        0
    } else {
        selected + 1
    }
}

/// Where the selection starts to look for the previous row.
pub open spec fn previous_start(items: Seq<ListItemType>, selected: int) -> int {
    if selected == 0 {
        items.len() - 1
    } else {
        selected - 1
    }
}

/// The row that a selection lands on from `start`.
pub fn selection_target(items: &Vec<ListItemType>, start: usize, bias: Bias) -> (target: usize)
    requires
        has_entry(items@),
    ensures
        is_selection_target(items@, start as int, bias, target as int),
{
    let ghost witness = choose|i: int| 0 <= i < items@.len() && (#[trigger] items@[i]).is_entry();
    let ghost from: int = if start < items@.len() {
        start as int
    } else {
        match bias {
            Bias::Right => 0,
            Bias::Left => items@.len() - 1,
        }
    };
    let mut index: usize = start;
    // Set once the search has gone around the end of the list.
    let ghost mut wrapped = false;
    loop
        invariant_except_break
            index >= items@.len() ==> !wrapped && index <= start && start >= items@.len(),
            index < items@.len() && !wrapped ==> match bias {
                Bias::Right => from <= index && forall|i: int|
                    from <= i < index ==> !(#[trigger] items@[i]).is_entry(),
                Bias::Left => index <= from && forall|i: int|
                    index < i <= from ==> !(#[trigger] items@[i]).is_entry(),
            },
            wrapped ==> match bias {
                Bias::Right => {
                    &&& index <= witness
                    &&& forall|i: int| from <= i < items@.len() ==> !(#[trigger] items@[i]).is_entry()
                    &&& forall|i: int| 0 <= i < index ==> !(#[trigger] items@[i]).is_entry()
                },
                Bias::Left => {
                    &&& witness <= index < items@.len()
                    &&& forall|i: int| 0 <= i <= from ==> !(#[trigger] items@[i]).is_entry()
                    &&& forall|i: int|
                        index < i < items@.len() ==> !(#[trigger] items@[i]).is_entry()
                },
            },
        invariant
            0 <= witness < items@.len(),
            items@[witness].is_entry(),
            0 <= from < items@.len(),
            start < items@.len() ==> from == start,
            start >= items@.len() ==> from == (if bias is Right {
                0
            } else {
                items@.len() - 1
            }),
        ensures
            is_selection_target(items@, start as int, bias, index as int),
        decreases
            if wrapped { 0int } else { 1int },
            match bias {
                Bias::Right => if index >= items@.len() {
                    items@.len() as int + 1
                } else {
                    items@.len() - index
                },
                Bias::Left => index as int,
            },
    {
        if index < items.len() && items[index].entry().is_some() {
            break;
        }
        match bias {
            Bias::Left => {
                if index == 0 {
                    proof {
                        wrapped = true;
                    }
                    index = items.len() - 1;
                } else {
                    index = index - 1;
                }
            },
            Bias::Right => {
                if index >= items.len() - 1 {
                    proof {
                        wrapped = index < items@.len();
                    }
                    index = 0;
                } else {
                    index = index + 1;
                }
            },
        }
    }
    index
}

/// A selection lands on one row only, and it stands for a thread.
pub proof fn lemma_selection_target_is_unique(
    items: Seq<ListItemType>,
    start: int,
    bias: Bias,
    a: int,
    b: int,
)
    requires
        0 <= start,
        is_selection_target(items, start, bias, a),
        is_selection_target(items, start, bias, b),
    ensures
        a == b,
        0 <= a < items.len(),
        items[a].is_entry(),
{
}

/// A selection lands on a thread, and passes headings only: to the right those from the start on,
/// and from the top of the list on once it has gone around its end; to the left those from the
/// start back, and from the end back once it has gone around the top.
pub proof fn lemma_selection_passes_headings(
    items: Seq<ListItemType>,
    start: int,
    bias: Bias,
    target: int,
    passed: int,
)
    requires
        0 <= start < items.len(),
        0 <= passed < items.len(),
        is_selection_target(items, start, bias, target),
    ensures
        0 <= target < items.len(),
        !(items[target] is BucketSeparator),
        bias is Right && start <= target && start <= passed < target
            ==> items[passed] is BucketSeparator,
        bias is Right && target < start && (start <= passed || passed < target)
            ==> items[passed] is BucketSeparator,
        bias is Left && target <= start && target < passed <= start
            ==> items[passed] is BucketSeparator,
        bias is Left && start < target && (passed <= start || target < passed)
            ==> items[passed] is BucketSeparator,
{
}

/// A selection from beyond the list lands where one from its start does to the right, and where one
/// from its end does to the left.
pub proof fn lemma_selection_from_beyond(
    items: Seq<ListItemType>,
    start: int,
    target: int,
    bias: Bias,
)
    requires
        items.len() > 0,
        items.len() <= start,
    ensures
        is_selection_target(items, start, bias, target) <==> is_selection_target(
            items,
            if bias is Right {
                0
            } else {
                items.len() - 1
            },
            bias,
            target,
        ),
{
}

/// From a row, the next row is another thread if the list has another. It is the nearest below, and
/// from the lowest thread the topmost. Only headings are passed.
pub proof fn lemma_next_is_nearest_below(
    items: Seq<ListItemType>,
    selected: int,
    next: int,
    other: int,
)
    requires
        0 <= selected < items.len(),
        0 <= other < items.len(),
        !(items[other] is BucketSeparator),
        is_selection_target(items, next_start(items, selected), Bias::Right, next),
    ensures
        0 <= next < items.len(),
        !(items[next] is BucketSeparator),
        selected < other ==> selected < next <= other,
        other != selected ==> next != selected,
        next <= selected ==> next <= other <= selected,
{
}

/// From a row, the previous row is another thread if the list has another. It is the nearest above,
/// and from the topmost thread the lowest. Only headings are passed.
pub proof fn lemma_previous_is_nearest_above(
    items: Seq<ListItemType>,
    selected: int,
    previous: int,
    other: int,
)
    requires
        0 <= selected < items.len(),
        0 <= other < items.len(),
        !(items[other] is BucketSeparator),
        is_selection_target(items, previous_start(items, selected), Bias::Left, previous),
    ensures
        0 <= previous < items.len(),
        !(items[previous] is BucketSeparator),
        other < selected ==> other <= previous < selected,
        other != selected ==> previous != selected,
        selected <= previous ==> selected <= other <= previous,
{
}

/// A list has a thread to select unless it holds nothing but headings.
pub proof fn lemma_threads_can_be_selected(items: Seq<ListItemType>, index: int)
    requires
        0 <= index < items.len(),
        !(items[index] is BucketSeparator),
    ensures
        has_entry(items),
{
    assert(items[index].is_entry());
}

/// A selection that starts at a thread stays there.
pub proof fn lemma_selection_stays_on_entry(
    items: Seq<ListItemType>,
    start: int,
    bias: Bias,
    target: int,
)
    requires
        0 <= start < items.len(),
        items[start].is_entry(),
        is_selection_target(items, start, bias, target),
    ensures
        target == start,
{
}

/// From a thread, the previous row of the next row is the thread itself.
pub proof fn lemma_previous_undoes_next(
    items: Seq<ListItemType>,
    selected: int,
    next: int,
    back: int,
)
    requires
        0 <= selected < items.len(),
        items[selected].is_entry(),
        is_selection_target(items, next_start(items, selected), Bias::Right, next),
        is_selection_target(items, previous_start(items, next), Bias::Left, back),
    ensures
        back == selected,
{
    if next == selected {
        // The only thread of the list.
        assert forall|i: int| 0 <= i < items.len() && i != selected implies !(
        #[trigger] items[i]).is_entry() by {}
    } else if next > selected {
        assert(is_last_entry_to(items, next - 1, selected));
    } else {
        assert(is_last_entry_to(items, items.len() - 1, selected));
        assert(forall|i: int| 0 <= i < next ==> !(#[trigger] items[i]).is_entry());
    }
}

/// From a thread, the next row of the previous row is the thread itself.
pub proof fn lemma_next_undoes_previous(
    items: Seq<ListItemType>,
    selected: int,
    previous: int,
    back: int,
)
    requires
        0 <= selected < items.len(),
        items[selected].is_entry(),
        is_selection_target(items, previous_start(items, selected), Bias::Left, previous),
        is_selection_target(items, next_start(items, previous), Bias::Right, back),
    ensures
        back == selected,
{
    if previous == selected {
        assert forall|i: int| 0 <= i < items.len() && i != selected implies !(
        #[trigger] items[i]).is_entry() by {}
    } else if previous < selected {
        assert(is_first_entry_from(items, previous + 1, selected));
    } else {
        assert(is_first_entry_from(items, 0, selected));
        assert(forall|i: int| previous < i < items.len() ==> !(#[trigger] items[i]).is_entry());
    }
}

/// Between a thread and the next row there is no other thread, unless the list was wrapped around.
pub proof fn lemma_next_skips_no_entry(
    items: Seq<ListItemType>,
    selected: int,
    next: int,
    between: int,
)
    requires
        0 <= selected < items.len(),
        is_selection_target(items, next_start(items, selected), Bias::Right, next),
        selected < between < next || (next <= selected && (between < next || selected < between)),
        0 <= between < items.len(),
    ensures
        !items[between].is_entry(),
{
}

/// The rows that stand for threads, from the first to the last.
pub open spec fn entry_indices(items: Seq<ListItemType>) -> Seq<int>
    decreases items.len(),
{
    if items.len() == 0 {
        Seq::empty()
    } else if items.last().is_entry() {
        entry_indices(items.drop_last()).push(items.len() - 1)
    } else {
        entry_indices(items.drop_last())
    }
}

/// The rows of `entry_indices` are exactly those that stand for threads, in increasing order.
pub proof fn lemma_entry_indices(items: Seq<ListItemType>)
    ensures
        entry_indices(items).len() <= items.len(),
        forall|k: int|
            0 <= k < entry_indices(items).len() ==> 0 <= #[trigger] entry_indices(items)[k]
                < items.len() && items[entry_indices(items)[k]].is_entry(),
        forall|k: int, l: int|
            0 <= k < l < entry_indices(items).len() ==> #[trigger] entry_indices(items)[k]
                < #[trigger] entry_indices(items)[l],
        forall|i: int|
            0 <= i < items.len() && (#[trigger] items[i]).is_entry() ==> entry_indices(
                items,
            ).contains(i),
    decreases items.len(),
{
    if items.len() > 0 {
        let front = items.drop_last();
        let before = entry_indices(front);
        let indices = entry_indices(items);
        lemma_entry_indices(front);
        assert forall|k: int| 0 <= k < indices.len() implies 0 <= #[trigger] indices[k]
            < items.len() && items[indices[k]].is_entry() by {
            if k < before.len() {
                assert(indices[k] == before[k]);
                assert(front[before[k]] == items[before[k]]);
            }
        }
        assert forall|k: int, l: int| 0 <= k < l < indices.len() implies #[trigger] indices[k]
            < #[trigger] indices[l] by {
            assert(indices[k] == before[k]);
            if l < before.len() {
                assert(indices[l] == before[l]);
            }
        }
        assert forall|i: int|
            0 <= i < items.len() && (#[trigger] items[i]).is_entry() implies indices.contains(i) by {
            if i < front.len() {
                assert(front[i] == items[i]);
                let k = choose|k: int| 0 <= k < before.len() && before[k] == i;
                assert(indices[k] == i);
            } else {
                assert(indices[indices.len() - 1] == i);
            }
        }
    }
}

/// From a thread, the next row is that of the thread after it, or that of the first from the last.
proof fn lemma_next_in_indices(items: Seq<ListItemType>, place: int, next: int)
    requires
        0 <= place < entry_indices(items).len(),
        is_selection_target(
            items,
            next_start(items, entry_indices(items)[place]),
            Bias::Right,
            next,
        ),
    ensures
        next == entry_indices(items)[if place + 1 < entry_indices(items).len() {
            place + 1
        } else {
            0
        }],
{
    lemma_entry_indices(items);
    let indices = entry_indices(items);
    let selected = indices[place];
    assert(items[next].is_entry());
    assert(indices.contains(next));
    let k = choose|k: int| 0 <= k < indices.len() && indices[k] == next;
    if place + 1 < indices.len() {
        let expected = indices[place + 1];
        assert(selected < expected);
        assert(items[expected].is_entry());
        if k <= place {
            assert(next <= selected);
        } else if k > place + 1 {
            assert(expected < next);
        }
    } else {
        let expected = indices[0];
        assert(items[expected].is_entry());
        assert forall|i: int| selected < i < items.len() implies !(
        #[trigger] items[i]).is_entry() by {
            if items[i].is_entry() {
                let l = choose|l: int| 0 <= l < indices.len() && indices[l] == i;
                assert(indices[l] <= selected);
            }
        }
        if k > 0 {
            assert(expected < next);
        }
    }
}

/// `visited` are rows selected one after the other, each the next of the one before.
pub open spec fn are_next_rows(items: Seq<ListItemType>, visited: Seq<int>) -> bool {
    forall|k: int|
        0 <= k < visited.len() - 1 ==> is_selection_target(
            items,
            next_start(items, #[trigger] visited[k]),
            Bias::Right,
            visited[k + 1],
        )
}

/// Going on from a thread, the rows selected are the threads in their order, around the list.
pub proof fn lemma_next_goes_around(
    items: Seq<ListItemType>,
    visited: Seq<int>,
    place: int,
    step: int,
)
    requires
        are_next_rows(items, visited),
        visited.len() > 0,
        0 <= place < entry_indices(items).len(),
        visited[0] == entry_indices(items)[place],
        0 <= step < visited.len(),
    ensures
        visited[step] == entry_indices(items)[(place + step) % entry_indices(items).len() as int],
    decreases step,
{
    let count = entry_indices(items).len() as int;
    if step == 0 {
        vstd::arithmetic::div_mod::lemma_small_mod(place as nat, count as nat);
    } else {
        lemma_next_goes_around(items, visited, place, step - 1);
        let before = (place + step - 1) % count;
        vstd::arithmetic::div_mod::lemma_mod_bound(place + step - 1, count);
        assert(visited[step - 1 + 1] == visited[step]);
        lemma_next_in_indices(items, before, visited[step]);
        lemma_mod_step(place + step - 1, count);
    }
}

/// One more than a number is one more by a modulus too, or starts again at 0.
proof fn lemma_mod_step(number: int, modulus: int)
    requires
        modulus > 0,
    ensures
        (number + 1) % modulus == (if number % modulus + 1 < modulus {
            number % modulus + 1
        } else {
            0
        }),
{
    let quotient = number / modulus;
    vstd::arithmetic::div_mod::lemma_fundamental_div_mod(number, modulus);
    vstd::arithmetic::div_mod::lemma_mod_bound(number, modulus);
    if number % modulus + 1 < modulus {
        vstd::arithmetic::div_mod::lemma_fundamental_div_mod_converse(
            number + 1,
            modulus,
            quotient,
            number % modulus + 1,
        );
    } else {
        assert(number + 1 == modulus * (quotient + 1)) by (nonlinear_arith)
            requires
                number == modulus * quotient + number % modulus,
                number % modulus + 1 == modulus,
        ;
        vstd::arithmetic::div_mod::lemma_fundamental_div_mod_converse(
            number + 1,
            modulus,
            quotient + 1,
            0,
        );
    }
}

/// As many steps to the next row as there are threads visit each thread once, and come back to the
/// one they started from.
pub proof fn lemma_next_visits_each_entry_once(items: Seq<ListItemType>, visited: Seq<int>)
    requires
        are_next_rows(items, visited),
        visited.len() == entry_indices(items).len() + 1,
        0 <= visited[0] < items.len(),
        items[visited[0]].is_entry(),
    ensures
        visited.last() == visited[0],
        forall|k: int, l: int|
            0 <= k < l < visited.len() - 1 ==> #[trigger] visited[k] != #[trigger] visited[l],
        forall|i: int|
            0 <= i < items.len() ==> ((#[trigger] items[i]).is_entry() <==> visited.contains(i)),
{
    lemma_entry_indices(items);
    let indices = entry_indices(items);
    let count = indices.len() as int;
    assert(indices.contains(visited[0]));
    let place = choose|place: int| 0 <= place < count && indices[place] == visited[0];
    assert forall|k: int| 0 <= k <= count implies #[trigger] visited[k] == indices[if place + k
        < count {
        place + k
    } else {
        place + k - count
    }] by {
        lemma_next_goes_around(items, visited, place, k);
        if place + k < count {
            vstd::arithmetic::div_mod::lemma_small_mod((place + k) as nat, count as nat);
        } else {
            vstd::arithmetic::div_mod::lemma_fundamental_div_mod_converse(
                place + k,
                count,
                1,
                place + k - count,
            );
        }
    }
    assert forall|i: int| 0 <= i < items.len() implies ((#[trigger] items[i]).is_entry()
        <==> visited.contains(i)) by {
        if items[i].is_entry() {
            let l = choose|l: int| 0 <= l < count && indices[l] == i;
            let k = if l >= place {
                l - place
            } else {
                l - place + count
            };
            assert(visited[k] == i);
        }
        if visited.contains(i) {
            let k = choose|k: int| 0 <= k < visited.len() && visited[k] == i;
            let l = if place + k < count {
                place + k
            } else {
                place + k - count
            };
            assert(indices[l] == i);
        }
    }
}

} // verus!
