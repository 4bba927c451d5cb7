//! Keyboard navigation over a list of menu rows, shared by context menus
//! and dropdowns.
use vstd::prelude::*;

verus! {

/// A menu row that the keyboard may land on or not.
pub trait Navigable {
    /// Whether the keyboard may land on this row.
    spec fn navigable(&self) -> bool;

    /// Returns whether the keyboard may land on this row.
    fn is_navigable(&self) -> (navigable: bool)
        ensures
            navigable == self.navigable(),
    ;
}

/// The row reached after `steps` steps from `current` through `len` rows,
/// wrapping at both ends.
pub open spec fn cyclic_index(len: int, current: int, forward: bool, steps: int) -> int {
    if forward {
        (current + steps) % len
    } else {
        (current - steps) % len
    }
}

/// `index` is the first row, in the order of `candidate(1)`, `candidate(2)`,
/// ..., `candidate(len)`, on which the keyboard may land.
pub open spec fn is_next_navigable<T: Navigable>(
    items: Seq<T>,
    current: int,
    forward: bool,
    index: int,
) -> bool {
    exists|steps: int|
        1 <= steps <= items.len() && index == cyclic_index(items.len() as int, current, forward, steps)
            && items[index].navigable() && forall|earlier: int|
            1 <= earlier < steps ==> !(#[trigger] items[cyclic_index(
                items.len() as int,
                current,
                forward,
                earlier,
            )]).navigable()
}

/// No row that the cyclic walk visits may be landed on.
pub open spec fn none_navigable_from<T: Navigable>(items: Seq<T>, current: int, forward: bool) -> bool {
    forall|steps: int|
        1 <= steps <= items.len() ==> !(#[trigger] items[cyclic_index(
            items.len() as int,
            current,
            forward,
            steps,
        )]).navigable()
}

/// `index` is the first row on which the keyboard may land.
pub open spec fn is_first_navigable<T: Navigable>(items: Seq<T>, index: int) -> bool {
    &&& 0 <= index < items.len()
    &&& items[index].navigable()
    &&& forall|j: int| 0 <= j < index ==> !(#[trigger] items[j]).navigable()
}

/// `index` is the last row on which the keyboard may land.
pub open spec fn is_last_navigable<T: Navigable>(items: Seq<T>, index: int) -> bool {
    &&& 0 <= index < items.len()
    &&& items[index].navigable()
    &&& forall|j: int| index < j < items.len() ==> !(#[trigger] items[j]).navigable()
}

/// The keyboard may land on some row.
pub open spec fn some_navigable<T: Navigable>(items: Seq<T>) -> bool {
    exists|j: int| 0 <= j < items.len() && (#[trigger] items[j]).navigable()
}

/// Returns the first row on which the keyboard may land.
pub fn first_navigable_index<T: Navigable>(items: &[T]) -> (index: Option<usize>)
    ensures
        match index {
            Some(k) => is_first_navigable(items@, k as int),
            None => !some_navigable(items@),
        },
{
    let mut k: usize = 0;
    while k < items.len()
        invariant
            k <= items@.len(),
            forall|j: int| 0 <= j < k ==> !(#[trigger] items@[j]).navigable(),
        decreases items.len() - k,
    {
        if items[k].is_navigable() {
            return Some(k);
        }
        k += 1;
    }
    None
}

/// Returns the last row on which the keyboard may land.
pub fn last_navigable_index<T: Navigable>(items: &[T]) -> (index: Option<usize>)
    ensures
        match index {
            Some(k) => is_last_navigable(items@, k as int),
            None => !some_navigable(items@),
        },
{
    let mut k: usize = items.len();
    while k > 0
        invariant
            k <= items@.len(),
            forall|j: int| k <= j < items@.len() ==> !(#[trigger] items@[j]).navigable(),
        decreases k,
    {
        if items[k - 1].is_navigable() {
            return Some(k - 1);
        }
        k -= 1;
    }
    None
}

/// Steps from `current_index` by one row in the direction of `delta` (forward
/// when it is positive), wrapping around, until a row on which the keyboard
/// may land is found; visits each row at most once.
pub fn next_navigable_index<T: Navigable>(
    items: &[T],
    current_index: usize,
    delta: isize,
) -> (index: Option<usize>)
    requires
        items@.len() > 0 && delta > 0 ==> current_index < usize::MAX,
        items@.len() > 0 && delta <= 0 ==> current_index <= items@.len(),
    ensures
        match index {
            Some(k) => is_next_navigable(items@, current_index as int, delta > 0, k as int),
            None => none_navigable_from(items@, current_index as int, delta > 0),
        },
{
    let len = items.len();
    if len == 0 {
        return None;
    }
    let forward = delta > 0;
    let ghost n = len as int;
    let ghost current = current_index as int;
    let mut index = current_index;
    let mut steps: usize = 0;
    while steps < len
        invariant
            len == items@.len(),
            n == len,
            current == current_index as int,
            0 < len,
            forward == (delta > 0),
            steps <= len,
            forward ==> current_index < usize::MAX,
            !forward ==> current_index <= len,
            index == if steps == 0 {
                current
            } else {
                cyclic_index(n, current, forward, steps as int)
            },
            steps > 0 ==> index < len,
            forall|earlier: int|
                1 <= earlier <= steps ==> !(#[trigger] items@[cyclic_index(
                    n,
                    current,
                    forward,
                    earlier,
                )]).navigable(),
        decreases len - steps,
    {
        let ghost previous = index as int;
        proof {
            if forward {
                assert(steps == 0 ==> index == current_index);
                assert(index < usize::MAX);
            }
        }
        index = if forward {
            (index + 1) % len
        } else if index == 0 {
            len - 1
        } else {
            index - 1
        };
        steps += 1;
        proof {
            let s = steps as int;
            let x = if forward { current + (s - 1) } else { current - (s - 1) };
            if s == 1 {
                assert(previous == current);
            } else {
                assert(previous == x % n);
            }
            if forward {
                if s > 1 {
                    vstd::arithmetic::div_mod::lemma_add_mod_noop_right(x % n, 1, n);
                    vstd::arithmetic::div_mod::lemma_add_mod_noop(x, 1, n);
                }
                assert(index == (x + 1) % n);
            } else {
                if s > 1 {
                    vstd::arithmetic::div_mod::lemma_sub_mod_noop_right(x % n, 1, n);
                    vstd::arithmetic::div_mod::lemma_sub_mod_noop(x, 1, n);
                    assert((previous - 1) % n == (x - 1) % n);
                } else {
                    assert(previous <= n);
                }
                if previous == 0 {
                    vstd::arithmetic::div_mod::lemma_mod_add_multiples_vanish(-1, n);
                    vstd::arithmetic::div_mod::lemma_small_mod((n - 1) as nat, n as nat);
                    assert(index == (previous - 1) % n);
                } else {
                    assert(0 <= previous - 1 < n);
                    vstd::arithmetic::div_mod::lemma_small_mod((previous - 1) as nat, n as nat);
                    assert(index == (previous - 1) % n);
                }
                assert(index == (x - 1) % n);
            }
            assert(index == cyclic_index(n, current, forward, s));
        }
        if items[index].is_navigable() {
            assert(is_next_navigable(items@, current, forward, index as int)) by {
                assert(index == cyclic_index(n, current, forward, steps as int));
            }
            return Some(index);
        }
    }
    None
}


/// A row found by the cyclic walk lies within the list.
pub proof fn lemma_next_navigable_in_range<T: Navigable>(
    items: Seq<T>,
    current: int,
    forward: bool,
    index: int,
)
    requires
        is_next_navigable(items, current, forward, index),
    ensures
        0 <= index < items.len(),
{
    let steps = choose|steps: int|
        1 <= steps <= items.len() && index == cyclic_index(items.len() as int, current, forward, steps)
            && items[index].navigable() && forall|earlier: int|
            1 <= earlier < steps ==> !(#[trigger] items[cyclic_index(
                items.len() as int,
                current,
                forward,
                earlier,
            )]).navigable();
    let n = items.len() as int;
    if forward {
        vstd::arithmetic::div_mod::lemma_mod_bound(current + steps, n);
    } else {
        vstd::arithmetic::div_mod::lemma_mod_bound(current - steps, n);
    }
}

/// The cyclic walk finds at most one row.
pub proof fn lemma_next_navigable_unique<T: Navigable>(
    items: Seq<T>,
    current: int,
    forward: bool,
    a: int,
    b: int,
)
    requires
        is_next_navigable(items, current, forward, a),
        is_next_navigable(items, current, forward, b),
    ensures
        a == b,
{
    let n = items.len() as int;
    let sa = choose|steps: int|
        1 <= steps <= items.len() && a == cyclic_index(n, current, forward, steps)
            && items[a].navigable() && forall|earlier: int|
            1 <= earlier < steps ==> !(#[trigger] items[cyclic_index(n, current, forward, earlier)]).navigable();
    let sb = choose|steps: int|
        1 <= steps <= items.len() && b == cyclic_index(n, current, forward, steps)
            && items[b].navigable() && forall|earlier: int|
            1 <= earlier < steps ==> !(#[trigger] items[cyclic_index(n, current, forward, earlier)]).navigable();
    if sa < sb {
        assert(!items[cyclic_index(n, current, forward, sa)].navigable());
    } else if sb < sa {
        assert(!items[cyclic_index(n, current, forward, sb)].navigable());
    }
}

/// Stepping back from the row that a forward walk from a navigable row
/// found leads to that row again: the rows between the two are skipped both
/// ways.
pub proof fn law_backward_undoes_forward<T: Navigable>(items: Seq<T>, current: int, next: int)
    requires
        0 <= current < items.len(),
        items[current].navigable(),
        is_next_navigable(items, current, true, next),
    ensures
        is_next_navigable(items, next, false, current),
{
    let n = items.len() as int;
    let steps = choose|steps: int|
        1 <= steps <= items.len() && next == cyclic_index(n, current, true, steps)
            && items[next].navigable() && forall|earlier: int|
            1 <= earlier < steps ==> !(#[trigger] items[cyclic_index(n, current, true, earlier)]).navigable();
    // Going back `t` rows from `next` is going forward `steps - t` rows from `current`.
    assert forall|t: int| 1 <= t <= steps implies cyclic_index(n, next, false, t) == cyclic_index(
        n,
        current,
        true,
        steps - t,
    ) by {
        vstd::arithmetic::div_mod::lemma_sub_mod_noop(current + steps, t, n);
        vstd::arithmetic::div_mod::lemma_sub_mod_noop_right((current + steps) % n, t, n);
    }
    assert(cyclic_index(n, current, true, 0) == current) by {
        vstd::arithmetic::div_mod::lemma_small_mod(current as nat, n as nat);
    }
    assert(cyclic_index(n, next, false, steps) == current);
    assert forall|earlier: int| 1 <= earlier < steps implies !(#[trigger] items[cyclic_index(
        n,
        next,
        false,
        earlier,
    )]).navigable() by {
        assert(cyclic_index(n, next, false, earlier) == cyclic_index(n, current, true, steps - earlier));
        assert(!items[cyclic_index(n, current, true, steps - earlier)].navigable());
    }
}


/// A walk that finds a row does visit a navigable row.
pub proof fn lemma_found_is_not_none<T: Navigable>(items: Seq<T>, current: int, forward: bool, index: int)
    requires
        is_next_navigable(items, current, forward, index),
    ensures
        !none_navigable_from(items, current, forward),
{
    let n = items.len() as int;
    let steps = choose|steps: int|
        1 <= steps <= items.len() && index == cyclic_index(n, current, forward, steps)
            && items[index].navigable() && forall|earlier: int|
            1 <= earlier < steps ==> !(#[trigger] items[cyclic_index(n, current, forward, earlier)]).navigable();
    assert(items[cyclic_index(n, current, forward, steps)].navigable());
}

/// A forward walk from a navigable row comes back to it, at the latest
/// after going once around.
pub proof fn lemma_navigable_row_is_found<T: Navigable>(items: Seq<T>, current: int)
    requires
        0 <= current < items.len(),
        items[current].navigable(),
    ensures
        !none_navigable_from(items, current, true),
{
    let n = items.len() as int;
    vstd::arithmetic::div_mod::lemma_mod_add_multiples_vanish(current, n);
    vstd::arithmetic::div_mod::lemma_small_mod(current as nat, n as nat);
    assert(cyclic_index(n, current, true, n) == current);
    assert(items[cyclic_index(n, current, true, n)].navigable());
}

} // verus!
