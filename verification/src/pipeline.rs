//! Collecting the results of tasks that finish in any order: each result goes to the slot
//! of its task, and the slots are read out in the order of the tasks.

use vstd::prelude::*;

verus! {

/// Why a result was not placed.
#[derive(Clone, Copy, Debug, PartialEq, Eq, Structural)]
pub enum SlotError {
    /// There is no task with that index.
    OutOfRange,
    /// The task already has its result.
    AlreadyFilled,
}

/// The slots after `value` is placed at `index`: that slot filled, if it exists and was
/// empty, and no change otherwise.
pub open spec fn place_model<T>(slots: Seq<Option<T>>, index: int, value: T) -> Seq<Option<T>> {
    if 0 <= index < slots.len() && slots[index] is None {
        slots.update(index, Some(value))
    } else {
        slots
    }
}

/// The slots after the results of `values` are placed in the order `order`: the `k`-th
/// placement puts `values[order[k]]` at index `order[k]`.
pub open spec fn place_in_order<T>(slots: Seq<Option<T>>, values: Seq<T>, order: Seq<int>) -> Seq<
    Option<T>,
>
    decreases order.len(),
{
    if order.len() == 0 {
        slots
    } else {
        place_model(
            place_in_order(slots, values, order.drop_last()),
            order.last(),
            values[order.last()],
        )
    }
}

/// `n` empty slots.
pub open spec fn empty_slots<T>(n: nat) -> Seq<Option<T>> {
    Seq::new(n, |i: int| None::<T>)
}

/// Whether `index` is among the first `done` entries of `order`.
pub open spec fn occurs_before(order: Seq<int>, done: int, index: int) -> bool {
    exists|k: int| 0 <= k < done && #[trigger] order[k] == index
}

/// Whether `order` names every index below `n` exactly once.
pub open spec fn is_permutation(order: Seq<int>, n: nat) -> bool {
    &&& order.len() == n
    &&& forall|k: int| 0 <= k < n ==> 0 <= #[trigger] order[k] < n
    &&& forall|j: int, k: int| 0 <= j < k < n ==> order[j] != order[k]
    &&& forall|i: int| 0 <= i < n ==> #[trigger] occurs_before(order, n as int, i)
}

proof fn lemma_place_in_order_prefix<T>(values: Seq<T>, order: Seq<int>, done: int)
    requires
        0 <= done <= order.len(),
        forall|k: int| 0 <= k < order.len() ==> 0 <= #[trigger] order[k] < values.len(),
        forall|j: int, k: int| 0 <= j < k < order.len() ==> order[j] != order[k],
    ensures
        place_in_order(empty_slots(values.len()), values, order.subrange(0, done)).len()
            == values.len(),
        forall|i: int|
            0 <= i < values.len() ==> #[trigger] place_in_order(
                empty_slots(values.len()),
                values,
                order.subrange(0, done),
            )[i] == if occurs_before(order, done, i) {
                Some(values[i])
            } else {
                None
            },
    decreases done,
{
    let prefix = order.subrange(0, done);
    let start = empty_slots::<T>(values.len());
    if done == 0 {
        assert(prefix.len() == 0);
    } else {
        lemma_place_in_order_prefix(values, order, done - 1);
        let before = place_in_order(start, values, order.subrange(0, done - 1));
        assert(prefix.drop_last() =~= order.subrange(0, done - 1));
        assert(prefix.last() == order[done - 1]);
        let target = order[done - 1];
        assert(before[target] is None) by {
            if occurs_before(order, done - 1, target) {
                let k = choose|k: int| 0 <= k < done - 1 && #[trigger] order[k] == target;
                assert(order[k] != order[done - 1]);
            }
        }
        let after = place_in_order(start, values, prefix);
        assert(after == before.update(target, Some(values[target])));
        assert forall|i: int| 0 <= i < values.len() implies #[trigger] after[i] == if occurs_before(
            order,
            done,
            i,
        ) {
            Some(values[i])
        } else {
            None
        } by {
            if i == target {
                assert(order[done - 1] == i);
            } else {
                if occurs_before(order, done, i) {
                    let k = choose|k: int| 0 <= k < done && #[trigger] order[k] == i;
                    assert(k < done - 1);
                    assert(occurs_before(order, done - 1, i));
                } else {
                    assert(!occurs_before(order, done - 1, i)) by {
                        if occurs_before(order, done - 1, i) {
                            let k = choose|k: int| 0 <= k < done - 1 && #[trigger] order[k] == i;
                            assert(0 <= k < done && order[k] == i);
                        }
                    }
                }
            }
        }
    }
}

/// Order is preserved. Whatever the order in which the tasks finish, once each has placed
/// its result the slots hold the result of task `i` at index `i`.
pub proof fn lemma_completion_order_is_irrelevant<T>(values: Seq<T>, order: Seq<int>)
    requires
        is_permutation(order, values.len()),
    ensures
        place_in_order(empty_slots(values.len()), values, order).len() == values.len(),
        forall|i: int|
            0 <= i < values.len() ==> #[trigger] place_in_order(
                empty_slots(values.len()),
                values,
                order,
            )[i] == Some(values[i]),
{
    lemma_place_in_order_prefix(values, order, order.len() as int);
    assert(order.subrange(0, order.len() as int) =~= order);
    let filled = place_in_order(empty_slots(values.len()), values, order);
    assert forall|i: int| 0 <= i < values.len() implies #[trigger] filled[i] == Some(
        values[i],
    ) by {
        assert(occurs_before(order, values.len() as int, i));
    }
}

/// One slot for each task of a run. A slot is empty until the result of its task is
/// placed, and takes one result only.
pub struct ResultSlots<T> {
    slots: Vec<Option<T>>,
}

impl<T> View for ResultSlots<T> {
    type V = Seq<Option<T>>;

    closed spec fn view(&self) -> Seq<Option<T>> {
        self.slots@
    }
}

impl<T> ResultSlots<T> {
    /// `tasks` empty slots.
    pub fn new(tasks: usize) -> (slots: ResultSlots<T>)
        ensures
            slots@ == empty_slots::<T>(tasks as nat),
    {
        let mut slots: Vec<Option<T>> = Vec::new();
        let mut i: usize = 0;
        while i < tasks
            invariant
                i <= tasks,
                slots@.len() == i,
                forall|j: int| 0 <= j < i ==> slots@[j] is None,
            decreases tasks - i,
        {
            slots.push(None);
            i = i + 1;
        }
        assert(slots@ =~= empty_slots::<T>(tasks as nat));
        ResultSlots { slots }
    }

    /// The number of slots.
    pub fn len(&self) -> (len: usize)
        ensures
            len == self@.len(),
    {
        self.slots.len()
    }

    /// Whether the slot at `index` has its result. There is none outside the range.
    pub fn is_filled(&self, index: usize) -> (filled: bool)
        ensures
            filled == (index < self@.len() && self@[index as int] is Some),
    {
        index < self.slots.len() && self.slots[index].is_some()
    }

    /// Places `value` as the result of task `index`.
    ///
    /// Nothing is placed, and nothing changes, where there is no such task (`OutOfRange`)
    /// or the task has its result already (`AlreadyFilled`).
    pub fn place(&mut self, index: usize, value: T) -> (outcome: Result<(), SlotError>)
        ensures
            final(self)@ == place_model(old(self)@, index as int, value),
            index >= old(self)@.len() <==> outcome == Err::<(), SlotError>(SlotError::OutOfRange),
            index < old(self)@.len() && old(self)@[index as int] is Some <==> outcome == Err::<
                (),
                SlotError,
            >(SlotError::AlreadyFilled),
            index < old(self)@.len() && old(self)@[index as int] is None <==> outcome is Ok,
    {
        if index >= self.slots.len() {
            return Err(SlotError::OutOfRange);
        }
        if self.slots[index].is_some() {
            return Err(SlotError::AlreadyFilled);
        }
        self.slots.set(index, Some(value));
        Ok(())
    }

    /// The index of the first task without a result, if there is one.
    pub fn first_missing(&self) -> (missing: Option<usize>)
        ensures
            match missing {
                Some(i) => i < self@.len() && self@[i as int] is None && forall|j: int|
                    0 <= j < i ==> self@[j] is Some,
                None => forall|j: int| 0 <= j < self@.len() ==> self@[j] is Some,
            },
    {
        let mut i: usize = 0;
        while i < self.slots.len()
            invariant
                i <= self.slots@.len(),
                forall|j: int| 0 <= j < i ==> self.slots@[j] is Some,
            decreases self.slots@.len() - i,
        {
            if self.slots[i].is_none() {
                return Some(i);
            }
            i = i + 1;
        }
        None
    }

    /// The results in the order of the tasks, once every task has one.
    ///
    /// Fails with the index of the first task without a result.
    pub fn into_ordered(self) -> (outcome: Result<Vec<T>, usize>)
        ensures
            match outcome {
                Ok(results) => results@.len() == self@.len() && forall|j: int|
                    0 <= j < self@.len() ==> self@[j] == Some(#[trigger] results@[j]),
                Err(i) => i < self@.len() && self@[i as int] is None && forall|j: int|
                    0 <= j < i ==> self@[j] is Some,
            },
    {
        match self.first_missing() {
            Some(i) => Err(i),
            None => {
                let ghost before = self.slots@;
                let mut results: Vec<T> = Vec::new();
                for slot in it: self.slots
                    invariant
                        it.seq() == before,
                        forall|j: int| 0 <= j < before.len() ==> before[j] is Some,
                        results@.len() == it.index(),
                        forall|j: int|
                            0 <= j < results@.len() ==> Some(#[trigger] results@[j]) == before[j],
                {
                    if let Some(value) = slot {
                        results.push(value);
                    }
                }
                Ok(results)
            },
        }
    }
}

} // verus!
