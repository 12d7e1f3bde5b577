//! Moving through the entries of a context menu.

use vstd::prelude::*;

verus! {

/// How many entries lie ahead of `at` in `direction`, itself counted.
pub open spec fn steps_left(len: nat, direction: int, at: int) -> nat {
    if at < 0 || at >= len {
        0
    } else if direction > 0 {
        (len - at) as nat
    } else {
        (at + 1) as nat
    }
}

/// The index of the next action from `at` on, in steps of `direction`; `from`
/// where the menu ends before one. `actions` tells which entries are actions.
pub open spec fn stepped_at(actions: Seq<bool>, from: int, direction: int, at: int) -> int
    decreases steps_left(actions.len(), direction, at),
{
    if direction == 0 || at < 0 || at >= actions.len() {
        from
    } else if actions[at] {
        at
    } else {
        stepped_at(actions, from, direction, at + direction)
    }
}

/// The next action from `from` in `direction`, staying put at the ends.
pub open spec fn stepped(actions: Seq<bool>, from: int, direction: int) -> int {
    stepped_at(actions, from, direction, from + direction)
}

pub fn step_over(actions: &Vec<bool>, from: usize, direction: isize) -> (res: usize)
    requires
        direction != 0,
    ensures
        res == stepped(actions@, from as int, direction as int),
{
    let mut index: i128 = from as i128 + direction as i128;
    while 0 <= index && index < actions.len() as i128
        invariant
            direction != 0,
            0 <= index < actions@.len() || stepped_at(
                actions@,
                from as int,
                direction as int,
                index as int,
            ) == from,
            stepped_at(actions@, from as int, direction as int, index as int) == stepped(
                actions@,
                from as int,
                direction as int,
            ),
        decreases steps_left(actions@.len(), direction as int, index as int),
    {
        if actions[index as usize] {
            return index as usize;
        }
        index += direction as i128;
    }
    from
}

/// A step either stays put or lands on an action in the asked direction.
pub proof fn law_steps_land_on_actions(actions: Seq<bool>, from: int, direction: int)
    requires
        direction != 0,
    ensures
        ({
            let to = stepped(actions, from, direction);
            to == from || (0 <= to < actions.len() && actions[to] && (if direction > 0 {
                to > from
            } else {
                to < from
            }))
        }),
{
    lemma_stepped_at(actions, from, direction, from + direction);
}

proof fn lemma_stepped_at(actions: Seq<bool>, from: int, direction: int, at: int)
    requires
        direction > 0 ==> at > from,
        direction < 0 ==> at < from,
    ensures
        ({
            let to = stepped_at(actions, from, direction, at);
            to == from || (0 <= to < actions.len() && actions[to] && (direction > 0 ==> to >= at) && (
            direction < 0 ==> to <= at))
        }),
    decreases steps_left(actions.len(), direction, at),
{
    if direction != 0 && 0 <= at < actions.len() && !actions[at] {
        lemma_stepped_at(actions, from, direction, at + direction);
    }
}

/// A single step skips separators only: no action lies between its ends.
pub proof fn law_steps_skip_separators_only(actions: Seq<bool>, from: int, between: int)
    requires
        0 <= between < actions.len(),
        actions[between],
    ensures
        from < between ==> from < stepped(actions, from, 1) <= between || from < -1,
        between < from ==> between <= stepped(actions, from, -1) < from || from > actions.len(),
{
    if -1 <= from < between {
        lemma_forward_bound(actions, from, from + 1, between);
    }
    if between < from <= actions.len() {
        lemma_backward_bound(actions, from, from - 1, between);
    }
}

proof fn lemma_forward_bound(actions: Seq<bool>, from: int, at: int, stop: int)
    requires
        0 <= at <= stop < actions.len(),
        actions[stop],
    ensures
        at <= stepped_at(actions, from, 1, at) <= stop,
    decreases stop - at,
{
    if !actions[at] {
        lemma_forward_bound(actions, from, at + 1, stop);
    }
}

proof fn lemma_backward_bound(actions: Seq<bool>, from: int, at: int, stop: int)
    requires
        0 <= stop <= at < actions.len(),
        actions[stop],
    ensures
        stop <= stepped_at(actions, from, -1, at) <= at,
    decreases at - stop,
{
    if !actions[at] {
        lemma_backward_bound(actions, from, at - 1, stop);
    }
}

} // verus!
