//! Finding the first entry of an ordered list that answers to something, as
//! both registries do.

use vstd::prelude::*;

verus! {

/// The first position of `flags` that holds `true`, if there is one.
pub open spec fn first_true(flags: Seq<bool>) -> Option<int>
    decreases flags.len(),
{
    if flags.len() == 0 {
        None
    } else {
        match first_true(flags.drop_last()) {
            Some(i) => Some(i),
            None => if flags.last() {
                Some(flags.len() - 1)
            } else {
                None
            },
        }
    }
}

/// `first_true` finds the first `true`, and finds nothing only where there
/// is none.
pub proof fn lemma_first_true(flags: Seq<bool>)
    ensures
        match first_true(flags) {
            Some(i) => 0 <= i < flags.len() && flags[i] && forall|j: int| 0 <= j < i ==> !flags[j],
            None => forall|j: int| 0 <= j < flags.len() ==> !flags[j],
        },
    decreases flags.len(),
{
    if flags.len() > 0 {
        let front = flags.drop_last();
        lemma_first_true(front);
        match first_true(front) {
            Some(i) => {
                assert forall|j: int| 0 <= j < i implies !flags[j] by {
                    assert(flags[j] == front[j]);
                }
            },
            None => {
                assert forall|j: int| 0 <= j < flags.len() - 1 implies !flags[j] by {
                    assert(flags[j] == front[j]);
                }
            },
        }
    }
}

/// A position that holds `true` with none before it that does is what
/// `first_true` finds.
pub proof fn lemma_first_true_is(flags: Seq<bool>, i: int)
    requires
        0 <= i < flags.len(),
        flags[i],
        forall|j: int| 0 <= j < i ==> !flags[j],
    ensures
        first_true(flags) == Some(i),
{
    lemma_first_true(flags);
}

/// Where no position holds `true`, `first_true` finds nothing.
pub proof fn lemma_first_true_none(flags: Seq<bool>)
    requires
        forall|j: int| 0 <= j < flags.len() ==> !flags[j],
    ensures
        first_true(flags) is None,
{
    lemma_first_true(flags);
}

/// For each of `names`, whether it is `name`.
pub open spec fn name_flags(names: Seq<Seq<char>>, name: Seq<char>) -> Seq<bool> {
    names.map_values(|n: Seq<char>| n == name)
}

/// The first position of `name` in `names`, if it occurs there.
pub open spec fn index_of(names: Seq<Seq<char>>, name: Seq<char>) -> Option<int> {
    first_true(name_flags(names, name))
}

/// No name occurs twice in `names`.
pub open spec fn distinct(names: Seq<Seq<char>>) -> bool {
    forall|i: int, j: int| 0 <= i < j < names.len() ==> names[i] != names[j]
}

/// `index_of` finds the first occurrence, and finds nothing only where
/// there is none.
pub proof fn lemma_index_of(names: Seq<Seq<char>>, name: Seq<char>)
    ensures
        match index_of(names, name) {
            Some(i) => 0 <= i < names.len() && names[i] == name && forall|j: int|
                0 <= j < i ==> names[j] != name,
            None => forall|j: int| 0 <= j < names.len() ==> names[j] != name,
        },
{
    let flags = name_flags(names, name);
    lemma_first_true(flags);
    match first_true(flags) {
        Some(i) => {
            assert forall|j: int| 0 <= j < i implies names[j] != name by {
                assert(!flags[j]);
            }
        },
        None => {
            assert forall|j: int| 0 <= j < names.len() implies names[j] != name by {
                assert(!flags[j]);
            }
        },
    }
}

/// A position that holds `name` with no earlier one that does is what
/// `index_of` finds.
pub proof fn lemma_index_of_first(names: Seq<Seq<char>>, name: Seq<char>, i: int)
    requires
        0 <= i < names.len(),
        names[i] == name,
        forall|j: int| 0 <= j < i ==> names[j] != name,
    ensures
        index_of(names, name) == Some(i),
{
    lemma_index_of(names, name);
}

/// Where no position holds `name`, `index_of` finds nothing.
pub proof fn lemma_index_of_absent(names: Seq<Seq<char>>, name: Seq<char>)
    requires
        forall|j: int| 0 <= j < names.len() ==> names[j] != name,
    ensures
        index_of(names, name) is None,
{
    lemma_index_of(names, name);
}

/// `names` with `name` recorded: unchanged where it occurs already, with
/// `name` appended where it does not.
pub open spec fn recorded(names: Seq<Seq<char>>, name: Seq<char>) -> Seq<Seq<char>> {
    if index_of(names, name) is Some {
        names
    } else {
        names.push(name)
    }
}

/// Recording a name in a list without repetitions leaves it without
/// repetitions.
pub proof fn lemma_recorded_distinct(names: Seq<Seq<char>>, name: Seq<char>)
    requires
        distinct(names),
    ensures
        distinct(recorded(names, name)),
{
    lemma_index_of(names, name);
}

} // verus!
