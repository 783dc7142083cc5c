//! Ordering of the rows of a poll: selected indices and options.

use vstd::prelude::*;
use vstd::seq_lib::to_multiset_insert;

use crate::model::PollOption;

verus! {

/// Whether no element is greater than a later one.
pub open spec fn ascending(s: Seq<i32>) -> bool {
    forall|i: int, j: int| 0 <= i < j < s.len() ==> s[i] <= s[j]
}

/// Whether every element is less than every later one.
pub open spec fn strictly_ascending(s: Seq<i32>) -> bool {
    forall|i: int, j: int| 0 <= i < j < s.len() ==> s[i] < s[j]
}

/// The given values in ascending order.
pub fn sorted_values(values: &[i32]) -> (r: Vec<i32>)
    ensures
        ascending(r@),
        r@.to_multiset() == values@.to_multiset(),
{
    let mut out: Vec<i32> = Vec::new();
    let mut i: usize = 0;
    proof {
        assert(values@.take(0) =~= out@);
    }
    while i < values.len()
        invariant
            i <= values.len(),
            ascending(out@),
            out@.to_multiset() == values@.take(i as int).to_multiset(),
        decreases values.len() - i,
    {
        let value: i32 = values[i];
        let mut at: usize = 0;
        while at < out.len() && out[at] <= value
            invariant
                at <= out.len(),
                forall|j: int| 0 <= j < at ==> out@[j] <= value,
            decreases out.len() - at,
        {
            at += 1;
        }
        let ghost before = out@;
        out.insert(at, value);
        proof {
            before.insert_ensures(at as int, value);
            to_multiset_insert(before, at as int, value);
            vstd::seq_lib::to_multiset_build(values@.take(i as int), value);
            assert(values@.take(i + 1) =~= values@.take(i as int).push(value));
            assert(out@ =~= before.insert(at as int, value));
        }
        i += 1;
    }
    proof {
        assert(values@.take(i as int) =~= values@);
    }
    out
}

/// The given values in ascending order, each once.
pub fn distinct_values(values: &[i32]) -> (r: Vec<i32>)
    ensures
        strictly_ascending(r@),
        forall|v: i32| r@.contains(v) <==> values@.contains(v),
{
    let mut out: Vec<i32> = Vec::new();
    let mut i: usize = 0;
    while i < values.len()
        invariant
            i <= values.len(),
            strictly_ascending(out@),
            forall|v: i32| out@.contains(v) <==> values@.take(i as int).contains(v),
        decreases values.len() - i,
    {
        let value: i32 = values[i];
        let mut at: usize = 0;
        while at < out.len() && out[at] < value
            invariant
                at <= out.len(),
                forall|j: int| 0 <= j < at ==> out@[j] < value,
            decreases out.len() - at,
        {
            at += 1;
        }
        let ghost before = out@;
        let ghost seen = values@.take(i as int);
        assert(forall|v: i32| before.contains(v) <==> seen.contains(v));
        proof {
            assert(values@.take(i + 1) =~= seen.push(value));
            assert(seen.push(value)[i as int] == value);
            assert forall|v: i32| seen.push(value).contains(v) <==> (seen.contains(v) || v
                == value) by {
                if seen.contains(v) {
                    let k = choose|k: int| 0 <= k < seen.len() && seen[k] == v;
                    assert(seen.push(value)[k] == v);
                }
                if seen.push(value).contains(v) {
                    let k = choose|k: int| 0 <= k <= seen.len() && seen.push(value)[k] == v;
                    if k < seen.len() {
                        assert(seen[k] == v);
                    }
                }
            }
        }
        if at == out.len() || out[at] != value {
            out.insert(at, value);
            proof {
                before.insert_ensures(at as int, value);
                assert(out@ =~= before.insert(at as int, value));
                assert(out@[at as int] == value);
                assert forall|v: i32| out@.contains(v) <==> (before.contains(v) || v == value) by {
                    if before.contains(v) {
                        let k = choose|k: int| 0 <= k < before.len() && before[k] == v;
                        if k < at {
                            assert(out@[k] == v);
                        } else {
                            assert(out@[k + 1] == v);
                        }
                    }
                    if out@.contains(v) {
                        let k = choose|k: int| 0 <= k < out@.len() && out@[k] == v;
                        if k < at {
                            assert(before[k] == v);
                        } else if k > at {
                            assert(before[k - 1] == v);
                        }
                    }
                }
            }
        } else {
            proof {
                assert(out@[at as int] == value);
                assert(out@.contains(value));
            }
        }
        assert forall|v: i32| out@.contains(v) <==> values@.take(i + 1).contains(v) by {
            assert(seen.push(value).contains(v) <==> (seen.contains(v) || v == value));
            assert(before.contains(v) <==> seen.contains(v));
        }
        i += 1;
    }
    proof {
        assert(values@.take(i as int) =~= values@);
    }
    out
}

/// The first place at or after `from` whose option has a greater index than
/// `idx`.
pub open spec fn place_for(options: Seq<PollOption>, from: int, idx: i32) -> int
    decreases options.len() - from,
{
    if from >= options.len() || options[from].idx > idx {
        from
    } else {
        place_for(options, from + 1, idx)
    }
}

/// The options ordered by index; options of the same index keep their order.
pub open spec fn by_index(options: Seq<PollOption>) -> Seq<PollOption>
    decreases options.len(),
{
    if options.len() == 0 {
        options
    } else {
        let rest = by_index(options.drop_last());
        rest.insert(place_for(rest, 0, options.last().idx), options.last())
    }
}

/// The options ordered by index; options of the same index keep their order.
pub fn options_by_index(options: &[PollOption]) -> (r: Vec<PollOption>)
    ensures
        r@ == by_index(options@),
{
    let mut out: Vec<PollOption> = Vec::new();
    let mut i: usize = 0;
    proof {
        assert(options@.take(0) =~= out@);
    }
    while i < options.len()
        invariant
            i <= options.len(),
            out@ == by_index(options@.take(i as int)),
        decreases options.len() - i,
    {
        let option: PollOption = options[i].clone();
        let mut at: usize = 0;
        while at < out.len() && out[at].idx <= option.idx
            invariant
                at <= out.len(),
                place_for(out@, 0, option.idx) == place_for(out@, at as int, option.idx),
            decreases out.len() - at,
        {
            at += 1;
        }
        proof {
            assert(options@.take(i + 1).drop_last() =~= options@.take(i as int));
        }
        out.insert(at, option);
        i += 1;
    }
    proof {
        assert(options@.take(i as int) =~= options@);
    }
    out
}

proof fn lemma_place_for(options: Seq<PollOption>, from: int, idx: i32)
    requires
        0 <= from <= options.len(),
    ensures
        from <= place_for(options, from, idx) <= options.len(),
        forall|j: int| from <= j < place_for(options, from, idx) ==> options[j].idx <= idx,
        place_for(options, from, idx) < options.len() ==> options[place_for(
            options,
            from,
            idx,
        )].idx > idx,
    decreases options.len() - from,
{
    if from < options.len() && options[from].idx <= idx {
        lemma_place_for(options, from + 1, idx);
    }
}

/// Ordering options by index loses none, adds none, and leaves no option
/// before one of a smaller index.
pub proof fn law_by_index_is_sorted(options: Seq<PollOption>)
    ensures
        by_index(options).to_multiset() == options.to_multiset(),
        by_index(options).len() == options.len(),
        forall|i: int, j: int|
            0 <= i < j < options.len() ==> by_index(options)[i].idx <= by_index(options)[j].idx,
    decreases options.len(),
{
    if options.len() > 0 {
        let rest = by_index(options.drop_last());
        let last = options.last();
        let at = place_for(rest, 0, last.idx);
        law_by_index_is_sorted(options.drop_last());
        lemma_place_for(rest, 0, last.idx);
        rest.insert_ensures(at, last);
        to_multiset_insert(rest, at, last);
        vstd::seq_lib::to_multiset_build(options.drop_last(), last);
        assert(options.drop_last().push(last) =~= options);
    }
}

} // verus!
