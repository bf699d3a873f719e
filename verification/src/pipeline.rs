//! The pipeline: descriptors ordered by source position, ties kept in the
//! order in which they were collected.

use vstd::prelude::*;
use vstd::seq_lib::{
    lemma_multiset_commutative, lemma_seq_union_to_multiset_commutative, to_multiset_build,
};
use crate::commands::{Command, CommandTrait, Descriptor};

verus! {

/// The ordered list of descriptors of one run.
#[derive(Clone, Debug, PartialEq, Eq)]
pub struct Commands {
    pub commands: Vec<Command>,
}

/// The mathematical values of a list of commands.
pub open spec fn descriptors(commands: Seq<Command>) -> Seq<Descriptor> {
    commands.map_values(|c: Command| c@)
}

impl View for Commands {
    type V = Seq<Descriptor>;

    open spec fn view(&self) -> Seq<Descriptor> {
        descriptors(self.commands@)
    }
}

impl Commands {
    /// A pipeline is well formed when its source positions never decrease.
    pub open spec fn well_formed(&self) -> bool {
        ordered(self@)
    }
}

/// Source positions never decrease along `s`.
pub open spec fn ordered(s: Seq<Descriptor>) -> bool {
    forall|i: int, j: int| 0 <= i <= j < s.len() ==> s[i].index <= s[j].index
}

/// The test for standing at `position`.
pub open spec fn has_position(position: u32) -> spec_fn(Descriptor) -> bool {
    |d: Descriptor| d.index == position
}

/// The descriptors of `s` that stand at `position`, in the order in which
/// they occur in `s`.
pub open spec fn at_position(s: Seq<Descriptor>, position: u32) -> Seq<Descriptor> {
    s.filter(has_position(position))
}

/// `pipeline` is `raw` sorted by source position, with descriptors of equal
/// position in the order they have in `raw`: it is ordered, it holds the
/// descriptors of `raw`, each as often as `raw` does, and at every position
/// it holds what `raw` holds there, in the same order.
pub open spec fn is_pipeline_of(pipeline: Seq<Descriptor>, raw: Seq<Descriptor>) -> bool {
    &&& ordered(pipeline)
    &&& pipeline.len() == raw.len()
    &&& pipeline.to_multiset() == raw.to_multiset()
    &&& forall|position: u32| at_position(pipeline, position) == at_position(raw, position)
}

proof fn lemma_insert_to_multiset(s: Seq<Descriptor>, at: int, d: Descriptor)
    requires
        0 <= at <= s.len(),
    ensures
        s.insert(at, d).to_multiset() == s.to_multiset().insert(d),
{
    broadcast use vstd::multiset::group_multiset_axioms;

    let before = s.take(at);
    let after = s.skip(at);
    assert(s =~= before + after);
    assert(s.insert(at, d) =~= before.push(d) + after);
    lemma_multiset_commutative(before.push(d), after);
    lemma_multiset_commutative(before, after);
    to_multiset_build(before, d);
    assert(s.insert(at, d).to_multiset() =~= s.to_multiset().insert(d));
}

proof fn lemma_front_to_multiset(d: Descriptor, s: Seq<Descriptor>)
    ensures
        (seq![d] + s).to_multiset() == s.to_multiset().insert(d),
{
    lemma_seq_union_to_multiset_commutative(seq![d], s);
    assert(s + seq![d] =~= s.push(d));
    to_multiset_build(s, d);
}

proof fn lemma_at_position_none(s: Seq<Descriptor>, position: u32)
    requires
        forall|i: int| 0 <= i < s.len() ==> s[i].index != position,
    ensures
        at_position(s, position) == Seq::<Descriptor>::empty(),
{
    let kept = s.filter(has_position(position));
    if kept.len() > 0 {
        s.lemma_filter_pred(has_position(position), 0);
        assert(kept.contains(kept[0]));
        s.lemma_filter_contains_rev(has_position(position), kept[0]);
        let i = choose|i: int| 0 <= i < s.len() && s[i] == kept[0];
        assert(s[i].index == position);
    }
    assert(kept =~= Seq::<Descriptor>::empty());
}

proof fn lemma_at_position_one(d: Descriptor, position: u32)
    ensures
        at_position(seq![d], position) == if d.index == position {
            seq![d]
        } else {
            Seq::<Descriptor>::empty()
        },
{
    reveal_with_fuel(Seq::filter, 2);
    let s = seq![d];
    assert(s.drop_last() =~= Seq::<Descriptor>::empty());
    assert(s.last() == d);
    assert(s.drop_last().filter(has_position(position)) =~= Seq::<Descriptor>::empty());
    if d.index == position {
        assert(Seq::<Descriptor>::empty().push(d) =~= seq![d]);
    }
}

/// What a position holds after `d` went in at index `at`, in front of every
/// descriptor of its own position.
proof fn lemma_at_position_insert(s: Seq<Descriptor>, at: int, d: Descriptor, position: u32)
    requires
        0 <= at <= s.len(),
        forall|i: int| 0 <= i < at ==> s[i].index != d.index,
    ensures
        at_position(s.insert(at, d), position) == at_position(seq![d] + s, position),
{
    let pred = has_position(position);
    let before = s.take(at);
    let after = s.skip(at);
    assert(s =~= before + after);
    assert(s.insert(at, d) =~= (before + seq![d]) + after);
    assert(seq![d] + s =~= (seq![d] + before) + after);
    Seq::filter_distributes_over_add(before + seq![d], after, pred);
    Seq::filter_distributes_over_add(seq![d] + before, after, pred);
    Seq::filter_distributes_over_add(before, seq![d], pred);
    Seq::filter_distributes_over_add(seq![d], before, pred);
    lemma_at_position_one(d, position);
    if d.index == position {
        lemma_at_position_none(before, position);
        assert(Seq::<Descriptor>::empty() + seq![d] =~= seq![d] + Seq::<Descriptor>::empty());
    } else {
        assert(before.filter(pred) + Seq::<Descriptor>::empty() =~= Seq::<Descriptor>::empty()
            + before.filter(pred));
    }
}

proof fn lemma_at_position_front(d: Descriptor, s: Seq<Descriptor>, t: Seq<Descriptor>)
    requires
        forall|position: u32| at_position(s, position) == at_position(t, position),
    ensures
        forall|position: u32|
            at_position(seq![d] + s, position) == at_position(seq![d] + t, position),
{
    assert forall|position: u32|
        at_position(seq![d] + s, position) == at_position(seq![d] + t, position) by {
        Seq::filter_distributes_over_add(seq![d], s, has_position(position));
        Seq::filter_distributes_over_add(seq![d], t, has_position(position));
        assert(at_position(s, position) == at_position(t, position));
    }
}

proof fn lemma_at_position_last(s: Seq<Descriptor>, position: u32)
    requires
        s.len() > 0,
    ensures
        at_position(s, position) == if s.last().index == position {
            at_position(s.drop_last(), position).push(s.last())
        } else {
            at_position(s.drop_last(), position)
        },
{
    reveal(Seq::filter);
}

proof fn lemma_position_occurs(s: Seq<Descriptor>, position: u32) -> (i: int)
    requires
        at_position(s, position).len() > 0,
    ensures
        0 <= i < s.len(),
        s[i].index == position,
{
    let kept = s.filter(has_position(position));
    s.lemma_filter_pred(has_position(position), 0);
    assert(kept.contains(kept[0]));
    s.lemma_filter_contains_rev(has_position(position), kept[0]);
    choose|i: int| 0 <= i < s.len() && s[i] == kept[0]
}

proof fn lemma_same_at_every_position(first: Seq<Descriptor>, second: Seq<Descriptor>)
    requires
        ordered(first),
        ordered(second),
        first.len() == second.len(),
        forall|position: u32| at_position(first, position) == at_position(second, position),
    ensures
        first == second,
    decreases first.len(),
{
    if first.len() == 0 {
        assert(first =~= second);
    } else {
        let a = first.last();
        let b = second.last();
        lemma_at_position_last(first, a.index);
        lemma_at_position_last(second, b.index);
        assert(at_position(second, a.index) == at_position(first, a.index));
        assert(at_position(first, b.index) == at_position(second, b.index));
        let i = lemma_position_occurs(second, a.index);
        let j = lemma_position_occurs(first, b.index);
        assert(second[i].index <= second[second.len() - 1].index);
        assert(first[j].index <= first[first.len() - 1].index);
        assert(a.index == b.index);
        assert(a == at_position(first, a.index).last());
        assert(b == at_position(second, a.index).last());
        let shorter_first = first.drop_last();
        let shorter_second = second.drop_last();
        assert forall|position: u32|
            at_position(shorter_first, position) == at_position(shorter_second, position) by {
            lemma_at_position_last(first, position);
            lemma_at_position_last(second, position);
            assert(at_position(first, position) == at_position(second, position));
            if position == a.index {
                assert(at_position(shorter_first, position) =~= at_position(
                    first,
                    position,
                ).drop_last());
                assert(at_position(shorter_second, position) =~= at_position(
                    second,
                    position,
                ).drop_last());
            }
        }
        assert(ordered(shorter_first)) by {
            assert forall|i: int, j: int|
                0 <= i <= j < shorter_first.len() implies shorter_first[i].index
                <= shorter_first[j].index by {
                assert(first[i].index <= first[j].index);
            }
        }
        assert(ordered(shorter_second)) by {
            assert forall|i: int, j: int|
                0 <= i <= j < shorter_second.len() implies shorter_second[i].index
                <= shorter_second[j].index by {
                assert(second[i].index <= second[j].index);
            }
        }
        lemma_same_at_every_position(shorter_first, shorter_second);
        assert(first =~= shorter_first.push(a));
        assert(second =~= shorter_second.push(b));
    }
}

/// The collected descriptors have one pipeline only: the order of a
/// pipeline leaves nothing open.
pub proof fn pipeline_is_unique(
    first: Seq<Descriptor>,
    second: Seq<Descriptor>,
    raw: Seq<Descriptor>,
)
    requires
        is_pipeline_of(first, raw),
        is_pipeline_of(second, raw),
    ensures
        first == second,
{
    assert forall|position: u32| at_position(first, position) == at_position(second, position) by {
        assert(at_position(first, position) == at_position(raw, position));
        assert(at_position(second, position) == at_position(raw, position));
    }
    lemma_same_at_every_position(first, second);
}

/// Orders the collected descriptors by source position. Descriptors that
/// share a position keep the order in which they were collected, and none is
/// dropped or added.
pub fn build(raw: Vec<Command>) -> (pipeline: Commands)
    ensures
        pipeline.well_formed(),
        is_pipeline_of(pipeline@, descriptors(raw@)),
{
    let ghost all = descriptors(raw@);
    let mut rest = raw;
    let mut sorted: Vec<Command> = Vec::new();
    assert(all.skip(all.len() as int) =~= descriptors(sorted@));
    while rest.len() > 0
        invariant
            rest@.len() <= all.len(),
            descriptors(rest@) == all.take(rest@.len() as int),
            sorted@.len() + rest@.len() == all.len(),
            ordered(descriptors(sorted@)),
            descriptors(sorted@).to_multiset() == all.skip(rest@.len() as int).to_multiset(),
            forall|position: u32|
                at_position(descriptors(sorted@), position) == at_position(
                    all.skip(rest@.len() as int),
                    position,
                ),
        decreases rest@.len(),
    {
        let ghost before = descriptors(sorted@);
        let ghost done = all.skip(rest@.len() as int);
        let ghost k = rest@.len() - 1;
        let command = rest.pop().unwrap();
        let position = command.get_index();
        let mut at: usize = 0;
        while at < sorted.len() && sorted[at].get_index() < position
            invariant
                0 <= at <= sorted@.len(),
                before == descriptors(sorted@),
                forall|i: int| 0 <= i < at ==> before[i].index < position,
            decreases sorted@.len() - at,
        {
            at = at + 1;
        }
        sorted.insert(at, command);
        proof {
            let d = command@;
            let after = descriptors(sorted@);
            assert(after =~= before.insert(at as int, d));
            assert(descriptors(rest@) =~= all.take(k));
            assert(all[k] == d) by {
                assert(all.take(k + 1)[k] == all[k]);
            }
            assert(all.skip(k) =~= seq![d] + done);
            assert(ordered(after)) by {
                assert forall|i: int, j: int| 0 <= i <= j < after.len() implies after[i].index
                    <= after[j].index by {
                    if i < at && j > at {
                        assert(before[i].index <= before[j - 1].index);
                    } else if i > at {
                        assert(before[i - 1].index <= before[j - 1].index);
                    } else if i == at && j > at {
                        assert(before[at as int].index <= before[j - 1].index);
                    }
                }
            }
            lemma_insert_to_multiset(before, at as int, d);
            lemma_front_to_multiset(d, done);
            lemma_at_position_front(d, before, done);
            assert forall|p: u32| at_position(after, p) == at_position(all.skip(k), p) by {
                lemma_at_position_insert(before, at as int, d, p);
            }
        }
    }
    assert(all.skip(0) =~= all);
    Commands { commands: sorted }
}

} // verus!
