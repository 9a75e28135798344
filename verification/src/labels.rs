//! Labels for a batch of items, kept as the shortest prefix that still holds
//! every label at the position of its item.

use vstd::prelude::*;

verus! {

/// One more than the highest position of `dense` that holds a label, or 0
/// where none does.
pub open spec fn covering_len<L>(dense: Seq<Option<L>>) -> nat
    decreases dense.len(),
{
    if dense.len() == 0 {
        0
    } else if dense.last() is Some {
        dense.len()
    } else {
        covering_len(dense.drop_last())
    }
}

/// The shortest prefix of `dense` that holds all its labels.
pub open spec fn sparse_prefix<L>(dense: Seq<Option<L>>) -> Seq<Option<L>> {
    dense.take(covering_len(dense) as int)
}

/// The positions of `dense` that hold a label.
pub open spec fn labeled_positions<L>(dense: Seq<Option<L>>) -> Set<int> {
    Set::new(|i: int| 0 <= i < dense.len() && dense[i] is Some)
}

/// `count` absent entries.
pub open spec fn gap<L>(count: nat) -> Seq<Option<L>> {
    Seq::new(count, |i: int| None::<L>)
}

/// The labels `out` after the label of position `ix` came in: unchanged for
/// an absent label; for a present one, grown by absent entries up to `ix`
/// and then by the label itself.
pub open spec fn recorded<L>(out: Seq<Option<L>>, ix: int, label: Option<L>) -> Seq<Option<L>>
    recommends
        out.len() <= ix,
{
    match label {
        Some(l) => (out + gap::<L>((ix - out.len()) as nat)).push(Some(l)),
        None => out,
    }
}

/// The covering length never exceeds the length, every position from it on
/// is absent, and the position just below it, if there is one, is present.
pub proof fn lemma_covering_len<L>(dense: Seq<Option<L>>)
    ensures
        covering_len(dense) <= dense.len(),
        forall|i: int| covering_len(dense) <= i < dense.len() ==> (#[trigger] dense[i]) is None,
        covering_len(dense) > 0 ==> dense[covering_len(dense) - 1] is Some,
    decreases dense.len(),
{
    if dense.len() > 0 && dense.last() is None {
        let shorter = dense.drop_last();
        lemma_covering_len(shorter);
        assert forall|i: int| covering_len(dense) <= i < dense.len() implies (#[trigger] dense[i])
            is None by {
            if i < shorter.len() {
                assert(shorter[i] is None);
            }
        }
    }
}

/// The law of the sparse result. For the set S of labeled positions of a
/// dense sequence: the sparse prefix is empty where S is empty, else its
/// length is one more than the greatest member of S; it agrees with the
/// dense sequence wherever it reaches; it holds a label at exactly the
/// positions of S; and it is tight.
pub proof fn lemma_sparse_prefix<L>(dense: Seq<Option<L>>)
    ensures
        sparse_prefix(dense).len() == covering_len(dense) <= dense.len(),
        is_tight(sparse_prefix(dense)),
        labeled_positions(dense) =~= Set::<int>::empty() ==> sparse_prefix(dense).len() == 0,
        !(labeled_positions(dense) =~= Set::<int>::empty()) ==> {
            &&& labeled_positions(dense).contains(sparse_prefix(dense).len() - 1)
            &&& forall|i: int| #[trigger]
                labeled_positions(dense).contains(i) ==> i <= sparse_prefix(dense).len() - 1
        },
        forall|i: int|
            0 <= i < sparse_prefix(dense).len() ==> (#[trigger] sparse_prefix(dense)[i])
                == dense[i],
        forall|i: int|
            (0 <= i < sparse_prefix(dense).len() && sparse_prefix(dense)[i] is Some)
                <==> #[trigger] labeled_positions(dense).contains(i),
{
    lemma_covering_len(dense);
    let n = covering_len(dense);
    if n > 0 {
        assert(labeled_positions(dense).contains(n - 1));
    }
    assert forall|i: int| #[trigger] labeled_positions(dense).contains(i) implies i <= n - 1 by {
        if i >= n {
            assert(dense[i] is None);
        }
    }
}

/// A label that comes in at the end of a dense sequence changes the sparse
/// prefix as `recorded` says.
pub proof fn lemma_sparse_prefix_push<L>(dense: Seq<Option<L>>, label: Option<L>)
    ensures
        sparse_prefix(dense.push(label)) == recorded(
            sparse_prefix(dense),
            dense.len() as int,
            label,
        ),
{
    lemma_covering_len(dense);
    let longer = dense.push(label);
    assert(longer.drop_last() =~= dense);
    match label {
        Some(l) => {
            assert(sparse_prefix(longer) =~= recorded(
                sparse_prefix(dense),
                dense.len() as int,
                label,
            ));
        },
        None => {
            assert(sparse_prefix(longer) =~= sparse_prefix(dense));
        },
    }
}

/// No shorter sequence holds the labels of `out` at their positions: `out`
/// is empty or ends with a label.
pub open spec fn is_tight<L>(out: Seq<Option<L>>) -> bool {
    out.len() == 0 || out.last() is Some
}

/// The labels of a batch under construction: position `i` holds the label
/// of item `i`, and the sequence ends with the last label recorded.
pub struct LabeledResult<T> {
    labels: Vec<Option<T>>,
}

impl<T> View for LabeledResult<T> {
    type V = Seq<Option<T>>;

    closed spec fn view(&self) -> Seq<Option<T>> {
        self.labels@
    }
}

impl<T> LabeledResult<T> {
    #[verifier::type_invariant]
    spec fn tight(self) -> bool {
        is_tight(self.labels@)
    }

    /// A result with no label yet.
    pub fn new() -> (result: Self)
        ensures
            result@ == Seq::<Option<T>>::empty(),
    {
        LabeledResult { labels: Vec::new() }
    }

    /// Takes in the label of the item at position `ix`. An absent label
    /// leaves the result as it is. A present one makes the result `ix + 1`
    /// long, with absent entries in the positions newly laid open, and sets
    /// position `ix`. Positions come in rising order, so `ix` lies at or
    /// beyond the end of the result.
    pub fn record(&mut self, ix: usize, label: Option<T>)
        requires
            old(self)@.len() <= ix,
        ensures
            final(self)@ == recorded(old(self)@, ix as int, label),
    {
        if let Some(l) = label {
            let mut grown: Vec<Option<T>> = Vec::new();
            std::mem::swap(&mut self.labels, &mut grown);
            while grown.len() < ix
                invariant
                    old(self)@.len() <= grown.len() <= ix,
                    grown@ == old(self)@ + gap::<T>((grown.len() - old(self)@.len()) as nat),
                decreases ix - grown.len(),
            {
                grown.push(None);
                assert(grown@ =~= old(self)@ + gap::<T>(
                    (grown.len() - old(self)@.len()) as nat,
                ));
            }
            grown.push(Some(l));
            self.labels = grown;
        }
    }

    /// Gives out the labels.
    pub fn into_labels(self) -> (labels: Vec<Option<T>>)
        ensures
            labels@ == self@,
            is_tight(labels@),
    {
        proof {
            use_type_invariant(&self);
        }
        self.labels
    }
}

/// `dense` holds, for each item of `items` in turn, a label that `label_of`
/// may return for it.
pub open spec fn is_labeling<T, L, F: Fn(T) -> Option<L>>(
    label_of: F,
    items: Seq<T>,
    dense: Seq<Option<L>>,
) -> bool {
    &&& dense.len() == items.len()
    &&& forall|i: int|
        0 <= i < items.len() ==> call_ensures(label_of, (items[i],), #[trigger] dense[i])
}

/// Asks `label_of` for the label of each item, in order and once each, and
/// returns the shortest prefix of the answers that holds every label given.
pub fn labels_for<T, L, F: Fn(T) -> Option<L>>(items: Vec<T>, label_of: F) -> (labels: Vec<
    Option<L>,
>)
    requires
        forall|i: int| 0 <= i < items.len() ==> call_requires(label_of, (#[trigger] items[i],)),
    ensures
        exists|dense: Seq<Option<L>>| #[trigger]
            is_labeling(label_of, items@, dense) && labels@ == sparse_prefix(dense),
{
    let ghost all = items@;
    assert(items.len() <= usize::MAX);
    let ghost mut dense: Seq<Option<L>> = Seq::empty();
    let mut result: LabeledResult<L> = LabeledResult::new();
    let mut ix: usize = 0;
    for item in it: items.into_iter()
        invariant
            it.seq() == all,
            all.len() <= usize::MAX,
            ix == it.index(),
            forall|i: int| 0 <= i < all.len() ==> call_requires(label_of, (#[trigger] all[i],)),
            is_labeling(label_of, all.take(ix as int), dense),
            result@ == sparse_prefix(dense),
    {
        let label = label_of(item);
        proof {
            lemma_sparse_prefix_push(dense, label);
            lemma_covering_len(dense);
            assert(all.take(ix + 1) =~= all.take(ix as int).push(item));
            dense = dense.push(label);
        }
        result.record(ix, label);
        ix += 1;
    }
    proof {
        assert(all.take(ix as int) =~= all);
    }
    result.into_labels()
}

} // verus!
