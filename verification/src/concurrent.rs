use vstd::prelude::*;

use crate::label::label_view;

verus! {

/// What the combined progress of concurrent subtasks knows about one subtask:
/// whether it has finished (reported the whole of its range) and its latest label.
pub struct ChildState {
    pub finished: bool,
    pub label: Option<String>,
}

/// The abstract view of one subtask: finished flag and label text.
pub type ChildView = (bool, Option<Seq<char>>);

impl View for ChildState {
    type V = ChildView;

    open spec fn view(&self) -> ChildView {
        (self.finished, label_view(self.label))
    }
}

/// A subtask whose label may be passed through: not finished, and labelled.
pub open spec fn is_label_candidate(c: ChildView) -> bool {
    !c.0 && c.1 is Some
}

/// `i` is the first subtask whose label may be passed through.
pub open spec fn is_first_candidate(s: Seq<ChildView>, i: int) -> bool {
    &&& 0 <= i < s.len()
    &&& is_label_candidate(s[i])
    &&& forall|j: int| 0 <= j < i ==> !is_label_candidate(#[trigger] s[j])
}

/// The label passed through for the combined progress: the label of the first
/// subtask that has not finished and has a label, if there is one.
pub open spec fn combined_label(s: Seq<ChildView>) -> Option<Seq<char>> {
    if exists|i: int| is_first_candidate(s, i) {
        s[choose|i: int| is_first_candidate(s, i)].1
    } else {
        None
    }
}

/// The per-subtask state behind the progress of several concurrent subtasks.
pub struct ConcurrentProgress {
    children: Vec<ChildState>,
}

impl View for ConcurrentProgress {
    type V = Seq<ChildView>;

    closed spec fn view(&self) -> Seq<ChildView> {
        self.children@.map_values(|c: ChildState| c@)
    }
}

/// At most one subtask can be the first candidate.
pub proof fn lemma_first_candidate_unique(s: Seq<ChildView>, i: int, k: int)
    requires
        is_first_candidate(s, i),
        is_first_candidate(s, k),
    ensures
        i == k,
{
    if i < k {
        assert(!is_label_candidate(s[i]));
    } else if k < i {
        assert(!is_label_candidate(s[k]));
    }
}

impl ConcurrentProgress {
    /// State for `count` subtasks, none of which has made progress or has a label.
    pub fn new(count: usize) -> (r: ConcurrentProgress)
        ensures
            r@ == Seq::new(count as nat, |i: int| (false, None::<Seq<char>>)),
    {
        let mut children: Vec<ChildState> = Vec::new();
        let mut i: usize = 0;
        while i < count
            invariant
                i <= count,
                children@.len() == i,
                forall|j: int| 0 <= j < i ==> (#[trigger] children@[j])@ == (false, None::<Seq<char>>),
            decreases count - i,
        {
            children.push(ChildState { finished: false, label: None });
            i = i + 1;
        }
        let r = ConcurrentProgress { children };
        assert(r@ =~= Seq::new(count as nat, |i: int| (false, None::<Seq<char>>)));
        r
    }

    /// The number of subtasks.
    pub fn len(&self) -> (n: usize)
        ensures
            n == self@.len(),
    {
        self.children.len()
    }

    /// Stores the latest report of subtask `index`; the other subtasks are unchanged.
    pub fn record(&mut self, index: usize, finished: bool, label: Option<String>)
        requires
            index < old(self)@.len(),
        ensures
            final(self)@ == old(self)@.update(index as int, (finished, label_view(label))),
    {
        let ghost label_v = label_view(label);
        self.children.set(index, ChildState { finished, label });
        assert(self@ =~= old(self)@.update(index as int, (finished, label_v)));
    }

    /// The label to report for the combined progress: that of the first subtask which
    /// has not finished and has a label.
    pub fn first_incomplete_label(&self) -> (r: Option<&str>)
        ensures
            match r {
                Some(l) => combined_label(self@) == Some(l@),
                None => combined_label(self@) is None,
            },
            r is Some <==> exists|i: int| is_first_candidate(self@, i),
            r is None <==> forall|i: int|
                0 <= i < self@.len() ==> ((#[trigger] self@[i]).0 || self@[i].1 is None),
            forall|i: int|
                0 <= i < self@.len() && !(#[trigger] self@[i]).0 && self@[i].1 is Some && (forall|
                    j: int,
                | 0 <= j < i ==> ((#[trigger] self@[j]).0 || self@[j].1 is None)) ==> (r is Some
                    && self@[i].1 == Some(r.unwrap()@)),
    {
        let n = self.children.len();
        let mut i: usize = 0;
        while i < n
            invariant
                n == self.children@.len(),
                i <= n,
                self@.len() == n,
                forall|j: int| 0 <= j < i ==> !is_label_candidate(#[trigger] self@[j]),
            decreases n - i,
        {
            let child = &self.children[i];
            assert(self@[i as int] == child@);
            if !child.finished {
                match &child.label {
                    Some(l) => {
                        assert(is_first_candidate(self@, i as int));
                        proof {
                            let k = choose|k: int| is_first_candidate(self@, k);
                            lemma_first_candidate_unique(self@, i as int, k);
                        }
                        return Some(l.as_str());
                    },
                    None => {},
                }
            }
            i = i + 1;
        }
        assert forall|k: int| !is_first_candidate(self@, k) by {
            if is_first_candidate(self@, k) {
                assert(!is_label_candidate(self@[k]));
            }
        }
        None
    }
}

/// Once every subtask has finished, no label is passed through.
pub proof fn lemma_all_finished_no_label(s: Seq<ChildView>)
    requires
        forall|i: int| 0 <= i < s.len() ==> (#[trigger] s[i]).0,
    ensures
        combined_label(s) is None,
{
    assert forall|k: int| !is_first_candidate(s, k) by {
        if is_first_candidate(s, k) {
            assert(s[k].0);
        }
    }
}

/// A subtask that has not finished and has a label, with no such subtask before it,
/// decides the label passed through, whatever the subtasks after it report.
pub proof fn lemma_first_unfinished_label_wins(s: Seq<ChildView>, i: int)
    requires
        is_first_candidate(s, i),
    ensures
        combined_label(s) == s[i].1,
{
    let k = choose|k: int| is_first_candidate(s, k);
    lemma_first_candidate_unique(s, i, k);
}

/// Subtasks that have made no report pass no label through.
pub proof fn lemma_fresh_has_no_label(count: nat)
    ensures
        combined_label(Seq::new(count, |i: int| (false, None::<Seq<char>>))) is None,
{
    let s = Seq::new(count, |i: int| (false, None::<Seq<char>>));
    assert forall|k: int| !is_first_candidate(s, k) by {
        if is_first_candidate(s, k) {
            assert(!is_label_candidate(s[k]));
        }
    }
}

/// The label passed through is that of a subtask which has not finished and has a label,
/// with every subtask before it finished or unlabelled — at any position among the
/// subtasks.
pub proof fn lemma_unfinished_labelled_subtask_is_passed(s: Seq<ChildView>, i: int)
    requires
        0 <= i < s.len(),
        !s[i].0,
        s[i].1 is Some,
        forall|j: int| 0 <= j < i ==> ((#[trigger] s[j]).0 || s[j].1 is None),
    ensures
        combined_label(s) == s[i].1,
{
    assert(is_first_candidate(s, i));
    lemma_first_unfinished_label_wins(s, i);
}

/// Some label is passed through exactly when some subtask has not finished and has a
/// label, and the label passed through is then the label of such a subtask.
pub proof fn lemma_label_passed_iff_unfinished_labelled(s: Seq<ChildView>)
    ensures
        (combined_label(s) is Some) <==> (exists|i: int|
            0 <= i < s.len() && !(#[trigger] s[i]).0 && s[i].1 is Some),
        combined_label(s) is Some ==> exists|i: int|
            0 <= i < s.len() && !(#[trigger] s[i]).0 && s[i].1 == combined_label(s),
{
    if exists|i: int| 0 <= i < s.len() && !(#[trigger] s[i]).0 && s[i].1 is Some {
        let i0 = choose|i: int| 0 <= i < s.len() && !(#[trigger] s[i]).0 && s[i].1 is Some;
        lemma_least_candidate_exists(s, i0);
    } else {
        assert forall|k: int| !is_first_candidate(s, k) by {
            if is_first_candidate(s, k) {
                assert(!s[k].0 && s[k].1 is Some);
            }
        }
    }
}

/// Where some subtask at or before `i` qualifies, a first one does, and it decides the label.
proof fn lemma_least_candidate_exists(s: Seq<ChildView>, i: int)
    requires
        0 <= i < s.len(),
        !s[i].0,
        s[i].1 is Some,
    ensures
        exists|k: int| is_first_candidate(s, k),
        combined_label(s) is Some,
        exists|k: int| 0 <= k < s.len() && !(#[trigger] s[k]).0 && s[k].1 == combined_label(s),
    decreases i,
{
    if forall|j: int| 0 <= j < i ==> !is_label_candidate(#[trigger] s[j]) {
        assert(is_first_candidate(s, i));
        lemma_first_unfinished_label_wins(s, i);
    } else {
        let j = choose|j: int| 0 <= j < i && is_label_candidate(#[trigger] s[j]);
        lemma_least_candidate_exists(s, j);
    }
}

} // verus!
