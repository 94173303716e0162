use vstd::prelude::*;

verus! {

/// The effective ranking score of an optional wire score: a story that
/// carries no score ranks lowest, at zero.
pub open spec fn score_or_zero(score: Option<u32>) -> u32 {
    match score {
        Some(s) => s,
        None => 0,
    }
}

/// Executable counterpart of `score_or_zero`.
pub fn effective_score(score: &Option<u32>) -> (r: u32)
    ensures
        r == score_or_zero(*score),
{
    match score {
        Some(s) => *s,
        None => 0,
    }
}

/// Law: a story that carries no score is not a failure anywhere in the
/// pipeline — it simply ranks lowest, at effective score zero.
pub proof fn lemma_missing_score_ranks_zero(score: Option<u32>)
    requires
        score is None,
    ensures
        score_or_zero(score) == 0,
{
}

/// A ranking entry: the pair of effective score and item id that the
/// ordering structure carries. The full story record lives in the
/// lookup table, not here.
#[derive(Debug, Clone, Copy, PartialEq, Eq, Structural)]
pub struct RankEntry {
    pub score: u32,
    pub id: u32,
}

/// Entries stand in non-increasing score order. Entries of equal score
/// may stand in any relative order: that order is not a guarantee.
pub open spec fn sorted_desc(s: Seq<RankEntry>) -> bool {
    forall|i: int, j: int| 0 <= i <= j < s.len() ==> s[i].score >= s[j].score
}

/// The priority ordering structure of the pipeline: entries kept in
/// non-increasing score order, so the current maximum is always in front.
#[derive(Debug, Clone)]
pub struct Ranking {
    entries: Vec<RankEntry>,
}

impl View for Ranking {
    type V = Seq<RankEntry>;

    closed spec fn view(&self) -> Seq<RankEntry> {
        self.entries@
    }
}

impl Ranking {
    /// The structure's invariant: the entries are score-ordered.
    pub open spec fn wf(self) -> bool {
        sorted_desc(self@)
    }

    /// An empty ranking.
    pub fn new() -> (r: Ranking)
        ensures
            r@ == Seq::<RankEntry>::empty(),
            r.wf(),
    {
        Ranking { entries: Vec::new() }
    }

    /// How many entries the ranking holds.
    pub fn len(&self) -> (n: usize)
        ensures
            n == self@.len(),
    {
        self.entries.len()
    }

    /// The entries, highest score first.
    pub fn entries(&self) -> (r: &Vec<RankEntry>)
        ensures
            r@ == self@,
            self.wf() ==> sorted_desc(r@),
    {
        &self.entries
    }

    /// Insert one entry, keeping the score order. Where the new entry
    /// ties an existing score, its position among the ties is arbitrary.
    pub fn insert(&mut self, e: RankEntry)
        requires
            old(self).wf(),
        ensures
            final(self).wf(),
            exists|k: int|
                0 <= k <= old(self)@.len() && final(self)@ == old(self)@.insert(k, e),
    {
        let ghost o = self.entries@;
        let mut idx: usize = 0;
        while idx < self.entries.len() && self.entries[idx].score > e.score
            invariant
                idx <= self.entries@.len(),
                self.entries@ == o,
                sorted_desc(o),
                forall|k: int| 0 <= k < idx ==> o[k].score > e.score,
            decreases self.entries@.len() - idx,
        {
            idx = idx + 1;
        }
        self.entries.insert(idx, e);
        proof {
            o.insert_ensures(idx as int, e);
            let n = self.entries@;
            assert forall|i: int, j: int|
                0 <= i <= j < n.len() implies n[i].score >= n[j].score by {
                if j < idx {
                    assert(n[i] == o[i] && n[j] == o[j]);
                } else if i < idx && j == idx {
                    assert(n[i] == o[i] && n[j] == e);
                } else if i < idx && j > idx {
                    assert(n[i] == o[i] && n[j] == o[j - 1]);
                } else if i == idx && j > idx {
                    assert(n[i] == e && n[j] == o[j - 1]);
                    assert(o[idx as int].score <= e.score);
                    assert(o[j - 1].score <= o[idx as int].score);
                } else if i > idx {
                    assert(n[i] == o[i - 1] && n[j] == o[j - 1]);
                }
            }
            assert(n == o.insert(idx as int, e));
        }
    }
}

} // verus!
