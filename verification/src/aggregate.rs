use vstd::prelude::*;

use crate::ranking::{effective_score, score_or_zero, sorted_desc, RankEntry, Ranking};
use crate::types::Story;

verus! {

/// Whether the table holds a story with this id.
pub open spec fn table_has_id(t: Seq<Story>, id: u32) -> bool {
    exists|j: int| 0 <= j < t.len() && t[j].id == id
}

/// Whether the ranking holds an entry with this id.
pub open spec fn ranking_has_id(r: Seq<RankEntry>, id: u32) -> bool {
    exists|i: int| 0 <= i < r.len() && r[i].id == id
}

/// Whether the table holds the story a ranking entry stands for:
/// same id, and the entry carries that story's effective score.
pub open spec fn table_entry_for(t: Seq<Story>, e: RankEntry) -> bool {
    exists|j: int| 0 <= j < t.len() && t[j].id == e.id && e.score == score_or_zero(t[j].score)
}

/// No two table rows share an id.
pub open spec fn table_ids_distinct(t: Seq<Story>) -> bool {
    forall|j1: int, j2: int| 0 <= j1 < j2 < t.len() ==> t[j1].id != t[j2].id
}

/// The aggregation state: the score-ordered ranking structure and the
/// id-keyed lookup table, filled together, one story at a time.
#[derive(Debug, Clone)]
pub struct Aggregation {
    ranking: Ranking,
    table: Vec<Story>,
}

impl Aggregation {
    /// The ranking entries, as the ordering structure holds them.
    pub closed spec fn ranking_view(self) -> Seq<RankEntry> {
        self.ranking@
    }

    /// The stored stories, in arrival order.
    pub closed spec fn table_view(self) -> Seq<Story> {
        self.table@
    }

    /// The invariant every reachable state keeps: the ranking is
    /// score-ordered, ids are unique, and the ranking and the table
    /// describe exactly the same stories — insertion is atomic over both.
    pub open spec fn wf(self) -> bool {
        &&& sorted_desc(self.ranking_view())
        &&& self.ranking_view().len() == self.table_view().len()
        &&& table_ids_distinct(self.table_view())
        &&& (forall|i: int|
            0 <= i < self.ranking_view().len() ==> table_entry_for(
                self.table_view(),
                #[trigger] self.ranking_view()[i],
            ))
        &&& (forall|j: int|
            0 <= j < self.table_view().len() ==> ranking_has_id(
                self.ranking_view(),
                #[trigger] self.table_view()[j].id,
            ))
    }

    /// An empty aggregation.
    pub fn new() -> (r: Aggregation)
        ensures
            r.wf(),
            r.table_view() == Seq::<Story>::empty(),
            r.ranking_view() == Seq::<RankEntry>::empty(),
    {
        Aggregation { ranking: Ranking::new(), table: Vec::new() }
    }

    /// How many stories have been aggregated.
    pub fn len(&self) -> (n: usize)
        ensures
            n == self.table_view().len(),
    {
        self.table.len()
    }

    /// Whether a story with this id has been aggregated already.
    pub fn contains_id(&self, id: u32) -> (r: bool)
        ensures
            r == table_has_id(self.table_view(), id),
    {
        let mut j: usize = 0;
        while j < self.table.len()
            invariant
                j <= self.table@.len(),
                forall|k: int| 0 <= k < j ==> self.table@[k].id != id,
            decreases self.table@.len() - j,
        {
            if self.table[j].id == id {
                assert(table_has_id(self.table@, id)) by {
                    assert(self.table@[j as int].id == id);
                }
                return true;
            }
            j = j + 1;
        }
        false
    }

    /// Look a story up by id.
    pub fn get(&self, id: u32) -> (r: Option<&Story>)
        ensures
            match r {
                Some(s) => {
                    &&& s.id == id
                    &&& exists|j: int|
                        0 <= j < self.table_view().len() && self.table_view()[j] == *s
                },
                None => !table_has_id(self.table_view(), id),
            },
    {
        let mut j: usize = 0;
        while j < self.table.len()
            invariant
                j <= self.table@.len(),
                forall|k: int| 0 <= k < j ==> self.table@[k].id != id,
            decreases self.table@.len() - j,
        {
            if self.table[j].id == id {
                let s = &self.table[j];
                assert(exists|jj: int|
                    0 <= jj < self.table_view().len() && self.table_view()[jj] == *s) by {
                    assert(self.table_view()[j as int] == *s);
                }
                return Some(s);
            }
            j = j + 1;
        }
        None
    }

    /// The ranking entries, highest score first.
    pub fn ranked_entries(&self) -> (r: &Vec<RankEntry>)
        ensures
            r@ == self.ranking_view(),
            self.wf() ==> sorted_desc(r@),
    {
        self.ranking.entries()
    }

    /// Insert one story: one ranking entry — carrying the story's
    /// effective score, zero where the wire gave none — and the full
    /// record, as one logically atomic step. A story whose id is already
    /// present leaves the state unchanged; under deduplicated dispatch
    /// that case is never reached.
    pub fn insert_story(&mut self, s: Story)
        requires
            old(self).wf(),
        ensures
            final(self).wf(),
            table_has_id(old(self).table_view(), s.id) ==> *final(self) == *old(self),
            !table_has_id(old(self).table_view(), s.id) ==> {
                &&& final(self).table_view() == old(self).table_view().push(s)
                &&& exists|k: int|
                    0 <= k <= old(self).ranking_view().len() && final(self).ranking_view()
                        == old(self).ranking_view().insert(
                        k,
                        RankEntry { score: score_or_zero(s.score), id: s.id },
                    )
            },
    {
        if self.contains_id(s.id) {
            return ;
        }
        let ghost old_rank = self.ranking@;
        let ghost old_table = self.table@;
        let e = RankEntry { score: effective_score(&s.score), id: s.id };
        self.ranking.insert(e);
        self.table.push(s);
        proof {
            let k = choose|k: int|
                0 <= k <= old_rank.len() && self.ranking@ == old_rank.insert(k, e);
            old_rank.insert_ensures(k, e);
            let nr = self.ranking@;
            let nt = self.table@;
            assert(nt == old_table.push(s));
            assert forall|i: int|
                0 <= i < nr.len() implies table_entry_for(nt, #[trigger] nr[i]) by {
                if i == k {
                    assert(nr[i] == e);
                    assert(nt[old_table.len() as int] == s);
                } else {
                    let oi = if i < k {
                        i
                    } else {
                        i - 1
                    };
                    assert(nr[i] == old_rank[oi]);
                    assert(table_entry_for(old_table, old_rank[oi]));
                    let j = choose|j: int|
                        0 <= j < old_table.len() && old_table[j].id == old_rank[oi].id
                            && old_rank[oi].score == score_or_zero(old_table[j].score);
                    assert(nt[j] == old_table[j]);
                }
            }
            assert forall|j: int|
                0 <= j < nt.len() implies ranking_has_id(nr, #[trigger] nt[j].id) by {
                if j == old_table.len() {
                    assert(nr[k] == e);
                } else {
                    assert(nt[j] == old_table[j]);
                    assert(ranking_has_id(old_rank, old_table[j].id));
                    let i = choose|i: int|
                        0 <= i < old_rank.len() && old_rank[i].id == old_table[j].id;
                    if i < k {
                        assert(nr[i] == old_rank[i]);
                    } else {
                        assert(nr[i + 1] == old_rank[i]);
                    }
                }
            }
        }
    }
}

/// Law: in every quiescent state the lookup table and the ranking
/// structure hold the same number of entries, and describe exactly the
/// same set of ids.
pub proof fn lemma_ranking_matches_table(agg: Aggregation)
    requires
        agg.wf(),
    ensures
        agg.ranking_view().len() == agg.table_view().len(),
        forall|id: u32|
            ranking_has_id(agg.ranking_view(), id) <==> table_has_id(agg.table_view(), id),
{
    let r = agg.ranking_view();
    let t = agg.table_view();
    assert forall|id: u32| ranking_has_id(r, id) implies table_has_id(t, id) by {
        let i = choose|i: int| 0 <= i < r.len() && r[i].id == id;
        assert(table_entry_for(t, r[i]));
    }
    assert forall|id: u32| table_has_id(t, id) implies ranking_has_id(r, id) by {
        let j = choose|j: int| 0 <= j < t.len() && t[j].id == id;
        assert(ranking_has_id(r, t[j].id));
    }
}

} // verus!
