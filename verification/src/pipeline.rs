use vstd::prelude::*;

use crate::aggregate::{table_has_id, Aggregation};
use crate::schema::{decode, decode_spec, DecodeError, RawDoc};
use crate::types::{ItemView, Story, StoryView};

verus! {

/// What one dispatched fetch came back with, as the aggregation point
/// sees it. Arrival order among outcomes is arbitrary.
#[derive(Debug, Clone, PartialEq, Eq)]
pub enum FetchResponse {
    /// The transport failed: connection refused, timeout, or a broken
    /// secure channel.
    TransportFailure,
    /// A body arrived but could not be read as a document at all.
    Garbled,
    /// A body arrived and parsed into a raw document.
    Document(RawDoc),
}

/// The outcome of the fetch dispatched for one id.
#[derive(Debug, Clone, PartialEq, Eq)]
pub struct FetchOutcome {
    /// The id the fetch was dispatched for.
    pub id: u32,
    /// What came back.
    pub response: FetchResponse,
}

/// Why a pipeline run failed, naming the stage that failed. A run that
/// consumes a finished outcome sequence cannot be cut off mid-drain, so
/// no further failure kind exists here.
#[derive(Debug, Clone, Copy, PartialEq, Eq, Structural)]
pub enum PipelineError {
    /// The listing endpoint itself could not be fetched or read; no
    /// candidate ids exist, so the run cannot start.
    Listing,
    /// The transport failed while fetching this item id.
    ItemTransport(u32),
    /// The body fetched for this item id failed to decode.
    ItemDecode(u32, DecodeError),
}

/// Whether one fetch outcome fails the run, and with which error.
/// A record kind other than story is never an error.
pub open spec fn outcome_error(o: FetchOutcome) -> Option<PipelineError> {
    match o.response {
        FetchResponse::TransportFailure => Some(PipelineError::ItemTransport(o.id)),
        FetchResponse::Garbled => Some(
            PipelineError::ItemDecode(o.id, DecodeError::Malformed),
        ),
        FetchResponse::Document(d) => match decode_spec(d) {
            Err(e) => Some(PipelineError::ItemDecode(o.id, e)),
            Ok(_) => None,
        },
    }
}

/// The story a successful outcome contributes, if any: only the story
/// variant passes the filter; every other record kind contributes nothing.
pub open spec fn outcome_story(o: FetchOutcome) -> Option<StoryView> {
    match o.response {
        FetchResponse::Document(d) => match decode_spec(d) {
            Ok(ItemView::Story(sv)) => Some(sv),
            _ => None,
        },
        _ => None,
    }
}

/// Whether a story with this id was already collected.
pub open spec fn has_story_id(svs: Seq<StoryView>, id: u32) -> bool {
    exists|i: int| 0 <= i < svs.len() && svs[i].id == id
}

/// The stories an outcome sequence contributes, in arrival order, with
/// a repeated id keeping its first story only.
pub open spec fn collected(outs: Seq<FetchOutcome>) -> Seq<StoryView>
    decreases outs.len(),
{
    if outs.len() == 0 {
        Seq::empty()
    } else {
        let prefix = collected(outs.drop_last());
        match outcome_story(outs.last()) {
            Some(sv) => if has_story_id(prefix, sv.id) {
                prefix
            } else {
                prefix.push(sv)
            },
            None => prefix,
        }
    }
}

/// The table rows as story models.
pub open spec fn table_views(t: Seq<Story>) -> Seq<StoryView> {
    t.map_values(|s: Story| s@)
}

proof fn lemma_table_views_has_id(t: Seq<Story>, id: u32)
    ensures
        table_has_id(t, id) <==> has_story_id(table_views(t), id),
{
    if table_has_id(t, id) {
        let j = choose|j: int| 0 <= j < t.len() && t[j].id == id;
        assert(table_views(t)[j].id == id);
    }
    if has_story_id(table_views(t), id) {
        let j = choose|j: int| 0 <= j < table_views(t).len() && table_views(t)[j].id == id;
        assert(t[j].id == id);
    }
}

/// Drain every fetch outcome, in arrival order, filling the ranking
/// structure and the lookup table one atomic insertion per story.
/// The policy is fail fast: the first transport or decode failure
/// aborts the whole run with an error naming the item id that failed.
/// A record kind other than story is silently filtered, never an error.
#[verifier::rlimit(100)]
pub fn aggregate_outcomes(outcomes: Vec<FetchOutcome>) -> (r: Result<
    Aggregation,
    PipelineError,
>)
    ensures
        match r {
            Ok(agg) => {
                &&& agg.wf()
                &&& (forall|k: int|
                    0 <= k < outcomes@.len() ==> outcome_error(#[trigger] outcomes@[k]) is None)
                &&& table_views(agg.table_view()) == collected(outcomes@)
            },
            Err(e) => exists|k: int|
                {
                    &&& 0 <= k < outcomes@.len()
                    &&& outcome_error(#[trigger] outcomes@[k]) == Some(e)
                    &&& forall|m: int|
                        0 <= m < k ==> outcome_error(#[trigger] outcomes@[m]) is None
                },
        },
{
    let ghost orig = outcomes@;
    let mut rest = outcomes;
    let mut agg = Aggregation::new();
    proof {
        assert(orig.take(0) =~= Seq::<FetchOutcome>::empty());
        assert(table_views(agg.table_view()) =~= collected(orig.take(0)));
    }
    while rest.len() > 0
        invariant
            orig == outcomes@,
            rest@.len() <= orig.len(),
            rest@ == orig.subrange(orig.len() - rest@.len(), orig.len() as int),
            agg.wf(),
            table_views(agg.table_view()) == collected(orig.take(orig.len() - rest@.len())),
            forall|m: int|
                0 <= m < orig.len() - rest@.len() ==> outcome_error(#[trigger] orig[m]) is None,
        decreases rest@.len(),
    {
        let ghost i = orig.len() - rest@.len();
        proof {
            assert(rest@[0] == orig[i]);
        }
        let o = rest.remove(0);
        proof {
            assert(rest@ =~= orig.subrange(orig.len() - rest@.len(), orig.len() as int));
            assert(orig.take(i + 1).drop_last() =~= orig.take(i));
            assert(orig.take(i + 1).last() == orig[i]);
        }
        let FetchOutcome { id, response } = o;
        match response {
            FetchResponse::TransportFailure => {
                assert(outcome_error(orig[i]) == Some(PipelineError::ItemTransport(id)));
                return Err(PipelineError::ItemTransport(id));
            },
            FetchResponse::Garbled => {
                assert(outcome_error(orig[i]) == Some(
                    PipelineError::ItemDecode(id, DecodeError::Malformed),
                ));
                return Err(PipelineError::ItemDecode(id, DecodeError::Malformed));
            },
            FetchResponse::Document(d) => {
                match decode(d) {
                    Err(e) => {
                        assert(outcome_error(orig[i]) == Some(PipelineError::ItemDecode(id, e)));
                        return Err(PipelineError::ItemDecode(id, e));
                    },
                    Ok(item) => {
                        match item.into_story() {
                            Some(s) => {
                                proof {
                                    lemma_table_views_has_id(agg.table_view(), s.id);
                                }
                                let ghost before = agg.table_view();
                                agg.insert_story(s);
                                proof {
                                    assert(outcome_story(orig[i]) == Some(s@));
                                    if table_has_id(before, s.id) {
                                        assert(table_views(agg.table_view()) == collected(
                                            orig.take(i + 1),
                                        ));
                                    } else {
                                        assert(agg.table_view() == before.push(s));
                                        assert(table_views(before.push(s)) =~= table_views(
                                            before,
                                        ).push(s@));
                                        assert(table_views(agg.table_view()) == collected(
                                            orig.take(i + 1),
                                        ));
                                    }
                                }
                            },
                            None => {
                                proof {
                                    assert(outcome_story(orig[i]) is None);
                                    assert(outcome_error(orig[i]) is None);
                                    assert(collected(orig.take(i + 1)) == collected(orig.take(i)));
                                }
                            },
                        }
                    },
                }
            },
        }
    }
    proof {
        assert(orig.take(orig.len() as int) =~= orig);
    }
    Ok(agg)
}

/// Law: a fetch that decodes to a record kind other than story neither
/// errs nor contributes an entry — the collected stories are exactly
/// those collected without it.
pub proof fn lemma_non_story_contributes_nothing(outs: Seq<FetchOutcome>, o: FetchOutcome)
    requires
        o.response matches FetchResponse::Document(d) && decode_spec(d) matches Ok(iv) && !(iv
            is Story),
    ensures
        outcome_error(o) is None,
        collected(outs.push(o)) == collected(outs),
{
    assert(outs.push(o).drop_last() =~= outs);
    assert(outs.push(o).last() == o);
    assert(outcome_story(o) is None);
}

} // verus!
