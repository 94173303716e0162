use top_stories::aggregate::Aggregation;
use top_stories::dispatch::plan_dispatch;
use top_stories::pipeline::{aggregate_outcomes, FetchOutcome, FetchResponse, PipelineError};
use top_stories::ranking::effective_score;
use top_stories::schema::{RawDoc, RawField};
use top_stories::types::Story;

fn empty_doc() -> RawDoc {
    RawDoc {
        tag: None,
        id: None,
        deleted: None,
        by: None,
        time: None,
        dead: None,
        kids: None,
        descendants: None,
        score: None,
        title: None,
        url: None,
        text: None,
        parent: None,
        parts: None,
    }
}

fn story_doc(id: u64, score: Option<u64>) -> RawDoc {
    let mut d = empty_doc();
    d.tag = Some(RawField::Text("story".to_string()));
    d.id = Some(RawField::Uint(id));
    d.time = Some(RawField::Uint(1_700_000_000));
    d.score = score.map(RawField::Uint);
    d
}

fn job_doc(id: u64) -> RawDoc {
    let mut d = empty_doc();
    d.tag = Some(RawField::Text("job".to_string()));
    d.id = Some(RawField::Uint(id));
    d.time = Some(RawField::Uint(1_700_000_000));
    d.title = Some(RawField::Text("Hiring".to_string()));
    d
}

fn story(id: u32, score: Option<u32>) -> Story {
    Story {
        id,
        deleted: None,
        by: None,
        time: 0,
        dead: None,
        kids: None,
        descendants: None,
        score,
        title: None,
        url: None,
    }
}

#[test]
fn dedup_collapses_repeats() {
    let plan = plan_dispatch(&vec![1, 2, 2, 3, 1, 2]);
    assert_eq!(plan, vec![1, 2, 3]);
}

#[test]
fn dedup_keeps_first_occurrence_order() {
    let plan = plan_dispatch(&vec![9, 4, 9, 7, 4, 4]);
    assert_eq!(plan, vec![9, 4, 7]);
}

#[test]
fn dedup_of_empty_listing_is_empty() {
    let plan = plan_dispatch(&vec![]);
    assert_eq!(plan, Vec::<u32>::new());
}

#[test]
fn missing_score_ranks_lowest() {
    assert_eq!(effective_score(&None), 0);
    assert_eq!(effective_score(&Some(12)), 12);
    let mut agg = Aggregation::new();
    agg.insert_story(story(5, None));
    agg.insert_story(story(6, Some(1)));
    let entries = agg.ranked_entries();
    assert_eq!(entries[0].id, 6);
    assert_eq!(entries[0].score, 1);
    assert_eq!(entries[1].id, 5);
    assert_eq!(entries[1].score, 0);
}

#[test]
fn table_and_ranking_stay_in_step() {
    let mut agg = Aggregation::new();
    for (i, sc) in [(1u32, Some(4u32)), (2, None), (3, Some(9)), (4, Some(4))] {
        agg.insert_story(story(i, sc));
        assert_eq!(agg.ranked_entries().len(), agg.len());
    }
    for id in 1..=4u32 {
        assert!(agg.get(id).is_some());
        assert_eq!(agg.get(id).unwrap().id, id);
    }
    assert!(agg.get(99).is_none());
}

#[test]
fn repeated_id_leaves_state_unchanged() {
    let mut agg = Aggregation::new();
    agg.insert_story(story(1, Some(10)));
    agg.insert_story(story(1, Some(999)));
    assert_eq!(agg.len(), 1);
    assert_eq!(agg.get(1).unwrap().score, Some(10));
    assert_eq!(agg.ranked_entries().len(), 1);
    assert_eq!(agg.ranked_entries()[0].score, 10);
}

#[test]
fn ranking_is_non_increasing() {
    let mut agg = Aggregation::new();
    for (i, sc) in [(1u32, 5u32), (2, 50), (3, 5), (4, 0), (5, 50), (6, 17)] {
        agg.insert_story(story(i, Some(sc)));
    }
    let entries = agg.ranked_entries();
    assert_eq!(entries.len(), 6);
    for w in entries.windows(2) {
        assert!(w[0].score >= w[1].score);
    }
}

#[test]
fn non_story_contributes_nothing() {
    let outcomes = vec![
        FetchOutcome { id: 1, response: FetchResponse::Document(job_doc(1)) },
        FetchOutcome { id: 2, response: FetchResponse::Document(story_doc(2, Some(3))) },
    ];
    let agg = aggregate_outcomes(outcomes).unwrap();
    assert_eq!(agg.len(), 1);
    assert!(agg.get(1).is_none());
    assert!(agg.get(2).is_some());
}

#[test]
fn scenario_dedup_and_filter() {
    let candidates = vec![1u32, 2, 2, 3];
    let plan = plan_dispatch(&candidates);
    assert_eq!(plan, vec![1, 2, 3]);
    let outcomes: Vec<FetchOutcome> = plan
        .iter()
        .map(|&id| FetchOutcome {
            id,
            response: FetchResponse::Document(match id {
                1 => story_doc(1, Some(50)),
                2 => story_doc(2, Some(90)),
                _ => job_doc(3),
            }),
        })
        .collect();
    let agg = aggregate_outcomes(outcomes).unwrap();
    assert_eq!(agg.len(), 2);
    let entries = agg.ranked_entries();
    assert_eq!((entries[0].id, entries[0].score), (2, 90));
    assert_eq!((entries[1].id, entries[1].score), (1, 50));
}

#[test]
fn scenario_empty_listing() {
    let plan = plan_dispatch(&vec![]);
    assert!(plan.is_empty());
    let agg = aggregate_outcomes(vec![]).unwrap();
    assert_eq!(agg.len(), 0);
    assert!(agg.ranked_entries().is_empty());
}

#[test]
fn scenario_transport_failure_names_the_id() {
    let outcomes = vec![FetchOutcome { id: 5, response: FetchResponse::TransportFailure }];
    match aggregate_outcomes(outcomes) {
        Err(PipelineError::ItemTransport(id)) => assert_eq!(id, 5),
        other => panic!("expected a transport failure for id 5, got {:?}", other),
    }
}

#[test]
fn first_failure_wins() {
    let outcomes = vec![
        FetchOutcome { id: 1, response: FetchResponse::Document(story_doc(1, Some(1))) },
        FetchOutcome { id: 2, response: FetchResponse::Garbled },
        FetchOutcome { id: 3, response: FetchResponse::TransportFailure },
    ];
    match aggregate_outcomes(outcomes) {
        Err(PipelineError::ItemDecode(id, _)) => assert_eq!(id, 2),
        other => panic!("expected a decode failure for id 2, got {:?}", other),
    }
}

#[test]
fn decode_failure_names_the_id() {
    let mut bad = story_doc(8, Some(1));
    bad.id = None;
    let outcomes = vec![FetchOutcome { id: 8, response: FetchResponse::Document(bad) }];
    match aggregate_outcomes(outcomes) {
        Err(PipelineError::ItemDecode(id, _)) => assert_eq!(id, 8),
        other => panic!("expected a decode failure for id 8, got {:?}", other),
    }
}

#[test]
fn duplicate_story_ids_keep_the_first() {
    let outcomes = vec![
        FetchOutcome { id: 1, response: FetchResponse::Document(story_doc(1, Some(10))) },
        FetchOutcome { id: 1, response: FetchResponse::Document(story_doc(1, Some(20))) },
    ];
    let agg = aggregate_outcomes(outcomes).unwrap();
    assert_eq!(agg.len(), 1);
    assert_eq!(agg.get(1).unwrap().score, Some(10));
}
