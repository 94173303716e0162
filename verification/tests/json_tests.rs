use top_stories::json::parse_document;
use top_stories::pipeline::{aggregate_outcomes, FetchOutcome, FetchResponse, PipelineError};
use top_stories::schema::{decode, DecodeError, RawField};
use top_stories::types::Item;

#[test]
fn parses_and_decodes_a_story_body() {
    let body = br#"{
        "type": "story",
        "id": 8863,
        "by": "dhouston",
        "time": 1175714200,
        "score": 111,
        "descendants": 71,
        "kids": [8952, 9224],
        "title": "My YC app",
        "url": "http://www.example.com/"
    }"#;
    let doc = parse_document(body).expect("the body is valid JSON");
    match decode(doc).unwrap() {
        Item::Story(s) => {
            assert_eq!(s.id, 8863);
            assert_eq!(s.by.as_deref(), Some("dhouston"));
            assert_eq!(s.time, 1175714200);
            assert_eq!(s.score, Some(111));
            assert_eq!(s.descendants, Some(71));
            assert_eq!(s.kids, Some(vec![8952, 9224]));
            assert_eq!(s.title.as_deref(), Some("My YC app"));
            assert_eq!(s.url.as_deref(), Some("http://www.example.com/"));
        }
        other => panic!("expected a story, got {:?}", other),
    }
}

#[test]
fn parses_a_job_body() {
    let body = br#"{"type":"job","id":192327,"time":1210981217,"title":"Justin.tv is looking for a UI designer"}"#;
    let doc = parse_document(body).expect("the body is valid JSON");
    match decode(doc).unwrap() {
        Item::Job(j) => {
            assert_eq!(j.id, 192327);
            assert_eq!(j.title, "Justin.tv is looking for a UI designer");
        }
        other => panic!("expected a job, got {:?}", other),
    }
}

#[test]
fn garbage_bytes_do_not_parse() {
    assert!(parse_document(b"not json at all {{{").is_none());
}

#[test]
fn odd_field_shapes_are_reduced_to_other() {
    let body = br#"{"type":"story","id":1,"time":2,"title":{"nested":"object"},"score":-3}"#;
    let doc = parse_document(body).expect("the body is valid JSON");
    assert_eq!(doc.title, Some(RawField::Other));
    assert_eq!(doc.score, Some(RawField::Other));
    assert_eq!(decode(doc), Err(DecodeError::WrongFieldType));
}

#[test]
fn end_to_end_from_bytes() {
    let bodies: [(u32, &[u8]); 3] = [
        (1, br#"{"type":"story","id":1,"time":10,"score":50,"title":"first"}"#),
        (2, br#"{"type":"story","id":2,"time":11,"score":90,"title":"second"}"#),
        (3, br#"{"type":"comment","id":3,"time":12,"parent":1,"text":"hi"}"#),
    ];
    let outcomes: Vec<FetchOutcome> = bodies
        .iter()
        .map(|&(id, body)| FetchOutcome {
            id,
            response: match parse_document(body) {
                Some(d) => FetchResponse::Document(d),
                None => FetchResponse::Garbled,
            },
        })
        .collect();
    let agg = aggregate_outcomes(outcomes).unwrap();
    assert_eq!(agg.len(), 2);
    let entries = agg.ranked_entries();
    assert_eq!((entries[0].id, entries[0].score), (2, 90));
    assert_eq!((entries[1].id, entries[1].score), (1, 50));
}

#[test]
fn unparsable_body_fails_the_run_as_a_decode_error() {
    let outcomes = vec![FetchOutcome { id: 4, response: FetchResponse::Garbled }];
    match aggregate_outcomes(outcomes) {
        Err(PipelineError::ItemDecode(4, DecodeError::Malformed)) => {}
        other => panic!("expected a malformed-body failure for id 4, got {:?}", other),
    }
}
