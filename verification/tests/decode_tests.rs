use top_stories::schema::{decode, DecodeError, RawDoc, RawField};
use top_stories::types::Item;

fn empty_doc() -> RawDoc {
    RawDoc {
        tag: None,
        id: None,
        deleted: None,
        by: None,
        time: None,
        dead: None,
        kids: None,
        descendants: None,
        score: None,
        title: None,
        url: None,
        text: None,
        parent: None,
        parts: None,
    }
}

fn story_doc(id: u64, score: Option<u64>) -> RawDoc {
    let mut d = empty_doc();
    d.tag = Some(RawField::Text("story".to_string()));
    d.id = Some(RawField::Uint(id));
    d.time = Some(RawField::Uint(1_700_000_000));
    d.score = score.map(RawField::Uint);
    d
}

#[test]
fn decodes_full_story() {
    let mut d = story_doc(42, Some(99));
    d.by = Some(RawField::Text("someone".to_string()));
    d.title = Some(RawField::Text("A title".to_string()));
    d.url = Some(RawField::Text("https://example.org".to_string()));
    d.kids = Some(RawField::UintList(vec![7, 8, 9]));
    d.descendants = Some(RawField::Uint(3));
    d.dead = Some(RawField::Flag(false));
    d.deleted = Some(RawField::Flag(false));
    let item = decode(d).unwrap();
    match item {
        Item::Story(s) => {
            assert_eq!(s.id, 42);
            assert_eq!(s.by.as_deref(), Some("someone"));
            assert_eq!(s.time, 1_700_000_000);
            assert_eq!(s.score, Some(99));
            assert_eq!(s.title.as_deref(), Some("A title"));
            assert_eq!(s.url.as_deref(), Some("https://example.org"));
            assert_eq!(s.kids, Some(vec![7, 8, 9]));
            assert_eq!(s.descendants, Some(3));
            assert_eq!(s.dead, Some(false));
            assert_eq!(s.deleted, Some(false));
        }
        other => panic!("expected a story, got {:?}", other),
    }
}

#[test]
fn story_without_score_decodes() {
    let d = story_doc(7, None);
    let item = decode(d).unwrap();
    match item {
        Item::Story(s) => assert_eq!(s.score, None),
        other => panic!("expected a story, got {:?}", other),
    }
}

#[test]
fn missing_tag_is_an_error() {
    let mut d = empty_doc();
    d.id = Some(RawField::Uint(1));
    d.time = Some(RawField::Uint(1));
    assert_eq!(decode(d), Err(DecodeError::MissingTag));
}

#[test]
fn numeric_tag_is_an_error() {
    let mut d = story_doc(1, None);
    d.tag = Some(RawField::Uint(3));
    assert_eq!(decode(d), Err(DecodeError::WrongFieldType));
}

#[test]
fn unknown_tag_is_an_error() {
    let mut d = story_doc(1, None);
    d.tag = Some(RawField::Text("weblog".to_string()));
    assert_eq!(decode(d), Err(DecodeError::UnknownTag));
}

#[test]
fn story_without_id_is_an_error() {
    let mut d = story_doc(1, None);
    d.id = None;
    assert_eq!(decode(d), Err(DecodeError::MissingField));
}

#[test]
fn story_without_time_is_an_error() {
    let mut d = story_doc(1, None);
    d.time = None;
    assert_eq!(decode(d), Err(DecodeError::MissingField));
}

#[test]
fn oversized_id_is_an_error() {
    let d = story_doc(1 << 32, None);
    assert_eq!(decode(d), Err(DecodeError::WrongFieldType));
}

#[test]
fn boolean_score_is_an_error() {
    let mut d = story_doc(1, None);
    d.score = Some(RawField::Flag(true));
    assert_eq!(decode(d), Err(DecodeError::WrongFieldType));
}

#[test]
fn unshaped_field_is_an_error() {
    let mut d = story_doc(1, None);
    d.title = Some(RawField::Other);
    assert_eq!(decode(d), Err(DecodeError::WrongFieldType));
}

#[test]
fn kid_list_converts() {
    let mut d = story_doc(1, None);
    d.kids = Some(RawField::UintList(vec![1, 2, u32::MAX as u64]));
    match decode(d).unwrap() {
        Item::Story(s) => assert_eq!(s.kids, Some(vec![1, 2, u32::MAX])),
        other => panic!("expected a story, got {:?}", other),
    }
}

#[test]
fn oversized_kid_is_an_error() {
    let mut d = story_doc(1, None);
    d.kids = Some(RawField::UintList(vec![1, (u32::MAX as u64) + 1]));
    assert_eq!(decode(d), Err(DecodeError::WrongFieldType));
}

#[test]
fn job_requires_a_title() {
    let mut d = empty_doc();
    d.tag = Some(RawField::Text("job".to_string()));
    d.id = Some(RawField::Uint(10));
    d.time = Some(RawField::Uint(5));
    assert_eq!(decode(d.clone()), Err(DecodeError::MissingField));
    d.title = Some(RawField::Text("Hiring".to_string()));
    match decode(d).unwrap() {
        Item::Job(j) => {
            assert_eq!(j.id, 10);
            assert_eq!(j.title, "Hiring");
        }
        other => panic!("expected a job, got {:?}", other),
    }
}

#[test]
fn comment_decodes() {
    let mut d = empty_doc();
    d.tag = Some(RawField::Text("comment".to_string()));
    d.id = Some(RawField::Uint(11));
    d.time = Some(RawField::Uint(6));
    d.parent = Some(RawField::Uint(10));
    d.text = Some(RawField::Text("well said".to_string()));
    match decode(d).unwrap() {
        Item::Comment(c) => {
            assert_eq!(c.id, 11);
            assert_eq!(c.parent, Some(10));
            assert_eq!(c.text.as_deref(), Some("well said"));
        }
        other => panic!("expected a comment, got {:?}", other),
    }
}

#[test]
fn poll_and_option_decode() {
    let mut d = empty_doc();
    d.tag = Some(RawField::Text("poll".to_string()));
    d.id = Some(RawField::Uint(20));
    d.time = Some(RawField::Uint(7));
    d.parts = Some(RawField::UintList(vec![21, 22]));
    match decode(d).unwrap() {
        Item::Poll(p) => assert_eq!(p.parts, Some(vec![21, 22])),
        other => panic!("expected a poll, got {:?}", other),
    }
    let mut o = empty_doc();
    o.tag = Some(RawField::Text("pollopt".to_string()));
    o.id = Some(RawField::Uint(21));
    o.time = Some(RawField::Uint(7));
    o.parent = Some(RawField::Uint(20));
    o.score = Some(RawField::Uint(4));
    match decode(o).unwrap() {
        Item::PollOption(p) => {
            assert_eq!(p.parent, Some(20));
            assert_eq!(p.score, Some(4));
        }
        other => panic!("expected a poll option, got {:?}", other),
    }
}

#[test]
fn decode_is_deterministic() {
    let mut d = story_doc(42, Some(50));
    d.title = Some(RawField::Text("same in, same out".to_string()));
    d.kids = Some(RawField::UintList(vec![1, 2, 3]));
    let first = decode(d.clone());
    let second = decode(d);
    assert_eq!(first, second);
}
