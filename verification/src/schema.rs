use vstd::prelude::*;

use crate::types::{
    Comment, CommentView, Item, ItemView, Job, JobView, Poll, PollOption, PollOptionView,
    PollView, Story, StoryView, view_opt_ids, view_opt_string,
};

verus! {

/// One field of a raw item document, reduced to the plain shapes the
/// schema ever reads. `Other` stands for a present value of any other
/// shape (an object, a fraction, a negative number, a mixed array, null).
#[derive(Debug, Clone, PartialEq, Eq)]
pub enum RawField {
    /// A wire string.
    Text(String),
    /// A wire non-negative integer.
    Uint(u64),
    /// A wire boolean.
    Flag(bool),
    /// A wire array of non-negative integers.
    UintList(Vec<u64>),
    /// A present value of a shape the schema never accepts.
    Other,
}

/// A raw item document: every field the schema knows, as a plain
/// optional value. `None` means the field is absent from the document.
#[derive(Debug, Clone, PartialEq, Eq)]
pub struct RawDoc {
    /// The discriminant field that selects the record kind.
    pub tag: Option<RawField>,
    pub id: Option<RawField>,
    pub deleted: Option<RawField>,
    pub by: Option<RawField>,
    pub time: Option<RawField>,
    pub dead: Option<RawField>,
    pub kids: Option<RawField>,
    pub descendants: Option<RawField>,
    pub score: Option<RawField>,
    pub title: Option<RawField>,
    pub url: Option<RawField>,
    pub text: Option<RawField>,
    pub parent: Option<RawField>,
    pub parts: Option<RawField>,
}

/// Why a raw document failed to decode into an `Item`.
#[derive(Debug, Clone, Copy, PartialEq, Eq, Structural)]
pub enum DecodeError {
    /// The body could not be read as a document at all.
    Malformed,
    /// The discriminant field is absent.
    MissingTag,
    /// The discriminant string names no known record kind.
    UnknownTag,
    /// A field the matched variant requires is absent.
    MissingField,
    /// A present field does not have the shape the schema gives it.
    WrongFieldType,
}

/// Every id in the sequence fits the id type.
pub open spec fn ids_fit(xs: Seq<u64>) -> bool {
    forall|i: int| 0 <= i < xs.len() ==> xs[i] <= u32::MAX
}

/// The id sequence, narrowed to the id type.
pub open spec fn ids_of(xs: Seq<u64>) -> Seq<u32> {
    xs.map_values(|x: u64| x as u32)
}

/// Reading an optional string field.
pub open spec fn opt_text_v(f: Option<RawField>) -> Result<Option<Seq<char>>, DecodeError> {
    match f {
        None => Ok(None),
        Some(RawField::Text(s)) => Ok(Some(s@)),
        Some(_) => Err(DecodeError::WrongFieldType),
    }
}

/// Reading an optional boolean field.
pub open spec fn opt_flag_v(f: Option<RawField>) -> Result<Option<bool>, DecodeError> {
    match f {
        None => Ok(None),
        Some(RawField::Flag(b)) => Ok(Some(b)),
        Some(_) => Err(DecodeError::WrongFieldType),
    }
}

/// Reading an optional numeric field that must fit the narrow type.
pub open spec fn opt_u32_v(f: Option<RawField>) -> Result<Option<u32>, DecodeError> {
    match f {
        None => Ok(None),
        Some(RawField::Uint(x)) => if x <= u32::MAX {
            Ok(Some(x as u32))
        } else {
            Err(DecodeError::WrongFieldType)
        },
        Some(_) => Err(DecodeError::WrongFieldType),
    }
}

/// Reading an optional id-list field.
pub open spec fn opt_ids_v(f: Option<RawField>) -> Result<Option<Seq<u32>>, DecodeError> {
    match f {
        None => Ok(None),
        Some(RawField::UintList(xs)) => if ids_fit(xs@) {
            Ok(Some(ids_of(xs@)))
        } else {
            Err(DecodeError::WrongFieldType)
        },
        Some(_) => Err(DecodeError::WrongFieldType),
    }
}

/// Reading a required id field.
pub open spec fn req_u32_v(f: Option<RawField>) -> Result<u32, DecodeError> {
    match f {
        None => Err(DecodeError::MissingField),
        Some(RawField::Uint(x)) => if x <= u32::MAX {
            Ok(x as u32)
        } else {
            Err(DecodeError::WrongFieldType)
        },
        Some(_) => Err(DecodeError::WrongFieldType),
    }
}

/// Reading a required wide numeric field (the creation time).
pub open spec fn req_u64_v(f: Option<RawField>) -> Result<u64, DecodeError> {
    match f {
        None => Err(DecodeError::MissingField),
        Some(RawField::Uint(x)) => Ok(x),
        Some(_) => Err(DecodeError::WrongFieldType),
    }
}

/// Reading a required string field (a job's title).
pub open spec fn req_text_v(f: Option<RawField>) -> Result<Seq<char>, DecodeError> {
    match f {
        None => Err(DecodeError::MissingField),
        Some(RawField::Text(s)) => Ok(s@),
        Some(_) => Err(DecodeError::WrongFieldType),
    }
}

/// The view of a decode result over optional strings.
pub open spec fn res_opt_text_view(
    r: Result<Option<String>, DecodeError>,
) -> Result<Option<Seq<char>>, DecodeError> {
    match r {
        Ok(o) => Ok(view_opt_string(o)),
        Err(e) => Err(e),
    }
}

/// The view of a decode result over optional id lists.
pub open spec fn res_opt_ids_view(
    r: Result<Option<Vec<u32>>, DecodeError>,
) -> Result<Option<Seq<u32>>, DecodeError> {
    match r {
        Ok(o) => Ok(view_opt_ids(o)),
        Err(e) => Err(e),
    }
}

/// The view of a decode result over strings.
pub open spec fn res_text_view(r: Result<String, DecodeError>) -> Result<Seq<char>, DecodeError> {
    match r {
        Ok(s) => Ok(s@),
        Err(e) => Err(e),
    }
}

/// The view of a full decode result.
pub open spec fn res_item_view(r: Result<Item, DecodeError>) -> Result<ItemView, DecodeError> {
    match r {
        Ok(i) => Ok(i@),
        Err(e) => Err(e),
    }
}

fn opt_text(f: Option<RawField>) -> (r: Result<Option<String>, DecodeError>)
    ensures
        res_opt_text_view(r) == opt_text_v(f),
{
    match f {
        None => Ok(None),
        Some(RawField::Text(s)) => Ok(Some(s)),
        Some(_) => Err(DecodeError::WrongFieldType),
    }
}

fn opt_flag(f: Option<RawField>) -> (r: Result<Option<bool>, DecodeError>)
    ensures
        r == opt_flag_v(f),
{
    match f {
        None => Ok(None),
        Some(RawField::Flag(b)) => Ok(Some(b)),
        Some(_) => Err(DecodeError::WrongFieldType),
    }
}

fn opt_u32(f: Option<RawField>) -> (r: Result<Option<u32>, DecodeError>)
    ensures
        r == opt_u32_v(f),
{
    match f {
        None => Ok(None),
        Some(RawField::Uint(x)) => if x <= u32::MAX as u64 {
            Ok(Some(x as u32))
        } else {
            Err(DecodeError::WrongFieldType)
        },
        Some(_) => Err(DecodeError::WrongFieldType),
    }
}

fn convert_ids(xs: Vec<u64>) -> (r: Result<Vec<u32>, DecodeError>)
    ensures
        ids_fit(xs@) ==> (r matches Ok(v) && v@ == ids_of(xs@)),
        !ids_fit(xs@) ==> r == Err::<Vec<u32>, DecodeError>(DecodeError::WrongFieldType),
{
    let mut out: Vec<u32> = Vec::new();
    let mut i: usize = 0;
    while i < xs.len()
        invariant
            i <= xs@.len(),
            forall|k: int| 0 <= k < i ==> xs@[k] <= u32::MAX,
            out@ == ids_of(xs@.take(i as int)),
        decreases xs@.len() - i,
    {
        let x = xs[i];
        if x > u32::MAX as u64 {
            assert(!ids_fit(xs@));
            return Err(DecodeError::WrongFieldType);
        }
        out.push(x as u32);
        i = i + 1;
        assert(out@ =~= ids_of(xs@.take(i as int)));
    }
    assert(xs@.take(xs@.len() as int) =~= xs@);
    Ok(out)
}

fn opt_ids(f: Option<RawField>) -> (r: Result<Option<Vec<u32>>, DecodeError>)
    ensures
        res_opt_ids_view(r) == opt_ids_v(f),
{
    match f {
        None => Ok(None),
        Some(RawField::UintList(xs)) => match convert_ids(xs) {
            Ok(v) => Ok(Some(v)),
            Err(e) => Err(e),
        },
        Some(_) => Err(DecodeError::WrongFieldType),
    }
}

fn req_u32(f: Option<RawField>) -> (r: Result<u32, DecodeError>)
    ensures
        r == req_u32_v(f),
{
    match f {
        None => Err(DecodeError::MissingField),
        Some(RawField::Uint(x)) => if x <= u32::MAX as u64 {
            Ok(x as u32)
        } else {
            Err(DecodeError::WrongFieldType)
        },
        Some(_) => Err(DecodeError::WrongFieldType),
    }
}

fn req_u64(f: Option<RawField>) -> (r: Result<u64, DecodeError>)
    ensures
        r == req_u64_v(f),
{
    match f {
        None => Err(DecodeError::MissingField),
        Some(RawField::Uint(x)) => Ok(x),
        Some(_) => Err(DecodeError::WrongFieldType),
    }
}

fn req_text(f: Option<RawField>) -> (r: Result<String, DecodeError>)
    ensures
        res_text_view(r) == req_text_v(f),
{
    match f {
        None => Err(DecodeError::MissingField),
        Some(RawField::Text(s)) => Ok(s),
        Some(_) => Err(DecodeError::WrongFieldType),
    }
}

/// Whether an owned string holds exactly the given literal.
fn text_is(s: &String, lit: &str) -> (r: bool)
    ensures
        r == (s@ == lit@),
{
    let owned: String = lit.to_owned();
    *s == owned
}

/// What a document with the job discriminant decodes to.
pub open spec fn decode_job_spec(
    id: Option<RawField>,
    deleted: Option<RawField>,
    by: Option<RawField>,
    time: Option<RawField>,
    dead: Option<RawField>,
    kids: Option<RawField>,
    text: Option<RawField>,
    url: Option<RawField>,
    title: Option<RawField>,
) -> Result<ItemView, DecodeError> {
    match req_u32_v(id) {
        Err(e) => Err(e),
        Ok(id) => match opt_flag_v(deleted) {
            Err(e) => Err(e),
            Ok(deleted) => match opt_text_v(by) {
                Err(e) => Err(e),
                Ok(by) => match req_u64_v(time) {
                    Err(e) => Err(e),
                    Ok(time) => match opt_flag_v(dead) {
                        Err(e) => Err(e),
                        Ok(dead) => match opt_ids_v(kids) {
                            Err(e) => Err(e),
                            Ok(kids) => match opt_text_v(text) {
                                Err(e) => Err(e),
                                Ok(text) => match opt_text_v(url) {
                                    Err(e) => Err(e),
                                    Ok(url) => match req_text_v(title) {
                                        Err(e) => Err(e),
                                        Ok(title) => Ok(
                                            ItemView::Job(
                                                JobView {
                                                    id,
                                                    deleted,
                                                    by,
                                                    time,
                                                    dead,
                                                    kids,
                                                    text,
                                                    url,
                                                    title,
                                                },
                                            ),
                                        ),
                                    },
                                },
                            },
                        },
                    },
                },
            },
        },
    }
}

fn decode_job(
    id: Option<RawField>,
    deleted: Option<RawField>,
    by: Option<RawField>,
    time: Option<RawField>,
    dead: Option<RawField>,
    kids: Option<RawField>,
    text: Option<RawField>,
    url: Option<RawField>,
    title: Option<RawField>,
) -> (r: Result<Item, DecodeError>)
    ensures
        res_item_view(r) == decode_job_spec(id, deleted, by, time, dead, kids, text, url, title),
{
    let idv = match req_u32(id) {
        Ok(v) => v,
        Err(e) => return Err(e),
    };
    let deletedv = match opt_flag(deleted) {
        Ok(v) => v,
        Err(e) => return Err(e),
    };
    let byv = match opt_text(by) {
        Ok(v) => v,
        Err(e) => return Err(e),
    };
    let timev = match req_u64(time) {
        Ok(v) => v,
        Err(e) => return Err(e),
    };
    let deadv = match opt_flag(dead) {
        Ok(v) => v,
        Err(e) => return Err(e),
    };
    let kidsv = match opt_ids(kids) {
        Ok(v) => v,
        Err(e) => return Err(e),
    };
    let textv = match opt_text(text) {
        Ok(v) => v,
        Err(e) => return Err(e),
    };
    let urlv = match opt_text(url) {
        Ok(v) => v,
        Err(e) => return Err(e),
    };
    let titlev = match req_text(title) {
        Ok(v) => v,
        Err(e) => return Err(e),
    };
    Ok(
        Item::Job(
            Job {
                id: idv,
                deleted: deletedv,
                by: byv,
                time: timev,
                dead: deadv,
                kids: kidsv,
                text: textv,
                url: urlv,
                title: titlev,
            },
        ),
    )
}

/// What a document with the story discriminant decodes to.
pub open spec fn decode_story_spec(
    id: Option<RawField>,
    deleted: Option<RawField>,
    by: Option<RawField>,
    time: Option<RawField>,
    dead: Option<RawField>,
    kids: Option<RawField>,
    descendants: Option<RawField>,
    score: Option<RawField>,
    title: Option<RawField>,
    url: Option<RawField>,
) -> Result<ItemView, DecodeError> {
    match req_u32_v(id) {
        Err(e) => Err(e),
        Ok(id) => match opt_flag_v(deleted) {
            Err(e) => Err(e),
            Ok(deleted) => match opt_text_v(by) {
                Err(e) => Err(e),
                Ok(by) => match req_u64_v(time) {
                    Err(e) => Err(e),
                    Ok(time) => match opt_flag_v(dead) {
                        Err(e) => Err(e),
                        Ok(dead) => match opt_ids_v(kids) {
                            Err(e) => Err(e),
                            Ok(kids) => match opt_u32_v(descendants) {
                                Err(e) => Err(e),
                                Ok(descendants) => match opt_u32_v(score) {
                                    Err(e) => Err(e),
                                    Ok(score) => match opt_text_v(title) {
                                        Err(e) => Err(e),
                                        Ok(title) => match opt_text_v(url) {
                                            Err(e) => Err(e),
                                            Ok(url) => Ok(
                                                ItemView::Story(
                                                    StoryView {
                                                        id,
                                                        deleted,
                                                        by,
                                                        time,
                                                        dead,
                                                        kids,
                                                        descendants,
                                                        score,
                                                        title,
                                                        url,
                                                    },
                                                ),
                                            ),
                                        },
                                    },
                                },
                            },
                        },
                    },
                },
            },
        },
    }
}

fn decode_story(
    id: Option<RawField>,
    deleted: Option<RawField>,
    by: Option<RawField>,
    time: Option<RawField>,
    dead: Option<RawField>,
    kids: Option<RawField>,
    descendants: Option<RawField>,
    score: Option<RawField>,
    title: Option<RawField>,
    url: Option<RawField>,
) -> (r: Result<Item, DecodeError>)
    ensures
        res_item_view(r) == decode_story_spec(
            id,
            deleted,
            by,
            time,
            dead,
            kids,
            descendants,
            score,
            title,
            url,
        ),
{
    let idv = match req_u32(id) {
        Ok(v) => v,
        Err(e) => return Err(e),
    };
    let deletedv = match opt_flag(deleted) {
        Ok(v) => v,
        Err(e) => return Err(e),
    };
    let byv = match opt_text(by) {
        Ok(v) => v,
        Err(e) => return Err(e),
    };
    let timev = match req_u64(time) {
        Ok(v) => v,
        Err(e) => return Err(e),
    };
    let deadv = match opt_flag(dead) {
        Ok(v) => v,
        Err(e) => return Err(e),
    };
    let kidsv = match opt_ids(kids) {
        Ok(v) => v,
        Err(e) => return Err(e),
    };
    let descendantsv = match opt_u32(descendants) {
        Ok(v) => v,
        Err(e) => return Err(e),
    };
    let scorev = match opt_u32(score) {
        Ok(v) => v,
        Err(e) => return Err(e),
    };
    let titlev = match opt_text(title) {
        Ok(v) => v,
        Err(e) => return Err(e),
    };
    let urlv = match opt_text(url) {
        Ok(v) => v,
        Err(e) => return Err(e),
    };
    Ok(
        Item::Story(
            Story {
                id: idv,
                deleted: deletedv,
                by: byv,
                time: timev,
                dead: deadv,
                kids: kidsv,
                descendants: descendantsv,
                score: scorev,
                title: titlev,
                url: urlv,
            },
        ),
    )
}

/// What a document with the comment discriminant decodes to.
pub open spec fn decode_comment_spec(
    id: Option<RawField>,
    deleted: Option<RawField>,
    by: Option<RawField>,
    time: Option<RawField>,
    dead: Option<RawField>,
    kids: Option<RawField>,
    parent: Option<RawField>,
    text: Option<RawField>,
) -> Result<ItemView, DecodeError> {
    match req_u32_v(id) {
        Err(e) => Err(e),
        Ok(id) => match opt_flag_v(deleted) {
            Err(e) => Err(e),
            Ok(deleted) => match opt_text_v(by) {
                Err(e) => Err(e),
                Ok(by) => match req_u64_v(time) {
                    Err(e) => Err(e),
                    Ok(time) => match opt_flag_v(dead) {
                        Err(e) => Err(e),
                        Ok(dead) => match opt_ids_v(kids) {
                            Err(e) => Err(e),
                            Ok(kids) => match opt_u32_v(parent) {
                                Err(e) => Err(e),
                                Ok(parent) => match opt_text_v(text) {
                                    Err(e) => Err(e),
                                    Ok(text) => Ok(
                                        ItemView::Comment(
                                            CommentView {
                                                id,
                                                deleted,
                                                by,
                                                time,
                                                dead,
                                                kids,
                                                parent,
                                                text,
                                            },
                                        ),
                                    ),
                                },
                            },
                        },
                    },
                },
            },
        },
    }
}

fn decode_comment(
    id: Option<RawField>,
    deleted: Option<RawField>,
    by: Option<RawField>,
    time: Option<RawField>,
    dead: Option<RawField>,
    kids: Option<RawField>,
    parent: Option<RawField>,
    text: Option<RawField>,
) -> (r: Result<Item, DecodeError>)
    ensures
        res_item_view(r) == decode_comment_spec(id, deleted, by, time, dead, kids, parent, text),
{
    let idv = match req_u32(id) {
        Ok(v) => v,
        Err(e) => return Err(e),
    };
    let deletedv = match opt_flag(deleted) {
        Ok(v) => v,
        Err(e) => return Err(e),
    };
    let byv = match opt_text(by) {
        Ok(v) => v,
        Err(e) => return Err(e),
    };
    let timev = match req_u64(time) {
        Ok(v) => v,
        Err(e) => return Err(e),
    };
    let deadv = match opt_flag(dead) {
        Ok(v) => v,
        Err(e) => return Err(e),
    };
    let kidsv = match opt_ids(kids) {
        Ok(v) => v,
        Err(e) => return Err(e),
    };
    let parentv = match opt_u32(parent) {
        Ok(v) => v,
        Err(e) => return Err(e),
    };
    let textv = match opt_text(text) {
        Ok(v) => v,
        Err(e) => return Err(e),
    };
    Ok(
        Item::Comment(
            Comment {
                id: idv,
                deleted: deletedv,
                by: byv,
                time: timev,
                dead: deadv,
                kids: kidsv,
                parent: parentv,
                text: textv,
            },
        ),
    )
}

/// What a document with the poll discriminant decodes to.
pub open spec fn decode_poll_spec(
    id: Option<RawField>,
    deleted: Option<RawField>,
    by: Option<RawField>,
    time: Option<RawField>,
    dead: Option<RawField>,
    kids: Option<RawField>,
    parts: Option<RawField>,
    descendants: Option<RawField>,
    score: Option<RawField>,
    title: Option<RawField>,
    text: Option<RawField>,
) -> Result<ItemView, DecodeError> {
    match req_u32_v(id) {
        Err(e) => Err(e),
        Ok(id) => match opt_flag_v(deleted) {
            Err(e) => Err(e),
            Ok(deleted) => match opt_text_v(by) {
                Err(e) => Err(e),
                Ok(by) => match req_u64_v(time) {
                    Err(e) => Err(e),
                    Ok(time) => match opt_flag_v(dead) {
                        Err(e) => Err(e),
                        Ok(dead) => match opt_ids_v(kids) {
                            Err(e) => Err(e),
                            Ok(kids) => match opt_ids_v(parts) {
                                Err(e) => Err(e),
                                Ok(parts) => match opt_u32_v(descendants) {
                                    Err(e) => Err(e),
                                    Ok(descendants) => match opt_u32_v(score) {
                                        Err(e) => Err(e),
                                        Ok(score) => match opt_text_v(title) {
                                            Err(e) => Err(e),
                                            Ok(title) => match opt_text_v(text) {
                                                Err(e) => Err(e),
                                                Ok(text) => Ok(
                                                    ItemView::Poll(
                                                        PollView {
                                                            id,
                                                            deleted,
                                                            by,
                                                            time,
                                                            dead,
                                                            kids,
                                                            parts,
                                                            descendants,
                                                            score,
                                                            title,
                                                            text,
                                                        },
                                                    ),
                                                ),
                                            },
                                        },
                                    },
                                },
                            },
                        },
                    },
                },
            },
        },
    }
}

fn decode_poll(
    id: Option<RawField>,
    deleted: Option<RawField>,
    by: Option<RawField>,
    time: Option<RawField>,
    dead: Option<RawField>,
    kids: Option<RawField>,
    parts: Option<RawField>,
    descendants: Option<RawField>,
    score: Option<RawField>,
    title: Option<RawField>,
    text: Option<RawField>,
) -> (r: Result<Item, DecodeError>)
    ensures
        res_item_view(r) == decode_poll_spec(
            id,
            deleted,
            by,
            time,
            dead,
            kids,
            parts,
            descendants,
            score,
            title,
            text,
        ),
{
    let idv = match req_u32(id) {
        Ok(v) => v,
        Err(e) => return Err(e),
    };
    let deletedv = match opt_flag(deleted) {
        Ok(v) => v,
        Err(e) => return Err(e),
    };
    let byv = match opt_text(by) {
        Ok(v) => v,
        Err(e) => return Err(e),
    };
    let timev = match req_u64(time) {
        Ok(v) => v,
        Err(e) => return Err(e),
    };
    let deadv = match opt_flag(dead) {
        Ok(v) => v,
        Err(e) => return Err(e),
    };
    let kidsv = match opt_ids(kids) {
        Ok(v) => v,
        Err(e) => return Err(e),
    };
    let partsv = match opt_ids(parts) {
        Ok(v) => v,
        Err(e) => return Err(e),
    };
    let descendantsv = match opt_u32(descendants) {
        Ok(v) => v,
        Err(e) => return Err(e),
    };
    let scorev = match opt_u32(score) {
        Ok(v) => v,
        Err(e) => return Err(e),
    };
    let titlev = match opt_text(title) {
        Ok(v) => v,
        Err(e) => return Err(e),
    };
    let textv = match opt_text(text) {
        Ok(v) => v,
        Err(e) => return Err(e),
    };
    Ok(
        Item::Poll(
            Poll {
                id: idv,
                deleted: deletedv,
                by: byv,
                time: timev,
                dead: deadv,
                kids: kidsv,
                parts: partsv,
                descendants: descendantsv,
                score: scorev,
                title: titlev,
                text: textv,
            },
        ),
    )
}

/// What a document with the poll-option discriminant decodes to.
pub open spec fn decode_pollopt_spec(
    id: Option<RawField>,
    deleted: Option<RawField>,
    by: Option<RawField>,
    time: Option<RawField>,
    dead: Option<RawField>,
    kids: Option<RawField>,
    parent: Option<RawField>,
    score: Option<RawField>,
) -> Result<ItemView, DecodeError> {
    match req_u32_v(id) {
        Err(e) => Err(e),
        Ok(id) => match opt_flag_v(deleted) {
            Err(e) => Err(e),
            Ok(deleted) => match opt_text_v(by) {
                Err(e) => Err(e),
                Ok(by) => match req_u64_v(time) {
                    Err(e) => Err(e),
                    Ok(time) => match opt_flag_v(dead) {
                        Err(e) => Err(e),
                        Ok(dead) => match opt_ids_v(kids) {
                            Err(e) => Err(e),
                            Ok(kids) => match opt_u32_v(parent) {
                                Err(e) => Err(e),
                                Ok(parent) => match opt_u32_v(score) {
                                    Err(e) => Err(e),
                                    Ok(score) => Ok(
                                        ItemView::PollOption(
                                            PollOptionView {
                                                id,
                                                deleted,
                                                by,
                                                time,
                                                dead,
                                                kids,
                                                parent,
                                                score,
                                            },
                                        ),
                                    ),
                                },
                            },
                        },
                    },
                },
            },
        },
    }
}

fn decode_pollopt(
    id: Option<RawField>,
    deleted: Option<RawField>,
    by: Option<RawField>,
    time: Option<RawField>,
    dead: Option<RawField>,
    kids: Option<RawField>,
    parent: Option<RawField>,
    score: Option<RawField>,
) -> (r: Result<Item, DecodeError>)
    ensures
        res_item_view(r) == decode_pollopt_spec(id, deleted, by, time, dead, kids, parent, score),
{
    let idv = match req_u32(id) {
        Ok(v) => v,
        Err(e) => return Err(e),
    };
    let deletedv = match opt_flag(deleted) {
        Ok(v) => v,
        Err(e) => return Err(e),
    };
    let byv = match opt_text(by) {
        Ok(v) => v,
        Err(e) => return Err(e),
    };
    let timev = match req_u64(time) {
        Ok(v) => v,
        Err(e) => return Err(e),
    };
    let deadv = match opt_flag(dead) {
        Ok(v) => v,
        Err(e) => return Err(e),
    };
    let kidsv = match opt_ids(kids) {
        Ok(v) => v,
        Err(e) => return Err(e),
    };
    let parentv = match opt_u32(parent) {
        Ok(v) => v,
        Err(e) => return Err(e),
    };
    let scorev = match opt_u32(score) {
        Ok(v) => v,
        Err(e) => return Err(e),
    };
    Ok(
        Item::PollOption(
            PollOption {
                id: idv,
                deleted: deletedv,
                by: byv,
                time: timev,
                dead: deadv,
                kids: kidsv,
                parent: parentv,
                score: scorev,
            },
        ),
    )
}

/// What a raw document decodes to: exactly one of the five record kinds,
/// selected by the discriminant, or the first decode failure.
pub open spec fn decode_spec(d: RawDoc) -> Result<ItemView, DecodeError> {
    match d.tag {
        None => Err(DecodeError::MissingTag),
        Some(RawField::Text(t)) => if t@ == "job"@ {
            decode_job_spec(d.id, d.deleted, d.by, d.time, d.dead, d.kids, d.text, d.url, d.title)
        } else if t@ == "story"@ {
            decode_story_spec(
                d.id,
                d.deleted,
                d.by,
                d.time,
                d.dead,
                d.kids,
                d.descendants,
                d.score,
                d.title,
                d.url,
            )
        } else if t@ == "comment"@ {
            decode_comment_spec(d.id, d.deleted, d.by, d.time, d.dead, d.kids, d.parent, d.text)
        } else if t@ == "poll"@ {
            decode_poll_spec(
                d.id,
                d.deleted,
                d.by,
                d.time,
                d.dead,
                d.kids,
                d.parts,
                d.descendants,
                d.score,
                d.title,
                d.text,
            )
        } else if t@ == "pollopt"@ {
            decode_pollopt_spec(d.id, d.deleted, d.by, d.time, d.dead, d.kids, d.parent, d.score)
        } else {
            Err(DecodeError::UnknownTag)
        },
        Some(_) => Err(DecodeError::WrongFieldType),
    }
}

/// Decode a raw document into exactly one of the five record kinds,
/// dispatching on the discriminant. Fails with the documented error when
/// the discriminant is absent or unrecognized, or when a field of the
/// matched variant is absent though required, or of the wrong shape.
pub fn decode(d: RawDoc) -> (r: Result<Item, DecodeError>)
    ensures
        res_item_view(r) == decode_spec(d),
{
    let RawDoc {
        tag,
        id,
        deleted,
        by,
        time,
        dead,
        kids,
        descendants,
        score,
        title,
        url,
        text,
        parent,
        parts,
    } = d;
    match tag {
        None => Err(DecodeError::MissingTag),
        Some(RawField::Text(t)) => if text_is(&t, "job") {
            decode_job(id, deleted, by, time, dead, kids, text, url, title)
        } else if text_is(&t, "story") {
            decode_story(id, deleted, by, time, dead, kids, descendants, score, title, url)
        } else if text_is(&t, "comment") {
            decode_comment(id, deleted, by, time, dead, kids, parent, text)
        } else if text_is(&t, "poll") {
            decode_poll(id, deleted, by, time, dead, kids, parts, descendants, score, title, text)
        } else if text_is(&t, "pollopt") {
            decode_pollopt(id, deleted, by, time, dead, kids, parent, score)
        } else {
            Err(DecodeError::UnknownTag)
        },
        Some(_) => Err(DecodeError::WrongFieldType),
    }
}

/// Law: decoding keeps no hidden state. The result is a function of the
/// raw document alone, so the same document always decodes the same way.
pub proof fn lemma_decode_deterministic(d1: RawDoc, d2: RawDoc)
    requires
        d1 == d2,
    ensures
        decode_spec(d1) == decode_spec(d2),
{
}

} // verus!

