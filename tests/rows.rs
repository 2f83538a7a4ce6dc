use toakuai::comment::Comment;
use toakuai::error::DictError;
use toakuai::ident::Ident;
use toakuai::row::{Row, Timestamp, Value};
use toakuai::user::User;
use toakuai::vote::{Target, Vote};
use toakuai::word::Word;

fn id(last: u8) -> Ident {
    let mut b = [0x22u8; 16];
    b[15] = last;
    Ident::from_bytes(b)
}

fn word_row(created: Timestamp, edited: Value) -> Row {
    let mut r = Row::new();
    r.push("id", Value::Uuid(id(1)));
    r.push("author", Value::Null);
    r.push("word", Value::Text("kato".to_string()));
    r.push("definition", Value::Text("cat".to_string()));
    r.push("forked_from", Value::Uuid(id(9)));
    r.push("lang", Value::Text("toa".to_string()));
    r.push("gloss", Value::TextList(vec![]));
    r.push("frame", Value::TextList(vec!["___ is a cat".to_string()]));
    r.push("created", Value::Timestamp(created));
    r.push("edited", edited);
    r
}

#[test]
fn word_row_maps_by_name() {
    let w = Word::<Ident>::from_row(&word_row(Timestamp { secs: 100, nanos: 0 }, Value::Null)).unwrap();
    assert_eq!(w.id, id(1));
    assert_eq!(w.author, None);
    assert_eq!(w.forked_from, Some(id(9)));
    assert_eq!(w.word, "kato");
    assert_eq!(w.gloss, Vec::<String>::new());
    assert_eq!(w.frame, vec!["___ is a cat".to_string()]);
    assert_eq!(w.created, 100);
    assert_eq!(w.edited, None);
}

#[test]
fn column_order_does_not_matter() {
    let mut r = Row::new();
    r.push("username", Value::Text("mira".to_string()));
    r.push("id", Value::Uuid(id(3)));
    assert_eq!(User::<Ident>::from_row(&r), Ok(User { id: id(3), username: "mira".to_string() }));
    let s = User::<String>::from_row(&r).unwrap();
    assert_eq!(s.id, id(3).to_text());
}

#[test]
fn timestamps_round_to_nearest_second() {
    let at = |nanos: u32| {
        Word::<Ident>::from_row(&word_row(Timestamp { secs: 100, nanos }, Value::Null)).unwrap().created
    };
    assert_eq!(at(499_999_999), 100);
    assert_eq!(at(500_000_000), 101);
    assert_eq!(at(999_999_999), 101);
    let w = Word::<Ident>::from_row(&word_row(
        Timestamp { secs: -5, nanos: 0 },
        Value::Timestamp(Timestamp { secs: 7, nanos: 600_000_000 }),
    ))
    .unwrap();
    assert_eq!(w.created, -5);
    assert_eq!(w.edited, Some(8));
}

#[test]
fn rounding_past_the_range_is_a_shape_mismatch() {
    let r = word_row(Timestamp { secs: i64::MAX, nanos: 900_000_000 }, Value::Null);
    assert_eq!(Word::<Ident>::from_row(&r), Err(DictError::RowShapeMismatch("created".to_string())));
}

#[test]
fn missing_column_is_named() {
    let mut r = Row::new();
    r.push("id", Value::Uuid(id(1)));
    assert_eq!(User::<Ident>::from_row(&r), Err(DictError::RowShapeMismatch("username".to_string())));
    assert_eq!(Word::<Ident>::from_row(&r), Err(DictError::RowShapeMismatch("word".to_string())));
}

#[test]
fn wrong_typed_column_is_named() {
    let mut r = Row::new();
    r.push("id", Value::Uuid(id(1)));
    r.push("author", Value::Null);
    r.push("parent_word", Value::Uuid(id(2)));
    r.push("parent_comment", Value::Null);
    r.push("content", Value::Text("hi".to_string()));
    assert_eq!(Comment::<Ident>::from_row(&r), Err(DictError::RowShapeMismatch("author".to_string())));
    let mut r = word_row(Timestamp { secs: 1, nanos: 0 }, Value::Null);
    r.columns[5].1 = Value::Bool(true);
    assert_eq!(Word::<Ident>::from_row(&r), Err(DictError::RowShapeMismatch("lang".to_string())));
}

#[test]
fn comment_row_maps() {
    let mut r = Row::new();
    r.push("id", Value::Uuid(id(1)));
    r.push("author", Value::Uuid(id(2)));
    r.push("parent_word", Value::Uuid(id(3)));
    r.push("parent_comment", Value::Uuid(id(4)));
    r.push("content", Value::Text("hi".to_string()));
    let c = Comment::<Ident>::from_row(&r).unwrap();
    assert_eq!(c.parent_comment, Some(id(4)));
    assert_eq!(c.content, "hi");
}

fn vote_row(word: Value, comment: Value) -> Row {
    let mut r = Row::new();
    r.push("author", Value::Uuid(id(1)));
    r.push("entry_word", word);
    r.push("entry_comment", comment);
    r.push("is_upvote", Value::Bool(true));
    r
}

#[test]
fn vote_row_needs_exactly_one_target() {
    let v = Vote::<Ident>::from_row(&vote_row(Value::Uuid(id(5)), Value::Null)).unwrap();
    assert_eq!(v.target, Target::Word(id(5)));
    assert!(v.is_upvote);
    let v = Vote::<Ident>::from_row(&vote_row(Value::Null, Value::Uuid(id(6)))).unwrap();
    assert_eq!(v.target, Target::Comment(id(6)));
    assert_eq!(
        Vote::<Ident>::from_row(&vote_row(Value::Null, Value::Null)),
        Err(DictError::RowShapeMismatch("entry_word".to_string()))
    );
    assert_eq!(
        Vote::<Ident>::from_row(&vote_row(Value::Uuid(id(5)), Value::Uuid(id(6)))),
        Err(DictError::RowShapeMismatch("entry_comment".to_string()))
    );
}

#[test]
fn first_column_of_a_name_wins() {
    let mut r = Row::new();
    r.push("id", Value::Uuid(id(1)));
    r.push("id", Value::Uuid(id(2)));
    assert_eq!(r.get("id"), Some(&Value::Uuid(id(1))));
    assert_eq!(r.get("nothing"), None);
}
