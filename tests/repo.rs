use toakuai::comment::Comment;
use toakuai::error::DictError;
use toakuai::ident::Ident;
use toakuai::repo::{delete_word_params, delete_word_sql, insert_word_sql, Query};
use toakuai::row::{Row, Timestamp, Value};
use toakuai::user::User;
use toakuai::word::Word;

fn id(last: u8) -> Ident {
    let mut b = [0x33u8; 16];
    b[15] = last;
    Ident::from_bytes(b)
}

#[test]
fn queries_bind_their_key() {
    let q = Query::UserById(id(1));
    assert_eq!(q.sql(), "SELECT * FROM users WHERE id = $1");
    assert_eq!(q.params(), vec![Value::Uuid(id(1))]);
    let q = Query::UserByUsername("mira".to_string());
    assert_eq!(q.sql(), "SELECT * FROM users WHERE username = $1");
    assert_eq!(q.params(), vec![Value::Text("mira".to_string())]);
    let q = Query::CommentsForWord(id(2));
    assert_eq!(q.sql(), "SELECT * FROM comments WHERE parent_word = $1");
    assert_eq!(q.params(), vec![Value::Uuid(id(2))]);
    assert_eq!(Query::VotesForWord(id(2)).sql(), "SELECT * FROM votes WHERE entry_word = $1");
    assert_eq!(Query::WordByText("kato".to_string()).params(), vec![Value::Text("kato".to_string())]);
}

#[test]
fn statement_texts() {
    assert_eq!(Query::WordById(id(1)).sql(), "SELECT * FROM words WHERE id = $1");
    assert_eq!(Query::CommentById(id(1)).sql(), "SELECT * FROM comments WHERE id = $1");
    assert_eq!(Query::CommentsByAuthor(id(1)).sql(), "SELECT * FROM comments WHERE author = $1");
    assert_eq!(Query::CommentsByAuthor(id(1)).params(), vec![Value::Uuid(id(1))]);
    assert_eq!(
        insert_word_sql(),
        "INSERT INTO words (id, author, word, definition, forked_from, lang, gloss, frame, created, edited) VALUES (uuid_generate_v4(), $1, $2, $3, $4, $5, $6, $7, $8, NULL)"
    );
}

#[test]
fn comment_lookup() {
    assert_eq!(Comment::<Ident>::from_lookup(None), Err(DictError::NotFound));
    let mut r = Row::new();
    r.push("id", Value::Uuid(id(1)));
    r.push("author", Value::Uuid(id(2)));
    r.push("parent_word", Value::Uuid(id(3)));
    r.push("parent_comment", Value::Null);
    r.push("content", Value::Text("hi".to_string()));
    let c = Comment::<Ident>::from_lookup(Some(&r)).unwrap();
    assert_eq!(c.author, id(2));
    assert_eq!(c.content, "hi");
}

#[test]
fn absent_user_is_not_found() {
    assert_eq!(User::<Ident>::from_lookup(None), Err(DictError::NotFound));
    assert_eq!(Word::<Ident>::from_lookup(None), Err(DictError::NotFound));
}

#[test]
fn found_user_is_mapped() {
    let mut r = Row::new();
    r.push("id", Value::Uuid(id(1)));
    r.push("username", Value::Text("mira".to_string()));
    assert_eq!(User::<Ident>::from_lookup(Some(&r)), Ok(User { id: id(1), username: "mira".to_string() }));
}

fn word() -> Word<Ident> {
    Word {
        id: Ident::nil(),
        author: Some(id(4)),
        word: "kato".to_string(),
        definition: "cat".to_string(),
        forked_from: None,
        lang: "toa".to_string(),
        gloss: vec!["cat".to_string()],
        frame: vec![],
        created: 1_700_000_000,
        edited: Some(5),
    }
}

#[test]
fn insert_binds_every_field_but_the_edit() {
    assert!(insert_word_sql().starts_with("INSERT INTO words"));
    let p = word().insert_params();
    assert_eq!(
        p,
        vec![
            Value::Uuid(id(4)),
            Value::Text("kato".to_string()),
            Value::Text("cat".to_string()),
            Value::Null,
            Value::Text("toa".to_string()),
            Value::TextList(vec!["cat".to_string()]),
            Value::TextList(vec![]),
            Value::Timestamp(Timestamp { secs: 1_700_000_000, nanos: 0 }),
        ]
    );
}

#[test]
fn inserted_word_reads_back() {
    let columns = ["author", "word", "definition", "forked_from", "lang", "gloss", "frame", "created"];
    let mut row = Row::new();
    row.push("id", Value::Uuid(id(9)));
    for (name, value) in columns.iter().zip(word().insert_params()) {
        row.push(name, value);
    }
    row.push("edited", Value::Null);
    let got = Word::<Ident>::from_lookup(Some(&row)).unwrap();
    let mut expected = word();
    expected.id = id(9);
    expected.edited = None;
    assert_eq!(got, expected);
}

#[test]
fn delete_binds_id_and_text() {
    assert_eq!(delete_word_sql(), "DELETE FROM words WHERE id = $1 AND word = $2");
    assert_eq!(
        delete_word_params(id(1), "kato".to_string()),
        vec![Value::Uuid(id(1)), Value::Text("kato".to_string())]
    );
}

#[test]
fn no_comments_is_an_empty_list() {
    assert_eq!(Comment::<Ident>::from_rows(&vec![]), Ok(vec![]));
}

#[test]
fn comments_keep_their_order() {
    let row = |n: u8| {
        let mut r = Row::new();
        r.push("id", Value::Uuid(id(n)));
        r.push("author", Value::Uuid(id(100)));
        r.push("parent_word", Value::Uuid(id(50)));
        r.push("parent_comment", Value::Null);
        r.push("content", Value::Text(format!("c{}", n)));
        r
    };
    let cs = Comment::<Ident>::from_rows(&vec![row(2), row(1)]).unwrap();
    assert_eq!(cs.len(), 2);
    assert_eq!(cs[0].content, "c2");
    assert_eq!(cs[1].id, id(1));
    let mut bad = row(3);
    bad.columns.remove(4);
    assert_eq!(
        Comment::<Ident>::from_rows(&vec![row(1), bad]),
        Err(DictError::RowShapeMismatch("content".to_string()))
    );
}
