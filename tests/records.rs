use toakuai::comment::Comment;
use toakuai::error::DictError;
use toakuai::ident::Ident;
use toakuai::reqs::ToakuaiReq;
use toakuai::user::User;
use toakuai::vote::{Target, Vote};
use toakuai::word::Word;

fn id(last: u8) -> Ident {
    let mut b = [0x11u8; 16];
    b[15] = last;
    Ident::from_bytes(b)
}

fn sample_word() -> Word<Ident> {
    Word {
        id: id(1),
        author: Some(id(2)),
        word: "kato".to_string(),
        definition: "cat".to_string(),
        forked_from: None,
        lang: "toa".to_string(),
        gloss: vec!["cat".to_string(), "feline".to_string()],
        frame: vec![],
        created: 1_600_000_000,
        edited: Some(1_600_000_100),
    }
}

#[test]
fn templates_are_empty() {
    let u = User::<Ident>::new();
    assert!(u.id.is_nil());
    assert_eq!(u.username, "");
    let u = User::<String>::new();
    assert_eq!(u.id, "");
    let w = Word::<Ident>::new();
    assert!(w.id.is_nil());
    assert_eq!(w.gloss, vec![String::new()]);
    assert_eq!(w.frame, vec![String::new()]);
    assert_eq!(w.created, 0);
    assert_eq!(w.edited, None);
    assert_eq!(Word::<String>::new().author, None);
    let c = Comment::<Ident>::new();
    assert!(c.author.is_nil() && c.parent_word.is_nil());
    assert_eq!(c.parent_comment, None);
    assert_eq!(Comment::<String>::new().content, "");
    let v = Vote::<Ident>::new();
    assert!(!v.is_upvote);
    assert_eq!(v.target, Target::Word(Ident::nil()));
    assert_eq!(Vote::<String>::new().author, "");
}

#[test]
fn vote_name() {
    assert_eq!(Vote::<Ident>::get_name(), "vote");
}

#[test]
fn user_projection_and_lift() {
    let u = User { id: id(7), username: "mira".to_string() };
    let s = u.clone().string();
    assert_eq!(s.id, id(7).to_text());
    assert_eq!(s.username, "mira");
    assert_eq!(s.uuid(), Ok(u));
}

#[test]
fn word_projection_and_lift() {
    let w = sample_word();
    let s = w.clone().string();
    assert_eq!(s.id, "11111111-1111-1111-1111-111111111101");
    assert_eq!(s.author, Some("11111111-1111-1111-1111-111111111102".to_string()));
    assert_eq!(s.forked_from, None);
    assert_eq!(s.gloss, w.gloss);
    assert_eq!(s.uuid(), Ok(w));
}

#[test]
fn comment_projection_and_lift() {
    let c = Comment {
        id: id(3),
        author: id(4),
        parent_word: id(1),
        parent_comment: Some(id(5)),
        content: "nice".to_string(),
    };
    let s = c.clone().string();
    assert_eq!(s.parent_comment, Some(id(5).to_text()));
    assert_eq!(s.uuid(), Ok(c));
}

#[test]
fn vote_projection_and_lift() {
    let v = Vote { author: id(4), target: Target::Comment(id(3)), is_upvote: true };
    let s = v.clone().string();
    assert_eq!(s.target, Target::Comment(id(3).to_text()));
    assert_eq!(s.uuid(), Ok(v));
}

#[test]
fn lift_rejects_a_malformed_id() {
    let mut s = sample_word().string();
    s.forked_from = Some("not-an-id".to_string());
    assert_eq!(s.uuid(), Err(DictError::MalformedIdentifier));
    let u = User { id: "zz".to_string(), username: "x".to_string() };
    assert_eq!(u.uuid(), Err(DictError::MalformedIdentifier));
    let v = Vote { author: id(1).to_text(), target: Target::Word("1234".to_string()), is_upvote: false };
    assert_eq!(v.uuid(), Err(DictError::MalformedIdentifier));
}

#[test]
fn request_holds_a_record() {
    let r = ToakuaiReq::User(User { id: id(1), username: "a".to_string() });
    assert!(matches!(r, ToakuaiReq::User(_)));
}
