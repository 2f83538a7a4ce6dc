use toakuai::error::DictError;
use toakuai::ident::Ident;
use toakuai::row::{Row, Value};
use toakuai::tally::{count_upvotes, count_votes, VoteTally};

fn vote(up: bool) -> Row {
    let mut r = Row::new();
    r.push("author", Value::Uuid(Ident::nil()));
    r.push("entry_word", Value::Uuid(Ident::from_bytes([1; 16])));
    r.push("entry_comment", Value::Null);
    r.push("is_upvote", Value::Bool(up));
    r
}

#[test]
fn two_up_one_down() {
    let rows = vec![vote(true), vote(true), vote(false)];
    assert_eq!(count_votes(&rows), Ok((2, 1)));
    assert_eq!(count_upvotes(&rows), Ok(2));
}

#[test]
fn no_votes() {
    assert_eq!(count_votes(&vec![]), Ok((0, 0)));
    assert_eq!(count_upvotes(&vec![]), Ok(0));
}

#[test]
fn upvotes_agree_with_counts() {
    let rows = vec![vote(false), vote(true), vote(false), vote(true), vote(true)];
    assert_eq!(count_votes(&rows).map(|c| c.0), count_upvotes(&rows));
}

#[test]
fn row_without_flag_is_a_shape_mismatch() {
    let rows = vec![vote(true), Row::new()];
    let e = Err(DictError::RowShapeMismatch("is_upvote".to_string()));
    assert_eq!(count_votes(&rows), e);
    assert_eq!(count_upvotes(&rows), Err(DictError::RowShapeMismatch("is_upvote".to_string())));
}

#[test]
fn tally_counts_row_by_row() {
    let mut t = VoteTally::new();
    assert_eq!(t.record(&vote(true)), Ok(()));
    assert_eq!(t.record(&vote(false)), Ok(()));
    assert_eq!(t.record(&vote(true)), Ok(()));
    assert_eq!(t.record(&Row::new()), Err(DictError::RowShapeMismatch("is_upvote".to_string())));
    assert_eq!(t, VoteTally { up: 2, down: 1 });
}
