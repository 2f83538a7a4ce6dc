use vstd::prelude::*;

use crate::comment::Comment;
use crate::user::User;
use crate::vote::Vote;
use crate::word::Word;

verus! {

/// A request body: one record of any kind, in one identifier form.
#[derive(Clone, Debug, PartialEq, Eq)]
pub enum ToakuaiReq<T> {
    User(User<T>),
    Word(Word<T>),
    Comment(Comment<T>),
    Vote(Vote<T>),
}

} // verus!
