use vstd::prelude::*;

use crate::error::{result_view, DictError, ErrorModel};
use crate::ident::{id_text, id_text_bytes, is_id_text, lemma_text_round_trip, nil_bytes, Ident};
use crate::row::{bool_column, ident_column, opt_ident_column, Row, RowModel};

verus! {

/// What a vote is cast on: a word or a comment, never both or neither.
#[derive(Clone, Debug, PartialEq, Eq)]
pub enum Target<T> {
    Word(T),
    Comment(T),
}

impl<T: View> View for Target<T> {
    type V = Target<T::V>;

    open spec fn view(&self) -> Target<T::V> {
        match self {
            Target::Word(t) => Target::Word(t@),
            Target::Comment(t) => Target::Comment(t@),
        }
    }
}

/// An up or down vote by `author` on `target`.
#[derive(Clone, Debug, PartialEq, Eq)]
pub struct Vote<T> {
    pub author: T,
    pub target: Target<T>,
    pub is_upvote: bool,
}

pub struct VoteModel<I> {
    pub author: I,
    pub target: Target<I>,
    pub is_upvote: bool,
}

impl<T: View> View for Vote<T> {
    type V = VoteModel<T::V>;

    open spec fn view(&self) -> VoteModel<T::V> {
        VoteModel { author: self.author@, target: self.target@, is_upvote: self.is_upvote }
    }
}

pub open spec fn project_target(t: Target<Seq<u8>>) -> Target<Seq<char>> {
    match t {
        Target::Word(b) => Target::Word(id_text(b)),
        Target::Comment(b) => Target::Comment(id_text(b)),
    }
}

pub open spec fn target_text(t: Target<Seq<char>>) -> Seq<char> {
    match t {
        Target::Word(s) => s,
        Target::Comment(s) => s,
    }
}

pub open spec fn lift_target(t: Target<Seq<char>>) -> Target<Seq<u8>> {
    match t {
        Target::Word(s) => Target::Word(id_text_bytes(s)),
        Target::Comment(s) => Target::Comment(id_text_bytes(s)),
    }
}

/// The text form of a vote.
pub open spec fn project_vote(v: VoteModel<Seq<u8>>) -> VoteModel<Seq<char>> {
    VoteModel {
        author: id_text(v.author),
        target: project_target(v.target),
        is_upvote: v.is_upvote,
    }
}

/// Whether every identifier of a text-form vote parses.
pub open spec fn vote_text_valid(v: VoteModel<Seq<char>>) -> bool {
    is_id_text(v.author) && is_id_text(target_text(v.target))
}

/// The canonical form of a text-form vote whose identifiers parse.
pub open spec fn lift_vote(v: VoteModel<Seq<char>>) -> VoteModel<Seq<u8>> {
    VoteModel {
        author: id_text_bytes(v.author),
        target: lift_target(v.target),
        is_upvote: v.is_upvote,
    }
}

/// The target that a `votes` row names: exactly one of `entry_word` and
/// `entry_comment` is set. With neither set `entry_word` does not fit the
/// shape; with both, `entry_comment` does not.
pub open spec fn target_of_row(row: RowModel) -> Result<Target<Seq<u8>>, ErrorModel> {
    let word = opt_ident_column(row, "entry_word"@);
    let comment = opt_ident_column(row, "entry_comment"@);
    if word is Err {
        Err(word->Err_0)
    } else if comment is Err {
        Err(comment->Err_0)
    } else {
        match (word->Ok_0, comment->Ok_0) {
            (Some(w), None) => Ok(Target::Word(w)),
            (None, Some(c)) => Ok(Target::Comment(c)),
            (None, None) => Err(ErrorModel::RowShapeMismatch("entry_word"@)),
            (Some(_), Some(_)) => Err(ErrorModel::RowShapeMismatch("entry_comment"@)),
        }
    }
}

/// The vote that a `votes` row holds, or the first column that does not fit.
pub open spec fn vote_of_row(row: RowModel) -> Result<VoteModel<Seq<u8>>, ErrorModel> {
    let author = ident_column(row, "author"@);
    let target = target_of_row(row);
    let is_upvote = bool_column(row, "is_upvote"@);
    if author is Err {
        Err(author->Err_0)
    } else if target is Err {
        Err(target->Err_0)
    } else if is_upvote is Err {
        Err(is_upvote->Err_0)
    } else {
        Ok(
            VoteModel {
                author: author->Ok_0,
                target: target->Ok_0,
                is_upvote: is_upvote->Ok_0,
            },
        )
    }
}

impl<T> Vote<T> {
    /// A template: the vote is down and on the word `empty`.
    fn blank(empty: T, on: T) -> (r: Self)
        ensures
            r.author == empty,
            r.target == Target::Word(on),
            !r.is_upvote,
    {
        Vote { author: empty, target: Target::Word(on), is_upvote: false }
    }

    /// The name of the record kind.
    pub fn get_name() -> (r: String)
        ensures
            r@ == "vote"@,
    {
        "vote".to_owned()
    }
}

impl Vote<String> {
    /// An empty template: empty id texts, a down vote on a word.
    pub fn new() -> (r: Self)
        ensures
            r@ == (VoteModel::<Seq<char>> {
                author: Seq::empty(),
                target: Target::Word(Seq::empty()),
                is_upvote: false,
            }),
    {
        Self::blank(String::new(), String::new())
    }

    /// Lifts to canonical form, parsing both identifiers.
    pub fn uuid(self) -> (r: Result<Vote<Ident>, DictError>)
        ensures
            r is Ok <==> vote_text_valid(self@),
            r matches Ok(v) ==> v@ == lift_vote(self@),
            r matches Err(e) ==> e == DictError::MalformedIdentifier,
    {
        let author = Ident::parse(self.author.as_str())?;
        let target = match self.target {
            Target::Word(t) => Target::Word(Ident::parse(t.as_str())?),
            Target::Comment(t) => Target::Comment(Ident::parse(t.as_str())?),
        };
        Ok(Vote { author, target, is_upvote: self.is_upvote })
    }
}

impl Vote<Ident> {
    /// An empty template: nil identifiers, a down vote on a word.
    pub fn new() -> (r: Self)
        ensures
            r@ == (VoteModel::<Seq<u8>> {
                author: nil_bytes(),
                target: Target::Word(nil_bytes()),
                is_upvote: false,
            }),
    {
        Self::blank(Ident::nil(), Ident::nil())
    }

    /// Projects to text form.
    pub fn string(self) -> (r: Vote<String>)
        ensures
            r@ == project_vote(self@),
    {
        let target = match self.target {
            Target::Word(t) => Target::Word(t.to_text()),
            Target::Comment(t) => Target::Comment(t.to_text()),
        };
        Vote { author: self.author.to_text(), target, is_upvote: self.is_upvote }
    }

    /// Maps a `votes` row, reading its columns by name.
    pub fn from_row(row: &Row) -> (r: Result<Self, DictError>)
        ensures
            result_view(r) == vote_of_row(row@),
    {
        let author = match row.ident("author") {
            Ok(v) => v,
            Err(e) => return Err(e),
        };
        let word = match row.opt_ident("entry_word") {
            Ok(v) => v,
            Err(e) => return Err(e),
        };
        let comment = match row.opt_ident("entry_comment") {
            Ok(v) => v,
            Err(e) => return Err(e),
        };
        let target = match (word, comment) {
            (Some(w), None) => Target::Word(w),
            (None, Some(c)) => Target::Comment(c),
            (None, None) => return Err(DictError::RowShapeMismatch("entry_word".to_owned())),
            (Some(_), Some(_)) => {
                return Err(DictError::RowShapeMismatch("entry_comment".to_owned()))
            },
        };
        let is_upvote = match row.boolean("is_upvote") {
            Ok(v) => v,
            Err(e) => return Err(e),
        };
        Ok(Vote { author, target, is_upvote })
    }
}

/// Lifting the text form of a vote gives the vote back.
pub proof fn lemma_vote_lift_projection(e: Vote<Ident>)
    ensures
        vote_text_valid(project_vote(e@)),
        lift_vote(project_vote(e@)) == e@,
{
    lemma_text_round_trip(e.author);
    match e.target {
        Target::Word(t) => lemma_text_round_trip(t),
        Target::Comment(t) => lemma_text_round_trip(t),
    }
}

} // verus!
