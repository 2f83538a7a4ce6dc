use vstd::prelude::*;

use crate::error::{option_view, result_view, DictError, ErrorModel};
use crate::ident::{
    id_text, id_text_bytes, is_id_text, lemma_opt_text_round_trip, lemma_text_round_trip,
    nil_bytes, opt_id_bytes, opt_id_text, opt_id_valid, parse_opt, text_of_opt, Ident,
};
use crate::row::{ident_column, opt_ident_column, text_column, Row, RowModel};

verus! {

/// A comment on a word; with a `parent_comment` it replies to another comment.
#[derive(Clone, Debug, PartialEq, Eq)]
pub struct Comment<T> {
    pub id: T,
    pub author: T,
    pub parent_word: T,
    pub parent_comment: Option<T>,
    pub content: String,
}

pub struct CommentModel<I> {
    pub id: I,
    pub author: I,
    pub parent_word: I,
    pub parent_comment: Option<I>,
    pub content: Seq<char>,
}

impl<T: View> View for Comment<T> {
    type V = CommentModel<T::V>;

    open spec fn view(&self) -> CommentModel<T::V> {
        CommentModel {
            id: self.id@,
            author: self.author@,
            parent_word: self.parent_word@,
            parent_comment: option_view(self.parent_comment),
            content: self.content@,
        }
    }
}

/// The text form of a comment.
pub open spec fn project_comment(c: CommentModel<Seq<u8>>) -> CommentModel<Seq<char>> {
    CommentModel {
        id: id_text(c.id),
        author: id_text(c.author),
        parent_word: id_text(c.parent_word),
        parent_comment: opt_id_text(c.parent_comment),
        content: c.content,
    }
}

/// Whether every identifier of a text-form comment parses.
pub open spec fn comment_text_valid(c: CommentModel<Seq<char>>) -> bool {
    is_id_text(c.id) && is_id_text(c.author) && is_id_text(c.parent_word) && opt_id_valid(
        c.parent_comment,
    )
}

/// The canonical form of a text-form comment whose identifiers parse.
pub open spec fn lift_comment(c: CommentModel<Seq<char>>) -> CommentModel<Seq<u8>> {
    CommentModel {
        id: id_text_bytes(c.id),
        author: id_text_bytes(c.author),
        parent_word: id_text_bytes(c.parent_word),
        parent_comment: opt_id_bytes(c.parent_comment),
        content: c.content,
    }
}

/// The comment that a `comments` row holds, or the first column that does not fit.
pub open spec fn comment_of_row(row: RowModel) -> Result<CommentModel<Seq<u8>>, ErrorModel> {
    let id = ident_column(row, "id"@);
    let author = ident_column(row, "author"@);
    let parent_word = ident_column(row, "parent_word"@);
    let parent_comment = opt_ident_column(row, "parent_comment"@);
    let content = text_column(row, "content"@);
    if id is Err {
        Err(id->Err_0)
    } else if author is Err {
        Err(author->Err_0)
    } else if parent_word is Err {
        Err(parent_word->Err_0)
    } else if parent_comment is Err {
        Err(parent_comment->Err_0)
    } else if content is Err {
        Err(content->Err_0)
    } else {
        Ok(
            CommentModel {
                id: id->Ok_0,
                author: author->Ok_0,
                parent_word: parent_word->Ok_0,
                parent_comment: parent_comment->Ok_0,
                content: content->Ok_0,
            },
        )
    }
}

impl<T: Clone> Comment<T> {
    fn blank(empty: T) -> (r: Self)
        ensures
            cloned(empty, r.id),
            cloned(empty, r.author),
            r.parent_word == empty,
            r.parent_comment is None,
            r.content@ == Seq::<char>::empty(),
    {
        Comment {
            id: empty.clone(),
            author: empty.clone(),
            parent_word: empty,
            parent_comment: None,
            content: String::new(),
        }
    }
}

impl Comment<String> {
    /// An empty template: empty id texts and content, top-level.
    pub fn new() -> (r: Self)
        ensures
            r@ == (CommentModel::<Seq<char>> {
                id: Seq::empty(),
                author: Seq::empty(),
                parent_word: Seq::empty(),
                parent_comment: None,
                content: Seq::empty(),
            }),
    {
        Self::blank(String::new())
    }

    /// Lifts to canonical form, parsing every identifier that is present.
    pub fn uuid(self) -> (r: Result<Comment<Ident>, DictError>)
        ensures
            r is Ok <==> comment_text_valid(self@),
            r matches Ok(c) ==> c@ == lift_comment(self@),
            r matches Err(e) ==> e == DictError::MalformedIdentifier,
    {
        let id = Ident::parse(self.id.as_str())?;
        let author = Ident::parse(self.author.as_str())?;
        let parent_word = Ident::parse(self.parent_word.as_str())?;
        let parent_comment = parse_opt(self.parent_comment)?;
        Ok(Comment { id, author, parent_word, parent_comment, content: self.content })
    }
}

impl Comment<Ident> {
    /// An empty template on the nil identifier, top-level.
    pub fn new() -> (r: Self)
        ensures
            r@ == (CommentModel::<Seq<u8>> {
                id: nil_bytes(),
                author: nil_bytes(),
                parent_word: nil_bytes(),
                parent_comment: None,
                content: Seq::empty(),
            }),
    {
        Self::blank(Ident::nil())
    }

    /// Projects to text form.
    pub fn string(self) -> (r: Comment<String>)
        ensures
            r@ == project_comment(self@),
    {
        Comment {
            id: self.id.to_text(),
            author: self.author.to_text(),
            parent_word: self.parent_word.to_text(),
            parent_comment: text_of_opt(self.parent_comment),
            content: self.content,
        }
    }

    /// Maps a `comments` row, reading its columns by name.
    pub fn from_row(row: &Row) -> (r: Result<Self, DictError>)
        ensures
            result_view(r) == comment_of_row(row@),
    {
        let id = match row.ident("id") {
            Ok(v) => v,
            Err(e) => return Err(e),
        };
        let author = match row.ident("author") {
            Ok(v) => v,
            Err(e) => return Err(e),
        };
        let parent_word = match row.ident("parent_word") {
            Ok(v) => v,
            Err(e) => return Err(e),
        };
        let parent_comment = match row.opt_ident("parent_comment") {
            Ok(v) => v,
            Err(e) => return Err(e),
        };
        let content = match row.text("content") {
            Ok(v) => v,
            Err(e) => return Err(e),
        };
        Ok(Comment { id, author, parent_word, parent_comment, content })
    }
}

/// Lifting the text form of a comment gives the comment back.
pub proof fn lemma_comment_lift_projection(e: Comment<Ident>)
    ensures
        comment_text_valid(project_comment(e@)),
        lift_comment(project_comment(e@)) == e@,
{
    lemma_text_round_trip(e.id);
    lemma_text_round_trip(e.author);
    lemma_text_round_trip(e.parent_word);
    lemma_opt_text_round_trip(e.parent_comment);
}

} // verus!
