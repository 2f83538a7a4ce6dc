use vstd::prelude::*;

use crate::error::{option_view, result_view, DictError, ErrorModel};
use crate::ident::{
    id_text, id_text_bytes, is_id_text, lemma_opt_text_round_trip, lemma_text_round_trip,
    nil_bytes, opt_id_bytes, opt_id_text, opt_id_valid, parse_opt, text_of_opt, Ident,
};
use crate::row::{
    ident_column, opt_ident_column, opt_secs_column, secs_column, text_column, text_list_column,
    Row, RowModel,
};

verus! {

/// A dictionary entry, generic over the identifier's form. `created` and
/// `edited` are seconds since the epoch.
#[derive(Clone, Debug, PartialEq, Eq)]
pub struct Word<T> {
    pub id: T,
    pub author: Option<T>,
    pub word: String,
    pub definition: String,
    pub forked_from: Option<T>,
    pub lang: String,
    pub gloss: Vec<String>,
    pub frame: Vec<String>,
    pub created: i64,
    pub edited: Option<i64>,
}

pub struct WordModel<I> {
    pub id: I,
    pub author: Option<I>,
    pub word: Seq<char>,
    pub definition: Seq<char>,
    pub forked_from: Option<I>,
    pub lang: Seq<char>,
    pub gloss: Seq<Seq<char>>,
    pub frame: Seq<Seq<char>>,
    pub created: i64,
    pub edited: Option<i64>,
}

impl<T: View> View for Word<T> {
    type V = WordModel<T::V>;

    open spec fn view(&self) -> WordModel<T::V> {
        WordModel {
            id: self.id@,
            author: option_view(self.author),
            word: self.word@,
            definition: self.definition@,
            forked_from: option_view(self.forked_from),
            lang: self.lang@,
            gloss: self.gloss.deep_view(),
            frame: self.frame.deep_view(),
            created: self.created,
            edited: self.edited,
        }
    }
}

/// The text form of a word.
pub open spec fn project_word(w: WordModel<Seq<u8>>) -> WordModel<Seq<char>> {
    WordModel {
        id: id_text(w.id),
        author: opt_id_text(w.author),
        forked_from: opt_id_text(w.forked_from),
        word: w.word,
        definition: w.definition,
        lang: w.lang,
        gloss: w.gloss,
        frame: w.frame,
        created: w.created,
        edited: w.edited,
    }
}

/// Whether every identifier of a text-form word parses.
pub open spec fn word_text_valid(w: WordModel<Seq<char>>) -> bool {
    is_id_text(w.id) && opt_id_valid(w.author) && opt_id_valid(w.forked_from)
}

/// The canonical form of a text-form word whose identifiers parse.
pub open spec fn lift_word(w: WordModel<Seq<char>>) -> WordModel<Seq<u8>> {
    WordModel {
        id: id_text_bytes(w.id),
        author: opt_id_bytes(w.author),
        forked_from: opt_id_bytes(w.forked_from),
        word: w.word,
        definition: w.definition,
        lang: w.lang,
        gloss: w.gloss,
        frame: w.frame,
        created: w.created,
        edited: w.edited,
    }
}

/// The word that a `words` row holds, or the first column that does not fit.
pub open spec fn word_of_row(row: RowModel) -> Result<WordModel<Seq<u8>>, ErrorModel> {
    let id = ident_column(row, "id"@);
    let word = text_column(row, "word"@);
    let author = opt_ident_column(row, "author"@);
    let definition = text_column(row, "definition"@);
    let forked_from = opt_ident_column(row, "forked_from"@);
    let lang = text_column(row, "lang"@);
    let gloss = text_list_column(row, "gloss"@);
    let frame = text_list_column(row, "frame"@);
    let created = secs_column(row, "created"@);
    let edited = opt_secs_column(row, "edited"@);
    if id is Err {
        Err(id->Err_0)
    } else if word is Err {
        Err(word->Err_0)
    } else if author is Err {
        Err(author->Err_0)
    } else if definition is Err {
        Err(definition->Err_0)
    } else if forked_from is Err {
        Err(forked_from->Err_0)
    } else if lang is Err {
        Err(lang->Err_0)
    } else if gloss is Err {
        Err(gloss->Err_0)
    } else if frame is Err {
        Err(frame->Err_0)
    } else if created is Err {
        Err(created->Err_0)
    } else if edited is Err {
        Err(edited->Err_0)
    } else {
        Ok(
            WordModel {
                id: id->Ok_0,
                author: author->Ok_0,
                word: word->Ok_0,
                definition: definition->Ok_0,
                forked_from: forked_from->Ok_0,
                lang: lang->Ok_0,
                gloss: gloss->Ok_0,
                frame: frame->Ok_0,
                created: created->Ok_0,
                edited: edited->Ok_0,
            },
        )
    }
}

impl<T> Word<T> {
    fn blank(empty: T) -> (r: Self)
        ensures
            r.id == empty,
            r.author is None,
            r.word@ == Seq::<char>::empty(),
            r.definition@ == Seq::<char>::empty(),
            r.forked_from is None,
            r.lang@ == Seq::<char>::empty(),
            r.gloss.deep_view() == seq![Seq::<char>::empty()],
            r.frame.deep_view() == seq![Seq::<char>::empty()],
            r.created == 0,
            r.edited is None,
    {
        let r = Word {
            id: empty,
            author: None,
            word: String::new(),
            definition: String::new(),
            forked_from: None,
            lang: String::new(),
            gloss: vec![String::new()],
            frame: vec![String::new()],
            created: 0,
            edited: None,
        };
        assert(r.gloss.deep_view() =~= seq![Seq::<char>::empty()]);
        assert(r.frame.deep_view() =~= seq![Seq::<char>::empty()]);
        r
    }
}

impl Word<String> {
    /// An empty template: empty texts, one empty gloss and frame entry,
    /// created at zero, never edited.
    pub fn new() -> (r: Self)
        ensures
            r@ == (WordModel::<Seq<char>> {
                id: Seq::empty(),
                author: None,
                word: Seq::empty(),
                definition: Seq::empty(),
                forked_from: None,
                lang: Seq::empty(),
                gloss: seq![Seq::empty()],
                frame: seq![Seq::empty()],
                created: 0,
                edited: None,
            }),
    {
        Self::blank(String::new())
    }

    /// Lifts to canonical form, parsing every identifier that is present.
    pub fn uuid(self) -> (r: Result<Word<Ident>, DictError>)
        ensures
            r is Ok <==> word_text_valid(self@),
            r matches Ok(w) ==> w@ == lift_word(self@),
            r matches Err(e) ==> e == DictError::MalformedIdentifier,
    {
        let id = Ident::parse(self.id.as_str())?;
        let author = parse_opt(self.author)?;
        let forked_from = parse_opt(self.forked_from)?;
        Ok(
            Word {
                id,
                author,
                word: self.word,
                definition: self.definition,
                forked_from,
                lang: self.lang,
                gloss: self.gloss,
                frame: self.frame,
                created: self.created,
                edited: self.edited,
            },
        )
    }
}

impl Word<Ident> {
    /// An empty template on the nil identifier.
    pub fn new() -> (r: Self)
        ensures
            r@ == (WordModel::<Seq<u8>> {
                id: nil_bytes(),
                author: None,
                word: Seq::empty(),
                definition: Seq::empty(),
                forked_from: None,
                lang: Seq::empty(),
                gloss: seq![Seq::empty()],
                frame: seq![Seq::empty()],
                created: 0,
                edited: None,
            }),
    {
        Self::blank(Ident::nil())
    }

    /// Projects to text form.
    pub fn string(self) -> (r: Word<String>)
        ensures
            r@ == project_word(self@),
    {
        Word {
            id: self.id.to_text(),
            author: text_of_opt(self.author),
            word: self.word,
            definition: self.definition,
            forked_from: text_of_opt(self.forked_from),
            lang: self.lang,
            gloss: self.gloss,
            frame: self.frame,
            created: self.created,
            edited: self.edited,
        }
    }

    /// Maps a `words` row, reading its columns by name; date/time columns
    /// become epoch seconds, rounded to the nearest second.
    pub fn from_row(row: &Row) -> (r: Result<Self, DictError>)
        ensures
            result_view(r) == word_of_row(row@),
    {
        let id = match row.ident("id") {
            Ok(v) => v,
            Err(e) => return Err(e),
        };
        let word = match row.text("word") {
            Ok(v) => v,
            Err(e) => return Err(e),
        };
        let author = match row.opt_ident("author") {
            Ok(v) => v,
            Err(e) => return Err(e),
        };
        let definition = match row.text("definition") {
            Ok(v) => v,
            Err(e) => return Err(e),
        };
        let forked_from = match row.opt_ident("forked_from") {
            Ok(v) => v,
            Err(e) => return Err(e),
        };
        let lang = match row.text("lang") {
            Ok(v) => v,
            Err(e) => return Err(e),
        };
        let gloss = match row.text_list("gloss") {
            Ok(v) => v,
            Err(e) => return Err(e),
        };
        let frame = match row.text_list("frame") {
            Ok(v) => v,
            Err(e) => return Err(e),
        };
        let created = match row.secs("created") {
            Ok(v) => v,
            Err(e) => return Err(e),
        };
        let edited = match row.opt_secs("edited") {
            Ok(v) => v,
            Err(e) => return Err(e),
        };
        Ok(Word { id, author, word, definition, forked_from, lang, gloss, frame, created, edited })
    }
}

/// Lifting the text form of a word gives the word back.
pub proof fn lemma_word_lift_projection(e: Word<Ident>)
    ensures
        word_text_valid(project_word(e@)),
        lift_word(project_word(e@)) == e@,
{
    lemma_text_round_trip(e.id);
    lemma_opt_text_round_trip(e.author);
    lemma_opt_text_round_trip(e.forked_from);
}

} // verus!
