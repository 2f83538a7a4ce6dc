//! The repository's statements and what it makes of the rows they return.
//!
//! Every statement is parameterized: its SQL text is fixed and the values are
//! bound in order, `$1` first, never written into the text. Each statement's
//! text is stated by a spec function built from the same table and column
//! names that the spec functions of its effect use (`select_sql` with
//! `Query::answer`, `insert_word_sql_text` with `inserted_row`,
//! `delete_word_sql_text` with `rows_kept`); that such a text has that effect
//! on the store's rows is the store's part. The verified functions below turn
//! what the store returns into records and errors.

use vstd::prelude::*;

use crate::comment::{comment_of_row, Comment, CommentModel};
use crate::error::{option_view, result_view, DictError, ErrorModel};
use crate::ident::Ident;
use crate::row::{column, Row, RowModel, Timestamp, Value, ValueModel};
use crate::user::{user_of_row, User, UserModel};
use crate::word::{word_of_row, Word, WordModel};

verus! {

/// A point lookup or a scan: every row of one table whose key column holds
/// the bound value.
#[derive(Clone, Debug, PartialEq, Eq)]
pub enum Query {
    UserById(Ident),
    UserByUsername(String),
    WordById(Ident),
    /// Exact text. Where several words share it, a lookup takes the first
    /// row in the store's order.
    WordByText(String),
    CommentById(Ident),
    /// The comments of one author; a lookup takes the first.
    CommentsByAuthor(Ident),
    CommentsForWord(Ident),
    VotesForWord(Ident),
}

/// The text of a scan: every row of `table` whose column `key` equals `$1`.
pub open spec fn select_sql(table: Seq<char>, key: Seq<char>) -> Seq<char> {
    "SELECT * FROM "@ + table + " WHERE "@ + key + " = $1"@
}

impl Query {
    /// The table that the query reads.
    pub open spec fn table(&self) -> Seq<char> {
        match self {
            Query::UserById(_) | Query::UserByUsername(_) => "users"@,
            Query::WordById(_) | Query::WordByText(_) => "words"@,
            Query::CommentById(_) | Query::CommentsByAuthor(_) | Query::CommentsForWord(_) => "comments"@,
            Query::VotesForWord(_) => "votes"@,
        }
    }

    /// The column that the query matches on.
    pub open spec fn key_column(&self) -> Seq<char> {
        match self {
            Query::UserById(_) => "id"@,
            Query::UserByUsername(_) => "username"@,
            Query::WordById(_) => "id"@,
            Query::WordByText(_) => "word"@,
            Query::CommentById(_) => "id"@,
            Query::CommentsByAuthor(_) => "author"@,
            Query::CommentsForWord(_) => "parent_word"@,
            Query::VotesForWord(_) => "entry_word"@,
        }
    }

    /// The value bound as `$1`.
    pub open spec fn key(&self) -> ValueModel {
        match self {
            Query::UserById(i) => ValueModel::Uuid(i@),
            Query::UserByUsername(s) => ValueModel::Text(s@),
            Query::WordById(i) => ValueModel::Uuid(i@),
            Query::WordByText(s) => ValueModel::Text(s@),
            Query::CommentById(i) => ValueModel::Uuid(i@),
            Query::CommentsByAuthor(i) => ValueModel::Uuid(i@),
            Query::CommentsForWord(i) => ValueModel::Uuid(i@),
            Query::VotesForWord(i) => ValueModel::Uuid(i@),
        }
    }

    /// The rows that the query returns from the rows of `self.table()`, in order.
    pub open spec fn answer(&self, table: Seq<RowModel>) -> Seq<RowModel> {
        rows_where(table, self.key_column(), self.key())
    }

    /// The query's text: its table, matched on its key column against `$1`.
    pub fn sql(&self) -> (r: &'static str)
        ensures
            r@ == select_sql(self.table(), self.key_column()),
    {
        proof {
            reveal_strlit("SELECT * FROM ");
            reveal_strlit(" WHERE ");
            reveal_strlit(" = $1");
            reveal_strlit("users");
            reveal_strlit("words");
            reveal_strlit("comments");
            reveal_strlit("votes");
            reveal_strlit("id");
            reveal_strlit("username");
            reveal_strlit("word");
            reveal_strlit("author");
            reveal_strlit("parent_word");
            reveal_strlit("entry_word");
        }
        match self {
            Query::UserById(_) => {
                proof {
                    reveal_strlit("SELECT * FROM users WHERE id = $1");
                }
                "SELECT * FROM users WHERE id = $1"
            },
            Query::UserByUsername(_) => {
                proof {
                    reveal_strlit("SELECT * FROM users WHERE username = $1");
                }
                "SELECT * FROM users WHERE username = $1"
            },
            Query::WordById(_) => {
                proof {
                    reveal_strlit("SELECT * FROM words WHERE id = $1");
                }
                "SELECT * FROM words WHERE id = $1"
            },
            Query::WordByText(_) => {
                proof {
                    reveal_strlit("SELECT * FROM words WHERE word = $1");
                }
                "SELECT * FROM words WHERE word = $1"
            },
            Query::CommentById(_) => {
                proof {
                    reveal_strlit("SELECT * FROM comments WHERE id = $1");
                }
                "SELECT * FROM comments WHERE id = $1"
            },
            Query::CommentsByAuthor(_) => {
                proof {
                    reveal_strlit("SELECT * FROM comments WHERE author = $1");
                }
                "SELECT * FROM comments WHERE author = $1"
            },
            Query::CommentsForWord(_) => {
                proof {
                    reveal_strlit("SELECT * FROM comments WHERE parent_word = $1");
                }
                "SELECT * FROM comments WHERE parent_word = $1"
            },
            Query::VotesForWord(_) => {
                proof {
                    reveal_strlit("SELECT * FROM votes WHERE entry_word = $1");
                }
                "SELECT * FROM votes WHERE entry_word = $1"
            },
        }
    }

    /// The values to bind, in order.
    pub fn params(&self) -> (r: Vec<Value>)
        ensures
            values_view(r@) == seq![self.key()],
    {
        let key = match self {
            Query::UserById(i) => Value::Uuid(*i),
            Query::UserByUsername(s) => Value::Text(s.clone()),
            Query::WordById(i) => Value::Uuid(*i),
            Query::WordByText(s) => Value::Text(s.clone()),
            Query::CommentById(i) => Value::Uuid(*i),
            Query::CommentsByAuthor(i) => Value::Uuid(*i),
            Query::CommentsForWord(i) => Value::Uuid(*i),
            Query::VotesForWord(i) => Value::Uuid(*i),
        };
        let r = vec![key];
        assert(values_view(r@) =~= seq![self.key()]);
        r
    }
}

pub open spec fn values_view(vs: Seq<Value>) -> Seq<ValueModel> {
    vs.map_values(|v: Value| v@)
}

/// The rows of `table` whose column `name` holds `key`, in order.
pub open spec fn rows_where(table: Seq<RowModel>, name: Seq<char>, key: ValueModel) -> Seq<
    RowModel,
>
    decreases table.len(),
{
    if table.len() == 0 {
        Seq::empty()
    } else {
        let rest = rows_where(table.drop_last(), name, key);
        if column(table.last(), name) == Some(key) {
            rest.push(table.last())
        } else {
            rest
        }
    }
}

/// The first row that a statement returns, if any.
pub open spec fn first_row(rows: Seq<RowModel>) -> Option<RowModel> {
    if rows.len() == 0 {
        None
    } else {
        Some(rows[0])
    }
}

/// A point lookup: no row is `NotFound`; else the first row, mapped.
pub open spec fn point_lookup<M>(
    first: Option<RowModel>,
    map: spec_fn(RowModel) -> Result<M, ErrorModel>,
) -> Result<M, ErrorModel> {
    match first {
        None => Err(ErrorModel::NotFound),
        Some(row) => map(row),
    }
}

/// The comments that rows hold, in order, or the first row's error.
pub open spec fn comments_of_rows(rows: Seq<RowModel>) -> Result<
    Seq<CommentModel<Seq<u8>>>,
    ErrorModel,
>
    decreases rows.len(),
{
    if rows.len() == 0 {
        Ok(Seq::empty())
    } else {
        match comments_of_rows(rows.drop_last()) {
            Err(e) => Err(e),
            Ok(cs) => match comment_of_row(rows.last()) {
                Err(e) => Err(e),
                Ok(c) => Ok(cs.push(c)),
            },
        }
    }
}

/// The columns that inserting a word fills from `$1` to `$8`; the store
/// generates `id`, and `edited` starts empty.
pub open spec fn insert_word_columns() -> Seq<Seq<char>> {
    seq!["author"@, "word"@, "definition"@, "forked_from"@, "lang"@, "gloss"@, "frame"@, "created"@]
}

pub open spec fn opt_uuid_value(o: Option<Seq<u8>>) -> ValueModel {
    match o {
        Some(b) => ValueModel::Uuid(b),
        None => ValueModel::Null,
    }
}

/// The values bound when a word is inserted: its fields, with `created` as a
/// whole-second date/time. `edited` is not bound: a new word has not been edited.
pub open spec fn insert_word_values(w: WordModel<Seq<u8>>) -> Seq<ValueModel> {
    seq![
        opt_uuid_value(w.author),
        ValueModel::Text(w.word),
        ValueModel::Text(w.definition),
        opt_uuid_value(w.forked_from),
        ValueModel::Text(w.lang),
        ValueModel::TextList(w.gloss),
        ValueModel::TextList(w.frame),
        ValueModel::Timestamp(w.created, 0),
    ]
}

/// The row that an insert with `values` adds, under the generated `id`.
pub open spec fn inserted_row(values: Seq<ValueModel>, id: Seq<u8>) -> RowModel {
    seq![("id"@, ValueModel::Uuid(id))] + Seq::new(
        8,
        |i: int| (insert_word_columns()[i], values[i]),
    ) + seq![("edited"@, ValueModel::Null)]
}

/// Items joined by `", "`.
pub open spec fn comma_list(items: Seq<Seq<char>>) -> Seq<char>
    decreases items.len(),
{
    if items.len() <= 1 {
        if items.len() == 0 {
            Seq::empty()
        } else {
            items[0]
        }
    } else {
        items[0] + ", "@ + comma_list(items.drop_first())
    }
}

/// The placeholders of the bound values: the `i`-th column of
/// `insert_word_columns` takes the `i`-th value, bound as `$(i + 1)`.
pub open spec fn insert_word_marks() -> Seq<Seq<char>> {
    seq!["$1"@, "$2"@, "$3"@, "$4"@, "$5"@, "$6"@, "$7"@, "$8"@]
}

/// The text of the insert: the store generates `id`, the bound values fill
/// `insert_word_columns`, and `edited` is NULL.
pub open spec fn insert_word_sql_text() -> Seq<char> {
    "INSERT INTO words ("@ + comma_list(seq!["id"@] + insert_word_columns() + seq!["edited"@])
        + ") VALUES ("@ + comma_list(
        seq!["uuid_generate_v4()"@] + insert_word_marks() + seq!["NULL"@],
    ) + ")"@
}

/// The column that identifies the word a delete removes.
pub open spec fn delete_id_column() -> Seq<char> {
    "id"@
}

/// The column that a delete's text must match as well.
pub open spec fn delete_text_column() -> Seq<char> {
    "word"@
}

/// The text of the delete: a row goes only where both its id equals `$1`
/// and its text equals `$2`.
pub open spec fn delete_word_sql_text() -> Seq<char> {
    "DELETE FROM words WHERE "@ + delete_id_column() + " = $1 AND "@ + delete_text_column()
        + " = $2"@
}

/// Whether a delete of (`id`, `text`) removes `row`: both must match.
pub open spec fn delete_hits(row: RowModel, id: Seq<u8>, text: Seq<char>) -> bool {
    column(row, delete_id_column()) == Some(ValueModel::Uuid(id)) && column(
        row,
        delete_text_column(),
    ) == Some(ValueModel::Text(text))
}

/// The rows that a delete of (`id`, `text`) leaves, in order.
pub open spec fn rows_kept(table: Seq<RowModel>, id: Seq<u8>, text: Seq<char>) -> Seq<RowModel>
    decreases table.len(),
{
    if table.len() == 0 {
        Seq::empty()
    } else {
        let rest = rows_kept(table.drop_last(), id, text);
        if delete_hits(table.last(), id, text) {
            rest
        } else {
            rest.push(table.last())
        }
    }
}

/// The text of the insert statement.
pub fn insert_word_sql() -> (r: &'static str)
    ensures
        r@ == insert_word_sql_text(),
{
    proof {
        reveal_strlit("INSERT INTO words (");
        reveal_strlit(") VALUES (");
        reveal_strlit(")");
        reveal_strlit(", ");
        reveal_strlit("id");
        reveal_strlit("author");
        reveal_strlit("word");
        reveal_strlit("definition");
        reveal_strlit("forked_from");
        reveal_strlit("lang");
        reveal_strlit("gloss");
        reveal_strlit("frame");
        reveal_strlit("created");
        reveal_strlit("edited");
        reveal_strlit("uuid_generate_v4()");
        reveal_strlit("$1");
        reveal_strlit("$2");
        reveal_strlit("$3");
        reveal_strlit("$4");
        reveal_strlit("$5");
        reveal_strlit("$6");
        reveal_strlit("$7");
        reveal_strlit("$8");
        reveal_strlit("NULL");
        reveal_strlit("INSERT INTO words (id, author, word, definition, forked_from, lang, gloss, frame, created, edited) VALUES (uuid_generate_v4(), $1, $2, $3, $4, $5, $6, $7, $8, NULL)");
        reveal_with_fuel(comma_list, 11);
    }
    "INSERT INTO words (id, author, word, definition, forked_from, lang, gloss, frame, created, edited) VALUES (uuid_generate_v4(), $1, $2, $3, $4, $5, $6, $7, $8, NULL)"
}

/// The text of the delete statement; it matches on both id and text, so a
/// stale or mismatched pair removes nothing.
pub fn delete_word_sql() -> (r: &'static str)
    ensures
        r@ == delete_word_sql_text(),
{
    proof {
        reveal_strlit("DELETE FROM words WHERE ");
        reveal_strlit("id");
        reveal_strlit(" = $1 AND ");
        reveal_strlit("word");
        reveal_strlit(" = $2");
        reveal_strlit("DELETE FROM words WHERE id = $1 AND word = $2");
    }
    "DELETE FROM words WHERE id = $1 AND word = $2"
}

/// The values to bind when deleting the word `id` whose text is `text`.
pub fn delete_word_params(id: Ident, text: String) -> (r: Vec<Value>)
    ensures
        values_view(r@) == seq![ValueModel::Uuid(id@), ValueModel::Text(text@)],
{
    let r = vec![Value::Uuid(id), Value::Text(text)];
    assert(values_view(r@) =~= seq![ValueModel::Uuid(id@), ValueModel::Text(text@)]);
    r
}

fn opt_uuid(o: Option<Ident>) -> (r: Value)
    ensures
        r@ == opt_uuid_value(option_view(o)),
{
    match o {
        Some(i) => Value::Uuid(i),
        None => Value::Null,
    }
}

impl Word<Ident> {
    /// The values to bind, in order, when inserting this word.
    pub fn insert_params(self) -> (r: Vec<Value>)
        ensures
            values_view(r@) == insert_word_values(self@),
    {
        let ghost w = self@;
        let r = vec![
            opt_uuid(self.author),
            Value::Text(self.word),
            Value::Text(self.definition),
            opt_uuid(self.forked_from),
            Value::Text(self.lang),
            Value::TextList(self.gloss),
            Value::TextList(self.frame),
            Value::Timestamp(Timestamp { secs: self.created, nanos: 0 }),
        ];
        assert(values_view(r@) =~= insert_word_values(w));
        r
    }

    /// The result of a lookup by id or text from the first row returned.
    pub fn from_lookup(first: Option<&Row>) -> (r: Result<Self, DictError>)
        ensures
            result_view(r) == point_lookup(option_view(first), |row: RowModel| word_of_row(row)),
    {
        match first {
            None => Err(DictError::NotFound),
            Some(row) => Word::<Ident>::from_row(row),
        }
    }
}

impl User<Ident> {
    /// The result of a lookup by id or username from the first row returned.
    pub fn from_lookup(first: Option<&Row>) -> (r: Result<Self, DictError>)
        ensures
            result_view(r) == point_lookup(option_view(first), |row: RowModel| user_of_row(row)),
    {
        match first {
            None => Err(DictError::NotFound),
            Some(row) => User::<Ident>::from_row(row),
        }
    }
}

impl Comment<Ident> {
    /// The result of a lookup by id, or of an author's first comment, from
    /// the first row returned.
    pub fn from_lookup(first: Option<&Row>) -> (r: Result<Self, DictError>)
        ensures
            result_view(r) == point_lookup(option_view(first), |row: RowModel| comment_of_row(row)),
    {
        match first {
            None => Err(DictError::NotFound),
            Some(row) => Comment::<Ident>::from_row(row),
        }
    }

    /// The comments that the rows of a scan hold, in order; an empty scan is
    /// an empty list.
    pub fn from_rows(rows: &Vec<Row>) -> (r: Result<Vec<Self>, DictError>)
        ensures
            r is Ok <==> comments_of_rows(rows@.map_values(|x: Row| x@)) is Ok,
            r matches Ok(cs) ==> comments_of_rows(rows@.map_values(|x: Row| x@)) == Ok::<
                _,
                ErrorModel,
            >(cs@.map_values(|c: Comment<Ident>| c@)),
            r matches Err(e) ==> comments_of_rows(rows@.map_values(|x: Row| x@)) == Err::<
                Seq<CommentModel<Seq<u8>>>,
                _,
            >(e@),
    {
        let ghost all = rows@.map_values(|x: Row| x@);
        let mut out: Vec<Self> = Vec::new();
        let mut i: usize = 0;
        assert(all.take(0) =~= Seq::<RowModel>::empty());
        assert(out@.map_values(|c: Comment<Ident>| c@) =~= Seq::<CommentModel<Seq<u8>>>::empty());
        while i < rows.len()
            invariant
                i <= rows@.len(),
                all == rows@.map_values(|x: Row| x@),
                comments_of_rows(all.take(i as int)) == Ok::<_, ErrorModel>(
                    out@.map_values(|c: Comment<Ident>| c@),
                ),
            decreases rows@.len() - i,
        {
            assert(all.take(i + 1).drop_last() =~= all.take(i as int));
            assert(all.take(i + 1).last() == rows@[i as int]@);
            match Comment::<Ident>::from_row(&rows[i]) {
                Ok(c) => {
                    let ghost before = out@;
                    out.push(c);
                    assert(out@.map_values(|c: Comment<Ident>| c@) =~= before.map_values(
                        |c: Comment<Ident>| c@,
                    ).push(c@));
                },
                Err(e) => {
                    proof {
                        lemma_error_persists(all, i as int + 1);
                    }
                    return Err(e);
                },
            }
            i = i + 1;
        }
        assert(all.take(i as int) =~= all);
        Ok(out)
    }
}

/// Once a prefix of the rows fails to map, so do all the rows.
proof fn lemma_error_persists(rows: Seq<RowModel>, k: int)
    requires
        0 <= k <= rows.len(),
        comments_of_rows(rows.take(k)) is Err,
    ensures
        comments_of_rows(rows) == comments_of_rows(rows.take(k)),
    decreases rows.len() - k,
{
    if k < rows.len() {
        assert(rows.take(k + 1).drop_last() =~= rows.take(k));
        lemma_error_persists(rows, k + 1);
    } else {
        assert(rows.take(k) =~= rows);
    }
}

/// A scan on a key that no row holds returns nothing.
pub proof fn lemma_rows_where_none(table: Seq<RowModel>, name: Seq<char>, key: ValueModel)
    requires
        forall|i: int| 0 <= i < table.len() ==> column(#[trigger] table[i], name) != Some(key),
    ensures
        rows_where(table, name, key) == Seq::<RowModel>::empty(),
    decreases table.len(),
{
    if table.len() > 0 {
        lemma_rows_where_none(table.drop_last(), name, key);
    }
}

/// Looking up a freshly inserted word by the id that the store generated for
/// it gives back every inserted field, `created` exactly, and no `edited`.
/// The words table after the insert is its rows before plus the row that
/// `insert_word_sql_text()` with `insert_word_values(w@)` adds.
pub proof fn lemma_inserted_word_found(words: Seq<RowModel>, w: Word<Ident>, id: Ident)
    requires
        forall|i: int|
            0 <= i < words.len() ==> column(#[trigger] words[i], "id"@) != Some(
                ValueModel::Uuid(id@),
            ),
    ensures
        point_lookup(
            first_row(
                Query::WordById(id).answer(words.push(inserted_row(insert_word_values(w@), id@))),
            ),
            |row: RowModel| word_of_row(row),
        ) == Ok::<_, ErrorModel>(
            WordModel {
                id: id@,
                author: w@.author,
                word: w@.word,
                definition: w@.definition,
                forked_from: w@.forked_from,
                lang: w@.lang,
                gloss: w@.gloss,
                frame: w@.frame,
                created: w@.created,
                edited: None,
            },
        ),
{
    let row = inserted_row(insert_word_values(w@), id@);
    let key = ValueModel::Uuid(id@);
    lemma_rows_where_none(words, "id"@, key);
    let t = words.push(row);
    assert(t.drop_last() =~= words);
    assert(column(row, "id"@) == Some(key));
    assert(rows_where(t, "id"@, key) =~= seq![row]);
    lemma_inserted_row_columns(w, id);
}

proof fn lemma_inserted_row_columns(w: Word<Ident>, id: Ident)
    ensures
        ({
            let row = inserted_row(insert_word_values(w@), id@);
            &&& column(row, "id"@) == Some(ValueModel::Uuid(id@))
            &&& column(row, "author"@) == Some(opt_uuid_value(w@.author))
            &&& column(row, "word"@) == Some(ValueModel::Text(w@.word))
            &&& column(row, "definition"@) == Some(ValueModel::Text(w@.definition))
            &&& column(row, "forked_from"@) == Some(opt_uuid_value(w@.forked_from))
            &&& column(row, "lang"@) == Some(ValueModel::Text(w@.lang))
            &&& column(row, "gloss"@) == Some(ValueModel::TextList(w@.gloss))
            &&& column(row, "frame"@) == Some(ValueModel::TextList(w@.frame))
            &&& column(row, "created"@) == Some(ValueModel::Timestamp(w@.created, 0))
            &&& column(row, "edited"@) == Some(ValueModel::Null)
        }),
{
    reveal_strlit("id");
    reveal_strlit("author");
    reveal_strlit("word");
    reveal_strlit("definition");
    reveal_strlit("forked_from");
    reveal_strlit("lang");
    reveal_strlit("gloss");
    reveal_strlit("frame");
    reveal_strlit("created");
    reveal_strlit("edited");
    let row = inserted_row(insert_word_values(w@), id@);
    assert(row.len() == 10);
    assert forall|j: int, k: int| 0 <= j < k < 10 implies row[j].0 != row[k].0 by {
        assert(row[j].0.len() != row[k].0.len() || row[j].0[0] != row[k].0[0]);
    }
    assert forall|k: int| 0 <= k < 10 implies column(row, #[trigger] row[k].0) == Some(row[k].1) by {
        lemma_column_at(row, k);
    }
    assert(row[0].0 == "id"@);
    assert(row[1].0 == "author"@);
    assert(row[2].0 == "word"@);
    assert(row[3].0 == "definition"@);
    assert(row[4].0 == "forked_from"@);
    assert(row[5].0 == "lang"@);
    assert(row[6].0 == "gloss"@);
    assert(row[7].0 == "frame"@);
    assert(row[8].0 == "created"@);
    assert(row[9].0 == "edited"@);
}

/// In a row whose earlier columns have other names, a lookup by the name of
/// column `k` finds column `k`.
proof fn lemma_column_at(row: RowModel, k: int)
    requires
        0 <= k < row.len(),
        forall|j: int| 0 <= j < k ==> row[j].0 != row[k].0,
    ensures
        column(row, row[k].0) == Some(row[k].1),
    decreases k,
{
    if k > 0 {
        let rest = row.drop_first();
        assert(rest[k - 1] == row[k]);
        lemma_column_at(rest, k - 1);
    }
}

/// A lookup of a user by an id or a username that no row holds is
/// `NotFound`, not a default user.
pub proof fn lemma_absent_user_not_found(users: Seq<RowModel>, q: Query)
    requires
        q is UserById || q is UserByUsername,
        forall|i: int| 0 <= i < users.len() ==> column(#[trigger] users[i], q.key_column()) != Some(q.key()),
    ensures
        point_lookup(first_row(q.answer(users)), |row: RowModel| user_of_row(row)) == Err::<
            UserModel<Seq<u8>>,
            _,
        >(ErrorModel::NotFound),
{
    lemma_rows_where_none(users, q.key_column(), q.key());
}

/// A delete whose text does not match the stored word for `id` removes no row.
pub proof fn lemma_mismatched_delete_keeps_all(words: Seq<RowModel>, id: Ident, text: Seq<char>)
    requires
        forall|i: int|
            0 <= i < words.len() && column(#[trigger] words[i], "id"@) == Some(
                ValueModel::Uuid(id@),
            ) ==> column(words[i], "word"@) != Some(ValueModel::Text(text)),
    ensures
        rows_kept(words, id@, text) == words,
    decreases words.len(),
{
    if words.len() > 0 {
        lemma_mismatched_delete_keeps_all(words.drop_last(), id, text);
        assert(words.drop_last().push(words.last()) =~= words);
    }
}

/// The rows that a delete keeps are none that it hits.
proof fn lemma_kept_rows_missed(words: Seq<RowModel>, id: Seq<u8>, text: Seq<char>)
    ensures
        forall|k: int|
            0 <= k < rows_kept(words, id, text).len() ==> !delete_hits(
                #[trigger] rows_kept(words, id, text)[k],
                id,
                text,
            ),
    decreases words.len(),
{
    if words.len() > 0 {
        lemma_kept_rows_missed(words.drop_last(), id, text);
        let rest = rows_kept(words.drop_last(), id, text);
        let kept = rows_kept(words, id, text);
        assert forall|k: int| 0 <= k < kept.len() implies !delete_hits(
            #[trigger] kept[k],
            id,
            text,
        ) by {
            if k < rest.len() {
                assert(kept[k] == rest[k]);
            }
        }
    }
}

/// After a delete of (`id`, `text`) where the stored word for `id` has that
/// text, a lookup by `id` is `NotFound`.
pub proof fn lemma_deleted_word_not_found(words: Seq<RowModel>, id: Ident, text: Seq<char>)
    requires
        forall|i: int|
            0 <= i < words.len() && column(#[trigger] words[i], "id"@) == Some(
                ValueModel::Uuid(id@),
            ) ==> column(words[i], "word"@) == Some(ValueModel::Text(text)),
    ensures
        point_lookup(
            first_row(Query::WordById(id).answer(rows_kept(words, id@, text))),
            |row: RowModel| word_of_row(row),
        ) == Err::<WordModel<Seq<u8>>, _>(ErrorModel::NotFound),
{
    let kept = rows_kept(words, id@, text);
    lemma_kept_rows_missed(words, id@, text);
    assert forall|k: int| 0 <= k < kept.len() implies column(#[trigger] kept[k], "id"@) != Some(
        ValueModel::Uuid(id@),
    ) by {
        lemma_kept_row_from(words, id@, text, k);
    }
    lemma_rows_where_none(kept, "id"@, ValueModel::Uuid(id@));
}

/// Every row that a delete keeps is a row of the table.
proof fn lemma_kept_row_from(words: Seq<RowModel>, id: Seq<u8>, text: Seq<char>, k: int)
    requires
        0 <= k < rows_kept(words, id, text).len(),
    ensures
        words.contains(rows_kept(words, id, text)[k]),
    decreases words.len(),
{
    let rest = rows_kept(words.drop_last(), id, text);
    if k < rest.len() {
        lemma_kept_row_from(words.drop_last(), id, text, k);
        let j = choose|j: int| 0 <= j < words.drop_last().len() && words.drop_last()[j] == rest[k];
        assert(words[j] == rest[k]);
    } else {
        assert(words[words.len() - 1] == words.last());
    }
}

/// Listing the comments of a word that has none gives an empty list, not an
/// error.
pub proof fn lemma_no_comments_empty(comments: Seq<RowModel>, word: Ident)
    requires
        forall|i: int|
            0 <= i < comments.len() ==> column(#[trigger] comments[i], "parent_word"@) != Some(
                ValueModel::Uuid(word@),
            ),
    ensures
        comments_of_rows(Query::CommentsForWord(word).answer(comments)) == Ok::<_, ErrorModel>(
            Seq::<CommentModel<Seq<u8>>>::empty(),
        ),
{
    lemma_rows_where_none(comments, "parent_word"@, ValueModel::Uuid(word@));
}

} // verus!
