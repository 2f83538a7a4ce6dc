use vstd::prelude::*;

use crate::error::{option_view, result_view, DictError, ErrorModel};
use crate::ident::Ident;

verus! {

/// A store date/time: whole seconds since the epoch and a sub-second part in
/// nanoseconds (a leap second holds up to two seconds' worth).
#[derive(Clone, Copy, Debug, PartialEq, Eq)]
pub struct Timestamp {
    pub secs: i64,
    pub nanos: u32,
}

/// One column's value as the store hands it over.
#[derive(Clone, Debug, PartialEq, Eq)]
pub enum Value {
    Null,
    Uuid(Ident),
    Text(String),
    TextList(Vec<String>),
    Bool(bool),
    Timestamp(Timestamp),
}

pub enum ValueModel {
    Null,
    Uuid(Seq<u8>),
    Text(Seq<char>),
    TextList(Seq<Seq<char>>),
    Bool(bool),
    Timestamp(i64, u32),
}

impl View for Value {
    type V = ValueModel;

    open spec fn view(&self) -> ValueModel {
        match self {
            Value::Null => ValueModel::Null,
            Value::Uuid(i) => ValueModel::Uuid(i@),
            Value::Text(s) => ValueModel::Text(s@),
            Value::TextList(v) => ValueModel::TextList(v.deep_view()),
            Value::Bool(b) => ValueModel::Bool(*b),
            Value::Timestamp(t) => ValueModel::Timestamp(t.secs, t.nanos),
        }
    }
}

/// A row as a sequence of named columns.
pub type RowModel = Seq<(Seq<char>, ValueModel)>;

/// One persisted row: its columns by name, in the store's order.
#[derive(Clone, Debug, PartialEq, Eq)]
pub struct Row {
    pub columns: Vec<(String, Value)>,
}

impl View for Row {
    type V = RowModel;

    open spec fn view(&self) -> RowModel {
        Seq::new(self.columns@.len(), |i: int| (self.columns@[i].0@, self.columns@[i].1@))
    }
}

/// The value of the first column named `name`, if any.
pub open spec fn column(row: RowModel, name: Seq<char>) -> Option<ValueModel>
    decreases row.len(),
{
    if row.len() == 0 {
        None
    } else if row[0].0 == name {
        Some(row[0].1)
    } else {
        column(row.drop_first(), name)
    }
}

pub open spec fn mismatch<T>(name: Seq<char>) -> Result<T, ErrorModel> {
    Err(ErrorModel::RowShapeMismatch(name))
}

pub open spec fn ident_column(row: RowModel, name: Seq<char>) -> Result<Seq<u8>, ErrorModel> {
    match column(row, name) {
        Some(ValueModel::Uuid(b)) => Ok(b),
        _ => mismatch(name),
    }
}

pub open spec fn opt_ident_column(row: RowModel, name: Seq<char>) -> Result<
    Option<Seq<u8>>,
    ErrorModel,
> {
    match column(row, name) {
        Some(ValueModel::Uuid(b)) => Ok(Some(b)),
        Some(ValueModel::Null) => Ok(None),
        _ => mismatch(name),
    }
}

pub open spec fn text_column(row: RowModel, name: Seq<char>) -> Result<Seq<char>, ErrorModel> {
    match column(row, name) {
        Some(ValueModel::Text(s)) => Ok(s),
        _ => mismatch(name),
    }
}

pub open spec fn text_list_column(row: RowModel, name: Seq<char>) -> Result<
    Seq<Seq<char>>,
    ErrorModel,
> {
    match column(row, name) {
        Some(ValueModel::TextList(l)) => Ok(l),
        _ => mismatch(name),
    }
}

pub open spec fn bool_column(row: RowModel, name: Seq<char>) -> Result<bool, ErrorModel> {
    match column(row, name) {
        Some(ValueModel::Bool(b)) => Ok(b),
        _ => mismatch(name),
    }
}

/// Seconds since the epoch, rounded to the nearest second (halves up).
pub open spec fn rounded_secs(secs: i64, nanos: u32) -> int {
    secs + (nanos + 500_000_000) / 1_000_000_000
}

/// A date/time column as rounded epoch seconds; one whose rounding leaves
/// the range of `i64` does not fit the record's shape.
pub open spec fn secs_column(row: RowModel, name: Seq<char>) -> Result<i64, ErrorModel> {
    match column(row, name) {
        Some(ValueModel::Timestamp(s, n)) => if rounded_secs(s, n) <= i64::MAX {
            Ok(rounded_secs(s, n) as i64)
        } else {
            mismatch(name)
        },
        _ => mismatch(name),
    }
}

/// An optional date/time column as rounded epoch seconds.
pub open spec fn opt_secs_column(row: RowModel, name: Seq<char>) -> Result<
    Option<i64>,
    ErrorModel,
> {
    match column(row, name) {
        Some(ValueModel::Null) => Ok(None),
        _ => match secs_column(row, name) {
            Ok(s) => Ok(Some(s)),
            Err(e) => Err(e),
        },
    }
}

/// Whether two texts are equal, character by character.
pub fn same_text(a: &str, b: &str) -> (r: bool)
    ensures
        r == (a@ == b@),
{
    let n = a.unicode_len();
    if n != b.unicode_len() {
        return false;
    }
    let mut i: usize = 0;
    while i < n
        invariant
            n == a@.len() == b@.len(),
            i <= n,
            forall|k: int| 0 <= k < i ==> a@[k] == b@[k],
        decreases n - i,
    {
        if a.get_char(i) != b.get_char(i) {
            return false;
        }
        i = i + 1;
    }
    assert(a@ =~= b@);
    true
}

impl Row {
    pub fn new() -> (r: Row)
        ensures
            r@ == Seq::<(Seq<char>, ValueModel)>::empty(),
    {
        let r = Row { columns: Vec::new() };
        assert(r@ =~= Seq::<(Seq<char>, ValueModel)>::empty());
        r
    }

    /// Appends a column.
    pub fn push(&mut self, name: &str, value: Value)
        ensures
            final(self)@ == old(self)@.push((name@, value@)),
    {
        let ghost before = self@;
        self.columns.push((name.to_owned(), value));
        assert(self@ =~= before.push((name@, value@)));
    }

    /// The value of the first column named `name`.
    pub fn get(&self, name: &str) -> (r: Option<&Value>)
        ensures
            option_view(r) == column(self@, name@),
    {
        let mut i: usize = 0;
        assert(self@.skip(0) =~= self@);
        while i < self.columns.len()
            invariant
                i <= self.columns@.len(),
                column(self@, name@) == column(self@.skip(i as int), name@),
            decreases self.columns@.len() - i,
        {
            let ghost rest = self@.skip(i as int);
            assert(rest.drop_first() =~= self@.skip(i + 1));
            if same_text(self.columns[i].0.as_str(), name) {
                return Some(&self.columns[i].1);
            }
            i = i + 1;
        }
        None
    }

    pub fn ident(&self, name: &str) -> (r: Result<Ident, DictError>)
        ensures
            result_view(r) == ident_column(self@, name@),
    {
        match self.get(name) {
            Some(Value::Uuid(i)) => Ok(*i),
            _ => Err(DictError::RowShapeMismatch(name.to_owned())),
        }
    }

    pub fn opt_ident(&self, name: &str) -> (r: Result<Option<Ident>, DictError>)
        ensures
            r is Ok <==> opt_ident_column(self@, name@) is Ok,
            r matches Ok(o) ==> opt_ident_column(self@, name@) == Ok::<_, ErrorModel>(option_view(o)),
            r matches Err(e) ==> opt_ident_column(self@, name@) == Err::<Option<Seq<u8>>, _>(e@),
    {
        match self.get(name) {
            Some(Value::Uuid(i)) => Ok(Some(*i)),
            Some(Value::Null) => Ok(None),
            _ => Err(DictError::RowShapeMismatch(name.to_owned())),
        }
    }

    pub fn text(&self, name: &str) -> (r: Result<String, DictError>)
        ensures
            result_view(r) == text_column(self@, name@),
    {
        match self.get(name) {
            Some(Value::Text(s)) => Ok(s.clone()),
            _ => Err(DictError::RowShapeMismatch(name.to_owned())),
        }
    }

    pub fn text_list(&self, name: &str) -> (r: Result<Vec<String>, DictError>)
        ensures
            r is Ok <==> text_list_column(self@, name@) is Ok,
            r matches Ok(l) ==> text_list_column(self@, name@) == Ok::<_, ErrorModel>(l.deep_view()),
            r matches Err(e) ==> text_list_column(self@, name@) == Err::<Seq<Seq<char>>, _>(e@),
    {
        match self.get(name) {
            Some(Value::TextList(l)) => Ok(l.clone()),
            _ => Err(DictError::RowShapeMismatch(name.to_owned())),
        }
    }

    pub fn boolean(&self, name: &str) -> (r: Result<bool, DictError>)
        ensures
            result_view(r) == bool_column(self@, name@),
    {
        match self.get(name) {
            Some(Value::Bool(b)) => Ok(*b),
            _ => Err(DictError::RowShapeMismatch(name.to_owned())),
        }
    }

    /// A date/time column as epoch seconds, rounded to the nearest second.
    pub fn secs(&self, name: &str) -> (r: Result<i64, DictError>)
        ensures
            result_view(r) == secs_column(self@, name@),
    {
        match self.get(name) {
            Some(Value::Timestamp(t)) => {
                let carry: i64 = ((t.nanos as u64 + 500_000_000) / 1_000_000_000) as i64;
                match t.secs.checked_add(carry) {
                    Some(s) => Ok(s),
                    None => Err(DictError::RowShapeMismatch(name.to_owned())),
                }
            },
            _ => Err(DictError::RowShapeMismatch(name.to_owned())),
        }
    }

    /// An optional date/time column as epoch seconds, rounded to the nearest second.
    pub fn opt_secs(&self, name: &str) -> (r: Result<Option<i64>, DictError>)
        ensures
            r is Ok <==> opt_secs_column(self@, name@) is Ok,
            r matches Ok(o) ==> opt_secs_column(self@, name@) == Ok::<_, ErrorModel>(o),
            r matches Err(e) ==> opt_secs_column(self@, name@) == Err::<Option<i64>, _>(e@),
    {
        if let Some(Value::Null) = self.get(name) {
            return Ok(None);
        }
        match self.secs(name) {
            Ok(s) => Ok(Some(s)),
            Err(e) => Err(e),
        }
    }
}

} // verus!
