use vstd::prelude::*;

verus! {

/// What can go wrong between a caller and the relational store.
#[derive(Debug, Clone, PartialEq, Eq)]
pub enum DictError {
    /// Text that is not a valid encoding of an identifier.
    MalformedIdentifier,
    /// A row lacks the named column, or holds it with another type.
    RowShapeMismatch(String),
    /// A point lookup matched no row.
    NotFound,
    /// The store refused a write that breaks one of its constraints (a
    /// unique key, a foreign key, a required column); its message.
    Constraint(String),
    /// The store could not be reached or failed otherwise; its message.
    Store(String),
}

/// The mathematical form of an error.
pub enum ErrorModel {
    MalformedIdentifier,
    RowShapeMismatch(Seq<char>),
    NotFound,
    Constraint(Seq<char>),
    Store(Seq<char>),
}

impl View for DictError {
    type V = ErrorModel;

    open spec fn view(&self) -> ErrorModel {
        match self {
            DictError::MalformedIdentifier => ErrorModel::MalformedIdentifier,
            DictError::RowShapeMismatch(c) => ErrorModel::RowShapeMismatch(c@),
            DictError::NotFound => ErrorModel::NotFound,
            DictError::Constraint(m) => ErrorModel::Constraint(m@),
            DictError::Store(m) => ErrorModel::Store(m@),
        }
    }
}

/// A result with both sides seen through their views.
pub open spec fn result_view<T: View>(r: Result<T, DictError>) -> Result<T::V, ErrorModel> {
    match r {
        Ok(t) => Ok(t@),
        Err(e) => Err(e@),
    }
}

/// An optional value seen through its view.
pub open spec fn option_view<T: View>(o: Option<T>) -> Option<T::V> {
    match o {
        Some(t) => Some(t@),
        None => None,
    }
}

} // verus!
