use vstd::prelude::*;

use crate::error::{result_view, DictError, ErrorModel};
use crate::ident::{id_text, id_text_bytes, is_id_text, lemma_text_round_trip, nil_bytes, Ident};
use crate::row::{ident_column, text_column, Row, RowModel};

verus! {

/// A registered user, generic over the identifier's form.
#[derive(Clone, Debug, PartialEq, Eq)]
pub struct User<T> {
    pub id: T,
    pub username: String,
}

pub struct UserModel<I> {
    pub id: I,
    pub username: Seq<char>,
}

impl<T: View> View for User<T> {
    type V = UserModel<T::V>;

    open spec fn view(&self) -> UserModel<T::V> {
        UserModel { id: self.id@, username: self.username@ }
    }
}

/// The text form of a user.
pub open spec fn project_user(u: UserModel<Seq<u8>>) -> UserModel<Seq<char>> {
    UserModel { id: id_text(u.id), username: u.username }
}

/// Whether every identifier of a text-form user parses.
pub open spec fn user_text_valid(u: UserModel<Seq<char>>) -> bool {
    is_id_text(u.id)
}

/// The canonical form of a text-form user whose identifiers parse.
pub open spec fn lift_user(u: UserModel<Seq<char>>) -> UserModel<Seq<u8>> {
    UserModel { id: id_text_bytes(u.id), username: u.username }
}

/// The user that a `users` row holds, or the first column that does not fit.
pub open spec fn user_of_row(row: RowModel) -> Result<UserModel<Seq<u8>>, ErrorModel> {
    let id = ident_column(row, "id"@);
    let username = text_column(row, "username"@);
    if id is Err {
        Err(id->Err_0)
    } else if username is Err {
        Err(username->Err_0)
    } else {
        Ok(UserModel { id: id->Ok_0, username: username->Ok_0 })
    }
}

impl<T> User<T> {
    fn blank(empty: T) -> (r: Self)
        ensures
            r.id == empty,
            r.username@ == Seq::<char>::empty(),
    {
        User { id: empty, username: String::new() }
    }
}

impl User<String> {
    /// An empty template: empty id text and username.
    pub fn new() -> (r: Self)
        ensures
            r@.id == Seq::<char>::empty(),
            r@.username == Seq::<char>::empty(),
    {
        Self::blank(String::new())
    }

    /// Lifts to canonical form, parsing the identifier.
    pub fn uuid(self) -> (r: Result<User<Ident>, DictError>)
        ensures
            r is Ok <==> user_text_valid(self@),
            r matches Ok(u) ==> u@ == lift_user(self@),
            r matches Err(e) ==> e == DictError::MalformedIdentifier,
    {
        let id = Ident::parse(self.id.as_str())?;
        Ok(User { id, username: self.username })
    }

    /// The text form of the user that a row holds.
    pub fn from_row(row: &Row) -> (r: Result<Self, DictError>)
        ensures
            r is Ok <==> user_of_row(row@) is Ok,
            r matches Ok(u) ==> u@ == project_user(user_of_row(row@)->Ok_0),
            r matches Err(e) ==> user_of_row(row@) == Err::<UserModel<Seq<u8>>, _>(e@),
    {
        match User::<Ident>::from_row(row) {
            Ok(u) => Ok(u.string()),
            Err(e) => Err(e),
        }
    }
}

impl User<Ident> {
    /// An empty template: the nil identifier and an empty username.
    pub fn new() -> (r: Self)
        ensures
            r@.id == nil_bytes(),
            r@.username == Seq::<char>::empty(),
    {
        Self::blank(Ident::nil())
    }

    /// Projects to text form.
    pub fn string(self) -> (r: User<String>)
        ensures
            r@ == project_user(self@),
    {
        User { id: self.id.to_text(), username: self.username }
    }

    /// Maps a `users` row, reading its columns by name.
    pub fn from_row(row: &Row) -> (r: Result<Self, DictError>)
        ensures
            result_view(r) == user_of_row(row@),
    {
        let id = match row.ident("id") {
            Ok(i) => i,
            Err(e) => return Err(e),
        };
        let username = match row.text("username") {
            Ok(s) => s,
            Err(e) => return Err(e),
        };
        Ok(User { id, username })
    }
}

/// Lifting the text form of a user gives the user back.
pub proof fn lemma_user_lift_projection(e: User<Ident>)
    ensures
        user_text_valid(project_user(e@)),
        lift_user(project_user(e@)) == e@,
{
    lemma_text_round_trip(e.id);
}

} // verus!
