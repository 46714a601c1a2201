//! The records of the user resource.

use vstd::prelude::*;

verus! {

/// A calendar date and time without a zone, as `chrono` holds it. The library
/// only carries such values from one record to another.
#[verifier::external_type_specification]
#[verifier::external_body]
pub struct ExNaiveDateTime(chrono::NaiveDateTime);

/// A stored user.
#[derive(Debug, PartialEq, Eq)]
pub struct User {
    pub id: String,
    pub first_name: String,
    pub last_name: String,
    pub email: String,
    pub password: String,
    pub created_by: String,
    pub updated_by: String,
    pub created_at: chrono::NaiveDateTime,
    pub updated_at: chrono::NaiveDateTime,
}

/// What a `User` is to the contracts: its texts as sequences of characters.
pub struct UserView {
    pub id: Seq<char>,
    pub first_name: Seq<char>,
    pub last_name: Seq<char>,
    pub email: Seq<char>,
    pub password: Seq<char>,
    pub created_by: Seq<char>,
    pub updated_by: Seq<char>,
    pub created_at: chrono::NaiveDateTime,
    pub updated_at: chrono::NaiveDateTime,
}

impl View for User {
    type V = UserView;

    open spec fn view(&self) -> UserView {
        UserView {
            id: self.id@,
            first_name: self.first_name@,
            last_name: self.last_name@,
            email: self.email@,
            password: self.password@,
            created_by: self.created_by@,
            updated_by: self.updated_by@,
            created_at: self.created_at,
            updated_at: self.updated_at,
        }
    }
}

impl Clone for User {
    fn clone(&self) -> (copy: User)
        ensures
            copy@ == self@,
    {
        User {
            id: self.id.clone(),
            first_name: self.first_name.clone(),
            last_name: self.last_name.clone(),
            email: self.email.clone(),
            password: self.password.clone(),
            created_by: self.created_by.clone(),
            updated_by: self.updated_by.clone(),
            created_at: self.created_at,
            updated_at: self.updated_at,
        }
    }
}

/// The fields that an update overwrites. The password is not among them.
#[derive(Debug, PartialEq, Eq)]
pub struct UserUpdate {
    pub first_name: String,
    pub last_name: String,
    pub email: String,
    pub updated_by: String,
    pub updated_at: chrono::NaiveDateTime,
}

/// What a `UserUpdate` is to the contracts.
pub struct UserUpdateView {
    pub first_name: Seq<char>,
    pub last_name: Seq<char>,
    pub email: Seq<char>,
    pub updated_by: Seq<char>,
    pub updated_at: chrono::NaiveDateTime,
}

impl View for UserUpdate {
    type V = UserUpdateView;

    open spec fn view(&self) -> UserUpdateView {
        UserUpdateView {
            first_name: self.first_name@,
            last_name: self.last_name@,
            email: self.email@,
            updated_by: self.updated_by@,
            updated_at: self.updated_at,
        }
    }
}

impl Clone for UserUpdate {
    fn clone(&self) -> (copy: UserUpdate)
        ensures
            copy@ == self@,
    {
        UserUpdate {
            first_name: self.first_name.clone(),
            last_name: self.last_name.clone(),
            email: self.email.clone(),
            updated_by: self.updated_by.clone(),
            updated_at: self.updated_at,
        }
    }
}

/// The claims of a token: whom it was issued to, and the second, counted
/// from the Unix epoch, after which it is no longer accepted.
#[derive(Debug, PartialEq, Eq)]
pub struct TokenPayload {
    pub email: String,
    pub exp: i64,
}

/// The views of the records of a vector, in its order.
pub open spec fn views(users: Seq<User>) -> Seq<UserView> {
    Seq::new(users.len(), |i: int| users[i]@)
}

} // verus!
