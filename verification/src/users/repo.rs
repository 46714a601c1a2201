//! The repository of users: what it stores, what each operation does to it,
//! and what holds of any sequence of operations.
//!
//! A repository is described by its rows, the stored users in the order in
//! which a listing walks them. No two rows share an id, and no two share an
//! email.

use vstd::prelude::*;

use crate::common::{is_store_fault, ErrorKind, QueryParams, RepoResult, ResultPaging};
use crate::users::entity::{views, User, UserUpdate, UserUpdateView, UserView};

verus! {

/// Row `k` carries this id.
pub open spec fn id_at(rows: Seq<UserView>, id: Seq<char>, k: int) -> bool {
    0 <= k < rows.len() && rows[k].id == id
}

/// Row `k` carries this email.
pub open spec fn email_at(rows: Seq<UserView>, email: Seq<char>, k: int) -> bool {
    0 <= k < rows.len() && rows[k].email == email
}

/// Some row carries this id.
pub open spec fn has_id(rows: Seq<UserView>, id: Seq<char>) -> bool {
    exists|k: int| id_at(rows, id, k)
}

/// Some row carries this email.
pub open spec fn has_email(rows: Seq<UserView>, email: Seq<char>) -> bool {
    exists|k: int| email_at(rows, email, k)
}

/// No two rows share an id, and no two share an email.
pub open spec fn unique_keys(rows: Seq<UserView>) -> bool {
    forall|i: int, j: int|
        0 <= i < rows.len() && 0 <= j < rows.len() && i != j ==> rows[i].id != rows[j].id
            && rows[i].email != rows[j].email
}

/// The row with this id, if there is one.
pub open spec fn by_id(rows: Seq<UserView>, id: Seq<char>) -> Option<UserView> {
    if has_id(rows, id) {
        Some(rows[choose|k: int| id_at(rows, id, k)])
    } else {
        None
    }
}

/// The row with this email, if there is one.
pub open spec fn by_email(rows: Seq<UserView>, email: Seq<char>) -> Option<UserView> {
    if has_email(rows, email) {
        Some(rows[choose|k: int| email_at(rows, email, k)])
    } else {
        None
    }
}

/// The rows that a listing returns: it skips `offset` rows and then takes up
/// to `limit`.
pub open spec fn page(rows: Seq<UserView>, limit: int, offset: int) -> Seq<UserView>
    recommends
        0 <= limit,
        0 <= offset,
{
    let from: int = if offset < rows.len() {
        offset
    } else {
        rows.len() as int
    };
    let to: int = if offset + limit < rows.len() {
        offset + limit
    } else {
        rows.len() as int
    };
    rows.subrange(from, to)
}

/// A user may be stored: neither its id nor its email is taken.
pub open spec fn insertable(rows: Seq<UserView>, user: UserView) -> bool {
    !has_id(rows, user.id) && !has_email(rows, user.email)
}

/// A user after an update: the five fields of the update replace its own,
/// the others stay.
pub open spec fn patched(user: UserView, update: UserUpdateView) -> UserView {
    UserView {
        first_name: update.first_name,
        last_name: update.last_name,
        email: update.email,
        updated_by: update.updated_by,
        updated_at: update.updated_at,
        ..user
    }
}

/// No row but the one with this id carries this email.
pub open spec fn email_free_for(rows: Seq<UserView>, id: Seq<char>, email: Seq<char>) -> bool {
    forall|k: int| email_at(rows, email, k) ==> rows[k].id == id
}

/// The rows after the one with this id has been updated.
pub open spec fn with_patch(rows: Seq<UserView>, id: Seq<char>, update: UserUpdateView) -> Seq<
    UserView,
> {
    Seq::new(
        rows.len(),
        |k: int|
            if rows[k].id == id {
                patched(rows[k], update)
            } else {
                rows[k]
            },
    )
}

/// The rows after the one with this id, if any, has been removed.
pub open spec fn without_id(rows: Seq<UserView>, id: Seq<char>) -> Seq<UserView> {
    if has_id(rows, id) {
        rows.remove(choose|k: int| id_at(rows, id, k))
    } else {
        rows
    }
}

/// Storage and retrieval of users.
///
/// The contract of each operation says what it returns and what it does to
/// the rows. A store may fail at any time for reasons of its own; such a
/// failure is reported as a store fault. Every operation is atomic: one
/// that fails, for whatever reason, leaves the rows as they were.
pub trait UserRepo {
    /// The stored users, in the order in which a listing walks them.
    spec fn rows(&self) -> Seq<UserView>;

    /// The repository is in order.
    spec fn inv(&self) -> bool;

    /// A repository in order holds no id and no email twice, and no more
    /// rows than a listing can count.
    proof fn inv_bounds_rows(&self)
        requires
            self.inv(),
        ensures
            unique_keys(self.rows()),
            self.rows().len() <= i64::MAX,
    ;

    /// Lists one page of users, with the number of all users: it skips
    /// `offset` users and returns up to `limit` of those that follow.
    fn list(&self, limit: i64, offset: i64) -> (res: RepoResult<ResultPaging<User>>)
        requires
            self.inv(),
        ensures
            match res {
                Ok(paging) => {
                    &&& limit >= 0
                    &&& offset >= 0
                    &&& paging.total == self.rows().len()
                    &&& views(paging.items@) == page(self.rows(), limit as int, offset as int)
                    &&& paging.fits(limit)
                },
                Err(e) => is_store_fault(e),
            },
    ;

    /// Lists the page that the parameters ask for, as `list` does for their
    /// limit and offset.
    fn get_all(&self, params: &dyn QueryParams) -> (res: RepoResult<ResultPaging<User>>)
        requires
            self.inv(),
        ensures
            match res {
                Ok(paging) => {
                    &&& params.spec_limit() >= 0
                    &&& params.spec_offset() >= 0
                    &&& paging.total == self.rows().len()
                    &&& views(paging.items@) == page(
                        self.rows(),
                        params.spec_limit() as int,
                        params.spec_offset() as int,
                    )
                    &&& paging.fits(params.spec_limit())
                },
                Err(e) => is_store_fault(e),
            },
    ;

    /// Looks a user up by id.
    fn find(&self, user_id: &str) -> (res: RepoResult<User>)
        requires
            self.inv(),
        ensures
            match res {
                Ok(user) => by_id(self.rows(), user_id@) == Some(user@),
                Err(e) => is_store_fault(e) || (e.code == ErrorKind::NotFound.code() && !has_id(
                    self.rows(),
                    user_id@,
                )),
            },
    ;

    /// Looks a user up by email.
    fn find_by_email(&self, user_email: &str) -> (res: RepoResult<User>)
        requires
            self.inv(),
        ensures
            match res {
                Ok(user) => by_email(self.rows(), user_email@) == Some(user@),
                Err(e) => is_store_fault(e) || (e.code == ErrorKind::NotFound.code() && !has_email(
                    self.rows(),
                    user_email@,
                )),
            },
    ;

    /// Stores a new user and hands back a copy of what was given. A user
    /// whose id or email is taken is refused as a conflict.
    fn create(&mut self, new_user: &User) -> (res: RepoResult<User>)
        requires
            old(self).inv(),
        ensures
            final(self).inv(),
            match res {
                Ok(user) => {
                    &&& insertable(old(self).rows(), new_user@)
                    &&& final(self).rows() == old(self).rows().push(new_user@)
                    &&& user@ == new_user@
                },
                Err(e) => {
                    &&& final(self).rows() == old(self).rows()
                    &&& is_store_fault(e) || (e.code == ErrorKind::Conflict.code() && !insertable(
                        old(self).rows(),
                        new_user@,
                    ))
                },
            },
    ;

    /// Overwrites the five fields of the update in the user with this id,
    /// and hands back the user as it is stored then. No user with this id
    /// is not found; an email that another user holds is a conflict.
    fn update(&mut self, user_id: &str, update_user: &UserUpdate) -> (res: RepoResult<User>)
        requires
            old(self).inv(),
        ensures
            final(self).inv(),
            match res {
                Ok(user) => {
                    &&& has_id(old(self).rows(), user_id@)
                    &&& email_free_for(old(self).rows(), user_id@, update_user@.email)
                    &&& final(self).rows() == with_patch(old(self).rows(), user_id@, update_user@)
                    &&& by_id(final(self).rows(), user_id@) == Some(user@)
                },
                Err(e) => {
                    &&& final(self).rows() == old(self).rows()
                    &&& {
                        ||| is_store_fault(e)
                        ||| e.code == ErrorKind::NotFound.code() && !has_id(
                            old(self).rows(),
                            user_id@,
                        )
                        ||| {
                            &&& e.code == ErrorKind::Conflict.code()
                            &&& has_id(old(self).rows(), user_id@)
                            &&& !email_free_for(old(self).rows(), user_id@, update_user@.email)
                        }
                    }
                },
            },
    ;

    /// Removes the user with this id. Where there is none, nothing changes
    /// and the call succeeds all the same.
    fn delete(&mut self, user_id: &str) -> (res: RepoResult<()>)
        requires
            old(self).inv(),
        ensures
            final(self).inv(),
            match res {
                Ok(_) => final(self).rows() == without_id(old(self).rows(), user_id@),
                Err(e) => is_store_fault(e) && final(self).rows() == old(self).rows(),
            },
    ;
}

/// Where keys are unique, a row found under an id is the row with that id.
pub proof fn by_id_is_row(rows: Seq<UserView>, id: Seq<char>, k: int)
    requires
        unique_keys(rows),
        id_at(rows, id, k),
    ensures
        (choose|c: int| id_at(rows, id, c)) == k,
        by_id(rows, id) == Some(rows[k]),
{
    let c: int = choose|c: int| id_at(rows, id, c);
    assert(id_at(rows, id, c));
}

/// Where keys are unique, a row found under an email is the row with that
/// email.
pub proof fn by_email_is_row(rows: Seq<UserView>, email: Seq<char>, k: int)
    requires
        unique_keys(rows),
        email_at(rows, email, k),
    ensures
        (choose|c: int| email_at(rows, email, c)) == k,
        by_email(rows, email) == Some(rows[k]),
{
    let c: int = choose|c: int| email_at(rows, email, c);
    assert(email_at(rows, email, c));
}

/// A listing returns at most `limit` rows and never more than are stored,
/// and what it returns are stored rows in their order.
pub proof fn page_is_bounded(rows: Seq<UserView>, limit: int, offset: int)
    requires
        0 <= limit,
        0 <= offset,
    ensures
        page(rows, limit, offset).len() <= limit,
        page(rows, limit, offset).len() <= rows.len(),
        forall|i: int|
            0 <= i < page(rows, limit, offset).len() ==> page(rows, limit, offset)[i] == rows[offset
                + i],
{
}

/// A user that has just been stored is found under its id and under its
/// email, equal in every field to what was stored; and every user that was
/// there before is still found.
pub proof fn create_then_find(rows: Seq<UserView>, user: UserView)
    requires
        unique_keys(rows),
        insertable(rows, user),
    ensures
        unique_keys(rows.push(user)),
        by_id(rows.push(user), user.id) == Some(user),
        by_email(rows.push(user), user.email) == Some(user),
        forall|id: Seq<char>| has_id(rows, id) ==> by_id(rows.push(user), id) == by_id(rows, id),
{
    let after = rows.push(user);
    assert forall|i: int, j: int|
        0 <= i < after.len() && 0 <= j < after.len() && i != j implies after[i].id != after[j].id
        && after[i].email != after[j].email by {
        if i < rows.len() && j < rows.len() {
        } else if i < rows.len() {
            assert(!id_at(rows, user.id, i));
            assert(!email_at(rows, user.email, i));
        } else {
            assert(!id_at(rows, user.id, j));
            assert(!email_at(rows, user.email, j));
        }
    }
    let last: int = rows.len() as int;
    assert(id_at(after, user.id, last));
    assert(email_at(after, user.email, last));
    by_id_is_row(after, user.id, last);
    by_email_is_row(after, user.email, last);
    assert forall|id: Seq<char>| has_id(rows, id) implies by_id(after, id) == by_id(rows, id) by {
        let k: int = choose|k: int| id_at(rows, id, k);
        assert(id_at(after, id, k));
        by_id_is_row(after, id, k);
    }
}

/// After an update the user is found with exactly the five fields of the
/// update overwritten and the others, the password among them, as they
/// were; and every other user is found as before.
pub proof fn update_then_find(rows: Seq<UserView>, id: Seq<char>, update: UserUpdateView)
    requires
        unique_keys(rows),
        has_id(rows, id),
        email_free_for(rows, id, update.email),
    ensures
        unique_keys(with_patch(rows, id, update)),
        by_id(with_patch(rows, id, update), id) == Some(patched(by_id(rows, id).unwrap(), update)),
        ({
            let before = by_id(rows, id).unwrap();
            let after = by_id(with_patch(rows, id, update), id).unwrap();
            &&& after.first_name == update.first_name
            &&& after.last_name == update.last_name
            &&& after.email == update.email
            &&& after.updated_by == update.updated_by
            &&& after.updated_at == update.updated_at
            &&& after.id == before.id
            &&& after.password == before.password
            &&& after.created_by == before.created_by
            &&& after.created_at == before.created_at
        }),
        forall|other: Seq<char>|
            other != id ==> by_id(with_patch(rows, id, update), other) == by_id(rows, other),
{
    let after = with_patch(rows, id, update);
    let k: int = choose|k: int| id_at(rows, id, k);
    assert(id_at(rows, id, k));
    assert forall|i: int, j: int|
        0 <= i < after.len() && 0 <= j < after.len() && i != j implies after[i].id != after[j].id
        && after[i].email != after[j].email by {
        assert(after[i].id == rows[i].id);
        assert(after[j].id == rows[j].id);
        if rows[i].id == id {
            assert(rows[j].id != id);
            assert(!email_at(rows, update.email, j));
        } else if rows[j].id == id {
            assert(!email_at(rows, update.email, i));
        }
    }
    assert(id_at(after, id, k));
    by_id_is_row(after, id, k);
    assert forall|other: Seq<char>| other != id implies by_id(after, other) == by_id(
        rows,
        other,
    ) by {
        if has_id(rows, other) {
            let c: int = choose|c: int| id_at(rows, other, c);
            assert(id_at(after, other, c));
            by_id_is_row(after, other, c);
        } else {
            if has_id(after, other) {
                let c: int = choose|c: int| id_at(after, other, c);
                assert(id_at(rows, other, c));
            }
        }
    }
}

/// After a removal nothing is found under the id, whether or not a row
/// carried it; where none did, the rows are as they were; and every other
/// user is found as before.
pub proof fn delete_then_find(rows: Seq<UserView>, id: Seq<char>)
    requires
        unique_keys(rows),
    ensures
        unique_keys(without_id(rows, id)),
        by_id(without_id(rows, id), id) is None,
        !has_id(rows, id) ==> without_id(rows, id) == rows,
        forall|other: Seq<char>|
            other != id ==> by_id(without_id(rows, id), other) == by_id(rows, other),
{
    let after = without_id(rows, id);
    if has_id(rows, id) {
        let k: int = choose|k: int| id_at(rows, id, k);
        assert(id_at(rows, id, k));
        assert forall|i: int| 0 <= i < after.len() implies after[i] == rows[if i < k {
            i
        } else {
            i + 1
        }] by {}
        assert forall|i: int, j: int|
            0 <= i < after.len() && 0 <= j < after.len() && i != j implies after[i].id
            != after[j].id && after[i].email != after[j].email by {
            let si: int = if i < k { i } else { i + 1 };
            let sj: int = if j < k { j } else { j + 1 };
            assert(after[i] == rows[si]);
            assert(after[j] == rows[sj]);
        }
        if has_id(after, id) {
            let c: int = choose|c: int| id_at(after, id, c);
            let sc: int = if c < k { c } else { c + 1 };
            assert(after[c] == rows[sc]);
            assert(false);
        }
        assert forall|other: Seq<char>| other != id implies by_id(after, other) == by_id(
            rows,
            other,
        ) by {
            if has_id(rows, other) {
                let c: int = choose|c: int| id_at(rows, other, c);
                assert(c != k);
                let t: int = if c < k { c } else { c - 1 };
                assert(after[t] == rows[c]);
                assert(id_at(after, other, t));
                by_id_is_row(after, other, t);
            } else {
                if has_id(after, other) {
                    let c: int = choose|c: int| id_at(after, other, c);
                    let sc: int = if c < k { c } else { c + 1 };
                    assert(after[c] == rows[sc]);
                    assert(id_at(rows, other, sc));
                }
            }
        }
    }
}

} // verus!
