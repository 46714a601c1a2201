//! A repository that keeps its rows in memory.

use vstd::prelude::*;

use crate::common::{
    is_store_fault, CommonError, ErrorKind, QueryParams, RepoResult, ResultPaging,
};
use crate::users::entity::{views, User, UserUpdate, UserView};
use crate::users::repo::{
    by_email_is_row, by_id_is_row, create_then_find, delete_then_find, email_at, email_free_for,
    has_email, has_id, id_at, insertable, unique_keys, update_then_find, with_patch, UserRepo,
};

verus! {

/// The users of one process, in the order in which they were stored.
pub struct UserTable {
    users: Vec<User>,
}

impl UserTable {
    /// A table without users.
    pub fn new() -> (table: UserTable)
        ensures
            table.inv(),
            table.rows() == Seq::<UserView>::empty(),
    {
        let table = UserTable { users: Vec::new() };
        assert(table.rows() =~= Seq::<UserView>::empty());
        table
    }

    /// The place of the row with this id.
    fn position_of_id(&self, user_id: &str) -> (at: Option<usize>)
        ensures
            match at {
                Some(k) => id_at(self.rows(), user_id@, k as int),
                None => !has_id(self.rows(), user_id@),
            },
    {
        let wanted = user_id.to_owned();
        let mut k: usize = 0;
        while k < self.users.len()
            invariant
                k <= self.users@.len(),
                wanted@ == user_id@,
                forall|j: int| 0 <= j < k ==> !id_at(self.rows(), user_id@, j),
            decreases self.users@.len() - k,
        {
            if self.users[k].id == wanted {
                return Some(k);
            }
            k = k + 1;
        }
        None
    }

    /// The place of the row with this email.
    fn position_of_email(&self, user_email: &str) -> (at: Option<usize>)
        ensures
            match at {
                Some(k) => email_at(self.rows(), user_email@, k as int),
                None => !has_email(self.rows(), user_email@),
            },
    {
        let wanted = user_email.to_owned();
        let mut k: usize = 0;
        while k < self.users.len()
            invariant
                k <= self.users@.len(),
                wanted@ == user_email@,
                forall|j: int| 0 <= j < k ==> !email_at(self.rows(), user_email@, j),
            decreases self.users@.len() - k,
        {
            if self.users[k].email == wanted {
                return Some(k);
            }
            k = k + 1;
        }
        None
    }
}

impl UserRepo for UserTable {
    closed spec fn rows(&self) -> Seq<UserView> {
        views(self.users@)
    }

    closed spec fn inv(&self) -> bool {
        &&& unique_keys(self.rows())
        &&& self.users@.len() <= i64::MAX
    }

    proof fn inv_bounds_rows(&self) {
    }

    fn list(&self, limit: i64, offset: i64) -> (res: RepoResult<ResultPaging<User>>)
        ensures
            res is Ok <==> limit >= 0 && offset >= 0,
    {
        if limit < 0 || offset < 0 {
            return Err(
                CommonError::new(
                    ErrorKind::StoreFailure,
                    "the limit and the offset of a listing must not be negative".to_owned(),
                ),
            );
        }
        let len: usize = self.users.len();
        let from: usize = if (offset as u64) < (len as u64) {
            offset as usize
        } else {
            len
        };
        let rest: usize = len - from;
        let count: usize = if (limit as u64) < (rest as u64) {
            limit as usize
        } else {
            rest
        };
        let to: usize = from + count;
        let mut items: Vec<User> = Vec::new();
        let mut k: usize = from;
        while k < to
            invariant
                from <= k <= to <= self.users@.len(),
                items@.len() == k - from,
                views(items@) == self.rows().subrange(from as int, k as int),
            decreases to - k,
        {
            let ghost listed = items@;
            items.push(self.users[k].clone());
            assert forall|i: int| 0 <= i < items@.len() implies views(items@)[i]
                == self.rows().subrange(from as int, k + 1)[i] by {
                if i < listed.len() {
                    assert(views(listed)[i] == self.rows().subrange(from as int, k as int)[i]);
                    assert(items@[i] == listed[i]);
                } else {
                    assert(items@[i]@ == self.users@[k as int]@);
                    assert(self.rows()[from + i] == self.users@[from + i]@);
                }
            }
            assert(views(items@) =~= self.rows().subrange(from as int, k + 1));
            k = k + 1;
        }
        Ok(ResultPaging { total: len as i64, items })
    }

    fn get_all(&self, params: &dyn QueryParams) -> (res: RepoResult<ResultPaging<User>>)
        ensures
            res is Ok <==> params.spec_limit() >= 0 && params.spec_offset() >= 0,
    {
        self.list(params.limit(), params.offset())
    }

    fn find(&self, user_id: &str) -> (res: RepoResult<User>)
        ensures
            res is Ok <==> has_id(self.rows(), user_id@),
            res matches Err(e) ==> e.code == ErrorKind::NotFound.code(),
    {
        match self.position_of_id(user_id) {
            Some(k) => {
                proof {
                    by_id_is_row(self.rows(), user_id@, k as int);
                }
                Ok(self.users[k].clone())
            },
            None => Err(CommonError::new(ErrorKind::NotFound, "no user has this id".to_owned())),
        }
    }

    fn find_by_email(&self, user_email: &str) -> (res: RepoResult<User>)
        ensures
            res is Ok <==> has_email(self.rows(), user_email@),
            res matches Err(e) ==> e.code == ErrorKind::NotFound.code(),
    {
        match self.position_of_email(user_email) {
            Some(k) => {
                proof {
                    by_email_is_row(self.rows(), user_email@, k as int);
                }
                Ok(self.users[k].clone())
            },
            None => Err(
                CommonError::new(ErrorKind::NotFound, "no user has this email".to_owned()),
            ),
        }
    }

    fn create(&mut self, new_user: &User) -> (res: RepoResult<User>)
        ensures
            res is Ok <==> insertable(old(self).rows(), new_user@) && old(self).rows().len()
                < i64::MAX,
            res matches Err(e) ==> (e.code == ErrorKind::Conflict.code() <==> !insertable(
                old(self).rows(),
                new_user@,
            )),
    {
        if self.position_of_id(new_user.id.as_str()).is_some() {
            return Err(
                CommonError::new(ErrorKind::Conflict, "a user with this id exists".to_owned()),
            );
        }
        if self.position_of_email(new_user.email.as_str()).is_some() {
            return Err(
                CommonError::new(ErrorKind::Conflict, "a user with this email exists".to_owned()),
            );
        }
        if self.users.len() as u64 >= i64::MAX as u64 {
            return Err(
                CommonError::new(ErrorKind::StoreFailure, "the table is full".to_owned()),
            );
        }
        self.users.push(new_user.clone());
        proof {
            assert(self.rows() =~= old(self).rows().push(new_user@));
            create_then_find(old(self).rows(), new_user@);
        }
        Ok(new_user.clone())
    }

    fn update(&mut self, user_id: &str, update_user: &UserUpdate) -> (res: RepoResult<User>)
        ensures
            res is Ok <==> has_id(old(self).rows(), user_id@) && email_free_for(
                old(self).rows(),
                user_id@,
                update_user@.email,
            ),
            res matches Err(e) ==> !is_store_fault(e),
    {
        let k: usize = match self.position_of_id(user_id) {
            Some(k) => k,
            None => {
                return Err(
                    CommonError::new(ErrorKind::NotFound, "no user has this id".to_owned()),
                );
            },
        };
        match self.position_of_email(update_user.email.as_str()) {
            Some(j) => {
                if j != k {
                    return Err(
                        CommonError::new(
                            ErrorKind::Conflict,
                            "another user has this email".to_owned(),
                        ),
                    );
                }
            },
            None => {},
        }
        let stored = &self.users[k];
        let next = User {
            id: stored.id.clone(),
            first_name: update_user.first_name.clone(),
            last_name: update_user.last_name.clone(),
            email: update_user.email.clone(),
            password: stored.password.clone(),
            created_by: stored.created_by.clone(),
            updated_by: update_user.updated_by.clone(),
            created_at: stored.created_at,
            updated_at: update_user.updated_at,
        };
        let answer = next.clone();
        self.users.set(k, next);
        proof {
            let before = old(self).rows();
            assert(email_free_for(before, user_id@, update_user@.email));
            assert(self.rows() =~= with_patch(before, user_id@, update_user@));
            by_id_is_row(before, user_id@, k as int);
            update_then_find(before, user_id@, update_user@);
        }
        Ok(answer)
    }

    fn delete(&mut self, user_id: &str) -> (res: RepoResult<()>)
        ensures
            res is Ok,
    {
        match self.position_of_id(user_id) {
            Some(k) => {
                self.users.remove(k);
                proof {
                    let before = old(self).rows();
                    by_id_is_row(before, user_id@, k as int);
                    assert(self.rows() =~= before.remove(k as int));
                    delete_then_find(before, user_id@);
                }
            },
            None => {
                proof {
                    delete_then_find(old(self).rows(), user_id@);
                }
            },
        }
        Ok(())
    }
}

} // verus!
