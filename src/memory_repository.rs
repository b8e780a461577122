//! A storage adapter that keeps users in memory.
use vstd::prelude::*;

use crate::error::UserError;
use crate::port::{has_email, has_id, page_of, replace_user, views, UserRepositoryPort};
use crate::user::{Email, User, UserId, UserView};

verus! {

/// Users held in a vector, newest first. A write that would give two users
/// one identity or one address is refused, as a backend's constraints would.
pub struct InMemoryUserRepository {
    users: Vec<User>,
}

impl InMemoryUserRepository {
    /// An empty repository; it never fails for storage reasons.
    pub fn new() -> (r: InMemoryUserRepository)
        ensures
            r.stored() == Seq::<UserView>::empty(),
            r.reliable(),
    {
        let r = InMemoryUserRepository { users: Vec::new() };
        assert(views(r.users@) =~= Seq::<UserView>::empty());
        r
    }

    /// The number of stored users.
    pub fn len(&self) -> (r: usize)
        ensures
            r == self.stored().len(),
    {
        self.users.len()
    }

    /// Where the user with identity `id` stands in the listing.
    fn position_of_id(&self, id: &UserId) -> (r: Option<usize>)
        ensures
            r matches Some(i) ==> i < self.stored().len() && self.stored()[i as int].id == id@,
            r is None ==> !has_id(self.stored(), id@),
    {
        let mut i: usize = 0;
        while i < self.users.len()
            invariant
                i <= self.users@.len(),
                views(self.users@).len() == self.users@.len(),
                forall|j: int| 0 <= j < i ==> (#[trigger] views(self.users@)[j]).id != id@,
            decreases self.users@.len() - i,
        {
            if self.users[i].id().as_u128() == id.as_u128() {
                return Some(i);
            }
            i = i + 1;
        }
        None
    }

    /// Where the user holding `email` stands in the listing.
    fn position_of_email(&self, email: &Email) -> (r: Option<usize>)
        ensures
            r matches Some(i) ==> i < self.stored().len() && self.stored()[i as int].email
                == email@,
            r is None ==> !has_email(self.stored(), email@),
    {
        let mut i: usize = 0;
        while i < self.users.len()
            invariant
                i <= self.users@.len(),
                views(self.users@).len() == self.users@.len(),
                forall|j: int| 0 <= j < i ==> (#[trigger] views(self.users@)[j]).email != email@,
            decreases self.users@.len() - i,
        {
            if self.users[i].email() == email {
                return Some(i);
            }
            i = i + 1;
        }
        None
    }
}

impl UserRepositoryPort for InMemoryUserRepository {
    closed spec fn stored(&self) -> Seq<UserView> {
        views(self.users@)
    }

    open spec fn reliable(&self) -> bool {
        true
    }

    fn save(&mut self, user: &User) -> (r: Result<(), UserError>) {
        if self.position_of_email(user.email()).is_some() {
            return Err(UserError::EmailAlreadyExists);
        }
        if self.position_of_id(user.id()).is_some() {
            return Err(UserError::StorageError("duplicate user id".to_owned()));
        }
        let ghost before = views(self.users@);
        self.users.insert(0, user.clone());
        assert(views(self.users@) =~= seq![user@] + before);
        Ok(())
    }

    fn find_by_id(&self, id: &UserId) -> (r: Result<Option<User>, UserError>) {
        match self.position_of_id(id) {
            Some(i) => {
                let u = self.users[i].clone();
                assert(self.stored()[i as int] == u@);
                Ok(Some(u))
            },
            None => Ok(None),
        }
    }

    fn update(&mut self, user: &User) -> (r: Result<(), UserError>) {
        let ghost before = views(self.users@);
        let n = self.users.len();
        match self.position_of_id(user.id()) {
            Some(i) => {
                assert(before[i as int].id == user@.id);
            },
            None => {
                return Err(UserError::NotFound);
            },
        }
        let mut k: usize = 0;
        while k < n
            invariant
                k <= n,
                n == self.users@.len(),
                before == views(self.users@),
                has_id(before, user@.id),
                forall|j: int|
                    0 <= j < k ==> !(#[trigger] before[j].email == user@.email && before[j].id
                        != user@.id),
            decreases n - k,
        {
            if self.users[k].email() == user.email() && self.users[k].id().as_u128()
                != user.id().as_u128() {
                assert(before[k as int].email == user@.email && before[k as int].id != user@.id);
                return Err(UserError::EmailAlreadyExists);
            }
            k = k + 1;
        }
        let mut k: usize = 0;
        while k < n
            invariant
                k <= n,
                n == self.users@.len(),
                before.len() == n,
                forall|j: int|
                    0 <= j < k ==> (#[trigger] self.users@[j])@ == (if before[j].id == user@.id {
                        user@
                    } else {
                        before[j]
                    }),
                forall|j: int| k <= j < n ==> (#[trigger] self.users@[j])@ == before[j],
            decreases n - k,
        {
            if self.users[k].id().as_u128() == user.id().as_u128() {
                self.users.set(k, user.clone());
            }
            k = k + 1;
        }
        assert(views(self.users@) =~= replace_user(before, user@));
        Ok(())
    }

    fn delete(&mut self, id: &UserId) -> (r: Result<(), UserError>) {
        let ghost before = views(self.users@);
        match self.position_of_id(id) {
            Some(i) => {
                self.users.remove(i);
                assert(views(self.users@) =~= before.remove(i as int));
                Ok(())
            },
            None => Err(UserError::NotFound),
        }
    }

    fn find_all(&self, offset: i64, limit: i64) -> (r: Result<Vec<User>, UserError>) {
        let n = self.users.len();
        let start: usize = if offset as u64 >= n as u64 {
            n
        } else {
            offset as usize
        };
        let end: usize = if limit as u64 >= (n - start) as u64 {
            n
        } else {
            start + limit as usize
        };
        let mut out: Vec<User> = Vec::new();
        let mut i: usize = start;
        while i < end
            invariant
                start <= i <= end <= n,
                n == self.users@.len(),
                out@.len() == i - start,
                forall|j: int| 0 <= j < i - start ==> (#[trigger] out@[j])@ == self.users@[start + j]@,
            decreases end - i,
        {
            out.push(self.users[i].clone());
            i = i + 1;
        }
        assert(views(out@) =~= page_of(self.stored(), offset as int, limit as int));
        Ok(out)
    }

    fn exists_by_email(&self, email: &Email) -> (r: Result<bool, UserError>) {
        Ok(self.position_of_email(email).is_some())
    }
}

} // verus!
