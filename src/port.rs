//! The persistence port: what any storage adapter for users provides.
use vstd::prelude::*;

use crate::error::UserError;
use crate::user::{Email, User, UserId, UserView};

verus! {

/// Whether some stored user has identity `id`.
pub open spec fn has_id(s: Seq<UserView>, id: u128) -> bool {
    exists|i: int| 0 <= i < s.len() && #[trigger] s[i].id == id
}

/// Whether some stored user holds the address `email`.
pub open spec fn has_email(s: Seq<UserView>, email: Seq<char>) -> bool {
    exists|i: int| 0 <= i < s.len() && #[trigger] s[i].email == email
}

/// Whether a stored user other than `id` holds the address `email`.
pub open spec fn email_held_by_other(s: Seq<UserView>, email: Seq<char>, id: u128) -> bool {
    exists|i: int| 0 <= i < s.len() && #[trigger] s[i].email == email && s[i].id != id
}

/// The stored users with the one of `u`'s identity replaced by `u`.
pub open spec fn replace_user(s: Seq<UserView>, u: UserView) -> Seq<UserView> {
    s.map_values(|v: UserView| if v.id == u.id { u } else { v })
}

/// The views of a sequence of users.
pub open spec fn views(v: Seq<User>) -> Seq<UserView> {
    v.map_values(|u: User| u@)
}

/// The smaller of two integers.
pub open spec fn min_int(a: int, b: int) -> int {
    if a <= b {
        a
    } else {
        b
    }
}

/// The page of the listing that skips `offset` users and holds at most
/// `limit`.
pub open spec fn page_of(s: Seq<UserView>, offset: int, limit: int) -> Seq<UserView> {
    s.subrange(min_int(offset, s.len() as int), min_int(offset + limit, s.len() as int))
}

/// Whether `r` is an error that reports a storage failure.
pub open spec fn is_storage_error<T>(r: Result<T, UserError>) -> bool {
    r matches Err(UserError::StorageError(_))
}

/// Persistence operations on users. The model is the sequence of stored
/// users in listing order, newest first. A backend that enforces address
/// uniqueness itself reports a violation as `EmailAlreadyExists`. A reliable
/// backend never fails for storage reasons: each call then fails only for
/// the reasons that its contract names.
pub trait UserRepositoryPort: Sized {
    /// The stored users, newest first.
    spec fn stored(&self) -> Seq<UserView>;

    /// Whether the backend never fails for storage reasons; a backend is not
    /// taken to be reliable unless it says so.
    open spec fn reliable(&self) -> bool {
        false
    }

    /// Stores a new user in front of the listing.
    fn save(&mut self, user: &User) -> (r: Result<(), UserError>)
        ensures
            r is Ok ==> !has_id(old(self).stored(), user@.id) && !has_email(
                old(self).stored(),
                user@.email,
            ) && final(self).stored() == seq![user@] + old(self).stored(),
            r is Err ==> final(self).stored() == old(self).stored(),
            has_email(old(self).stored(), user@.email) ==> r == Err::<(), UserError>(
                UserError::EmailAlreadyExists,
            ),
            has_id(old(self).stored(), user@.id) ==> r is Err,
            old(self).reliable() && !has_id(old(self).stored(), user@.id) && !has_email(
                old(self).stored(),
                user@.email,
            ) ==> r is Ok,
            old(self).reliable() ==> final(self).reliable(),
    ;

    /// The stored user with identity `id`, if any.
    fn find_by_id(&self, id: &UserId) -> (r: Result<Option<User>, UserError>)
        ensures
            r matches Ok(Some(u)) ==> u@.id == id@ && self.stored().contains(u@),
            r matches Ok(None) ==> !has_id(self.stored(), id@),
            r is Err ==> is_storage_error(r),
            self.reliable() ==> r is Ok,
    ;

    /// Replaces the stored user that has `user`'s identity.
    fn update(&mut self, user: &User) -> (r: Result<(), UserError>)
        ensures
            r is Ok ==> has_id(old(self).stored(), user@.id) && !email_held_by_other(
                old(self).stored(),
                user@.email,
                user@.id,
            ) && final(self).stored() == replace_user(old(self).stored(), user@),
            r is Err ==> final(self).stored() == old(self).stored(),
            !has_id(old(self).stored(), user@.id) ==> r == Err::<(), UserError>(
                UserError::NotFound,
            ),
            has_id(old(self).stored(), user@.id) && email_held_by_other(
                old(self).stored(),
                user@.email,
                user@.id,
            ) ==> r == Err::<(), UserError>(UserError::EmailAlreadyExists),
            old(self).reliable() && has_id(old(self).stored(), user@.id) && !email_held_by_other(
                old(self).stored(),
                user@.email,
                user@.id,
            ) ==> r is Ok,
            old(self).reliable() ==> final(self).reliable(),
    ;

    /// Removes the stored user with identity `id`.
    fn delete(&mut self, id: &UserId) -> (r: Result<(), UserError>)
        ensures
            r is Ok ==> exists|i: int|
                0 <= i < old(self).stored().len() && #[trigger] old(self).stored()[i].id == id@
                    && final(self).stored() == old(self).stored().remove(i),
            r is Err ==> final(self).stored() == old(self).stored(),
            !has_id(old(self).stored(), id@) ==> r == Err::<(), UserError>(UserError::NotFound),
            old(self).reliable() && has_id(old(self).stored(), id@) ==> r is Ok,
            old(self).reliable() ==> final(self).reliable(),
    ;

    /// The page of the listing that skips `offset` users and holds at most
    /// `limit`.
    fn find_all(&self, offset: i64, limit: i64) -> (r: Result<Vec<User>, UserError>)
        requires
            offset >= 0,
            limit >= 0,
        ensures
            r matches Ok(v) ==> views(v@) == page_of(self.stored(), offset as int, limit as int),
            r is Err ==> is_storage_error(r),
            self.reliable() ==> r is Ok,
    ;

    /// Whether a stored user holds the address `email`.
    fn exists_by_email(&self, email: &Email) -> (r: Result<bool, UserError>)
        ensures
            r matches Ok(b) ==> b == has_email(self.stored(), email@),
            r is Err ==> is_storage_error(r),
            self.reliable() ==> r is Ok,
    ;
}

/// Whether no two stored users share an identity or an address.
pub open spec fn keys_unique(s: Seq<UserView>) -> bool {
    forall|i: int, j: int|
        0 <= i < s.len() && 0 <= j < s.len() && i != j ==> #[trigger] s[i].id != #[trigger] s[j].id
            && s[i].email != s[j].email
}

/// A save that the port accepts keeps identities and addresses unique.
pub proof fn lemma_save_keeps_keys_unique(s: Seq<UserView>, u: UserView)
    requires
        keys_unique(s),
        !has_id(s, u.id),
        !has_email(s, u.email),
    ensures
        keys_unique(seq![u] + s),
{
    let t = seq![u] + s;
    assert forall|i: int, j: int| 0 <= i < t.len() && 0 <= j < t.len() && i != j implies #[trigger] t[i].id
        != #[trigger] t[j].id && t[i].email != t[j].email by {
        if i == 0 {
            assert(t[j] == s[j - 1]);
        } else if j == 0 {
            assert(t[i] == s[i - 1]);
        } else {
            assert(t[i] == s[i - 1] && t[j] == s[j - 1]);
        }
    }
}

/// An update that the port accepts keeps identities and addresses unique.
pub proof fn lemma_update_keeps_keys_unique(s: Seq<UserView>, u: UserView)
    requires
        keys_unique(s),
        !email_held_by_other(s, u.email, u.id),
    ensures
        keys_unique(replace_user(s, u)),
{
    let t = replace_user(s, u);
    assert forall|i: int, j: int| 0 <= i < t.len() && 0 <= j < t.len() && i != j implies #[trigger] t[i].id
        != #[trigger] t[j].id && t[i].email != t[j].email by {
        assert(s[i].id != s[j].id);
        if s[i].id == u.id {
            assert(s[j].email != u.email || s[j].id == u.id);
        } else if s[j].id == u.id {
            assert(s[i].email != u.email || s[i].id == u.id);
        }
    }
}

/// A delete keeps identities and addresses unique.
pub proof fn lemma_delete_keeps_keys_unique(s: Seq<UserView>, i: int)
    requires
        keys_unique(s),
        0 <= i < s.len(),
    ensures
        keys_unique(s.remove(i)),
{
    let t = s.remove(i);
    assert forall|a: int, b: int| 0 <= a < t.len() && 0 <= b < t.len() && a != b implies #[trigger] t[a].id
        != #[trigger] t[b].id && t[a].email != t[b].email by {
        let a2 = if a < i { a } else { a + 1 };
        let b2 = if b < i { b } else { b + 1 };
        assert(t[a] == s[a2] && t[b] == s[b2]);
        assert(s[a2].id != s[b2].id);
    }
}

} // verus!
