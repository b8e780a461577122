//! Business rules that span stored users: address uniqueness on create and
//! update.
use vstd::prelude::*;

use crate::error::UserError;
use crate::port::{
    email_held_by_other, has_email, has_id, is_storage_error, replace_user, UserRepositoryPort,
};
use crate::user::{opt_email, opt_name, updated_view, Email, User, UserName, UserView};

verus! {

/// Whether an update to `new_email` must check that no one else holds it:
/// exactly when an address is given and differs from the current one.
pub open spec fn email_check_needed(current: Seq<char>, new_email: Option<Seq<char>>) -> bool {
    new_email matches Some(e) && e != current
}

/// Decides whether an update to `new_email` needs the uniqueness check.
pub fn needs_email_check(current: &Email, new_email: &Option<Email>) -> (r: bool)
    ensures
        r == email_check_needed(current@, opt_email(*new_email)),
{
    match new_email {
        Some(e) => e != current,
        None => false,
    }
}

/// The address a user holds after an update that names `new_email`.
pub open spec fn email_after(current: Seq<char>, new_email: Option<Seq<char>>) -> Seq<char> {
    match new_email {
        Some(e) => e,
        None => current,
    }
}

/// What the answer of the uniqueness check means for the write that would
/// follow: a held address refuses it, a free one lets it go ahead, and a
/// failed check is passed on.
pub fn email_check_outcome(check: Result<bool, UserError>) -> (r: Result<(), UserError>)
    ensures
        check matches Ok(true) ==> r == Err::<(), UserError>(UserError::EmailAlreadyExists),
        check matches Ok(false) ==> r is Ok,
        check matches Err(e) ==> r == Err::<(), UserError>(e),
{
    match check {
        Ok(true) => Err(UserError::EmailAlreadyExists),
        Ok(false) => Ok(()),
        Err(e) => Err(e),
    }
}

/// Keeping one's own address never calls for the uniqueness check, so an
/// update that keeps it is not refused as a duplicate of itself.
pub proof fn lemma_same_email_needs_no_check(current: Seq<char>, new_email: Seq<char>)
    requires
        new_email == current,
    ensures
        !email_check_needed(current, Some(new_email)),
{
}

/// The domain service over a repository port.
pub struct UserDomainService<R: UserRepositoryPort> {
    pub user_repository: R,
}

impl<R: UserRepositoryPort> UserDomainService<R> {
    /// The users that the repository holds.
    pub open spec fn store(&self) -> Seq<UserView> {
        self.user_repository.stored()
    }

    /// Whether the repository never fails for storage reasons.
    pub open spec fn reliable(&self) -> bool {
        self.user_repository.reliable()
    }

    /// A service over `user_repository`.
    pub fn new(user_repository: R) -> (r: Self)
        ensures
            r.user_repository == user_repository,
    {
        UserDomainService { user_repository }
    }

    /// Creates and stores a user unless the address is already held. The
    /// check comes first; a held address is refused without storing.
    pub fn create_user(&mut self, name: UserName, email: Email) -> (r: Result<User, UserError>)
        ensures
            r matches Ok(u) ==> u@.name == name@ && u@.email == email@ && u@.created_at
                == u@.updated_at && !has_email(old(self).store(), email@) && final(self).store()
                == seq![u@] + old(self).store(),
            r is Err ==> final(self).store() == old(self).store(),
            has_email(old(self).store(), email@) ==> r == Err::<User, UserError>(
                UserError::EmailAlreadyExists,
            ) || is_storage_error(r),
            old(self).reliable() && has_email(old(self).store(), email@) ==> r == Err::<
                User,
                UserError,
            >(UserError::EmailAlreadyExists),
            old(self).reliable() && !has_email(old(self).store(), email@) && old(self).store().len()
                == 0 ==> r is Ok,
            old(self).reliable() && !has_email(old(self).store(), email@) && r is Err ==> old(
                self,
            ).store().len() > 0,
            old(self).reliable() ==> final(self).reliable(),
    {
        let check = self.user_repository.exists_by_email(&email);
        match email_check_outcome(check) {
            Ok(()) => {},
            Err(e) => {
                return Err(e);
            },
        }
        let user = User::new(name, email);
        match self.user_repository.save(&user) {
            Ok(()) => Ok(user),
            Err(e) => Err(e),
        }
    }

    /// Applies the given fields to `user` and stores the result. Where a new
    /// address differs from the current one and another user holds it, the
    /// update is refused before `user` is touched.
    pub fn update_user(
        &mut self,
        user: &mut User,
        new_name: Option<UserName>,
        new_email: Option<Email>,
    ) -> (r: Result<(), UserError>)
        ensures
            r is Ok ==> has_id(old(self).store(), old(user)@.id) && final(user)@ == updated_view(
                old(user)@,
                opt_name(new_name),
                opt_email(new_email),
                final(user)@.updated_at,
            ) && final(user)@.updated_at >= old(user)@.updated_at && final(self).store()
                == replace_user(old(self).store(), final(user)@),
            r is Err ==> final(self).store() == old(self).store(),
            email_check_needed(old(user)@.email, opt_email(new_email)) && has_email(
                old(self).store(),
                opt_email(new_email)->0,
            ) ==> (r == Err::<(), UserError>(UserError::EmailAlreadyExists) || is_storage_error(r))
                && final(user)@ == old(user)@,
            !has_id(old(self).store(), old(user)@.id) ==> r is Err,
            r is Err ==> final(user)@ == old(user)@ || final(user)@ == updated_view(
                old(user)@,
                opt_name(new_name),
                opt_email(new_email),
                final(user)@.updated_at,
            ),
            old(self).reliable() && email_check_needed(old(user)@.email, opt_email(new_email))
                && has_email(old(self).store(), opt_email(new_email)->0) ==> r == Err::<
                (),
                UserError,
            >(UserError::EmailAlreadyExists),
            old(self).reliable() && has_id(old(self).store(), old(user)@.id) && !(
            email_check_needed(old(user)@.email, opt_email(new_email)) && has_email(
                old(self).store(),
                opt_email(new_email)->0,
            )) && !email_held_by_other(
                old(self).store(),
                email_after(old(user)@.email, opt_email(new_email)),
                old(user)@.id,
            ) ==> r is Ok,
            old(self).reliable() ==> final(self).reliable(),
    {
        if needs_email_check(user.email(), &new_email) {
            match &new_email {
                Some(e) => {
                    let check = self.user_repository.exists_by_email(e);
                    match email_check_outcome(check) {
                        Ok(()) => {},
                        Err(err) => {
                            return Err(err);
                        },
                    }
                },
                None => {},
            }
        }
        match user.update(new_name, new_email) {
            Ok(()) => {},
            Err(err) => {
                return Err(err);
            },
        }
        self.user_repository.update(user)
    }
}

} // verus!
