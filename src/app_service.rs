//! Use cases: requests in, validated values to the domain service, responses
//! out.
use vstd::prelude::*;

use crate::domain_service::UserDomainService;
use crate::dto::{
    create_refusal, opt_email_acceptable, opt_name_acceptable, opt_normalized, opt_trimmed,
    response_views, update_refusal, CreateUserDto, UpdateUserDto, UserResponseDto,
};
use crate::error::UserError;
use crate::port::{has_email, has_id, is_storage_error, page_of, replace_user, UserRepositoryPort};
use crate::text::trimmed;
use crate::user::{
    email_acceptable, name_acceptable, normalized_email, updated_view, User, UserId, UserView,
};

verus! {

/// The page listed when a request names none.
pub const DEFAULT_PAGE: i64 = 0;

/// The page size used when a request names none.
pub const DEFAULT_LIMIT: i64 = 10;

/// The offset and limit of a listing request: the page and size default to
/// 0 and 10 and the offset is their product. None where either is negative
/// or the product does not fit in an `i64`.
pub open spec fn window_of(page: Option<i64>, limit: Option<i64>) -> Option<(i64, i64)> {
    let p = match page {
        Some(v) => v,
        None => DEFAULT_PAGE,
    };
    let l = match limit {
        Some(v) => v,
        None => DEFAULT_LIMIT,
    };
    if p >= 0 && l >= 0 && p * l <= i64::MAX {
        Some(((p * l) as i64, l))
    } else {
        None
    }
}

/// Computes the offset and limit of a listing request.
pub fn page_window(page: Option<i64>, limit: Option<i64>) -> (r: Option<(i64, i64)>)
    ensures
        r == window_of(page, limit),
{
    let p: i64 = match page {
        Some(v) => v,
        None => DEFAULT_PAGE,
    };
    let l: i64 = match limit {
        Some(v) => v,
        None => DEFAULT_LIMIT,
    };
    if p < 0 || l < 0 {
        return None;
    }
    assert(0 <= (p as int) * (l as int) <= (i64::MAX as int) * (i64::MAX as int)) by (nonlinear_arith)
        requires
            0 <= p <= i64::MAX,
            0 <= l <= i64::MAX,
    ;
    let product: i128 = (p as i128) * (l as i128);
    if product > i64::MAX as i128 {
        None
    } else {
        Some((product as i64, l))
    }
}

/// What a lookup by identity means for an operation on that user: a
/// missing user is `NotFound`, and a failed lookup is passed on.
pub fn found(r: Result<Option<User>, UserError>) -> (o: Result<User, UserError>)
    ensures
        r matches Ok(None) ==> o == Err::<User, UserError>(UserError::NotFound),
        r matches Err(e) ==> o == Err::<User, UserError>(e),
        r matches Ok(Some(u)) ==> (o matches Ok(v) && v@ == u@),
{
    match r {
        Ok(Some(u)) => Ok(u),
        Ok(None) => Err(UserError::NotFound),
        Err(e) => Err(e),
    }
}

/// The application service over a repository port.
pub struct UserApplicationService<R: UserRepositoryPort> {
    pub domain_service: UserDomainService<R>,
}

impl<R: UserRepositoryPort> UserApplicationService<R> {
    /// The users that the repository holds.
    pub open spec fn store(&self) -> Seq<UserView> {
        self.domain_service.store()
    }

    /// Whether the repository never fails for storage reasons.
    pub open spec fn reliable(&self) -> bool {
        self.domain_service.reliable()
    }

    /// A service over `repository`.
    pub fn new(repository: R) -> (r: Self)
        ensures
            r.domain_service.user_repository == repository,
    {
        UserApplicationService { domain_service: UserDomainService::new(repository) }
    }

    /// Validates the request and creates the user.
    pub fn create_user(&mut self, dto: CreateUserDto) -> (r: Result<UserResponseDto, UserError>)
        ensures
            r matches Ok(d) ==> d.name@ == trimmed(dto.name@) && d.email@ == normalized_email(
                dto.email@,
            ) && d.created_at == d.updated_at && !has_email(old(self).store(), d.email@)
                && final(self).store() == seq![d@] + old(self).store(),
            r is Err ==> final(self).store() == old(self).store(),
            !(name_acceptable(dto.name@) && email_acceptable(dto.email@)) ==> (r matches Err(e)
                && create_refusal(dto.name@, dto.email@, e)),
            name_acceptable(dto.name@) && email_acceptable(dto.email@) && has_email(
                old(self).store(),
                normalized_email(dto.email@),
            ) ==> r == Err::<UserResponseDto, UserError>(UserError::EmailAlreadyExists)
                || is_storage_error(r),
            old(self).reliable() && name_acceptable(dto.name@) && email_acceptable(dto.email@)
                && has_email(old(self).store(), normalized_email(dto.email@)) ==> r == Err::<
                UserResponseDto,
                UserError,
            >(UserError::EmailAlreadyExists),
            old(self).reliable() && name_acceptable(dto.name@) && email_acceptable(dto.email@)
                && old(self).store().len() == 0 ==> r is Ok,
            old(self).reliable() ==> final(self).reliable(),
    {
        let (name, email) = match dto.to_domain() {
            Ok(v) => v,
            Err(e) => {
                return Err(e);
            },
        };
        match self.domain_service.create_user(name, email) {
            Ok(user) => Ok(UserResponseDto::from_user(&user)),
            Err(e) => Err(e),
        }
    }

    /// The user with identity `id`, if stored.
    pub fn get_user_by_id(&self, id: UserId) -> (r: Result<Option<UserResponseDto>, UserError>)
        ensures
            r matches Ok(Some(d)) ==> d@.id == id@ && self.store().contains(d@),
            r matches Ok(None) ==> !has_id(self.store(), id@),
            r is Err ==> is_storage_error(r),
    {
        match self.domain_service.user_repository.find_by_id(&id) {
            Ok(Some(user)) => Ok(Some(UserResponseDto::from_user(&user))),
            Ok(None) => Ok(None),
            Err(e) => Err(e),
        }
    }

    /// Loads the user with identity `id`, validates the request and applies
    /// it.
    pub fn update_user(&mut self, id: UserId, dto: UpdateUserDto) -> (r: Result<
        UserResponseDto,
        UserError,
    >)
        ensures
            r matches Ok(d) ==> d@.id == id@ && (exists|i: int|
                0 <= i < old(self).store().len() && #[trigger] old(self).store()[i].id == id@
                    && d@ == updated_view(
                    old(self).store()[i],
                    opt_trimmed(dto.name),
                    opt_normalized(dto.email),
                    d@.updated_at,
                ) && d@.updated_at >= old(self).store()[i].updated_at) && final(self).store()
                == replace_user(old(self).store(), d@),
            r is Err ==> final(self).store() == old(self).store(),
            !has_id(old(self).store(), id@) ==> r == Err::<UserResponseDto, UserError>(
                UserError::NotFound,
            ) || is_storage_error(r),
            !opt_name_acceptable(dto.name) || !opt_email_acceptable(dto.email) ==> r is Err,
            old(self).reliable() && !has_id(old(self).store(), id@) ==> r == Err::<
                UserResponseDto,
                UserError,
            >(UserError::NotFound),
            old(self).reliable() && has_id(old(self).store(), id@) && !(opt_name_acceptable(
                dto.name,
            ) && opt_email_acceptable(dto.email)) ==> (r matches Err(e) && update_refusal(
                dto.name,
                dto.email,
                e,
            )),
            old(self).reliable() ==> final(self).reliable(),
    {
        let ghost before = self.store();
        let lookup = self.domain_service.user_repository.find_by_id(&id);
        let mut user = match found(lookup) {
            Ok(u) => u,
            Err(e) => {
                return Err(e);
            },
        };
        let ghost i = choose|i: int| 0 <= i < before.len() && before[i] == user@;
        let (name, email) = match dto.to_domain() {
            Ok(v) => v,
            Err(e) => {
                return Err(e);
            },
        };
        match self.domain_service.update_user(&mut user, name, email) {
            Ok(()) => {
                let d = UserResponseDto::from_user(&user);
                assert(before[i].id == id@);
                Ok(d)
            },
            Err(e) => Err(e),
        }
    }

    /// Deletes the user with identity `id`, failing with `NotFound` where
    /// none is stored.
    pub fn delete_user(&mut self, id: UserId) -> (r: Result<(), UserError>)
        ensures
            r is Ok ==> exists|i: int|
                0 <= i < old(self).store().len() && #[trigger] old(self).store()[i].id == id@
                    && final(self).store() == old(self).store().remove(i),
            r is Err ==> final(self).store() == old(self).store(),
            !has_id(old(self).store(), id@) ==> r == Err::<(), UserError>(UserError::NotFound)
                || is_storage_error(r),
            old(self).reliable() && !has_id(old(self).store(), id@) ==> r == Err::<(), UserError>(
                UserError::NotFound,
            ),
            old(self).reliable() && has_id(old(self).store(), id@) ==> r is Ok,
            old(self).reliable() ==> final(self).reliable(),
    {
        let lookup = self.domain_service.user_repository.find_by_id(&id);
        match found(lookup) {
            Ok(_) => {},
            Err(e) => {
                return Err(e);
            },
        }
        let ghost before = self.store();
        let r = self.domain_service.user_repository.delete(&id);
        proof {
            if r is Ok {
                let i = choose|i: int|
                    0 <= i < before.len() && #[trigger] before[i].id == id@ && self.store()
                        == before.remove(i);
                assert(before[i].id == id@);
            }
        }
        r
    }

    /// One page of the listing, newest first; page 0 of size 10 where the
    /// request names none.
    pub fn get_all_users(&self, page: Option<i64>, limit: Option<i64>) -> (r: Result<
        Vec<UserResponseDto>,
        UserError,
    >)
        ensures
            window_of(page, limit) is None ==> (r matches Err(UserError::StorageError(m)) && m@
                == "invalid pagination"@),
            self.reliable() && window_of(page, limit) is Some ==> r is Ok,
            window_of(page, limit) matches Some((offset, size)) ==> (r matches Ok(v)
                ==> response_views(v@) == page_of(self.store(), offset as int, size as int)),
            page is None && limit is None ==> (r matches Ok(v) ==> response_views(v@) == page_of(
                self.store(),
                0,
                10,
            )),
            r is Err ==> is_storage_error(r),
    {
        proof {
            if page is None && limit is None {
                assert(DEFAULT_PAGE * DEFAULT_LIMIT == 0);
                assert(window_of(page, limit) == Some((0i64, 10i64)));
            }
        }
        let (offset, size) = match page_window(page, limit) {
            Some(w) => w,
            None => {
                return Err(UserError::StorageError("invalid pagination".to_owned()));
            },
        };
        let users = match self.domain_service.user_repository.find_all(offset, size) {
            Ok(v) => v,
            Err(e) => {
                return Err(e);
            },
        };
        let mut out: Vec<UserResponseDto> = Vec::new();
        let mut i: usize = 0;
        while i < users.len()
            invariant
                i <= users@.len(),
                out@.len() == i,
                forall|j: int| 0 <= j < i ==> (#[trigger] out@[j])@ == users@[j]@,
            decreases users@.len() - i,
        {
            out.push(UserResponseDto::from_user(&users[i]));
            i = i + 1;
        }
        assert(response_views(out@) =~= crate::port::views(users@));
        Ok(out)
    }
}

} // verus!
