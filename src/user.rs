//! The `User` aggregate and its value objects.
use vstd::prelude::*;

use crate::error::UserError;
use crate::text::{has_char, lower_of, lowercase, trim, trimmed};

verus! {

/// The most characters a name may hold once trimmed.
pub const MAX_NAME_CHARS: usize = 100;

/// Whether `raw` makes a valid name: 1 to 100 characters once trimmed.
pub open spec fn name_acceptable(raw: Seq<char>) -> bool {
    1 <= trimmed(raw).len() <= MAX_NAME_CHARS
}

/// The normal form of an email address: trimmed, then lower-cased.
pub open spec fn normalized_email(raw: Seq<char>) -> Seq<char> {
    lower_of(trimmed(raw))
}

/// The structural check on a normalized address: non-empty, with an `@`
/// and a `.` somewhere in it.
pub open spec fn email_shape_ok(e: Seq<char>) -> bool {
    e.len() > 0 && e.contains('@') && e.contains('.')
}

/// Whether `raw` makes a valid email address.
pub open spec fn email_acceptable(raw: Seq<char>) -> bool {
    email_shape_ok(normalized_email(raw))
}

/// The message with which a name that fails validation is refused.
pub open spec fn name_error_message(raw: Seq<char>) -> Seq<char> {
    if trimmed(raw).len() == 0 {
        "Name cannot be empty"@
    } else {
        "Name cannot exceed 100 characters"@
    }
}

/// Whether `e` is the error with which the name `raw` is refused.
pub open spec fn is_name_error(e: UserError, raw: Seq<char>) -> bool {
    match e {
        UserError::InvalidName(m) => m@ == name_error_message(raw),
        _ => false,
    }
}

/// The message with which a normalized address of the wrong shape is
/// refused.
pub open spec fn shape_error_message(normal: Seq<char>) -> Seq<char> {
    if normal.len() == 0 {
        "Email cannot be empty"@
    } else {
        "Invalid email format"@
    }
}

/// Whether `e` is the error with which the address `raw` is refused.
pub open spec fn is_email_error(e: UserError, raw: Seq<char>) -> bool {
    match e {
        UserError::InvalidEmail(m) => m@ == shape_error_message(normalized_email(raw)),
        _ => false,
    }
}

/// Checks the shape of a normalized address: non-empty, with an `@` and a
/// `.` in it.
pub fn check_email_shape(normal: &str) -> (r: Result<(), UserError>)
    ensures
        r is Ok <==> email_shape_ok(normal@),
        r matches Err(e) ==> (e matches UserError::InvalidEmail(m) && m@ == shape_error_message(
            normal@,
        )),
{
    if normal.is_empty() {
        return Err(UserError::InvalidEmail("Email cannot be empty".to_owned()));
    }
    if !has_char(normal, '@') || !has_char(normal, '.') {
        return Err(UserError::InvalidEmail("Invalid email format".to_owned()));
    }
    Ok(())
}

/// A user's display name: trimmed, non-empty, at most 100 characters.
#[derive(Debug)]
pub struct UserName(String);

impl View for UserName {
    type V = Seq<char>;

    closed spec fn view(&self) -> Seq<char> {
        self.0@
    }
}

impl UserName {
    #[verifier::type_invariant]
    spec fn inv(&self) -> bool {
        self.0@ == trimmed(self.0@) && 1 <= self.0@.len() <= MAX_NAME_CHARS
    }

    /// Validates `name`: succeeds exactly when it holds 1 to 100 characters
    /// after trimming, and then holds the trimmed text.
    pub fn new(name: String) -> (r: Result<UserName, UserError>)
        ensures
            r is Ok <==> name_acceptable(name@),
            r matches Ok(n) ==> n@ == trimmed(name@),
            !name_acceptable(name@) ==> (r matches Err(e) && is_name_error(e, name@)),
    {
        let t = trim(name.as_str());
        let n = t.unicode_len();
        if n == 0 {
            return Err(UserError::InvalidName("Name cannot be empty".to_owned()));
        }
        if n > MAX_NAME_CHARS {
            return Err(UserError::InvalidName("Name cannot exceed 100 characters".to_owned()));
        }
        proof {
            crate::text::lemma_trimmed_idempotent(name@);
        }
        Ok(UserName(t.to_owned()))
    }

    /// The name's text: trimmed, 1 to 100 characters.
    pub fn as_str(&self) -> (r: &str)
        ensures
            r@ == self@,
            r@ == trimmed(r@),
            1 <= r@.len() <= MAX_NAME_CHARS,
    {
        proof {
            use_type_invariant(self);
        }
        self.0.as_str()
    }
}

impl Clone for UserName {
    fn clone(&self) -> (r: Self)
        ensures
            r@ == self@,
    {
        proof {
            use_type_invariant(self);
        }
        UserName(self.0.clone())
    }
}

impl PartialEq for UserName {
    fn eq(&self, o: &UserName) -> (r: bool) {
        self.0 == o.0
    }
}

impl vstd::std_specs::cmp::PartialEqSpecImpl for UserName {
    open spec fn obeys_eq_spec() -> bool {
        true
    }

    open spec fn eq_spec(&self, o: &UserName) -> bool {
        self@ == o@
    }
}

/// An email address in normal form: trimmed, lower-cased, with an `@` and a
/// `.` in it.
#[derive(Debug)]
pub struct Email(String);

impl View for Email {
    type V = Seq<char>;

    closed spec fn view(&self) -> Seq<char> {
        self.0@
    }
}

impl Email {
    #[verifier::type_invariant]
    spec fn inv(&self) -> bool {
        email_shape_ok(self.0@) && exists|raw: Seq<char>| self.0@ == normalized_email(raw)
    }

    /// Normalizes `email` (trim, then lower-case) and checks its shape:
    /// succeeds exactly when the normal form is non-empty and holds both an
    /// `@` and a `.`, and then holds the normal form.
    pub fn new(email: String) -> (r: Result<Email, UserError>)
        ensures
            r is Ok <==> email_acceptable(email@),
            r matches Ok(e) ==> e@ == normalized_email(email@),
            !email_acceptable(email@) ==> (r matches Err(e) && is_email_error(e, email@)),
    {
        let normal = lowercase(trim(email.as_str()));
        match check_email_shape(normal.as_str()) {
            Ok(()) => {},
            Err(e) => {
                return Err(e);
            },
        }
        assert(normal@ == normalized_email(email@));
        Ok(Email(normal))
    }

    /// The address's normal form.
    pub fn as_str(&self) -> (r: &str)
        ensures
            r@ == self@,
            email_shape_ok(r@),
            exists|raw: Seq<char>| r@ == normalized_email(raw),
    {
        proof {
            use_type_invariant(self);
        }
        self.0.as_str()
    }
}

impl Clone for Email {
    fn clone(&self) -> (r: Self)
        ensures
            r@ == self@,
    {
        proof {
            use_type_invariant(self);
        }
        Email(self.0.clone())
    }
}

impl PartialEq for Email {
    fn eq(&self, o: &Email) -> (r: bool) {
        self.0 == o.0
    }
}

impl vstd::std_specs::cmp::PartialEqSpecImpl for Email {
    open spec fn obeys_eq_spec() -> bool {
        true
    }

    open spec fn eq_spec(&self, o: &Email) -> bool {
        self@ == o@
    }
}

/// A user's identity: the 128 bits of a UUID.
#[derive(Debug, Clone, Copy, PartialEq, Eq, Structural, Hash)]
pub struct UserId(u128);

/// Relies on `uuid::Uuid::new_v4` for a random version-4 UUID, read out
/// through `Uuid::as_u128`: the version nibble is 4 and the variant bits are
/// `10`; the other bits are drawn at random.
#[verifier::external_body]
fn random_uuid_bits() -> (r: u128)
    ensures
        (r >> 76u128) & 0xfu128 == 4u128,
        (r >> 62u128) & 0x3u128 == 2u128,
{
    uuid::Uuid::new_v4().as_u128()
}

/// Relies on `chrono::Utc::now` for the current time, read out through
/// `DateTime::timestamp_micros` as microseconds since the Unix epoch; the
/// reading is never before the epoch.
#[verifier::external_body]
pub(crate) fn now_micros() -> (r: i64)
    ensures
        r >= 0,
{
    chrono::Utc::now().timestamp_micros()
}

impl View for UserId {
    type V = u128;

    closed spec fn view(&self) -> u128 {
        self.0
    }
}

impl UserId {
    /// A fresh random version-4 identity.
    pub fn new() -> (r: UserId)
        ensures
            (r@ >> 76u128) & 0xfu128 == 4u128,
            (r@ >> 62u128) & 0x3u128 == 2u128,
    {
        UserId(random_uuid_bits())
    }

    /// The identity with the given bits.
    pub fn from_u128(v: u128) -> (r: UserId)
        ensures
            r@ == v,
    {
        UserId(v)
    }

    /// The identity's bits.
    pub fn as_u128(&self) -> (r: u128)
        ensures
            r == self@,
    {
        self.0
    }
}

/// The abstract value of a `User`.
pub ghost struct UserView {
    pub id: u128,
    pub name: Seq<char>,
    pub email: Seq<char>,
    pub created_at: i64,
    pub updated_at: i64,
}

/// What a user becomes when `name` and `email` replace the fields that are
/// given and the update time is set to `at`.
pub open spec fn updated_view(
    u: UserView,
    name: Option<Seq<char>>,
    email: Option<Seq<char>>,
    at: i64,
) -> UserView {
    UserView {
        name: match name {
            Some(n) => n,
            None => u.name,
        },
        email: match email {
            Some(e) => e,
            None => u.email,
        },
        updated_at: at,
        ..u
    }
}

/// The view of an optional name.
pub open spec fn opt_name(n: Option<UserName>) -> Option<Seq<char>> {
    match n {
        Some(v) => Some(v@),
        None => None,
    }
}

/// The view of an optional email address.
pub open spec fn opt_email(e: Option<Email>) -> Option<Seq<char>> {
    match e {
        Some(v) => Some(v@),
        None => None,
    }
}

/// The aggregate root: identity, validated name and address, and the times
/// of creation and last update (microseconds since the Unix epoch), the
/// latter never before the former.
#[derive(Debug)]
pub struct User {
    id: UserId,
    name: UserName,
    email: Email,
    created_at: i64,
    updated_at: i64,
}

impl View for User {
    type V = UserView;

    closed spec fn view(&self) -> UserView {
        UserView {
            id: self.id@,
            name: self.name@,
            email: self.email@,
            created_at: self.created_at,
            updated_at: self.updated_at,
        }
    }
}

impl User {
    #[verifier::type_invariant]
    spec fn inv(&self) -> bool {
        self.created_at <= self.updated_at
    }

    /// A new user with a fresh identity, created and updated now.
    pub fn new(name: UserName, email: Email) -> (r: User)
        ensures
            r@.name == name@,
            r@.email == email@,
            r@.created_at == r@.updated_at,
            r@.created_at >= 0,
    {
        let id = UserId::new();
        let now = now_micros();
        User::from_persistence(id, name, email, now, now)
    }

    /// A user rebuilt from stored fields.
    pub fn from_persistence(
        id: UserId,
        name: UserName,
        email: Email,
        created_at: i64,
        updated_at: i64,
    ) -> (r: User)
        requires
            created_at <= updated_at,
        ensures
            r@ == (UserView { id: id@, name: name@, email: email@, created_at, updated_at }),
    {
        User { id, name, email, created_at, updated_at }
    }

    /// Replaces the fields that are given and stamps the update with the
    /// clock's reading, never moving the update time backwards.
    pub fn update(&mut self, name: Option<UserName>, email: Option<Email>) -> (r: Result<
        (),
        UserError,
    >)
        ensures
            r is Ok,
            final(self)@ == updated_view(
                old(self)@,
                opt_name(name),
                opt_email(email),
                final(self)@.updated_at,
            ),
            final(self)@.updated_at >= old(self)@.updated_at,
    {
        let now = now_micros();
        self.update_at(name, email, now);
        Ok(())
    }

    /// Replaces the fields that are given and sets the update time to `now`,
    /// or keeps the current one where `now` lies before it.
    pub fn update_at(&mut self, name: Option<UserName>, email: Option<Email>, now: i64)
        ensures
            final(self)@ == updated_view(
                old(self)@,
                opt_name(name),
                opt_email(email),
                if now >= old(self)@.updated_at {
                    now
                } else {
                    old(self)@.updated_at
                },
            ),
    {
        proof {
            use_type_invariant(&*self);
        }
        if let Some(n) = name {
            self.name = n;
        }
        if let Some(e) = email {
            self.email = e;
        }
        if now >= self.updated_at {
            self.updated_at = now;
        }
    }

    /// The user's identity.
    pub fn id(&self) -> (r: &UserId)
        ensures
            r@ == self@.id,
    {
        &self.id
    }

    /// The user's name.
    pub fn name(&self) -> (r: &UserName)
        ensures
            r@ == self@.name,
    {
        &self.name
    }

    /// The user's email address.
    pub fn email(&self) -> (r: &Email)
        ensures
            r@ == self@.email,
    {
        &self.email
    }

    /// When the user was created.
    pub fn created_at(&self) -> (r: i64)
        ensures
            r == self@.created_at,
            r <= self@.updated_at,
    {
        proof {
            use_type_invariant(self);
        }
        self.created_at
    }

    /// When the user was last updated.
    pub fn updated_at(&self) -> (r: i64)
        ensures
            r == self@.updated_at,
    {
        self.updated_at
    }
}

impl Clone for User {
    fn clone(&self) -> (r: Self)
        ensures
            r@ == self@,
    {
        proof {
            use_type_invariant(self);
        }
        User {
            id: self.id,
            name: self.name.clone(),
            email: self.email.clone(),
            created_at: self.created_at,
            updated_at: self.updated_at,
        }
    }
}

/// Validating the text of a valid name again accepts it and yields the same
/// text.
pub proof fn lemma_name_revalidation(raw: Seq<char>)
    requires
        name_acceptable(raw),
    ensures
        name_acceptable(trimmed(raw)),
        trimmed(trimmed(raw)) == trimmed(raw),
{
    crate::text::lemma_trimmed_idempotent(raw);
}

/// Where the normal form of a valid address has no edge whitespace and is
/// left as it is by lower-casing, normalizing that form again gives it back.
pub proof fn lemma_settled_email_renormalizes(raw: Seq<char>)
    requires
        email_acceptable(raw),
        trimmed(normalized_email(raw)) == normalized_email(raw),
        lower_of(normalized_email(raw)) == normalized_email(raw),
    ensures
        email_acceptable(normalized_email(raw)),
        normalized_email(normalized_email(raw)) == normalized_email(raw),
{
}

} // verus!
