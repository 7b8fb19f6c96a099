use vstd::prelude::*;
use vstd::string::StrSliceExecFns;
use uuid::Uuid;
use crate::credential::{self, strong_password};
use crate::error::AppError;
use crate::policy::Role;

verus! {

/// Shortest and longest usernames accepted, in characters.
pub const USERNAME_MIN_LEN: usize = 3;

pub const USERNAME_MAX_LEN: usize = 50;

/// Whether `s` is an email address by `validator::validate_email`.
pub uninterp spec fn email_valid(s: Seq<char>) -> bool;

/// Relies on `validator::validate_email`: whether a string is a well-formed
/// email address; the answer depends on the string alone.
#[verifier::external_body]
fn is_valid_email(s: &str) -> (r: bool)
    ensures
        r == email_valid(s@),
{
    validator::validate_email(s)
}

/// Relies on `uuid::Uuid::new_v4`: a random identifier, of which nothing is
/// promised.
#[verifier::external_body]
pub(crate) fn random_account_id() -> (r: u128) {
    Uuid::new_v4().as_u128()
}

/// A stored account.
pub struct Account {
    pub id: u128,
    pub email: String,
    pub username: String,
    /// A PHC-format Argon2 hash; never the password itself.
    pub password_hash: String,
    pub role: Role,
    pub is_active: bool,
    pub email_verified: bool,
    /// Seconds since the epoch.
    pub created_at: u64,
    pub updated_at: u64,
    /// Soft-delete marker: a deleted account is kept but no longer found.
    pub deleted: bool,
}

impl Account {
    pub fn copy(&self) -> (r: Self)
        ensures
            r == *self,
    {
        Account {
            id: self.id,
            email: self.email.clone(),
            username: self.username.clone(),
            password_hash: self.password_hash.clone(),
            role: self.role,
            is_active: self.is_active,
            email_verified: self.email_verified,
            created_at: self.created_at,
            updated_at: self.updated_at,
            deleted: self.deleted,
        }
    }
}

/// What callers see of an account: everything but the password hash and the
/// soft-delete marker.
pub struct UserResponse {
    pub id: u128,
    pub email: String,
    pub username: String,
    pub role: Role,
    pub is_active: bool,
    pub email_verified: bool,
    pub created_at: u64,
    pub updated_at: u64,
}

pub open spec fn response_of(a: Account) -> UserResponse {
    UserResponse {
        id: a.id,
        email: a.email,
        username: a.username,
        role: a.role,
        is_active: a.is_active,
        email_verified: a.email_verified,
        created_at: a.created_at,
        updated_at: a.updated_at,
    }
}

impl UserResponse {
    pub fn copy(&self) -> (r: Self)
        ensures
            r == *self,
    {
        UserResponse {
            id: self.id,
            email: self.email.clone(),
            username: self.username.clone(),
            role: self.role,
            is_active: self.is_active,
            email_verified: self.email_verified,
            created_at: self.created_at,
            updated_at: self.updated_at,
        }
    }

    pub fn from_account(a: &Account) -> (r: Self)
        ensures
            r == response_of(*a),
    {
        UserResponse {
            id: a.id,
            email: a.email.clone(),
            username: a.username.clone(),
            role: a.role,
            is_active: a.is_active,
            email_verified: a.email_verified,
            created_at: a.created_at,
            updated_at: a.updated_at,
        }
    }
}

/// Input of a registration.
pub struct CreateUserDto {
    pub username: String,
    pub email: String,
    pub password: String,
}

/// Input of an update: each field present is changed.
pub struct UpdateUserDto {
    pub username: Option<String>,
    pub email: Option<String>,
    pub is_active: Option<bool>,
}

/// Input of a password change.
pub struct UpdatePasswordDto {
    pub current_password: String,
    pub new_password: String,
}

pub open spec fn username_valid(u: Seq<char>) -> bool {
    USERNAME_MIN_LEN <= u.len() <= USERNAME_MAX_LEN
}

pub open spec fn create_dto_valid(d: CreateUserDto) -> bool {
    &&& username_valid(d.username@)
    &&& email_valid(d.email@)
    &&& strong_password(d.password@)
}

pub open spec fn update_dto_valid(d: UpdateUserDto) -> bool {
    &&& (d.username matches Some(u) ==> username_valid(u@))
    &&& (d.email matches Some(e) ==> email_valid(e@))
}

fn check_username(u: &str) -> (r: bool)
    ensures
        r == username_valid(u@),
{
    let n = u.unicode_len();
    USERNAME_MIN_LEN <= n && n <= USERNAME_MAX_LEN
}

impl CreateUserDto {
    /// Rejects a malformed username or email, or a weak password.
    pub fn validate(&self) -> (r: Result<(), AppError>)
        ensures
            r is Ok <==> create_dto_valid(*self),
            r matches Err(e) ==> e == AppError::Validation,
    {
        if !check_username(self.username.as_str()) || !is_valid_email(self.email.as_str()) {
            return Err(AppError::Validation);
        }
        credential::check_strength(self.password.as_str())
    }
}

impl UpdateUserDto {
    /// Rejects a malformed username or email, where one is given.
    pub fn validate(&self) -> (r: Result<(), AppError>)
        ensures
            r is Ok <==> update_dto_valid(*self),
            r matches Err(e) ==> e == AppError::Validation,
    {
        if let Some(u) = &self.username {
            if !check_username(u.as_str()) {
                return Err(AppError::Validation);
            }
        }
        if let Some(e) = &self.email {
            if !is_valid_email(e.as_str()) {
                return Err(AppError::Validation);
            }
        }
        Ok(())
    }
}

pub open spec fn ids_distinct(s: Seq<Account>) -> bool {
    forall|i: int, j: int|
        0 <= i < s.len() && 0 <= j < s.len() && i != j ==> #[trigger] s[i].id != #[trigger] s[j].id
}

/// Email addresses are unique among accounts that are not deleted.
pub open spec fn live_emails_distinct(s: Seq<Account>) -> bool {
    forall|i: int, j: int|
        0 <= i < s.len() && 0 <= j < s.len() && i != j && !s[i].deleted && !s[j].deleted
            ==> #[trigger] s[i].email@ != #[trigger] s[j].email@
}

pub open spec fn id_used(s: Seq<Account>, id: u128) -> bool {
    exists|i: int| 0 <= i < s.len() && #[trigger] s[i].id == id
}

pub open spec fn live_with_id(s: Seq<Account>, id: u128, i: int) -> bool {
    0 <= i < s.len() && !s[i].deleted && s[i].id == id
}

pub open spec fn live_with_email(s: Seq<Account>, e: Seq<char>, i: int) -> bool {
    0 <= i < s.len() && !s[i].deleted && s[i].email@ == e
}

/// Whether a non-deleted account has the id `id`.
pub open spec fn has_live(s: Seq<Account>, id: u128) -> bool {
    exists|i: int| live_with_id(s, id, i)
}

pub open spec fn live_index(s: Seq<Account>, id: u128) -> int {
    choose|i: int| live_with_id(s, id, i)
}

pub open spec fn has_live_email(s: Seq<Account>, e: Seq<char>) -> bool {
    exists|i: int| live_with_email(s, e, i)
}

pub open spec fn live_email_index(s: Seq<Account>, e: Seq<char>) -> int {
    choose|i: int| live_with_email(s, e, i)
}

/// Whether a non-deleted account other than `except` has the email `e`.
pub open spec fn email_clash(s: Seq<Account>, e: Seq<char>, except: Option<u128>) -> bool {
    exists|i: int| live_with_email(s, e, i) && (except matches Some(x) ==> s[i].id != x)
}

/// The non-deleted accounts, as callers see them, in directory order.
pub open spec fn live_responses(s: Seq<Account>) -> Seq<UserResponse>
    decreases s.len(),
{
    if s.len() == 0 {
        Seq::empty()
    } else if s.last().deleted {
        live_responses(s.drop_last())
    } else {
        live_responses(s.drop_last()).push(response_of(s.last()))
    }
}

/// The `limit` items that start at `offset`, or fewer at the end.
pub open spec fn page_of<T>(l: Seq<T>, offset: int, limit: int) -> Seq<T> {
    if offset >= l.len() {
        Seq::empty()
    } else if offset + limit >= l.len() {
        l.subrange(offset, l.len() as int)
    } else {
        l.subrange(offset, offset + limit)
    }
}

/// The account that a registration creates.
pub open spec fn new_account(id: u128, d: CreateUserDto, hash: String, now: u64) -> Account {
    Account {
        id,
        email: d.email,
        username: d.username,
        password_hash: hash,
        role: Role::Ordinary,
        is_active: true,
        email_verified: false,
        created_at: now,
        updated_at: now,
        deleted: false,
    }
}

/// An account with the fields present in `d` changed.
pub open spec fn apply_update(a: Account, d: UpdateUserDto, now: u64) -> Account {
    Account {
        username: match d.username {
            Some(u) => u,
            None => a.username,
        },
        email: match d.email {
            Some(e) => e,
            None => a.email,
        },
        is_active: match d.is_active {
            Some(b) => b,
            None => a.is_active,
        },
        updated_at: now,
        ..a
    }
}

pub open spec fn with_password(a: Account, hash: String, now: u64) -> Account {
    Account { password_hash: hash, updated_at: now, ..a }
}

pub open spec fn soft_deleted(a: Account, now: u64) -> Account {
    Account { deleted: true, updated_at: now, ..a }
}

pub open spec fn verified(a: Account) -> Account {
    Account { email_verified: true, ..a }
}

/// The account directory: every account ever created, deleted ones kept.
pub struct AccountDirectory {
    pub accounts: Vec<Account>,
}

impl AccountDirectory {
    pub open spec fn wf(&self) -> bool {
        ids_distinct(self.accounts@) && live_emails_distinct(self.accounts@)
    }

    pub fn new() -> (r: Self)
        ensures
            r.wf(),
            r.accounts@.len() == 0,
    {
        AccountDirectory { accounts: Vec::new() }
    }

    /// The position of the non-deleted account with the id `id`.
    pub fn find_live(&self, id: u128) -> (r: Option<usize>)
        requires
            self.wf(),
        ensures
            r is None <==> !has_live(self.accounts@, id),
            r matches Some(i) ==> i == live_index(self.accounts@, id) && live_with_id(
                self.accounts@,
                id,
                i as int,
            ),
    {
        let n = self.accounts.len();
        let mut i: usize = 0;
        while i < n
            invariant
                self.wf(),
                n == self.accounts@.len(),
                i <= n,
                forall|j: int| 0 <= j < i ==> !live_with_id(self.accounts@, id, j),
            decreases n - i,
        {
            if self.accounts[i].id == id && !self.accounts[i].deleted {
                proof {
                    let s = self.accounts@;
                    assert(live_with_id(s, id, i as int));
                    let k = live_index(s, id);
                    if k != i as int {
                        assert(s[k].id == s[i as int].id);
                    }
                }
                return Some(i);
            }
            i = i + 1;
        }
        None
    }

    /// The position of the non-deleted account with the email `email`.
    pub fn find_live_email(&self, email: &str) -> (r: Option<usize>)
        requires
            self.wf(),
        ensures
            r is None <==> !has_live_email(self.accounts@, email@),
            r matches Some(i) ==> i == live_email_index(self.accounts@, email@) && live_with_email(
                self.accounts@,
                email@,
                i as int,
            ),
    {
        let key = email.to_owned();
        let n = self.accounts.len();
        let mut i: usize = 0;
        while i < n
            invariant
                self.wf(),
                n == self.accounts@.len(),
                i <= n,
                key@ == email@,
                forall|j: int| 0 <= j < i ==> !live_with_email(self.accounts@, email@, j),
            decreases n - i,
        {
            if self.accounts[i].email == key && !self.accounts[i].deleted {
                proof {
                    let s = self.accounts@;
                    assert(live_with_email(s, email@, i as int));
                    let k = live_email_index(s, email@);
                    if k != i as int {
                        assert(s[k].email@ == s[i as int].email@);
                    }
                }
                return Some(i);
            }
            i = i + 1;
        }
        None
    }

    /// Whether a non-deleted account other than `except` has the email `email`.
    pub fn email_in_use(&self, email: &str, except: Option<u128>) -> (r: bool)
        ensures
            r == email_clash(self.accounts@, email@, except),
    {
        let key = email.to_owned();
        let n = self.accounts.len();
        let mut i: usize = 0;
        while i < n
            invariant
                n == self.accounts@.len(),
                i <= n,
                key@ == email@,
                forall|j: int|
                    0 <= j < i ==> !(live_with_email(self.accounts@, email@, j) && (except matches Some(
                        x,
                    ) ==> self.accounts@[j].id != x)),
            decreases n - i,
        {
            if self.accounts[i].email == key && !self.accounts[i].deleted {
                let other = match except {
                    Some(x) => self.accounts[i].id != x,
                    None => true,
                };
                if other {
                    assert(live_with_email(self.accounts@, email@, i as int));
                    return true;
                }
            }
            i = i + 1;
        }
        false
    }

    /// Whether any account, deleted or not, has the id `id`.
    pub fn id_in_use(&self, id: u128) -> (r: bool)
        ensures
            r == id_used(self.accounts@, id),
    {
        let n = self.accounts.len();
        let mut i: usize = 0;
        while i < n
            invariant
                n == self.accounts@.len(),
                i <= n,
                forall|j: int| 0 <= j < i ==> self.accounts@[j].id != id,
            decreases n - i,
        {
            if self.accounts[i].id == id {
                return true;
            }
            i = i + 1;
        }
        false
    }

    /// All non-deleted accounts as callers see them, in directory order.
    pub fn list_live(&self) -> (r: Vec<UserResponse>)
        ensures
            r@ == live_responses(self.accounts@),
    {
        let n = self.accounts.len();
        let mut out: Vec<UserResponse> = Vec::new();
        let mut i: usize = 0;
        while i < n
            invariant
                n == self.accounts@.len(),
                i <= n,
                out@ == live_responses(self.accounts@.subrange(0, i as int)),
            decreases n - i,
        {
            proof {
                let s = self.accounts@;
                assert(s.subrange(0, i + 1).drop_last() == s.subrange(0, i as int));
                assert(s.subrange(0, i + 1).last() == s[i as int]);
            }
            if !self.accounts[i].deleted {
                out.push(UserResponse::from_account(&self.accounts[i]));
            }
            i = i + 1;
        }
        proof {
            assert(self.accounts@.subrange(0, n as int) == self.accounts@);
        }
        out
    }

    /// Replaces the account at `i` by one with the same id whose email, if it
    /// is not deleted, no other non-deleted account has.
    pub fn set_account(&mut self, i: usize, a: Account)
        requires
            old(self).wf(),
            i < old(self).accounts@.len(),
            a.id == old(self).accounts@[i as int].id,
            !a.deleted ==> forall|j: int|
                0 <= j < old(self).accounts@.len() && j != i && !old(self).accounts@[j].deleted
                    ==> #[trigger] old(self).accounts@[j].email@ != a.email@,
        ensures
            final(self).wf(),
            final(self).accounts@ == old(self).accounts@.update(i as int, a),
    {
        let ghost s = self.accounts@;
        self.accounts.set(i, a);
        proof {
            let s2 = self.accounts@;
            assert forall|x: int, y: int|
                0 <= x < s2.len() && 0 <= y < s2.len() && x != y implies #[trigger] s2[x].id
                != #[trigger] s2[y].id by {
                assert(s[x].id == s2[x].id);
                assert(s[y].id == s2[y].id);
            }
            assert forall|x: int, y: int|
                0 <= x < s2.len() && 0 <= y < s2.len() && x != y && !s2[x].deleted
                    && !s2[y].deleted implies #[trigger] s2[x].email@ != #[trigger] s2[y].email@ by {
                if x == i {
                    assert(s[y].email@ != a.email@);
                } else if y == i {
                    assert(s[x].email@ != a.email@);
                } else {
                    assert(s[x] == s2[x] && s[y] == s2[y]);
                }
            }
        }
    }

    /// Adds the account that a registration of `dto` creates under the id
    /// `id` with the password hash `hash`, and returns it. Fails with
    /// `Validation` when a non-deleted account has the email, and with
    /// `Internal` when some account already has the id.
    pub fn create(&mut self, id: u128, dto: CreateUserDto, hash: String, now: u64) -> (r: Result<
        Account,
        AppError,
    >)
        requires
            old(self).wf(),
        ensures
            final(self).wf(),
            email_clash(old(self).accounts@, dto.email@, None) ==> r == Err::<Account, AppError>(
                AppError::Validation,
            ) && final(self).accounts@ == old(self).accounts@,
            !email_clash(old(self).accounts@, dto.email@, None) && id_used(old(self).accounts@, id)
                ==> r == Err::<Account, AppError>(AppError::Internal) && final(self).accounts@ == old(
                self,
            ).accounts@,
            !email_clash(old(self).accounts@, dto.email@, None) && !id_used(old(self).accounts@, id)
                ==> r == Ok::<Account, AppError>(new_account(id, dto, hash, now))
                && final(self).accounts@ == old(self).accounts@.push(new_account(id, dto, hash, now)),
    {
        if self.email_in_use(dto.email.as_str(), None) {
            return Err(AppError::Validation);
        }
        if self.id_in_use(id) {
            return Err(AppError::Internal);
        }
        let ghost d = dto;
        let account = Account {
            id,
            email: dto.email,
            username: dto.username,
            password_hash: hash,
            role: Role::Ordinary,
            is_active: true,
            email_verified: false,
            created_at: now,
            updated_at: now,
            deleted: false,
        };
        let out = account.copy();
        let ghost s = self.accounts@;
        self.accounts.push(account);
        proof {
            let s2 = self.accounts@;
            let n = s.len() as int;
            assert forall|x: int, y: int|
                0 <= x < s2.len() && 0 <= y < s2.len() && x != y implies #[trigger] s2[x].id
                != #[trigger] s2[y].id by {
                if x == n {
                    assert(s[y].id == s2[y].id);
                } else if y == n {
                    assert(s[x].id == s2[x].id);
                } else {
                    assert(s[x] == s2[x] && s[y] == s2[y]);
                }
            }
            assert forall|x: int, y: int|
                0 <= x < s2.len() && 0 <= y < s2.len() && x != y && !s2[x].deleted
                    && !s2[y].deleted implies #[trigger] s2[x].email@ != #[trigger] s2[y].email@ by {
                if x == n {
                    assert(!live_with_email(s, d.email@, y));
                } else if y == n {
                    assert(!live_with_email(s, d.email@, x));
                } else {
                    assert(s[x] == s2[x] && s[y] == s2[y]);
                }
            }
        }
        Ok(out)
    }
}

} // verus!
