use vstd::prelude::*;
use crate::account::{
    ids_distinct, live_emails_distinct, live_with_id,
    apply_update, create_dto_valid, email_clash, has_live, has_live_email, id_used, live_email_index,
    live_index, live_responses, live_with_email, new_account, page_of, random_account_id, response_of,
    soft_deleted, update_dto_valid, verified, with_password, Account, AccountDirectory, CreateUserDto,
    UpdateUserDto, UserResponse,
};
use crate::credential::{self, argon2id_tagged, strong_password, verify_outcome, MAX_HASHABLE_LEN};
use crate::error::AppError;
use crate::token::{redeem, TokenStore, TokenType};
use crate::handlers::pages_for;
use vstd::arithmetic::div_mod::{lemma_fundamental_div_mod, lemma_mod_pos_bound};

verus! {

/// Looking up the account `id`.
pub open spec fn lookup_outcome(s: Seq<Account>, id: u128) -> Result<UserResponse, AppError> {
    if has_live(s, id) {
        Ok(response_of(s[live_index(s, id)]))
    } else {
        Err(AppError::NotFound)
    }
}

/// Updating the account `id` with `dto` at time `now`: the accounts after,
/// and the outcome.
pub open spec fn update_outcome(s: Seq<Account>, id: u128, dto: UpdateUserDto, now: u64) -> (
    Seq<Account>,
    Result<UserResponse, AppError>,
) {
    if !update_dto_valid(dto) {
        (s, Err(AppError::Validation))
    } else if !has_live(s, id) {
        (s, Err(AppError::NotFound))
    } else if dto.email matches Some(e) && email_clash(s, e@, Some(id)) {
        (s, Err(AppError::Validation))
    } else {
        let i = live_index(s, id);
        let a = apply_update(s[i], dto, now);
        (s.update(i, a), Ok(response_of(a)))
    }
}

/// Soft-deleting the account `id` at time `now`.
pub open spec fn delete_outcome(s: Seq<Account>, id: u128, now: u64) -> (
    Seq<Account>,
    Result<(), AppError>,
) {
    if has_live(s, id) {
        let i = live_index(s, id);
        (s.update(i, soft_deleted(s[i], now)), Ok(()))
    } else {
        (s, Err(AppError::NotFound))
    }
}

/// Marking the email of the account `id` verified.
pub open spec fn verify_email_outcome(s: Seq<Account>, id: u128) -> (
    Seq<Account>,
    Result<UserResponse, AppError>,
) {
    if has_live(s, id) {
        let i = live_index(s, id);
        (s.update(i, verified(s[i])), Ok(response_of(verified(s[i]))))
    } else {
        (s, Err(AppError::NotFound))
    }
}

/// The account at `i` got a new password hash `h` at time `now`, that
/// verifies against `password`, and nothing else changed.
pub open spec fn password_replaced(
    before: Seq<Account>,
    after: Seq<Account>,
    i: int,
    password: Seq<char>,
    now: u64,
) -> bool {
    let h = after[i].password_hash;
    &&& after == before.update(i, with_password(before[i], h, now))
    &&& verify_outcome(password, h@) == Ok::<(), AppError>(())
    &&& argon2id_tagged(h@)
}

/// What a password change by the account's owner, who supplies the current
/// password, leaves behind: `Validation` on a weak new password,
/// `NotFound` on a missing account, the check's failure on a wrong current
/// password (`Authentication`), each with nothing changed; otherwise a new
/// hash that verifies against the new password, or `Internal` with nothing
/// changed when the new password is too long to hash.
pub open spec fn self_change_result(
    before: Seq<Account>,
    after: Seq<Account>,
    r: Result<(), AppError>,
    id: u128,
    current: Seq<char>,
    new: Seq<char>,
    now: u64,
) -> bool {
    if !strong_password(new) {
        r == Err::<(), AppError>(AppError::Validation) && after == before
    } else if !has_live(before, id) {
        r == Err::<(), AppError>(AppError::NotFound) && after == before
    } else {
        let i = live_index(before, id);
        let check = verify_outcome(current, before[i].password_hash@);
        if check is Err {
            r == check && after == before
        } else {
            match r {
                Ok(_) => password_replaced(before, after, i, new, now),
                Err(e) => e == AppError::Internal && after == before && new.len() > MAX_HASHABLE_LEN,
            }
        }
    }
}

/// What a privileged password reset leaves behind: as a change by the owner,
/// with no check of the current password.
pub open spec fn forced_change_result(
    before: Seq<Account>,
    after: Seq<Account>,
    r: Result<(), AppError>,
    id: u128,
    new: Seq<char>,
    now: u64,
) -> bool {
    if !strong_password(new) {
        r == Err::<(), AppError>(AppError::Validation) && after == before
    } else if !has_live(before, id) {
        r == Err::<(), AppError>(AppError::NotFound) && after == before
    } else {
        match r {
            Ok(_) => password_replaced(before, after, live_index(before, id), new, now),
            Err(e) => e == AppError::Internal && after == before && new.len() > MAX_HASHABLE_LEN,
        }
    }
}

/// Changing one's own password: a wrong current password fails with
/// `Authentication` and leaves the stored hash as it was; the right one, with
/// a new password that meets the policy, succeeds, and the new stored hash
/// verifies against the new password.
pub proof fn lemma_own_password_change(
    before: Seq<Account>,
    after: Seq<Account>,
    r: Result<(), AppError>,
    id: u128,
    current: Seq<char>,
    new: Seq<char>,
    now: u64,
)
    requires
        self_change_result(before, after, r, id, current, new, now),
        strong_password(new),
        new.len() <= MAX_HASHABLE_LEN,
        has_live(before, id),
    ensures
        ({
            let i = live_index(before, id);
            &&& verify_outcome(current, before[i].password_hash@) == Err::<(), AppError>(
                AppError::Authentication,
            ) ==> r == Err::<(), AppError>(AppError::Authentication) && after == before
            &&& verify_outcome(current, before[i].password_hash@) is Ok ==> {
                &&& r is Ok
                &&& verify_outcome(new, after[i].password_hash@) == Ok::<(), AppError>(())
                &&& after == before.update(i, with_password(before[i], after[i].password_hash, now))
            }
        }),
{
}

/// Page `page` of `limit` items starts at item `(page - 1) * limit`; a page
/// that the list fills holds exactly the items up to `page * limit`, and
/// `pages_for` pages of `limit` cover `total` items, one fewer do not.
pub proof fn lemma_page_window<T>(l: Seq<T>, page: int, limit: int)
    requires
        page >= 1,
        limit >= 1,
    ensures
        page * limit <= l.len() ==> page_of(l, (page - 1) * limit, limit) == l.subrange(
            (page - 1) * limit,
            page * limit,
        ),
        (page - 1) * limit >= l.len() ==> page_of(l, (page - 1) * limit, limit).len() == 0,
        pages_for(l.len() as int, limit) * limit >= l.len(),
        l.len() > 0 ==> (pages_for(l.len() as int, limit) - 1) * limit < l.len(),
{
    assert((page - 1) * limit + limit == page * limit) by (nonlinear_arith);
    let total = l.len() as int;
    lemma_fundamental_div_mod(total, limit);
    lemma_mod_pos_bound(total, limit);
    let q = total / limit;
    let m = total % limit;
    assert(total == limit * q + m);
    if m == 0 {
        assert(pages_for(total, limit) == q);
        assert(q * limit == total) by (nonlinear_arith)
            requires
                total == limit * q + m,
                m == 0,
        ;
        assert(total > 0 ==> (q - 1) * limit < total) by (nonlinear_arith)
            requires
                total == limit * q,
                limit >= 1,
        ;
    } else {
        assert(pages_for(total, limit) == q + 1);
        assert((q + 1) * limit >= total && q * limit < total) by (nonlinear_arith)
            requires
                total == limit * q + m,
                0 < m < limit,
        ;
    }
}

/// After a soft deletion the account is no longer found but is kept, and a
/// new registration may take its email.
pub proof fn lemma_deleted_email_reusable(s: Seq<Account>, id: u128, now: u64)
    requires
        ids_distinct(s),
        live_emails_distinct(s),
        has_live(s, id),
    ensures
        lookup_outcome(delete_outcome(s, id, now).0, id) == Err::<UserResponse, AppError>(
            AppError::NotFound,
        ),
        delete_outcome(s, id, now).0.len() == s.len(),
        delete_outcome(s, id, now).0[live_index(s, id)].deleted,
        delete_outcome(s, id, now).0[live_index(s, id)].id == id,
        !email_clash(delete_outcome(s, id, now).0, s[live_index(s, id)].email@, None),
{
    let i = live_index(s, id);
    let s2 = delete_outcome(s, id, now).0;
    assert(live_with_id(s, id, i));
    if has_live(s2, id) {
        let j = live_index(s2, id);
        assert(live_with_id(s2, id, j));
        assert(j != i);
        assert(s[j].id == s[i].id);
    }
    if email_clash(s2, s[i].email@, None) {
        let j = choose|j: int| live_with_email(s2, s[i].email@, j);
        assert(j != i);
        assert(s[j].email@ == s[i].email@);
    }
}

/// Verifying an email twice leaves the accounts as verifying it once, and
/// succeeds both times.
pub proof fn lemma_verify_email_idempotent(s: Seq<Account>, id: u128)
    requires
        ids_distinct(s),
        has_live(s, id),
    ensures
        verify_email_outcome(verify_email_outcome(s, id).0, id) == verify_email_outcome(s, id),
{
    let i = live_index(s, id);
    let s2 = verify_email_outcome(s, id).0;
    assert(live_with_id(s, id, i));
    assert(live_with_id(s2, id, i));
    let j = live_index(s2, id);
    assert(live_with_id(s2, id, j));
    if j != i {
        assert(s[j].id == s[i].id);
    }
    assert(s2.update(i, verified(s2[i])) == s2);
}

/// Registration, lookup, update, password changes and soft deletion of
/// accounts, over the account directory.
pub struct UserManagementService {
    pub user_repo: AccountDirectory,
}

impl UserManagementService {
    pub open spec fn wf(&self) -> bool {
        self.user_repo.wf()
    }

    pub open spec fn accounts(&self) -> Seq<Account> {
        self.user_repo.accounts@
    }

    pub fn new(user_repo: AccountDirectory) -> (r: Self)
        ensures
            r.user_repo == user_repo,
    {
        Self { user_repo }
    }

    /// Registers a new ordinary account. Fails with `Validation` on malformed
    /// input or an email that a non-deleted account has; otherwise creates the
    /// account with a fresh id and an Argon2 hash of the password, unless
    /// hashing fails or the drawn id is taken (`Internal`).
    pub fn register_user(&mut self, dto: CreateUserDto, now: u64) -> (r: Result<Account, AppError>)
        requires
            old(self).wf(),
        ensures
            final(self).wf(),
            !create_dto_valid(dto) || email_clash(old(self).accounts(), dto.email@, None) ==> r
                == Err::<Account, AppError>(AppError::Validation)
                    && final(self).accounts() == old(self).accounts(),
            create_dto_valid(dto) && !email_clash(old(self).accounts(), dto.email@, None) ==> match r {
                Ok(a) => {
                    &&& a == new_account(a.id, dto, a.password_hash, now)
                    &&& !id_used(old(self).accounts(), a.id)
                    &&& verify_outcome(dto.password@, a.password_hash@) == Ok::<(), AppError>(())
                    &&& argon2id_tagged(a.password_hash@)
                    &&& final(self).accounts() == old(self).accounts().push(a)
                },
                Err(e) => e == AppError::Internal && final(self).accounts() == old(self).accounts(),
            },
    {
        if let Err(e) = dto.validate() {
            return Err(e);
        }
        if self.user_repo.email_in_use(dto.email.as_str(), None) {
            return Err(AppError::Validation);
        }
        let hash = match self.hash_password(dto.password.as_str()) {
            Ok(h) => h,
            Err(e) => return Err(e),
        };
        let id = random_account_id();
        self.user_repo.create(id, dto, hash, now)
    }

    /// The non-deleted account with the id `id`, or `NotFound`.
    pub fn get_user_by_id(&self, id: u128) -> (r: Result<UserResponse, AppError>)
        requires
            self.wf(),
        ensures
            r == lookup_outcome(self.accounts(), id),
    {
        match self.user_repo.find_live(id) {
            Some(i) => Ok(UserResponse::from_account(&self.user_repo.accounts[i])),
            None => Err(AppError::NotFound),
        }
    }

    /// The non-deleted account with the email `email`, or `NotFound`.
    pub fn get_user_by_email(&self, email: &str) -> (r: Result<UserResponse, AppError>)
        requires
            self.wf(),
        ensures
            has_live_email(self.accounts(), email@) ==> r == Ok::<UserResponse, AppError>(
                response_of(self.accounts()[live_email_index(self.accounts(), email@)]),
            ),
            !has_live_email(self.accounts(), email@) ==> r == Err::<UserResponse, AppError>(
                AppError::NotFound,
            ),
    {
        match self.user_repo.find_live_email(email) {
            Some(i) => Ok(UserResponse::from_account(&self.user_repo.accounts[i])),
            None => Err(AppError::NotFound),
        }
    }

    /// Page `page` (counted from 1) of the non-deleted accounts, `limit` to a
    /// page, with the number of non-deleted accounts. Fails with `Validation`
    /// when `page` or `limit` is below 1.
    pub fn get_all_users(&self, page: i64, limit: i64) -> (r: Result<(Vec<UserResponse>, u64), AppError>)
        ensures
            page < 1 || limit < 1 ==> r == Err::<(Vec<UserResponse>, u64), AppError>(
                AppError::Validation,
            ),
            page >= 1 && limit >= 1 ==> (r matches Ok((v, total)) && v@ == page_of(
                live_responses(self.accounts()),
                (page - 1) * limit,
                limit as int,
            ) && total == live_responses(self.accounts()).len()),
    {
        if page < 1 || limit < 1 {
            return Err(AppError::Validation);
        }
        let all = self.user_repo.list_live();
        let total = all.len();
        proof {
            assert(0 <= (page - 1) * limit <= 0x7fff_ffff_ffff_ffff * 0x7fff_ffff_ffff_ffff)
                by (nonlinear_arith)
                requires
                    1 <= page <= 0x7fff_ffff_ffff_ffff,
                    1 <= limit <= 0x7fff_ffff_ffff_ffff,
            ;
        }
        let offset: i128 = (page as i128 - 1) * (limit as i128);
        let mut out: Vec<UserResponse> = Vec::new();
        if offset < total as i128 {
            let start = offset as usize;
            let end: usize = if offset + limit as i128 >= total as i128 {
                total
            } else {
                (offset + limit as i128) as usize
            };
            let mut k: usize = start;
            while k < end
                invariant
                    start <= k <= end <= total,
                    total == all@.len(),
                    out@ == all@.subrange(start as int, k as int),
                decreases end - k,
            {
                out.push(all[k].copy());
                proof {
                    assert(all@.subrange(start as int, k + 1) == all@.subrange(
                        start as int,
                        k as int,
                    ).push(all@[k as int]));
                }
                k = k + 1;
            }
        }
        Ok((out, total as u64))
    }

    /// Changes the fields present in `dto` of the non-deleted account `id`.
    /// Fails with `Validation` on a malformed field, `NotFound` when there is
    /// no such account, and `Validation` when the new email is another
    /// non-deleted account's.
    pub fn update_user(&mut self, id: u128, dto: UpdateUserDto, now: u64) -> (r: Result<
        UserResponse,
        AppError,
    >)
        requires
            old(self).wf(),
        ensures
            final(self).wf(),
            (final(self).accounts(), r) == update_outcome(old(self).accounts(), id, dto, now),
    {
        if let Err(e) = dto.validate() {
            return Err(e);
        }
        let i = match self.user_repo.find_live(id) {
            Some(i) => i,
            None => return Err(AppError::NotFound),
        };
        if let Some(e) = &dto.email {
            if self.user_repo.email_in_use(e.as_str(), Some(id)) {
                return Err(AppError::Validation);
            }
        }
        let ghost s = self.accounts();
        let ghost d = dto;
        let mut a = self.user_repo.accounts[i].copy();
        match dto.username {
            Some(u) => a.username = u,
            None => {},
        }
        match dto.email {
            Some(e) => a.email = e,
            None => {},
        }
        match dto.is_active {
            Some(b) => a.is_active = b,
            None => {},
        }
        a.updated_at = now;
        assert(a == apply_update(s[i as int], d, now));
        proof {
            assert forall|j: int|
                0 <= j < s.len() && j != i && !s[j].deleted implies #[trigger] s[j].email@
                != a.email@ by {
                assert(s[j].id != s[i as int].id);
                if s[j].email@ == a.email@ {
                    assert(live_with_email(s, a.email@, j));
                }
            }
        }
        let out = UserResponse::from_account(&a);
        self.user_repo.set_account(i, a);
        Ok(out)
    }

    /// Changes the password of the non-deleted account `id` after checking
    /// `current_password` against the stored hash. Fails with `Validation` on
    /// a weak new password, `NotFound` when there is no such account, and as
    /// the check fails (`Authentication` on a wrong password); the stored hash
    /// is then unchanged. On success the stored hash verifies against the new
    /// password.
    pub fn update_password(
        &mut self,
        id: u128,
        current_password: &str,
        new_password: &str,
        now: u64,
    ) -> (r: Result<(), AppError>)
        requires
            old(self).wf(),
        ensures
            final(self).wf(),
            self_change_result(
                old(self).accounts(),
                final(self).accounts(),
                r,
                id,
                current_password@,
                new_password@,
                now,
            ),
    {
        if let Err(e) = credential::check_strength(new_password) {
            return Err(e);
        }
        let i = match self.user_repo.find_live(id) {
            Some(i) => i,
            None => return Err(AppError::NotFound),
        };
        if let Err(e) = self.verify_password(
            current_password,
            self.user_repo.accounts[i].password_hash.as_str(),
        ) {
            return Err(e);
        }
        self.store_new_password(i, new_password, now)
    }

    /// Sets a new password on the non-deleted account `id`, with no check of
    /// the current one. Fails with `Validation` on a weak password and
    /// `NotFound` when there is no such account.
    pub fn update_user_password(&mut self, id: u128, new_password: &str, now: u64) -> (r: Result<
        (),
        AppError,
    >)
        requires
            old(self).wf(),
        ensures
            final(self).wf(),
            forced_change_result(
                old(self).accounts(),
                final(self).accounts(),
                r,
                id,
                new_password@,
                now,
            ),
    {
        if let Err(e) = credential::check_strength(new_password) {
            return Err(e);
        }
        let i = match self.user_repo.find_live(id) {
            Some(i) => i,
            None => return Err(AppError::NotFound),
        };
        self.store_new_password(i, new_password, now)
    }

    fn store_new_password(&mut self, i: usize, new_password: &str, now: u64) -> (r: Result<
        (),
        AppError,
    >)
        requires
            old(self).wf(),
            i < old(self).accounts().len(),
            !old(self).accounts()[i as int].deleted,
        ensures
            final(self).wf(),
            match r {
                Ok(_) => password_replaced(
                    old(self).accounts(),
                    final(self).accounts(),
                    i as int,
                    new_password@,
                    now,
                ),
                Err(e) => e == AppError::Internal && final(self).accounts() == old(self).accounts()
                    && new_password@.len() > MAX_HASHABLE_LEN,
            },
    {
        let hash = match self.hash_password(new_password) {
            Ok(h) => h,
            Err(e) => return Err(e),
        };
        let ghost s = self.accounts();
        let mut a = self.user_repo.accounts[i].copy();
        a.password_hash = hash;
        a.updated_at = now;
        proof {
            assert forall|j: int|
                0 <= j < s.len() && j != i && !s[j].deleted implies #[trigger] s[j].email@
                != a.email@ by {
                assert(a.email@ == s[i as int].email@);
            }
        }
        self.user_repo.set_account(i, a);
        Ok(())
    }

    /// Soft-deletes the non-deleted account `id`: it is kept but no longer
    /// found. Fails with `NotFound` when there is no such account.
    pub fn delete_user(&mut self, id: u128, now: u64) -> (r: Result<(), AppError>)
        requires
            old(self).wf(),
        ensures
            final(self).wf(),
            (final(self).accounts(), r) == delete_outcome(old(self).accounts(), id, now),
    {
        let i = match self.user_repo.find_live(id) {
            Some(i) => i,
            None => return Err(AppError::NotFound),
        };
        let mut a = self.user_repo.accounts[i].copy();
        a.deleted = true;
        a.updated_at = now;
        self.user_repo.set_account(i, a);
        Ok(())
    }

    /// Marks the email of the non-deleted account `id` as verified; doing so
    /// again changes nothing. Fails with `NotFound` when there is no such
    /// account.
    pub fn verify_email(&mut self, id: u128) -> (r: Result<UserResponse, AppError>)
        requires
            old(self).wf(),
        ensures
            final(self).wf(),
            (final(self).accounts(), r) == verify_email_outcome(old(self).accounts(), id),
    {
        let i = match self.user_repo.find_live(id) {
            Some(i) => i,
            None => return Err(AppError::NotFound),
        };
        let ghost s = self.accounts();
        let mut a = self.user_repo.accounts[i].copy();
        a.email_verified = true;
        proof {
            assert forall|j: int|
                0 <= j < s.len() && j != i && !s[j].deleted implies #[trigger] s[j].email@
                != a.email@ by {
                assert(a.email@ == s[i as int].email@);
            }
        }
        let out = UserResponse::from_account(&a);
        self.user_repo.set_account(i, a);
        Ok(out)
    }

    /// Redeems an email-verification token and marks the email of the account
    /// it is bound to verified. A token that cannot be redeemed gives
    /// `InvalidToken`; one bound to no account, or to an account deleted
    /// since, gives `NotFound`.
    pub fn confirm_email(&mut self, tokens: &mut TokenStore, token: &str, now: u64) -> (r: Result<
        UserResponse,
        AppError,
    >)
        requires
            old(self).wf(),
            old(tokens).wf(),
        ensures
            final(self).wf(),
            final(tokens).wf(),
            final(tokens).records@ == redeem(
                old(tokens).records@,
                token@,
                TokenType::EmailVerification,
                now,
            ).0,
            match redeem(old(tokens).records@, token@, TokenType::EmailVerification, now).1 {
                Err(_) => r == Err::<UserResponse, AppError>(AppError::InvalidToken)
                    && final(self).accounts() == old(self).accounts(),
                Ok(None) => r == Err::<UserResponse, AppError>(AppError::NotFound)
                    && final(self).accounts() == old(self).accounts(),
                Ok(Some(id)) => (final(self).accounts(), r) == verify_email_outcome(
                    old(self).accounts(),
                    id,
                ),
            },
    {
        match tokens.validate_and_consume(token, TokenType::EmailVerification, now) {
            Err(f) => Err(f.to_app_error()),
            Ok(None) => Err(AppError::NotFound),
            Ok(Some(id)) => self.verify_email(id),
        }
    }

    /// Redeems a password-reset token and sets a new password on the account
    /// it is bound to. A weak password gives `Validation` and leaves the token
    /// unused; a token that cannot be redeemed gives `InvalidToken`; one bound
    /// to no account, or to an account deleted since, gives `NotFound`.
    pub fn reset_password_with_token(
        &mut self,
        tokens: &mut TokenStore,
        token: &str,
        new_password: &str,
        now: u64,
    ) -> (r: Result<(), AppError>)
        requires
            old(self).wf(),
            old(tokens).wf(),
        ensures
            final(self).wf(),
            final(tokens).wf(),
            !strong_password(new_password@) ==> r == Err::<(), AppError>(AppError::Validation)
                && final(self).accounts() == old(self).accounts()
                    && final(tokens).records@ == old(tokens).records@,
            strong_password(new_password@) ==> final(tokens).records@ == redeem(
                old(tokens).records@,
                token@,
                TokenType::PasswordReset,
                now,
            ).0,
            strong_password(new_password@) ==> match redeem(
                old(tokens).records@,
                token@,
                TokenType::PasswordReset,
                now,
            ).1 {
                Err(_) => r == Err::<(), AppError>(AppError::InvalidToken) && final(self).accounts()
                    == old(self).accounts(),
                Ok(None) => r == Err::<(), AppError>(AppError::NotFound) && final(self).accounts()
                    == old(self).accounts(),
                Ok(Some(id)) => if !has_live(old(self).accounts(), id) {
                    r == Err::<(), AppError>(AppError::NotFound)
                        && final(self).accounts() == old(self).accounts()
                } else {
                    match r {
                        Ok(_) => password_replaced(
                            old(self).accounts(),
                            final(self).accounts(),
                            live_index(old(self).accounts(), id),
                            new_password@,
                            now,
                        ),
                        Err(e) => e == AppError::Internal && final(self).accounts() == old(self).accounts()
                            && new_password@.len() > MAX_HASHABLE_LEN,
                    }
                },
            },
    {
        if let Err(e) = credential::check_strength(new_password) {
            return Err(e);
        }
        match tokens.validate_and_consume(token, TokenType::PasswordReset, now) {
            Err(f) => Err(f.to_app_error()),
            Ok(None) => Err(AppError::NotFound),
            Ok(Some(id)) => self.update_user_password(id, new_password, now),
        }
    }

    /// Hashes a password with Argon2id and a fresh salt into a PHC string;
    /// only a password too long to hash fails.
    pub fn hash_password(&self, password: &str) -> (r: Result<String, AppError>)
        ensures
            password@.len() <= MAX_HASHABLE_LEN ==> r is Ok,
            r matches Ok(h) ==> verify_outcome(password@, h@) == Ok::<(), AppError>(())
                && argon2id_tagged(h@),
            r matches Err(e) ==> e == AppError::Internal,
    {
        credential::hash(password)
    }

    /// Verifies a password against a stored hash.
    pub fn verify_password(&self, password: &str, hash: &str) -> (r: Result<(), AppError>)
        ensures
            r == verify_outcome(password@, hash@),
    {
        credential::verify(password, hash)
    }
}

} // verus!
