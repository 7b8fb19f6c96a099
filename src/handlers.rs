use vstd::prelude::*;
use uuid::Uuid;
use crate::account::{
    create_dto_valid, email_clash, id_used, new_account, live_responses, page_of, response_of, CreateUserDto,
    UpdatePasswordDto, UpdateUserDto, UserResponse,
};
use crate::credential::{argon2id_tagged, verify_outcome};
use crate::error::AppError;
use crate::policy::{allowed, can_act, Action, Actor, Role};
use crate::user_management::{
    delete_outcome, forced_change_result, lookup_outcome, self_change_result, update_outcome,
    UserManagementService,
};

verus! {

/// The id that `uuid::Uuid::parse_str` reads from `s`, if it reads one.
pub uninterp spec fn uuid_of(s: Seq<char>) -> Option<u128>;

/// Relies on `uuid::Uuid::parse_str`: the UUID written in a string, if any;
/// the answer depends on the string alone.
#[verifier::external_body]
fn parse_uuid(s: &str) -> (r: Option<u128>)
    ensures
        r == uuid_of(s@),
{
    match Uuid::parse_str(s) {
        Ok(u) => Some(u.as_u128()),
        Err(_) => None,
    }
}

/// The claims of an authenticated request: the subject's id, as written in
/// the token, and its role.
pub struct Claims {
    pub sub: String,
    pub role: Role,
}

/// The actor that `c` names; a subject that is not a UUID is an
/// authentication failure.
pub open spec fn actor_of(c: Claims) -> Result<Actor, AppError> {
    match uuid_of(c.sub@) {
        Some(id) => Ok(Actor { id, role: c.role }),
        None => Err(AppError::Authentication),
    }
}

/// The actor that `c` names, if it may perform `action` on `target`.
pub open spec fn permit(c: Claims, action: Action, target: u128) -> Result<Actor, AppError> {
    match actor_of(c) {
        Err(e) => Err(e),
        Ok(a) => if allowed(a, action, target) {
            Ok(a)
        } else {
            Err(AppError::Authorization)
        },
    }
}

/// Whether `a` may update the account `target`, setting its active flag or
/// not: the basic fields need the right to update that account, and the
/// active flag needs its own right on top.
pub open spec fn update_decision(a: Actor, target: u128, sets_active: bool) -> Result<(), AppError> {
    let base = if a.id == target {
        Action::UpdateOwnBasicFields
    } else {
        Action::UpdateAnyBasicFields
    };
    if !allowed(a, base, target) {
        Err(AppError::Authorization)
    } else if sets_active && !allowed(a, Action::UpdateActiveFlag, target) {
        Err(AppError::Authorization)
    } else {
        Ok(())
    }
}

/// The number of pages of `limit` items that `total` items fill.
pub open spec fn pages_for(total: int, limit: int) -> int {
    if total % limit == 0 {
        total / limit
    } else {
        total / limit + 1
    }
}

/// One page of accounts with the figures a client pages by.
pub struct PaginatedResponse {
    pub data: Vec<UserResponse>,
    pub total: u64,
    pub page: i64,
    pub limit: i64,
    pub total_pages: u64,
}

impl Claims {
    /// The actor these claims name.
    pub fn actor(&self) -> (r: Result<Actor, AppError>)
        ensures
            r == actor_of(*self),
    {
        match parse_uuid(self.sub.as_str()) {
            Some(id) => Ok(Actor { id, role: self.role }),
            None => Err(AppError::Authentication),
        }
    }

    /// The actor these claims name, if it may perform `action` on `target`.
    pub fn permit(&self, action: Action, target: u128) -> (r: Result<Actor, AppError>)
        ensures
            r == permit(*self, action, target),
    {
        let a = match self.actor() {
            Ok(a) => a,
            Err(e) => return Err(e),
        };
        if can_act(&a, action, target) {
            Ok(a)
        } else {
            Err(AppError::Authorization)
        }
    }
}

/// Decides whether `actor` may update the account `target`.
pub fn authorize_update(actor: &Actor, target: u128, sets_active: bool) -> (r: Result<(), AppError>)
    ensures
        r == update_decision(*actor, target, sets_active),
{
    let base = if actor.id == target {
        Action::UpdateOwnBasicFields
    } else {
        Action::UpdateAnyBasicFields
    };
    if !can_act(actor, base, target) {
        return Err(AppError::Authorization);
    }
    if sets_active && !can_act(actor, Action::UpdateActiveFlag, target) {
        return Err(AppError::Authorization);
    }
    Ok(())
}

/// An ordinary actor may update the basic fields of its own account and of
/// no other; no one but an administrator may set the active flag, on its own
/// account included; an administrator may update any account.
pub proof fn lemma_update_authorization(a: Actor, b: u128, sets_active: bool)
    ensures
        a.role == Role::Ordinary ==> update_decision(a, a.id, false) == Ok::<(), AppError>(()),
        a.role == Role::Ordinary && b != a.id ==> update_decision(a, b, sets_active) == Err::<
            (),
            AppError,
        >(AppError::Authorization),
        a.role != Role::Administrator ==> update_decision(a, b, true) == Err::<(), AppError>(
            AppError::Authorization,
        ),
        a.role == Role::Administrator ==> update_decision(a, b, sets_active) == Ok::<(), AppError>(
            (),
        ),
{
}

/// The number of pages of `limit` items that `total` items fill.
pub fn total_pages(total: u64, limit: i64) -> (r: u64)
    requires
        limit >= 1,
    ensures
        r == pages_for(total as int, limit as int),
{
    let l = limit as u64;
    let q = total / l;
    if total % l == 0 {
        q
    } else {
        proof {
            assert(l >= 2);
            assert(q <= total / 2) by (nonlinear_arith)
                requires
                    q == total / l,
                    l >= 2,
            ;
        }
        q + 1
    }
}

/// Lists page `page` of the accounts, `limit` to a page; administrators only.
pub fn list_users(claims: &Claims, service: &UserManagementService, page: i64, limit: i64) -> (r:
    Result<PaginatedResponse, AppError>)
    ensures
        permit(*claims, Action::ListAll, 0) matches Err(e) ==> r == Err::<
            PaginatedResponse,
            AppError,
        >(e),
        permit(*claims, Action::ListAll, 0) is Ok && (page < 1 || limit < 1) ==> r == Err::<
            PaginatedResponse,
            AppError,
        >(AppError::Validation),
        permit(*claims, Action::ListAll, 0) is Ok && page >= 1 && limit >= 1 ==> (r matches Ok(p)
            && p.data@ == page_of(
            live_responses(service.accounts()),
            (page - 1) * limit,
            limit as int,
        ) && p.total == live_responses(service.accounts()).len() && p.page == page && p.limit
            == limit && p.total_pages == pages_for(p.total as int, limit as int)),
{
    if let Err(e) = claims.permit(Action::ListAll, 0) {
        return Err(e);
    }
    let (data, total) = match service.get_all_users(page, limit) {
        Ok(x) => x,
        Err(e) => return Err(e),
    };
    let total_pages = total_pages(total, limit);
    Ok(PaginatedResponse { data, total, page, limit, total_pages })
}

/// The account of the actor of the request.
pub fn get_current_user(claims: &Claims, service: &UserManagementService) -> (r: Result<
    UserResponse,
    AppError,
>)
    requires
        service.wf(),
    ensures
        match actor_of(*claims) {
            Err(e) => r == Err::<UserResponse, AppError>(e),
            Ok(a) => r == lookup_outcome(service.accounts(), a.id),
        },
{
    match claims.actor() {
        Ok(a) => service.get_user_by_id(a.id),
        Err(e) => Err(e),
    }
}

/// The account `id`: an actor may read its own, an administrator any.
pub fn get_user(claims: &Claims, service: &UserManagementService, id: u128) -> (r: Result<
    UserResponse,
    AppError,
>)
    requires
        service.wf(),
    ensures
        match actor_of(*claims) {
            Err(e) => r == Err::<UserResponse, AppError>(e),
            Ok(a) => if allowed(a, if a.id == id { Action::ReadSelf } else { Action::ReadAny }, id) {
                r == lookup_outcome(service.accounts(), id)
            } else {
                r == Err::<UserResponse, AppError>(AppError::Authorization)
            },
        },
{
    let a = match claims.actor() {
        Ok(a) => a,
        Err(e) => return Err(e),
    };
    let action = if a.id == id {
        Action::ReadSelf
    } else {
        Action::ReadAny
    };
    if !can_act(&a, action, id) {
        return Err(AppError::Authorization);
    }
    service.get_user_by_id(id)
}

/// Creates an account; administrators only.
pub fn create_user(
    claims: &Claims,
    service: &mut UserManagementService,
    dto: CreateUserDto,
    now: u64,
) -> (r: Result<UserResponse, AppError>)
    requires
        old(service).wf(),
    ensures
        final(service).wf(),
        permit(*claims, Action::Create, 0) matches Err(e) ==> r == Err::<UserResponse, AppError>(e)
            && final(service).accounts() == old(service).accounts(),
        permit(*claims, Action::Create, 0) is Ok && (!create_dto_valid(dto) || email_clash(
            old(service).accounts(),
            dto.email@,
            None,
        )) ==> r == Err::<UserResponse, AppError>(AppError::Validation) && final(service).accounts()
            == old(service).accounts(),
        permit(*claims, Action::Create, 0) is Ok && create_dto_valid(dto) && !email_clash(
            old(service).accounts(),
            dto.email@,
            None,
        ) ==> match r {
            Ok(u) => {
                let a = final(service).accounts().last();
                &&& a == new_account(a.id, dto, a.password_hash, now)
                &&& !id_used(old(service).accounts(), a.id)
                &&& verify_outcome(dto.password@, a.password_hash@) == Ok::<(), AppError>(())
                &&& argon2id_tagged(a.password_hash@)
                &&& u == response_of(a)
                &&& final(service).accounts() == old(service).accounts().push(a)
            },
            Err(e) => e == AppError::Internal && final(service).accounts() == old(
                service,
            ).accounts(),
        },
{
    if let Err(e) = claims.permit(Action::Create, 0) {
        return Err(e);
    }
    match service.register_user(dto, now) {
        Ok(a) => Ok(UserResponse::from_account(&a)),
        Err(e) => Err(e),
    }
}

/// Updates the actor's own account; the active flag only by an administrator.
pub fn update_current_user(
    claims: &Claims,
    service: &mut UserManagementService,
    dto: UpdateUserDto,
    now: u64,
) -> (r: Result<UserResponse, AppError>)
    requires
        old(service).wf(),
    ensures
        final(service).wf(),
        match actor_of(*claims) {
            Err(e) => r == Err::<UserResponse, AppError>(e) && final(service).accounts() == old(
                service,
            ).accounts(),
            Ok(a) => match update_decision(a, a.id, dto.is_active is Some) {
                Err(e) => r == Err::<UserResponse, AppError>(e) && final(service).accounts() == old(
                    service,
                ).accounts(),
                Ok(_) => (final(service).accounts(), r) == update_outcome(
                    old(service).accounts(),
                    a.id,
                    dto,
                    now,
                ),
            },
        },
{
    let a = match claims.actor() {
        Ok(a) => a,
        Err(e) => return Err(e),
    };
    if let Err(e) = authorize_update(&a, a.id, dto.is_active.is_some()) {
        return Err(e);
    }
    service.update_user(a.id, dto, now)
}

/// Updates the account `id`: an actor its own, an administrator any; the
/// active flag only by an administrator.
pub fn update_user(
    claims: &Claims,
    service: &mut UserManagementService,
    id: u128,
    dto: UpdateUserDto,
    now: u64,
) -> (r: Result<UserResponse, AppError>)
    requires
        old(service).wf(),
    ensures
        final(service).wf(),
        match actor_of(*claims) {
            Err(e) => r == Err::<UserResponse, AppError>(e) && final(service).accounts() == old(
                service,
            ).accounts(),
            Ok(a) => match update_decision(a, id, dto.is_active is Some) {
                Err(e) => r == Err::<UserResponse, AppError>(e) && final(service).accounts() == old(
                    service,
                ).accounts(),
                Ok(_) => (final(service).accounts(), r) == update_outcome(
                    old(service).accounts(),
                    id,
                    dto,
                    now,
                ),
            },
        },
{
    let a = match claims.actor() {
        Ok(a) => a,
        Err(e) => return Err(e),
    };
    if let Err(e) = authorize_update(&a, id, dto.is_active.is_some()) {
        return Err(e);
    }
    service.update_user(id, dto, now)
}

/// Soft-deletes the account `id`; administrators only.
pub fn delete_user(claims: &Claims, service: &mut UserManagementService, id: u128, now: u64) -> (r:
    Result<(), AppError>)
    requires
        old(service).wf(),
    ensures
        final(service).wf(),
        permit(*claims, Action::DeleteAny, id) matches Err(e) ==> r == Err::<(), AppError>(e)
            && final(service).accounts() == old(service).accounts(),
        permit(*claims, Action::DeleteAny, id) is Ok ==> (final(service).accounts(), r)
            == delete_outcome(old(service).accounts(), id, now),
{
    if let Err(e) = claims.permit(Action::DeleteAny, id) {
        return Err(e);
    }
    service.delete_user(id, now)
}

/// Changes the actor's own password, given the current one.
pub fn update_current_user_password(
    claims: &Claims,
    service: &mut UserManagementService,
    dto: &UpdatePasswordDto,
    now: u64,
) -> (r: Result<(), AppError>)
    requires
        old(service).wf(),
    ensures
        final(service).wf(),
        match actor_of(*claims) {
            Err(e) => r == Err::<(), AppError>(e) && final(service).accounts() == old(
                service,
            ).accounts(),
            Ok(a) => self_change_result(
                old(service).accounts(),
                final(service).accounts(),
                r,
                a.id,
                dto.current_password@,
                dto.new_password@,
                now,
            ),
        },
{
    let a = match claims.actor() {
        Ok(a) => a,
        Err(e) => return Err(e),
    };
    service.update_password(a.id, dto.current_password.as_str(), dto.new_password.as_str(), now)
}

/// Changes the password of the account `id`: its owner gives the current
/// password; an administrator resetting another account's password does not.
pub fn update_user_password(
    claims: &Claims,
    service: &mut UserManagementService,
    id: u128,
    dto: &UpdatePasswordDto,
    now: u64,
) -> (r: Result<(), AppError>)
    requires
        old(service).wf(),
    ensures
        final(service).wf(),
        match actor_of(*claims) {
            Err(e) => r == Err::<(), AppError>(e) && final(service).accounts() == old(
                service,
            ).accounts(),
            Ok(a) => if a.id == id {
                self_change_result(
                    old(service).accounts(),
                    final(service).accounts(),
                    r,
                    id,
                    dto.current_password@,
                    dto.new_password@,
                    now,
                )
            } else if allowed(a, Action::ChangeAnyPassword, id) {
                forced_change_result(
                    old(service).accounts(),
                    final(service).accounts(),
                    r,
                    id,
                    dto.new_password@,
                    now,
                )
            } else {
                r == Err::<(), AppError>(AppError::Authorization) && final(service).accounts()
                    == old(service).accounts()
            },
        },
{
    let a = match claims.actor() {
        Ok(a) => a,
        Err(e) => return Err(e),
    };
    if a.id == id {
        service.update_password(id, dto.current_password.as_str(), dto.new_password.as_str(), now)
    } else if can_act(&a, Action::ChangeAnyPassword, id) {
        service.update_user_password(id, dto.new_password.as_str(), now)
    } else {
        Err(AppError::Authorization)
    }
}

} // verus!
