use vstd::prelude::*;

verus! {

/// The role carried by an authenticated request.
#[derive(Debug, Clone, Copy, PartialEq, Eq, Structural)]
pub enum Role {
    Ordinary,
    Administrator,
}

/// The actions that the authorization policy decides on.
#[derive(Debug, Clone, Copy, PartialEq, Eq, Structural)]
pub enum Action {
    ReadSelf,
    ReadAny,
    ListAll,
    Create,
    UpdateOwnBasicFields,
    UpdateAnyBasicFields,
    UpdateActiveFlag,
    DeleteAny,
    ChangeOwnPassword,
    ChangeAnyPassword,
}

/// The identity of the actor of a request: its account id and role.
#[derive(Debug, Clone, Copy, PartialEq, Eq, Structural)]
pub struct Actor {
    pub id: u128,
    pub role: Role,
}

/// Administrators may do everything; an ordinary actor may only read,
/// update and change the password of its own account.
pub open spec fn allowed(actor: Actor, action: Action, target: u128) -> bool {
    match actor.role {
        Role::Administrator => true,
        Role::Ordinary => match action {
            Action::ReadSelf | Action::UpdateOwnBasicFields | Action::ChangeOwnPassword =>
                actor.id == target,
            _ => false,
        },
    }
}

impl Role {
    /// Reads a role claim: `"admin"` names an administrator, anything else an
    /// ordinary account.
    pub fn from_claim(claim: &str) -> (r: Role)
        ensures
            r == (if claim@ == "admin"@ {
                Role::Administrator
            } else {
                Role::Ordinary
            }),
    {
        let c = claim.to_owned();
        let admin = "admin".to_owned();
        if c == admin {
            Role::Administrator
        } else {
            Role::Ordinary
        }
    }
}

/// Decides whether `actor` may perform `action` on the account `target`.
pub fn can_act(actor: &Actor, action: Action, target: u128) -> (r: bool)
    ensures
        r == allowed(*actor, action, target),
{
    match actor.role {
        Role::Administrator => true,
        Role::Ordinary => match action {
            Action::ReadSelf | Action::UpdateOwnBasicFields | Action::ChangeOwnPassword =>
                actor.id == target,
            _ => false,
        },
    }
}

/// Only administrators may change the active flag of any account, their own
/// included, and only they may list or delete accounts.
pub proof fn lemma_admin_only_actions(actor: Actor, target: u128)
    ensures
        allowed(actor, Action::UpdateActiveFlag, target) <==> actor.role == Role::Administrator,
        allowed(actor, Action::ListAll, target) <==> actor.role == Role::Administrator,
        allowed(actor, Action::DeleteAny, target) <==> actor.role == Role::Administrator,
        allowed(actor, Action::ChangeAnyPassword, target) <==> actor.role == Role::Administrator,
{
}

} // verus!
