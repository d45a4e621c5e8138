//! Who may do what: the actions, the table that grants them to roles, and the
//! rules by which a row may be changed.

use vstd::prelude::*;
use crate::schema::{CabinetMember, UserRole};
use crate::session::SessionData;

verus! {

#[derive(Clone, Copy, Debug, PartialEq, Eq, Structural, PartialOrd, Ord, Hash)]
pub enum ActionType {
    CreateRecipes,
    CreateIncredients,
    ManageOwnFavorites,
    ManageOwnRecipes,
    ManageOwnIncredients,
    ManageOwnCabinets,
    ManageAllCabinets,
    ManageUsers,
    ManageAllRecipes,
    ManageAllIncredients,
}

/// The table of permissions: whether `role` may perform `action`.
pub open spec fn permitted(role: UserRole, action: ActionType) -> bool {
    match role {
        UserRole::User => action is ManageOwnFavorites || action is ManageOwnCabinets,
        UserRole::Creator => action is ManageOwnFavorites || action is CreateIncredients
            || action is CreateRecipes || action is ManageOwnRecipes
            || action is ManageOwnIncredients || action is ManageOwnCabinets,
        UserRole::Admin => action is ManageOwnFavorites || action is CreateIncredients
            || action is CreateRecipes || action is ManageOwnRecipes
            || action is ManageOwnIncredients || action is ManageAllRecipes
            || action is ManageAllIncredients || action is ManageOwnCabinets
            || action is ManageAllCabinets,
    }
}

impl ActionType {
    /// Whether the role of `session` may perform this action.
    pub fn authenticate(self, session: &SessionData) -> (allowed: bool)
        ensures
            allowed == permitted(session.user_uid, self),
    {
        match session.user_uid {
            UserRole::User => match self {
                ActionType::ManageOwnFavorites | ActionType::ManageOwnCabinets => true,
                _ => false,
            },
            UserRole::Creator => match self {
                ActionType::ManageOwnFavorites
                | ActionType::CreateIncredients
                | ActionType::CreateRecipes
                | ActionType::ManageOwnRecipes
                | ActionType::ManageOwnIncredients
                | ActionType::ManageOwnCabinets => true,
                _ => false,
            },
            UserRole::Admin => match self {
                ActionType::ManageUsers => false,
                _ => true,
            },
        }
    }
}

/// A creator may do whatever a user may, and an admin whatever a creator may.
pub proof fn law_roles_are_ranked(action: ActionType)
    ensures
        permitted(UserRole::User, action) ==> permitted(UserRole::Creator, action),
        permitted(UserRole::Creator, action) ==> permitted(UserRole::Admin, action),
{
}

/// Why a row may not be changed.
#[derive(Clone, Copy, Debug, PartialEq, Eq, Structural)]
pub enum AccessError {
    /// The role lacks the permission to change even its own rows.
    Forbidden,
    /// The row belongs to somebody else.
    NotOwner,
    /// There is no such row.
    Missing,
}

/// Whether a session may change a row owned by `owner` (`None`: there is no
/// such row), given the action that covers one's own rows and the action that
/// covers all rows.
pub open spec fn change_allowed(
    role: UserRole,
    user_id: int,
    own: ActionType,
    all: ActionType,
    owner: Option<int>,
) -> Result<(), AccessError> {
    if !permitted(role, own) {
        Err(AccessError::Forbidden)
    } else {
        match owner {
            None => Err(AccessError::Missing),
            Some(owner) => if permitted(role, all) || owner == user_id {
                Ok(())
            } else {
                Err(AccessError::NotOwner)
            },
        }
    }
}

/// Decides whether `session` may change a row owned by `owner`: the role
/// needs the permission `own` in any case; with it, the row must exist, and
/// be the session's own unless the role has the permission `all`.
pub fn authorize_change(
    session: &SessionData,
    own: ActionType,
    all: ActionType,
    owner: Option<i32>,
) -> (verdict: Result<(), AccessError>)
    ensures
        verdict == change_allowed(
            session.user_uid,
            session.user_id as int,
            own,
            all,
            match owner {
                Some(id) => Some(id as int),
                None => None,
            },
        ),
{
    if !own.authenticate(session) {
        return Err(AccessError::Forbidden);
    }
    match owner {
        None => Err(AccessError::Missing),
        Some(owner) => {
            if all.authenticate(session) || owner == session.user_id {
                Ok(())
            } else {
                Err(AccessError::NotOwner)
            }
        },
    }
}

/// Whether `user_id` is among `members`.
pub open spec fn is_member(members: Seq<CabinetMember>, user_id: int) -> bool {
    exists|i: int| 0 <= i < members.len() && (#[trigger] members[i]).user_id == user_id
}

/// Decides the case that [`authorize_change`] refuses for a cabinet as not
/// the session's own: a cabinet may also be changed by those it is shared
/// with.
pub fn authorize_member(session: &SessionData, members: &Vec<CabinetMember>) -> (verdict: Result<
    (),
    AccessError,
>)
    ensures
        verdict == if is_member(members@, session.user_id as int) {
            Ok::<(), AccessError>(())
        } else {
            Err::<(), AccessError>(AccessError::NotOwner)
        },
{
    let mut i: usize = 0;
    while i < members.len()
        invariant
            i <= members@.len(),
            forall|j: int| 0 <= j < i ==> (#[trigger] members@[j]).user_id != session.user_id,
        decreases members@.len() - i,
    {
        if members[i].user_id == session.user_id {
            return Ok(());
        }
        i = i + 1;
    }
    Err(AccessError::NotOwner)
}

} // verus!
