use vstd::prelude::*;

use crate::models::error::ApplicationError;
use crate::models::roles::Roles;
use crate::models::user::User;

verus! {

/// The least role a mutating operation demands of its caller.
#[derive(PartialEq, Eq, Structural, Clone, Copy, Debug)]
pub enum Requirement {
    AdminOnly,
    AdminOrUploader,
}

pub open spec fn permits(role: Roles, requirement: Requirement) -> bool {
    match requirement {
        Requirement::AdminOnly => role == Roles::Admin,
        Requirement::AdminOrUploader => role == Roles::Admin || role == Roles::Uploader,
    }
}

/// The authorization gate: passes exactly when the caller's role meets the
/// requirement, and fails with `Unauthorized` otherwise.
pub fn authorize(user: &User, requirement: Requirement) -> (r: Result<(), ApplicationError>)
    ensures
        r is Ok <==> permits(user.role, requirement),
        r matches Err(e) ==> e is Unauthorized,
{
    let allowed = match requirement {
        Requirement::AdminOnly => user.role == Roles::Admin,
        Requirement::AdminOrUploader => user.has_uploader_or_adm_role(),
    };
    if allowed {
        Ok(())
    } else {
        Err(ApplicationError::Unauthorized)
    }
}

} // verus!
