use vstd::prelude::*;

use crate::bindings::{kana_digest, signed_token};
use crate::models::config::Config;
use crate::models::error::ApplicationError;
use crate::models::roles::Roles;
use crate::models::user::{claims_of, valid_display_name, User, UserView};

verus! {

/// A newly created identity, to be persisted, and the token signed for it.
#[derive(Debug)]
pub struct Issued {
    pub user: User,
    pub token: String,
}

/// The recovery secret of an identity, and whether it was derived just now
/// and must therefore be persisted.
#[derive(Debug)]
pub struct RecoveryKey {
    pub key: String,
    pub must_persist: bool,
}

/// The secret an identity recovers with: the stored one, or the one derived
/// from its id when none is stored yet.
pub open spec fn recovery_secret_of(u: UserView) -> Seq<char> {
    match u.recovery_key {
        Some(k) => k,
        None => kana_digest(u.id),
    }
}

/// The identity once its recovery secret is set.
pub open spec fn with_recovery_secret(u: UserView) -> UserView {
    UserView { recovery_key: Some(recovery_secret_of(u)), ..u }
}

pub open spec fn fresh_identity(u: UserView, display_name: Seq<char>, role: Roles) -> bool {
    &&& u.display_name == display_name
    &&& u.role == role
    &&& u.mal_profile is None
    &&& u.anilist_profile is None
    &&& u.recovery_key is None
}

fn sign_new(user: User, config: &Config) -> (r: Result<Issued, ApplicationError>)
    requires
        valid_display_name(user.display_name@),
        user.mal_profile is None,
        user.anilist_profile is None,
    ensures
        r matches Ok(i) ==> i.user@ == user@ && i.token@ == signed_token(
            config.jwt_secret@,
            claims_of(user@),
        ),
        r is Ok,
{
    let token = User {
        id: user.id.clone(),
        display_name: user.display_name.clone(),
        role: user.role,
        mal_profile: None,
        anilist_profile: None,
        recovery_key: None,
    }.generate_token(config)?;
    Ok(Issued { user, token })
}

/// Issues a token for a new `User`-role identity. Fails with
/// `ValidationError`, creating no identity, exactly when the display name is
/// shorter than four characters.
pub fn generate_token(display_name: String, config: &Config) -> (r: Result<Issued, ApplicationError>)
    ensures
        !valid_display_name(display_name@) ==> r matches Err(ApplicationError::ValidationError(_)),
        valid_display_name(display_name@) ==> r is Ok,
        r matches Ok(i) ==> fresh_identity(i.user@, display_name@, Roles::User) && i.token@
            == signed_token(config.jwt_secret@, claims_of(i.user@)),
{
    let user = User::new(display_name);
    user.validate()?;
    sign_new(user, config)
}

/// Issues a token for a new `Admin` identity, but only to a caller that
/// supplies the configured master key. A wrong key fails with
/// `Unauthorized` before any identity exists.
pub fn create_adm_token(display_name: String, supplied_master_key: &str, config: &Config) -> (r: Result<
    Issued,
    ApplicationError,
>)
    ensures
        config.admin_master_key@ != supplied_master_key@ ==> r matches Err(
            ApplicationError::Unauthorized,
        ),
        config.admin_master_key@ == supplied_master_key@ && !valid_display_name(display_name@)
            ==> r matches Err(ApplicationError::ValidationError(_)),
        config.admin_master_key@ == supplied_master_key@ && valid_display_name(display_name@) ==> r is Ok,
        r matches Ok(i) ==> fresh_identity(i.user@, display_name@, Roles::Admin) && i.token@
            == signed_token(config.jwt_secret@, claims_of(i.user@)),
{
    let user = User::create_adm_user(config, display_name, supplied_master_key)?;
    user.validate()?;
    sign_new(user, config)
}

/// The recovery secret of an identity. It is derived from the id and set
/// only when none is stored; `must_persist` tells whether that happened.
pub fn get_recovery_key(user: &mut User) -> (r: RecoveryKey)
    ensures
        r.key@ == recovery_secret_of(old(user)@),
        r.must_persist <==> old(user).recovery_key is None,
        final(user)@ == with_recovery_secret(old(user)@),
{
    let must_persist = user.recovery_key.is_none();
    let key = user.get_recovery_mnemonic();
    RecoveryKey { key, must_persist }
}

/// Asking twice for the recovery secret of an identity gives the same
/// secret, and the second time nothing is left to persist.
pub proof fn lemma_recovery_key_idempotent(u: UserView)
    ensures
        recovery_secret_of(with_recovery_secret(u)) == recovery_secret_of(u),
        with_recovery_secret(u).recovery_key is Some,
        with_recovery_secret(with_recovery_secret(u)) == with_recovery_secret(u),
{
}

/// Signs a fresh token for the identity that a recovery secret was found to
/// belong to; `None` (no identity holds the secret) fails with `NotFound`.
pub fn recovery_user(found: Option<User>, config: &Config) -> (r: Result<String, ApplicationError>)
    ensures
        found is None ==> r matches Err(ApplicationError::NotFound),
        found matches Some(u) ==> (r matches Ok(t) ==> t@ == signed_token(
            config.jwt_secret@,
            claims_of(u@),
        )),
        found is Some ==> r is Ok,
{
    match found {
        Some(user) => user.generate_token(config),
        None => Err(ApplicationError::NotFound),
    }
}

} // verus!
