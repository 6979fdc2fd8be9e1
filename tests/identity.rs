use arkalis::authentication::{bearer_token, user_from_authorization};
use arkalis::authorization::{authorize, Requirement};
use arkalis::identity::{create_adm_token, generate_token, get_recovery_key, recovery_user};
use arkalis::models::config::Config;
use arkalis::models::error::ApplicationError;
use arkalis::models::roles::Roles;
use arkalis::models::user::User;

fn config() -> Config {
    Config {
        jwt_secret: "a-signing-secret".to_string(),
        database_url: "mysql://localhost/catalog".to_string(),
        admin_master_key: "master-key".to_string(),
        bind_url: None,
    }
}

fn user_with_role(role: Roles) -> User {
    User {
        id: "user-1".to_string(),
        display_name: "Someone".to_string(),
        role,
        mal_profile: None,
        anilist_profile: None,
        recovery_key: None,
    }
}

#[test]
fn issue_rejects_short_display_names() {
    for name in ["", "a", "abc", "çãé"] {
        let r = generate_token(name.to_string(), &config());
        assert!(matches!(r, Err(ApplicationError::ValidationError(_))), "{name}");
    }
}

#[test]
fn issued_token_resolves_to_a_user_identity() {
    let cfg = config();
    let issued = generate_token("Alice".to_string(), &cfg).unwrap();
    assert_eq!(issued.user.role, Roles::User);
    assert_eq!(issued.user.display_name, "Alice");
    assert_eq!(issued.user.id.len(), 36);
    let dashes: Vec<usize> = issued.user.id.char_indices().filter(|(_, c)| *c == '-').map(|(i, _)| i).collect();
    assert_eq!(dashes, vec![8, 13, 18, 23]);
    let resolved = User::from_token(issued.token.clone(), &cfg).unwrap();
    assert_eq!(resolved.id, issued.user.id);
    assert_eq!(resolved.display_name, "Alice");
    assert_eq!(resolved.role, Roles::User);
    assert_eq!(resolved.mal_profile, None);
    assert_eq!(resolved.anilist_profile, None);
    assert_eq!(resolved.recovery_key, None);
}

#[test]
fn signing_is_deterministic_for_one_key() {
    let cfg = config();
    let a = user_with_role(Roles::Uploader).generate_token(&cfg).unwrap();
    let b = user_with_role(Roles::Uploader).generate_token(&cfg).unwrap();
    assert_eq!(a, b);
    assert_eq!(a.split('.').count(), 3);
}

#[test]
fn token_carries_optional_profiles_only_when_set() {
    let cfg = config();
    let mut u = user_with_role(Roles::Admin);
    u.mal_profile = Some("mal-name".to_string());
    let token = u.generate_token(&cfg).unwrap();
    let back = User::from_token(token, &cfg).unwrap();
    assert_eq!(back.role, Roles::Admin);
    assert_eq!(back.mal_profile.as_deref(), Some("mal-name"));
    assert_eq!(back.anilist_profile, None);
}

#[test]
fn tampered_or_foreign_tokens_are_unauthorized() {
    let cfg = config();
    let token = user_with_role(Roles::User).generate_token(&cfg).unwrap();
    let mut tampered = token.clone();
    let last = tampered.pop().unwrap();
    tampered.push(if last == 'A' { 'B' } else { 'A' });
    assert!(matches!(User::from_token(tampered, &cfg), Err(ApplicationError::Unauthorized)));
    let mut other = config();
    other.jwt_secret = "another-secret".to_string();
    assert!(matches!(User::from_token(token, &other), Err(ApplicationError::Unauthorized)));
    assert!(matches!(
        User::from_token("not a token".to_string(), &cfg),
        Err(ApplicationError::Unauthorized)
    ));
}

#[test]
fn admin_issue_needs_the_master_key() {
    let cfg = config();
    let r = create_adm_token("Administrator".to_string(), "wrong-key", &cfg);
    assert!(matches!(r, Err(ApplicationError::Unauthorized)));
    let issued = create_adm_token("Administrator".to_string(), "master-key", &cfg).unwrap();
    assert_eq!(issued.user.role, Roles::Admin);
    let resolved = User::from_token(issued.token, &cfg).unwrap();
    assert_eq!(resolved.role, Roles::Admin);
    assert_eq!(resolved.id, issued.user.id);
    let short = create_adm_token("Adm".to_string(), "master-key", &cfg);
    assert!(matches!(short, Err(ApplicationError::ValidationError(_))));
}

#[test]
fn create_adm_user_compares_keys_exactly() {
    let cfg = config();
    assert!(matches!(
        User::create_adm_user(&cfg, "Admin".to_string(), "master-key "),
        Err(ApplicationError::Unauthorized)
    ));
    let u = User::create_adm_user(&cfg, "Admin".to_string(), "master-key").unwrap();
    assert_eq!(u.role, Roles::Admin);
}

#[test]
fn recovery_key_is_derived_once() {
    let mut u = user_with_role(Roles::User);
    let first = get_recovery_key(&mut u);
    assert!(first.must_persist);
    assert!(!first.key.is_empty());
    assert_eq!(u.recovery_key.as_deref(), Some(first.key.as_str()));
    let second = get_recovery_key(&mut u);
    assert!(!second.must_persist);
    assert_eq!(second.key, first.key);
    let writes = [first.must_persist, second.must_persist].iter().filter(|w| **w).count();
    assert_eq!(writes, 1);
    let mut twin = user_with_role(Roles::Admin);
    assert_eq!(twin.get_recovery_mnemonic(), first.key);
    assert_ne!(first.key, u.id);
}

#[test]
fn stored_recovery_key_is_kept() {
    let mut u = user_with_role(Roles::User);
    u.recovery_key = Some("kept".to_string());
    let r = get_recovery_key(&mut u);
    assert_eq!(r.key, "kept");
    assert!(!r.must_persist);
}

#[test]
fn recover_signs_for_the_found_identity() {
    let cfg = config();
    assert!(matches!(recovery_user(None, &cfg), Err(ApplicationError::NotFound)));
    let token = recovery_user(Some(user_with_role(Roles::Uploader)), &cfg).unwrap();
    let u = User::from_token(token, &cfg).unwrap();
    assert_eq!(u.id, "user-1");
    assert_eq!(u.role, Roles::Uploader);
}

#[test]
fn authorization_gate() {
    let admin = user_with_role(Roles::Admin);
    let uploader = user_with_role(Roles::Uploader);
    let user = user_with_role(Roles::User);
    assert!(authorize(&admin, Requirement::AdminOnly).is_ok());
    assert!(matches!(authorize(&uploader, Requirement::AdminOnly), Err(ApplicationError::Unauthorized)));
    assert!(authorize(&uploader, Requirement::AdminOrUploader).is_ok());
    assert!(authorize(&admin, Requirement::AdminOrUploader).is_ok());
    assert!(matches!(authorize(&user, Requirement::AdminOrUploader), Err(ApplicationError::Unauthorized)));
    assert!(user.has_uploader_or_adm_role() == false);
    assert!(uploader.has_uploader_or_adm_role());
}

#[test]
fn role_names_map_both_ways() {
    assert_eq!(Roles::Admin.to_name(), "admin");
    assert_eq!(Roles::Uploader.to_name(), "uploader");
    assert_eq!(Roles::User.to_name(), "user");
    assert_eq!(Roles::from_name("admin"), Roles::Admin);
    assert_eq!(Roles::from_name("uploader"), Roles::Uploader);
    assert_eq!(Roles::from_name("user"), Roles::User);
    assert_eq!(Roles::from_name("Admin"), Roles::User);
    assert_eq!(Roles::from_name(""), Roles::User);
}

#[test]
fn bearer_token_takes_the_second_field() {
    assert_eq!(bearer_token("Bearer abc.def").as_deref(), Some("abc.def"));
    assert_eq!(bearer_token("Bearer"), None);
    assert_eq!(bearer_token("a b c").as_deref(), Some("b"));
    assert_eq!(bearer_token("Bearer  x").as_deref(), Some(""));
    assert_eq!(bearer_token("Bearer ").as_deref(), Some(""));
}

#[test]
fn authorization_header_resolves_the_caller() {
    let cfg = config();
    let token = user_with_role(Roles::Uploader).generate_token(&cfg).unwrap();
    let u = user_from_authorization(Some(format!("Bearer {token}")), &cfg).unwrap();
    assert_eq!(u.role, Roles::Uploader);
    assert!(matches!(user_from_authorization(None, &cfg), Err(ApplicationError::Unauthorized)));
    assert!(matches!(
        user_from_authorization(Some(token), &cfg),
        Err(ApplicationError::Unauthorized)
    ));
}

#[test]
fn user_info_omits_the_recovery_secret() {
    let mut u = user_with_role(Roles::Uploader);
    u.anilist_profile = Some("ani".to_string());
    let info = u.to_user_info();
    assert_eq!(info.role, "uploader");
    assert_eq!(info.id, "user-1");
    assert_eq!(info.anilist_profile.as_deref(), Some("ani"));
}
