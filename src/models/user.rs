use vstd::prelude::*;

use crate::bindings::{
    kana_digest, kana_mnemonic, new_uuid_string, pairs_map, sign_claims, signed_token,
    token_claims, verify_claims,
};
use crate::models::config::Config;
use crate::models::error::ApplicationError;
use crate::models::roles::{role_name, role_of_name, Roles};
use crate::rpc;

verus! {

/// An identity: who calls, under which role.
#[derive(Debug)]
pub struct User {
    pub id: String,
    pub display_name: String,
    pub role: Roles,
    pub mal_profile: Option<String>,
    pub anilist_profile: Option<String>,
    pub recovery_key: Option<String>,
}

pub struct UserView {
    pub id: Seq<char>,
    pub display_name: Seq<char>,
    pub role: Roles,
    pub mal_profile: Option<Seq<char>>,
    pub anilist_profile: Option<Seq<char>>,
    pub recovery_key: Option<Seq<char>>,
}

pub open spec fn opt_view(o: Option<String>) -> Option<Seq<char>> {
    match o {
        Some(s) => Some(s@),
        None => None,
    }
}

impl View for User {
    type V = UserView;

    open spec fn view(&self) -> UserView {
        UserView {
            id: self.id@,
            display_name: self.display_name@,
            role: self.role,
            mal_profile: opt_view(self.mal_profile),
            anilist_profile: opt_view(self.anilist_profile),
            recovery_key: opt_view(self.recovery_key),
        }
    }
}

/// The shortest display name an identity may have.
pub const MIN_DISPLAY_NAME_LEN: usize = 4;

pub open spec fn valid_display_name(name: Seq<char>) -> bool {
    name.len() >= MIN_DISPLAY_NAME_LEN
}

/// The claims a token carries for an identity: id, display name and role
/// always, each external profile only when it is set.
pub open spec fn claims_of(u: UserView) -> Map<Seq<char>, Seq<char>> {
    let base = map!["id"@ => u.id, "display_name"@ => u.display_name, "role"@ => role_name(u.role)];
    let with_mal = match u.mal_profile {
        Some(p) => base.insert("mal_profile"@, p),
        None => base,
    };
    match u.anilist_profile {
        Some(p) => with_mal.insert("anilist_profile"@, p),
        None => with_mal,
    }
}

pub open spec fn optional_claim(m: Map<Seq<char>, Seq<char>>, key: Seq<char>) -> Option<Seq<char>> {
    if m.contains_key(key) {
        Some(m[key])
    } else {
        None
    }
}

/// The identity that a claim map describes, when the required claims are
/// present. An absent optional claim decodes to "not set".
pub open spec fn identity_of_claims(m: Map<Seq<char>, Seq<char>>) -> Option<UserView> {
    if m.contains_key("id"@) && m.contains_key("display_name"@) && m.contains_key("role"@) {
        Some(
            UserView {
                id: m["id"@],
                display_name: m["display_name"@],
                role: role_of_name(m["role"@]),
                mal_profile: optional_claim(m, "mal_profile"@),
                anilist_profile: optional_claim(m, "anilist_profile"@),
                recovery_key: None,
            },
        )
    } else {
        None
    }
}

/// The identity a token resolves to under a secret.
pub open spec fn resolved_identity(secret: Seq<char>, token: Seq<char>) -> Option<UserView> {
    match token_claims(secret, token) {
        Some(m) => identity_of_claims(m),
        None => None,
    }
}

/// An identity as a token carries it: everything but the recovery secret.
pub open spec fn token_view(u: UserView) -> UserView {
    UserView { recovery_key: None, ..u }
}

proof fn lemma_claim_keys_distinct()
    ensures
        "id"@ != "display_name"@,
        "id"@ != "role"@,
        "id"@ != "mal_profile"@,
        "id"@ != "anilist_profile"@,
        "display_name"@ != "role"@,
        "display_name"@ != "mal_profile"@,
        "display_name"@ != "anilist_profile"@,
        "role"@ != "mal_profile"@,
        "role"@ != "anilist_profile"@,
        "mal_profile"@ != "anilist_profile"@,
{
    reveal_strlit("id");
    reveal_strlit("display_name");
    reveal_strlit("role");
    reveal_strlit("mal_profile");
    reveal_strlit("anilist_profile");
    assert("id"@.len() != "display_name"@.len());
    assert("id"@.len() != "role"@.len());
    assert("id"@.len() != "mal_profile"@.len());
    assert("id"@.len() != "anilist_profile"@.len());
    assert("display_name"@.len() != "role"@.len());
    assert("display_name"@[0] != "mal_profile"@[0]);
    assert("display_name"@.len() != "anilist_profile"@.len());
    assert("role"@.len() != "mal_profile"@.len());
    assert("role"@.len() != "anilist_profile"@.len());
    assert("mal_profile"@.len() != "anilist_profile"@.len());
}

/// Decoding the claims of an identity gives back the identity as a token
/// carries it: same id, display name, role and external profiles.
pub proof fn lemma_claims_round_trip(u: UserView)
    ensures
        identity_of_claims(claims_of(u)) == Some(token_view(u)),
{
    lemma_claim_keys_distinct();
    super::roles::lemma_role_name_round_trip(u.role);
    let m = claims_of(u);
    assert(optional_claim(m, "mal_profile"@) == u.mal_profile);
    assert(optional_claim(m, "anilist_profile"@) == u.anilist_profile);
}

/// The last value a key has among claim pairs, searching from the end.
proof fn lemma_pairs_map_suffix(s: Seq<(String, String)>, i: int, key: Seq<char>)
    requires
        0 <= i <= s.len(),
        forall|j: int| i <= j < s.len() ==> (#[trigger] s[j]).0@ != key,
    ensures
        pairs_map(s).contains_key(key) == pairs_map(s.subrange(0, i)).contains_key(key),
        pairs_map(s).contains_key(key) ==> pairs_map(s)[key] == pairs_map(s.subrange(0, i))[key],
    decreases s.len() - i,
{
    if i < s.len() {
        let t = s.drop_last();
        assert(t.subrange(0, i) == s.subrange(0, i));
        assert forall|j: int| i <= j < t.len() implies (#[trigger] t[j]).0@ != key by {
            assert(t[j] == s[j]);
        }
        lemma_pairs_map_suffix(t, i, key);
    } else {
        assert(s.subrange(0, i) == s);
    }
}

fn find_claim(pairs: &Vec<(String, String)>, key: &str) -> (r: Option<String>)
    ensures
        r is Some <==> pairs_map(pairs@).contains_key(key@),
        r matches Some(v) ==> v@ == pairs_map(pairs@)[key@],
{
    let wanted = key.to_owned();
    let mut i = pairs.len();
    while i > 0
        invariant
            i <= pairs.len(),
            wanted@ == key@,
            forall|j: int| i <= j < pairs.len() ==> (#[trigger] pairs@[j]).0@ != key@,
        decreases i,
    {
        if pairs[i - 1].0 == wanted {
            proof {
                let s = pairs@.subrange(0, i as int);
                lemma_pairs_map_suffix(pairs@, i as int, key@);
                assert(s.drop_last() == pairs@.subrange(0, i - 1));
                assert(s.last() == pairs@[i - 1]);
            }
            return Some(pairs[i - 1].1.clone());
        }
        i = i - 1;
    }
    proof {
        lemma_pairs_map_suffix(pairs@, 0, key@);
    }
    None
}

impl User {
    /// A new identity with a fresh random id (a hyphenated UUID) and the
    /// `User` role.
    pub fn new(display_name: String) -> (r: User)
        ensures
            crate::bindings::hyphenated_uuid(r.id@),
            r.display_name@ == display_name@,
            r.role == Roles::User,
            r.mal_profile is None,
            r.anilist_profile is None,
            r.recovery_key is None,
    {
        User {
            id: new_uuid_string(),
            display_name,
            role: Roles::User,
            mal_profile: None,
            anilist_profile: None,
            recovery_key: None,
        }
    }

    /// Checks the structural constraints of an identity.
    pub fn validate(&self) -> (r: Result<(), ApplicationError>)
        ensures
            r is Ok <==> valid_display_name(self.display_name@),
            r matches Err(e) ==> e is ValidationError,
    {
        if self.display_name.as_str().unicode_len() < MIN_DISPLAY_NAME_LEN {
            return Err(ApplicationError::ValidationError(String::from_str("display_name")));
        }
        Ok(())
    }

    /// Signs the claims of this identity into a token; the same claims and
    /// secret always give the same token.
    pub fn generate_token(self, config: &Config) -> (r: Result<String, ApplicationError>)
        ensures
            r is Ok,
            r matches Ok(t) ==> t@ == signed_token(config.jwt_secret@, claims_of(self@)),
    {
        let ghost u = self@;
        let mut claims: Vec<(String, String)> = Vec::new();
        claims.push((String::from_str("id"), self.id));
        claims.push((String::from_str("display_name"), self.display_name));
        claims.push((String::from_str("role"), self.role.to_name()));
        let ghost base = claims@;
        if let Some(mal_profile) = self.mal_profile {
            claims.push((String::from_str("mal_profile"), mal_profile));
        }
        let ghost with_mal = claims@;
        if let Some(anilist_profile) = self.anilist_profile {
            claims.push((String::from_str("anilist_profile"), anilist_profile));
        }
        proof {
            let s1 = base.drop_last().drop_last();
            let s2 = base.drop_last();
            assert(s1.len() == 1 && s1.last() == base[0]);
            assert(base[0].0@ == "id"@ && base[0].1@ == u.id);
            assert(s1.drop_last() == Seq::<(String, String)>::empty());
            assert(pairs_map(s1.drop_last()) == Map::<Seq<char>, Seq<char>>::empty());
            assert(pairs_map(s1) == Map::<Seq<char>, Seq<char>>::empty().insert("id"@, u.id));
            assert(s2.drop_last() == s1);
            assert(s2.last() == base[1]);
            assert(pairs_map(s2) == pairs_map(s1).insert("display_name"@, u.display_name));
            assert(pairs_map(base) == pairs_map(s2).insert("role"@, role_name(u.role)));
            assert(pairs_map(base) =~= map!["id"@ => u.id, "display_name"@ => u.display_name, "role"@ => role_name(u.role)]);
            if u.mal_profile is Some {
                assert(with_mal.drop_last() == base);
                assert(with_mal.last().0@ == "mal_profile"@);
                assert(pairs_map(with_mal) == pairs_map(base).insert("mal_profile"@, u.mal_profile->Some_0));
            } else {
                assert(with_mal == base);
            }
            if u.anilist_profile is Some {
                assert(claims@.drop_last() == with_mal);
                assert(claims@.last().0@ == "anilist_profile"@);
            } else {
                assert(claims@ == with_mal);
            }
            assert(pairs_map(claims@) =~= claims_of(u));
        }
        match sign_claims(config.jwt_secret.as_str(), &claims) {
            Some(token) => Ok(token),
            None => Err(ApplicationError::UnknownError(String::from_str("could not sign the token"))),
        }
    }

    fn from_claims(claims: &Vec<(String, String)>) -> (r: Result<User, ApplicationError>)
        ensures
            r is Ok <==> identity_of_claims(pairs_map(claims@)) is Some,
            r matches Ok(u) ==> u@ == identity_of_claims(pairs_map(claims@))->Some_0,
            r matches Err(e) ==> e is Unauthorized,
    {
        let id = match find_claim(claims, "id") {
            Some(v) => v,
            None => return Err(ApplicationError::Unauthorized),
        };
        let display_name = match find_claim(claims, "display_name") {
            Some(v) => v,
            None => return Err(ApplicationError::Unauthorized),
        };
        let role = match find_claim(claims, "role") {
            Some(v) => Roles::from_name(v.as_str()),
            None => return Err(ApplicationError::Unauthorized),
        };
        let mal_profile = find_claim(claims, "mal_profile");
        let anilist_profile = find_claim(claims, "anilist_profile");
        Ok(User { id, display_name, role, mal_profile, anilist_profile, recovery_key: None })
    }

    /// Resolves a token into the identity it carries. Fails with
    /// `Unauthorized` when the signature does not hold, the token is
    /// malformed, or a required claim is absent. A token signed under the
    /// same secret resolves to the identity of the claims it signed.
    pub fn from_token(token: String, config: &Config) -> (r: Result<User, ApplicationError>)
        ensures
            r is Ok <==> resolved_identity(config.jwt_secret@, token@) is Some,
            r matches Ok(u) ==> u@ == resolved_identity(config.jwt_secret@, token@)->Some_0,
            r matches Err(e) ==> e is Unauthorized,
            forall|c: Map<Seq<char>, Seq<char>>|
                c.dom().finite() && token@ == #[trigger] signed_token(config.jwt_secret@, c) ==> (
                r is Ok <==> identity_of_claims(c) is Some) && (r matches Ok(u) ==> u@
                == identity_of_claims(c)->Some_0),
    {
        match verify_claims(config.jwt_secret.as_str(), token.as_str()) {
            Some(claims) => User::from_claims(&claims),
            None => Err(ApplicationError::Unauthorized),
        }
    }

    /// A new administrator identity, created only when the supplied master
    /// key equals the configured one byte for byte.
    pub fn create_adm_user(config: &Config, display_name: String, admin_master_key: &str) -> (r:
        Result<User, ApplicationError>)
        ensures
            r is Ok <==> config.admin_master_key@ == admin_master_key@,
            r matches Err(e) ==> e is Unauthorized,
            r matches Ok(u) ==> u.role == Roles::Admin && u.display_name@ == display_name@
                && u.mal_profile is None && u.anilist_profile is None && u.recovery_key is None,
    {
        if config.admin_master_key != admin_master_key.to_owned() {
            return Err(ApplicationError::Unauthorized);
        }
        let mut user = User::new(display_name);
        user.role = Roles::Admin;
        Ok(user)
    }

    /// The wire form of an identity, without its recovery secret.
    pub fn to_user_info(self) -> (r: rpc::GetUserInfoResponse)
        ensures
            r.id@ == self.id@,
            r.display_name@ == self.display_name@,
            r.role@ == role_name(self.role),
            opt_view(r.mal_profile) == opt_view(self.mal_profile),
            opt_view(r.anilist_profile) == opt_view(self.anilist_profile),
    {
        rpc::GetUserInfoResponse {
            id: self.id,
            display_name: self.display_name,
            role: self.role.to_name(),
            mal_profile: self.mal_profile,
            anilist_profile: self.anilist_profile,
        }
    }

    pub fn has_uploader_or_adm_role(&self) -> (r: bool)
        ensures
            r <==> (self.role == Roles::Uploader || self.role == Roles::Admin),
    {
        self.role == Roles::Uploader || self.role == Roles::Admin
    }

    /// The recovery secret of this identity, derived from its id the first
    /// time and kept unchanged afterwards.
    pub fn get_recovery_mnemonic(&mut self) -> (r: String)
        ensures
            r@ == (match old(self).recovery_key {
                Some(k) => k@,
                None => kana_digest(old(self).id@),
            }),
            final(self)@ == (UserView { recovery_key: Some(r@), ..old(self)@ }),
    {
        if self.recovery_key.is_none() {
            self.recovery_key = Some(kana_mnemonic(self.id.as_str()));
        }
        match &self.recovery_key {
            Some(k) => k.clone(),
            None => String::new(),
        }
    }
}

} // verus!
