use vstd::prelude::*;

verus! {

/// The role of an identity: what it may create and edit.
#[derive(PartialEq, Eq, Structural, Clone, Copy, Debug)]
pub enum Roles {
    Admin,
    Uploader,
    User,
}

pub open spec fn role_name(r: Roles) -> Seq<char> {
    match r {
        Roles::Admin => seq!['a', 'd', 'm', 'i', 'n'],
        Roles::Uploader => seq!['u', 'p', 'l', 'o', 'a', 'd', 'e', 'r'],
        Roles::User => seq!['u', 's', 'e', 'r'],
    }
}

/// The role a name denotes. Any string other than the three role names maps
/// to the least privileged role, `User`, on purpose: a token can never gain
/// privileges through a name it does not spell exactly.
pub open spec fn role_of_name(s: Seq<char>) -> Roles {
    if s == role_name(Roles::Admin) {
        Roles::Admin
    } else if s == role_name(Roles::Uploader) {
        Roles::Uploader
    } else {
        Roles::User
    }
}

pub proof fn lemma_role_name_round_trip(r: Roles)
    ensures
        role_of_name(role_name(r)) == r,
{
    assert(role_name(Roles::Admin) != role_name(Roles::Uploader)) by {
        assert(role_name(Roles::Admin).len() != role_name(Roles::Uploader).len());
    }
    assert(role_name(Roles::Admin) != role_name(Roles::User)) by {
        assert(role_name(Roles::Admin).len() != role_name(Roles::User).len());
    }
    assert(role_name(Roles::Uploader) != role_name(Roles::User)) by {
        assert(role_name(Roles::Uploader).len() != role_name(Roles::User).len());
    }
}

impl Roles {
    /// The name under which the role travels in a token.
    pub fn to_name(self) -> (r: String)
        ensures
            r@ == role_name(self),
    {
        match self {
            Roles::Admin => {
                let s = String::from_str("admin");
                proof {
                    reveal_strlit("admin");
                }
                s
            },
            Roles::Uploader => {
                let s = String::from_str("uploader");
                proof {
                    reveal_strlit("uploader");
                }
                s
            },
            Roles::User => {
                let s = String::from_str("user");
                proof {
                    reveal_strlit("user");
                }
                s
            },
        }
    }

    /// The role a name denotes; unknown names give `User`.
    pub fn from_name(name: &str) -> (r: Roles)
        ensures
            r == role_of_name(name@),
    {
        let owned = name.to_owned();
        if owned == Roles::Admin.to_name() {
            Roles::Admin
        } else if owned == Roles::Uploader.to_name() {
            Roles::Uploader
        } else {
            Roles::User
        }
    }
}

} // verus!
