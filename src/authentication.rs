use vstd::prelude::*;

use crate::models::config::Config;
use crate::models::error::ApplicationError;
use crate::models::user::{resolved_identity, User};

verus! {

pub open spec fn no_space(s: Seq<char>, lo: int, hi: int) -> bool {
    forall|k: int| lo <= k < hi ==> s[k] != ' '
}

/// `t` is the second space-separated field of `h`: what lies between the
/// first space and the next space (or the end).
pub open spec fn second_field(h: Seq<char>, t: Seq<char>) -> bool {
    exists|i: int|
        0 <= i < h.len() && h[i] == ' ' && no_space(h, 0, i) && i + 1 + t.len() <= h.len()
            && h.subrange(i + 1, i + 1 + t.len()) == t && no_space(t, 0, t.len() as int) && (i + 1
            + t.len() == h.len() || h[i + 1 + t.len()] == ' ')
}

/// A value has at most one second field.
proof fn lemma_second_field_unique(h: Seq<char>, t1: Seq<char>, t2: Seq<char>)
    requires
        second_field(h, t1),
        second_field(h, t2),
    ensures
        t1 == t2,
{
    let i1 = choose|i: int|
        0 <= i < h.len() && h[i] == ' ' && no_space(h, 0, i) && i + 1 + t1.len() <= h.len()
            && h.subrange(i + 1, i + 1 + t1.len()) == t1 && no_space(t1, 0, t1.len() as int) && (i
            + 1 + t1.len() == h.len() || h[i + 1 + t1.len()] == ' ');
    let i2 = choose|i: int|
        0 <= i < h.len() && h[i] == ' ' && no_space(h, 0, i) && i + 1 + t2.len() <= h.len()
            && h.subrange(i + 1, i + 1 + t2.len()) == t2 && no_space(t2, 0, t2.len() as int) && (i
            + 1 + t2.len() == h.len() || h[i + 1 + t2.len()] == ' ');
    if i1 < i2 {
        assert(h[i1] != ' ');
    } else if i2 < i1 {
        assert(h[i2] != ' ');
    }
    assert(i1 == i2);
    if t1.len() < t2.len() {
        assert(t2[t1.len() as int] == h[i1 + 1 + t1.len()]);
        assert(t2[t1.len() as int] != ' ');
    } else if t2.len() < t1.len() {
        assert(t1[t2.len() as int] == h[i1 + 1 + t2.len()]);
        assert(t1[t2.len() as int] != ' ');
    }
    assert(t1 =~= t2);
}

/// The credential of an `Authorization` value such as `Bearer <token>`: its
/// second space-separated field, absent when the value holds no space.
pub fn bearer_token(header: &str) -> (r: Option<String>)
    ensures
        r is None <==> !header@.contains(' '),
        r matches Some(t) ==> second_field(header@, t@),
{
    let n = header.unicode_len();
    let mut i: usize = 0;
    let mut found = false;
    while i < n && !found
        invariant
            n == header@.len(),
            i <= n,
            no_space(header@, 0, i as int),
            found ==> i < n && header@[i as int] == ' ',
        decreases n - i + (if found { 0int } else { 1int }),
    {
        if header.get_char(i) == ' ' {
            found = true;
        } else {
            i = i + 1;
        }
    }
    if !found {
        assert forall|k: int| 0 <= k < header@.len() implies header@[k] != ' ' by {
            assert(no_space(header@, 0, n as int));
        }
        return None;
    }
    let mut j: usize = i + 1;
    let mut ended = false;
    while j < n && !ended
        invariant
            n == header@.len(),
            i < j <= n,
            no_space(header@, i + 1, j as int),
            ended ==> j < n && header@[j as int] == ' ',
        decreases n - j + (if ended { 0int } else { 1int }),
    {
        if header.get_char(j) == ' ' {
            ended = true;
        } else {
            j = j + 1;
        }
    }
    let token = header.substring_char(i + 1, j);
    let ghost t = token@;
    let ghost w = i as int;
    assert(header@.subrange(w + 1, w + 1 + t.len()) == t);
    assert(no_space(t, 0, t.len() as int)) by {
        assert forall|k: int| 0 <= k < t.len() implies t[k] != ' ' by {
            assert(t[k] == header@[w + 1 + k]);
        }
    }
    assert(w + 1 + t.len() == header@.len() || header@[w + 1 + t.len()] == ' ');
    assert(0 <= w < header@.len() && header@[w] == ' ' && no_space(header@, 0, w));
    assert(second_field(header@, t));
    Some(token.to_owned())
}

/// The caller an `Authorization` value designates. A missing value, one
/// without a credential field, or a token that does not resolve fails with
/// `Unauthorized`, before any business logic runs.
pub fn user_from_authorization(header: Option<String>, config: &Config) -> (r: Result<
    User,
    ApplicationError,
>)
    ensures
        r matches Err(e) ==> e is Unauthorized,
        header is None ==> r is Err,
        header matches Some(h) ==> (!h@.contains(' ') ==> r is Err),
        r matches Ok(u) ==> exists|h: String, t: Seq<char>|
            header == Some(h) && second_field(h@, t) && resolved_identity(config.jwt_secret@, t)
                == Some(u@),
        forall|t: Seq<char>|
            header matches Some(h) && second_field(h@, t) && (#[trigger] resolved_identity(
                config.jwt_secret@,
                t,
            )) is Some ==> r is Ok,
{
    let h = match header {
        Some(h) => h,
        None => return Err(ApplicationError::Unauthorized),
    };
    let token = match bearer_token(h.as_str()) {
        Some(t) => t,
        None => return Err(ApplicationError::Unauthorized),
    };
    let ghost t = token@;
    proof {
        assert forall|t2: Seq<char>| second_field(h@, t2) implies t2 == t by {
            lemma_second_field_unique(h@, t, t2);
        }
    }
    let user = User::from_token(token, config)?;
    assert(second_field(h@, t) && resolved_identity(config.jwt_secret@, t) == Some(user@));
    Ok(user)
}

} // verus!
