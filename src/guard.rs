use axum_extra::headers::authorization::{Authorization, Bearer};
use axum_extra::headers::Header;
use vstd::prelude::*;

use crate::error::AuthError;
use crate::model::Group;
use crate::permission::{
    grants, grants_any, granted, granted_any, held_by_some, holds, holds_admin, holds_root,
    is_superuser, no_duplicates, root_marker,
};
use crate::token::{issued_claims, lemma_hyphenated_denotes, parse_uuid, uuid_text_value, Claims};

verus! {

/// A character that may stand in a textual header value: visible ASCII,
/// the space, or a tab.
pub open spec fn header_char(c: char) -> bool {
    (' ' <= c && c <= '~') || c == '\t'
}

/// `c` is the letter given as `upper` and `lower`, in either case.
pub open spec fn either_case(c: char, upper: char, lower: char) -> bool {
    c == upper || c == lower
}

/// `s` starts with the scheme name "Bearer", in any case, and a space, and
/// has more after the name.
pub open spec fn bearer_scheme(s: Seq<char>) -> bool {
    &&& s.len() > 6
    &&& either_case(s[0], 'B', 'b')
    &&& either_case(s[1], 'E', 'e')
    &&& either_case(s[2], 'A', 'a')
    &&& either_case(s[3], 'R', 'r')
    &&& either_case(s[4], 'E', 'e')
    &&& either_case(s[5], 'R', 'r')
    &&& s[6] == ' '
}

/// `s` without its leading spaces and tabs.
pub open spec fn trim_start_blank(s: Seq<char>) -> Seq<char>
    decreases s.len(),
{
    if s.len() > 0 && (s[0] == ' ' || s[0] == '\t') {
        trim_start_blank(s.drop_first())
    } else {
        s
    }
}

/// The credential carried by the authorization header value `s`, if it is
/// a well-formed bearer credential: the text after "Bearer ", with leading
/// blanks removed.
pub open spec fn bearer_credential(s: Seq<char>) -> Option<Seq<char>> {
    if (forall|i: int| 0 <= i < s.len() ==> header_char(#[trigger] s[i])) && bearer_scheme(s) {
        Some(trim_start_blank(s.subrange(7, s.len() as int)))
    } else {
        None
    }
}

/// Relies on the decoding of an `Authorization<Bearer>` header of the
/// headers crate (as axum_extra exposes it), on a value made by
/// HeaderValue::from_str, and on Bearer::token.
#[verifier::external_body]
fn decode_bearer(value: &str) -> (r: Option<String>)
    ensures
        r is Some <==> bearer_credential(value@) is Some,
        r matches Some(t) ==> Some(t@) == bearer_credential(value@),
{
    let header = axum::http::HeaderValue::from_str(value).ok()?;
    let auth = Authorization::<Bearer>::decode(&mut std::iter::once(&header)).ok()?;
    Some(auth.token().to_owned())
}

/// Extracts the bearer credential from the authorization header, which
/// may be missing. Anything but a well-formed bearer credential is
/// `Unauthenticated`.
pub fn bearer_token(header: Option<&str>) -> (r: Result<String, AuthError>)
    ensures
        header is None ==> r == Err::<String, AuthError>(AuthError::Unauthenticated),
        header matches Some(v) ==> match bearer_credential(v@) {
            None => r == Err::<String, AuthError>(AuthError::Unauthenticated),
            Some(t) => r is Ok && r->Ok_0@ == t,
        },
{
    match header {
        None => Err(AuthError::Unauthenticated),
        Some(v) => match decode_bearer(v) {
            None => Err(AuthError::Unauthenticated),
            Some(t) => Ok(t),
        },
    }
}

/// The identity of the caller of a request, read from a verified token:
/// the user's id and the permissions frozen into the token.
pub struct Jwt {
    pub id: u128,
    pub perms: Vec<String>,
}

/// `r` is what the guard makes of verified claims `c`: the identity named
/// by the subject, with the claims' permissions, or `Unauthenticated` when
/// the subject is not a UUID text.
pub open spec fn identity_outcome(c: Claims, r: Result<Jwt, AuthError>) -> bool {
    &&& (r is Ok <==> uuid_text_value(c.sub@) is Some)
    &&& (r matches Ok(j) ==> Some(j.id) == uuid_text_value(c.sub@) && j.perms@ == c.groups@)
    &&& (r matches Err(e) ==> e == AuthError::Unauthenticated)
}

/// The identity carried by verified claims.
pub fn identity_from_claims(claims: Claims) -> (r: Result<Jwt, AuthError>)
    ensures
        identity_outcome(claims, r),
{
    match parse_uuid(claims.sub.as_str()) {
        None => Err(AuthError::Unauthenticated),
        Some(id) => Ok(Jwt { id, perms: claims.groups }),
    }
}

/// The guard's answer once the token has been verified: any failure of the
/// verification is `Unauthenticated`, whatever its cause.
pub fn authenticate(verified: Result<Claims, AuthError>) -> (r: Result<Jwt, AuthError>)
    ensures
        verified is Err ==> r == Err::<Jwt, AuthError>(AuthError::Unauthenticated),
        verified matches Ok(c) ==> identity_outcome(c, r),
{
    match verified {
        Err(_) => Err(AuthError::Unauthenticated),
        Ok(c) => identity_from_claims(c),
    }
}

impl Jwt {
    /// Whether the caller is a root user.
    pub fn is_root(&self) -> (r: bool)
        ensures
            r == holds(self.perms@, root_marker()),
    {
        holds_root(&self.perms)
    }

    /// Whether the caller is an administrator; root users are too.
    pub fn is_admin(&self) -> (r: bool)
        ensures
            r == is_superuser(self.perms@),
    {
        holds_admin(&self.perms)
    }

    /// Whether the caller is granted `permission`.
    pub fn has_permission(&self, permission: &str) -> (r: bool)
        ensures
            r == granted(self.perms@, permission@),
    {
        grants(&self.perms, permission)
    }

    /// Whether the caller is granted at least one of `permissions`.
    pub fn has_permissions(&self, permissions: &[&str]) -> (r: bool)
        ensures
            r == granted_any(self.perms@, permissions@.map_values(|w: &str| w@)),
    {
        grants_any(&self.perms, permissions)
    }

    /// The visibility, editability and lock flags that a record created by
    /// the caller gets: only root may choose the first two (others get
    /// visible and editable records), only administrators may lock.
    pub fn permitted_flags(&self, visible: bool, editable: bool, locked: bool) -> (r: (
        bool,
        bool,
        bool,
    ))
        ensures
            r.0 == (if holds(self.perms@, root_marker()) {
                visible
            } else {
                true
            }),
            r.1 == (if holds(self.perms@, root_marker()) {
                editable
            } else {
                true
            }),
            r.2 == (is_superuser(self.perms@) && locked),
    {
        let (v, e) = if self.is_root() {
            (visible, editable)
        } else {
            (true, true)
        };
        let l = if self.is_admin() {
            locked
        } else {
            false
        };
        (v, e, l)
    }
}

/// Claims issued for a user and read back by the guard identify that user
/// and carry exactly the union of the permissions of the user's groups.
pub proof fn law_issue_then_identify(
    c: Claims,
    issuer: Seq<char>,
    id: u128,
    groups: Seq<Group>,
    now: int,
    r: Result<Jwt, AuthError>,
)
    requires
        issued_claims(c, issuer, id, groups, now),
        identity_outcome(c, r),
    ensures
        r is Ok,
        r->Ok_0.id == id,
        no_duplicates(r->Ok_0.perms@),
        forall|p: Seq<char>| holds(r->Ok_0.perms@, p) <==> held_by_some(groups, p),
{
    lemma_hyphenated_denotes(id);
}

} // verus!
