use vstd::prelude::*;

use vstd::arithmetic::div_mod::lemma_mod_breakdown;

use crate::error::AuthError;
use crate::guard::either_case;
use crate::password::hex_digit;
use crate::model::{Group, UserWithGroups};
use crate::permission::{effective_permissions, held_by_some, holds, no_duplicates};

verus! {

/// Seconds for which an issued token stays valid.
pub const TOKEN_LIFETIME: i64 = 60 * 60 * 24;

/// The claims a token carries: issuer, subject (the user's id), expiry and
/// issue time in seconds since the Unix epoch, and the permissions frozen
/// at login.
pub struct Claims {
    pub iss: String,
    pub sub: String,
    pub exp: i64,
    pub iat: i64,
    pub groups: Vec<String>,
}

/// The lower-case hexadecimal digit of value `n`.
pub open spec fn hex_char(n: int) -> char {
    seq!['0', '1', '2', '3', '4', '5', '6', '7', '8', '9', 'a', 'b', 'c', 'd', 'e', 'f'][n]
}

/// The last `n` hexadecimal digits of `v`, most significant first.
pub open spec fn hex_digits(v: int, n: nat) -> Seq<char>
    decreases n,
{
    if n == 0 {
        Seq::empty()
    } else {
        hex_digits(v / 16, (n - 1) as nat).push(hex_char(v % 16))
    }
}

/// The hyphenated lower-case text of the UUID whose value is `id`: groups
/// of 8, 4, 4, 4 and 12 hexadecimal digits.
pub open spec fn uuid_hyphenated(id: u128) -> Seq<char> {
    let d = hex_digits(id as int, 32);
    d.subrange(0, 8) + seq!['-'] + d.subrange(8, 12) + seq!['-'] + d.subrange(12, 16) + seq!['-']
        + d.subrange(16, 20) + seq!['-'] + d.subrange(20, 32)
}

/// The value of the hexadecimal digits `ds`, most significant first.
pub open spec fn hex_value(ds: Seq<char>) -> int
    decreases ds.len(),
{
    if ds.len() == 0 {
        0
    } else {
        hex_value(ds.drop_last()) * 16 + hex_digit(ds.last())->0
    }
}

/// Every character of `ds` is a hexadecimal digit, of either case.
pub open spec fn all_hex_digits(ds: Seq<char>) -> bool {
    forall|i: int| 0 <= i < ds.len() ==> (#[trigger] hex_digit(ds[i])) is Some
}

/// The 32 digit positions of a 36-character hyphenated UUID text, if its
/// hyphens stand at 8, 13, 18 and 23.
pub open spec fn hyphenated_digits(s: Seq<char>) -> Option<Seq<char>> {
    if s.len() == 36 && s[8] == '-' && s[13] == '-' && s[18] == '-' && s[23] == '-' {
        Some(
            s.subrange(0, 8) + s.subrange(9, 13) + s.subrange(14, 18) + s.subrange(19, 23)
                + s.subrange(24, 36),
        )
    } else {
        None
    }
}

/// `s` is "urn:uuid:", its letters in any case.
pub open spec fn urn_prefix(s: Seq<char>) -> bool {
    &&& s.len() == 9
    &&& either_case(s[0], 'U', 'u')
    &&& either_case(s[1], 'R', 'r')
    &&& either_case(s[2], 'N', 'n')
    &&& s[3] == ':'
    &&& either_case(s[4], 'U', 'u')
    &&& either_case(s[5], 'U', 'u')
    &&& either_case(s[6], 'I', 'i')
    &&& either_case(s[7], 'D', 'd')
    &&& s[8] == ':'
}

/// The digit positions of a UUID text in one of the accepted shapes: 32
/// bare digits, the hyphenated form, that form in braces, or that form
/// after "urn:uuid:".
pub open spec fn uuid_digits(s: Seq<char>) -> Option<Seq<char>> {
    if s.len() == 32 {
        Some(s)
    } else if s.len() == 36 {
        hyphenated_digits(s)
    } else if s.len() == 38 && s[0] == '{' && s[37] == '}' {
        hyphenated_digits(s.subrange(1, 37))
    } else if s.len() == 45 && urn_prefix(s.subrange(0, 9)) {
        hyphenated_digits(s.subrange(9, 45))
    } else {
        None
    }
}

/// The UUID value that the text `s` denotes, if it is a UUID text.
pub open spec fn uuid_text_value(s: Seq<char>) -> Option<u128> {
    match uuid_digits(s) {
        Some(d) => if all_hex_digits(d) {
            Some(hex_value(d) as u128)
        } else {
            None
        },
        None => None,
    }
}

/// Sixteen to the power `n`.
pub open spec fn pow16(n: nat) -> int
    decreases n,
{
    if n == 0 {
        1
    } else {
        16 * pow16((n - 1) as nat)
    }
}

proof fn lemma_hex_char_digit(k: int)
    requires
        0 <= k < 16,
    ensures
        hex_digit(hex_char(k)) == Some(k),
{
}

proof fn lemma_hex_digits_value(v: int, n: nat)
    requires
        0 <= v,
    ensures
        hex_digits(v, n).len() == n,
        all_hex_digits(hex_digits(v, n)),
        pow16(n) > 0,
        hex_value(hex_digits(v, n)) == v % pow16(n),
    decreases n,
{
    if n > 0 {
        let m = (n - 1) as nat;
        lemma_hex_digits_value(v / 16, m);
        let shorter = hex_digits(v / 16, m);
        let d = hex_digits(v, n);
        assert(d.drop_last() =~= shorter);
        lemma_hex_char_digit(v % 16);
        assert forall|i: int| 0 <= i < d.len() implies (#[trigger] hex_digit(d[i])) is Some by {
            if i < m {
                assert(d[i] == shorter[i]);
            }
        };
        lemma_mod_breakdown(v, 16, pow16(m));
    }
}

/// The hyphenated text of a UUID denotes that UUID.
pub proof fn lemma_hyphenated_denotes(v: u128)
    ensures
        uuid_text_value(uuid_hyphenated(v)) == Some(v),
{
    let d = hex_digits(v as int, 32);
    lemma_hex_digits_value(v as int, 32);
    reveal_with_fuel(pow16, 33);
    assert(pow16(32) == 0x1_0000_0000_0000_0000_0000_0000_0000_0000);
    let s = uuid_hyphenated(v);
    assert(s.len() == 36);
    assert(s[8] == '-' && s[13] == '-' && s[18] == '-' && s[23] == '-');
    assert(s.subrange(0, 8) + s.subrange(9, 13) + s.subrange(14, 18) + s.subrange(19, 23)
        + s.subrange(24, 36) =~= d);
}

/// Relies on uuid's Display for Uuid::from_u128, which writes the
/// hyphenated lower-case form.
#[verifier::external_body]
pub(crate) fn uuid_to_string(id: u128) -> (r: String)
    ensures
        r@ == uuid_hyphenated(id),
{
    uuid::Uuid::from_u128(id).to_string()
}

/// Relies on uuid::Uuid::parse_str: it accepts the four shapes that
/// `uuid_digits` lists, with digits of either case, and reads the digits as
/// the UUID's value, most significant first.
#[verifier::external_body]
pub(crate) fn parse_uuid(s: &str) -> (r: Option<u128>)
    ensures
        r == uuid_text_value(s@),
{
    match uuid::Uuid::parse_str(s) {
        Ok(u) => Some(u.as_u128()),
        Err(_) => None,
    }
}

/// `c` holds the claims issued at time `now` by `issuer` for the user `id`
/// who belongs to `groups`.
pub open spec fn issued_claims(
    c: Claims,
    issuer: Seq<char>,
    id: u128,
    groups: Seq<Group>,
    now: int,
) -> bool {
    &&& c.iss@ == issuer
    &&& c.sub@ == uuid_hyphenated(id)
    &&& c.iat == now
    &&& c.exp == now + TOKEN_LIFETIME
    &&& no_duplicates(c.groups@)
    &&& forall|p: Seq<char>| holds(c.groups@, p) <==> held_by_some(groups, p)
}

/// The claims to sign for the user `user_id`, a member of `groups`, at time
/// `now`: valid for one day, carrying the user's effective permissions.
pub fn build_claims(issuer: &str, user_id: u128, groups: &Vec<Group>, now: i64) -> (r: Claims)
    requires
        now <= i64::MAX - TOKEN_LIFETIME,
    ensures
        issued_claims(r, issuer@, user_id, groups@, now as int),
{
    Claims {
        iss: issuer.to_owned(),
        sub: uuid_to_string(user_id),
        exp: now + TOKEN_LIFETIME,
        iat: now,
        groups: effective_permissions(groups),
    }
}

/// The claims to sign for `user` at time `now`. Fails with `Encoding` only
/// when `now` is so late that the expiry time cannot be represented.
pub fn claims_at(issuer: &str, user: &UserWithGroups, now: i64) -> (r: Result<Claims, AuthError>)
    ensures
        now <= i64::MAX - TOKEN_LIFETIME ==> (r is Ok && issued_claims(
            r->Ok_0,
            issuer@,
            user.user.id,
            user.groups@,
            now as int,
        )),
        now > i64::MAX - TOKEN_LIFETIME ==> r == Err::<Claims, AuthError>(AuthError::Encoding),
{
    if now > i64::MAX - TOKEN_LIFETIME {
        return Err(AuthError::Encoding);
    }
    Ok(build_claims(issuer, user.user.id, &user.groups, now))
}

} // verus!
