//! The claims that a session token carries.

use crate::calendar::Timestamp;
use crate::models::user::{User, UserView};
use vstd::prelude::*;

verus! {

/// How long a token lives, in seconds, where no other lifetime is set.
pub const DEFAULT_LIFETIME_SECONDS: i64 = 300;

/// What a session token says of its user and of itself.
#[derive(Debug, PartialEq, Eq)]
pub struct Claims {
    /// The subject: the id of the user.
    pub sub: String,
    pub first_name: String,
    pub last_name: String,
    pub email: String,
    pub pass: String,
    pub is_admin: bool,
    pub created_at: Timestamp,
    pub updated_at: Timestamp,
    /// When the token expires, in seconds since the Unix epoch.
    pub exp: i64,
    /// When the token was issued, in seconds since the Unix epoch.
    pub iat: i64,
}

/// The number that a text writes in decimal, with or without a sign, if it
/// writes one that an `i64` holds.
pub uninterp spec fn parsed_seconds(text: Seq<char>) -> Option<i64>;

/// `str::parse::<i64>` of the standard library: the number depends on the
/// text alone; a text that is no number gives none.
#[verifier::external_body]
fn parse_seconds(text: &str) -> (seconds: Option<i64>)
    ensures
        seconds == parsed_seconds(text@),
{
    text.parse::<i64>().ok()
}

/// The lifetime that a setting asks for: the number it writes, and the
/// default where there is no setting or it writes no number.
pub open spec fn lifetime_of(setting: Option<Seq<char>>) -> i64 {
    match setting {
        Some(text) => match parsed_seconds(text) {
            Some(seconds) => seconds,
            None => DEFAULT_LIFETIME_SECONDS,
        },
        None => DEFAULT_LIFETIME_SECONDS,
    }
}

/// Reads the lifetime of a token off its setting.
pub fn lifetime_seconds(setting: Option<&str>) -> (seconds: i64)
    ensures
        seconds == lifetime_of(
            match setting {
                Some(text) => Some(text@),
                None => None,
            },
        ),
{
    match setting {
        Some(text) => seconds_or_default(parse_seconds(text)),
        None => DEFAULT_LIFETIME_SECONDS,
    }
}

/// The lifetime for a setting that was read as `parsed`.
pub fn seconds_or_default(parsed: Option<i64>) -> (seconds: i64)
    ensures
        seconds == match parsed {
            Some(number) => number,
            None => DEFAULT_LIFETIME_SECONDS,
        },
{
    match parsed {
        Some(number) => number,
        None => DEFAULT_LIFETIME_SECONDS,
    }
}

/// Makes the claims of a token for `user`, issued at `issued_at` and
/// expiring `lifetime` seconds later; none if that instant is out of range.
pub fn generate(user: &User, issued_at: i64, lifetime: i64) -> (claims: Option<Claims>)
    ensures
        claims is Some <==> i64::MIN <= issued_at + lifetime <= i64::MAX,
        claims is Some ==> {
            &&& claims->0.subject() == (UserView { is_deleted: false, ..user@ })
            &&& claims->0.iat == issued_at
            &&& claims->0.exp == issued_at + lifetime
        },
{
    let exp = match issued_at.checked_add(lifetime) {
        Some(exp) => exp,
        None => {
            return None;
        },
    };
    Some(
        Claims {
            sub: user.id.clone(),
            first_name: user.first_name.clone(),
            last_name: user.last_name.clone(),
            email: user.email.clone(),
            pass: user.pass.clone(),
            is_admin: user.is_admin,
            created_at: user.created_at,
            updated_at: user.updated_at,
            exp,
            iat: issued_at,
        },
    )
}

impl Claims {
    /// The user that the claims speak of. The claims do not say whether the
    /// user was deleted: the user they give is not.
    pub open spec fn subject(self) -> UserView {
        UserView {
            id: self.sub@,
            first_name: self.first_name@,
            last_name: self.last_name@,
            email: self.email@,
            pass: self.pass@,
            is_admin: self.is_admin,
            created_at: self.created_at,
            updated_at: self.updated_at,
            is_deleted: false,
        }
    }

    /// Whether the token has expired at the instant `now`, in seconds since
    /// the Unix epoch.
    pub fn is_expired(&self, now: i64) -> (expired: bool)
        ensures
            expired == (self.exp < now),
    {
        self.exp < now
    }
}

} // verus!
