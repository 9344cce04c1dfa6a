use vstd::prelude::*;

use crate::error::AwsError;
use crate::ledger::Wallet;

verus! {

/// Credits a new account starts with.
pub const INITIAL_WALLET_CREDITS: i32 = 1_000_000;

/// Fewest bytes a password may have.
pub const MINIMUM_PASSWORD_LENGTH: usize = 12;

/// How long an identity token stays valid, in seconds (two days).
pub const JWT_TOKEN_VALIDITY_SECS: u64 = 172_800;

/// Whether `char::is_uppercase` holds of a character.
pub uninterp spec fn uppercase_char(c: char) -> bool;

/// Whether `char::is_lowercase` holds of a character.
pub uninterp spec fn lowercase_char(c: char) -> bool;

/// Whether `char::is_alphabetic` holds of a character.
pub uninterp spec fn alphabetic_char(c: char) -> bool;

/// Relies on char::is_uppercase (Unicode `Uppercase` property).
#[verifier::external_body]
fn is_upper(c: char) -> (r: bool)
    ensures
        r == uppercase_char(c),
{
    c.is_uppercase()
}

/// Relies on char::is_lowercase (Unicode `Lowercase` property).
#[verifier::external_body]
fn is_lower(c: char) -> (r: bool)
    ensures
        r == lowercase_char(c),
{
    c.is_lowercase()
}

/// Relies on char::is_alphabetic (Unicode `Alphabetic` property).
#[verifier::external_body]
fn is_alpha(c: char) -> (r: bool)
    ensures
        r == alphabetic_char(c),
{
    c.is_alphabetic()
}

pub open spec fn ascii_digit(c: char) -> bool {
    '0' <= c <= '9'
}

/// A password mixes an ASCII digit, an upper-case and a lower-case letter, and a
/// character that is not a letter.
pub open spec fn secure_password(p: Seq<char>) -> bool {
    &&& exists|i: int| 0 <= i < p.len() && ascii_digit(#[trigger] p[i])
    &&& exists|i: int| 0 <= i < p.len() && uppercase_char(#[trigger] p[i])
    &&& exists|i: int| 0 <= i < p.len() && lowercase_char(#[trigger] p[i])
    &&& exists|i: int| 0 <= i < p.len() && !alphabetic_char(#[trigger] p[i])
}

/// Whether a password mixes character classes enough.
pub fn password_secure_check(pass: &str) -> (r: bool)
    ensures
        r == secure_password(pass@),
{
    let n = pass.unicode_len();
    let mut digit = false;
    let mut upper = false;
    let mut lower = false;
    let mut other = false;
    let mut i: usize = 0;
    while i < n
        invariant
            n == pass@.len(),
            i <= n,
            digit == exists|k: int| 0 <= k < i && ascii_digit(#[trigger] pass@[k]),
            upper == exists|k: int| 0 <= k < i && uppercase_char(#[trigger] pass@[k]),
            lower == exists|k: int| 0 <= k < i && lowercase_char(#[trigger] pass@[k]),
            other == exists|k: int| 0 <= k < i && !alphabetic_char(#[trigger] pass@[k]),
        decreases n - i,
    {
        let c = pass.get_char(i);
        if '0' <= c && c <= '9' {
            digit = true;
        }
        if is_upper(c) {
            upper = true;
        }
        if is_lower(c) {
            lower = true;
        }
        if !is_alpha(c) {
            other = true;
        }
        i += 1;
    }
    digit && upper && lower && other
}

/// Checks a new account's password: too short (in bytes) first, then too weak.
pub fn check_new_password(pass: &str) -> (r: Result<(), AwsError>)
    ensures
        match r {
            Ok(()) => pass.len() >= MINIMUM_PASSWORD_LENGTH && secure_password(pass@),
            Err(e) => if pass.len() < MINIMUM_PASSWORD_LENGTH {
                e is PasswordTooShort
            } else {
                !secure_password(pass@) && e is PasswordTooWeak
            },
        },
{
    if pass.len() < MINIMUM_PASSWORD_LENGTH {
        return Err(AwsError::PasswordTooShort);
    }
    if !password_secure_check(pass) {
        return Err(AwsError::PasswordTooWeak);
    }
    Ok(())
}

/// The identity claim signed into a token: user name, expiry (seconds since the epoch)
/// and user id.
pub struct AwsClaims {
    pub sub: String,
    pub exp: usize,
    pub uid: i32,
}

impl AwsClaims {
    /// Claims for a login at `now_secs`, valid for `JWT_TOKEN_VALIDITY_SECS`; `None` when
    /// the expiry does not fit.
    pub fn issue(sub: String, uid: i32, now_secs: u64) -> (r: Option<AwsClaims>)
        ensures
            match r {
                Some(c) => c.sub@ == sub@ && c.uid == uid && c.exp == now_secs
                    + JWT_TOKEN_VALIDITY_SECS,
                None => now_secs + JWT_TOKEN_VALIDITY_SECS > usize::MAX,
            },
    {
        if now_secs > u64::MAX - JWT_TOKEN_VALIDITY_SECS {
            return None;
        }
        let exp = now_secs + JWT_TOKEN_VALIDITY_SECS;
        if exp > usize::MAX as u64 {
            return None;
        }
        Some(AwsClaims { sub, exp: exp as usize, uid })
    }
}

/// A signed identity token.
pub struct JwtResponse {
    pub jwt: String,
}

/// A registration request.
pub struct Register {
    pub username: String,
    pub password: String,
}

/// Login or registration credentials.
pub struct Credentials {
    pub username: String,
    pub password: String,
}

/// The reply to a balance query.
pub struct GetCreditsResponse {
    pub credits: i32,
}

/// The caller's wallet, as loaded for a request.
pub struct WalletExtract(pub Wallet);

impl WalletExtract {
    /// The balance reply for this wallet.
    pub fn credits_response(&self) -> (r: GetCreditsResponse)
        ensures
            r.credits == self.0.balance(),
    {
        GetCreditsResponse { credits: self.0.credits() }
    }
}

/// A module id taken from a request path.
pub struct ModuleHashPathParam {
    pub id: i32,
}

/// A function name taken from a request path.
pub struct FuncNamePathParam {
    pub func_name: String,
}

/// A deployment request carrying base64 bytecode.
pub struct DeployModuleBody {
    pub code_base64: String,
}

} // verus!
