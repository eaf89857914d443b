//! Accounts' credentials: password hashing (Argon2), token claims, bearer
//! headers, the admin key, password-reset token digests, and the rules for
//! usernames and passwords.

use argon2::password_hash::rand_core::OsRng;
use argon2::password_hash::{Error as PasswordHashError, SaltString};
use argon2::{Argon2, PasswordHash, PasswordHasher, PasswordVerifier};
use sha2::{Digest, Sha256};
use subtle::ConstantTimeEq;
use vstd::prelude::*;
use vstd::string::StringSliceAdditionalSpecFns;

use crate::ids::{hyphenated, uuid_parse, uuid_string};
use crate::text::{byte_len, chars_of, owned, push_char, string_from_chars};

verus! {

/// Default signing secret of development setups.
pub const DEV_JWT_SECRET: &'static str = "globaltelco-dev-secret-change-in-production";

/// Token configuration.
#[derive(Debug)]
pub struct AuthConfig {
    pub jwt_secret: String,
    pub access_token_expiry_secs: u64,
    pub refresh_token_expiry_secs: u64,
}

impl AuthConfig {
    /// The development secret, access tokens for 1 hour, refresh tokens for 30 days.
    pub fn default_config() -> (r: AuthConfig)
        ensures
            r.jwt_secret@ == DEV_JWT_SECRET@,
            r.access_token_expiry_secs == 3600,
            r.refresh_token_expiry_secs == 86400 * 30,
    {
        AuthConfig {
            jwt_secret: owned(DEV_JWT_SECRET),
            access_token_expiry_secs: 3600,
            refresh_token_expiry_secs: 86400 * 30,
        }
    }

    /// A copy of the configuration.
    pub fn duplicate(&self) -> (r: AuthConfig)
        ensures
            r == *self,
    {
        AuthConfig {
            jwt_secret: self.jwt_secret.clone(),
            access_token_expiry_secs: self.access_token_expiry_secs,
            refresh_token_expiry_secs: self.refresh_token_expiry_secs,
        }
    }
}

/// Token claims.
#[derive(Debug)]
pub struct Claims {
    /// The player's id, as hyphenated text.
    pub sub: String,
    pub username: String,
    /// Expiry (Unix seconds).
    pub exp: usize,
    /// Issue time (Unix seconds).
    pub iat: usize,
    pub is_guest: bool,
}

/// The claims of a token issued at `now` that is valid for `lifetime` seconds.
pub open spec fn claims_of(now: usize, lifetime: u64, player_id: u128, username: Seq<char>, is_guest: bool, c: Claims) -> bool {
    &&& c.sub@ == hyphenated(player_id)
    &&& c.username@ == username
    &&& c.iat == now
    &&& c.exp == now + lifetime
    &&& c.is_guest == is_guest
}

/// `chrono::Utc::now().timestamp()`: the current Unix time in seconds.
/// `Utc::now` returns only once the system clock is past the Unix epoch (it
/// panics otherwise), so the value is not negative; which time it is, is not
/// claimed.
#[verifier::external_body]
pub(crate) fn utc_timestamp() -> (r: i64)
    ensures
        r >= 0,
{
    chrono::Utc::now().timestamp()
}

/// Claims of a token issued at `now` for `lifetime` seconds.
pub fn claims_at(now: usize, lifetime: u64, player_id: u128, username: &str, is_guest: bool) -> (c: Claims)
    requires
        now + lifetime <= usize::MAX,
    ensures
        claims_of(now, lifetime, player_id, username@, is_guest, c),
        uuid_parse(c.sub@) == Some(player_id),
{
    Claims {
        sub: uuid_string(player_id),
        username: owned(username),
        exp: now + lifetime as usize,
        iat: now,
        is_guest,
    }
}

/// Why token claims could not be issued.
#[derive(Clone, Copy, Debug, PartialEq, Eq, Structural)]
pub enum ClaimsError {
    /// The expiry does not fit in `usize`.
    ExpiryOverflow,
}

/// What issuing claims at Unix time `now` for `lifetime` seconds gives: an
/// overflow error when the expiry does not fit in `usize`, else the claims.
pub open spec fn issued_claims(
    now: i64,
    lifetime: u64,
    player_id: u128,
    username: Seq<char>,
    is_guest: bool,
    r: Result<Claims, ClaimsError>,
) -> bool {
    &&& ((now as usize) + lifetime > usize::MAX <==> r == Err::<Claims, ClaimsError>(ClaimsError::ExpiryOverflow))
    &&& (r matches Ok(c) ==> claims_of(now as usize, lifetime, player_id, username, is_guest, c)
        && uuid_parse(c.sub@) == Some(player_id))
}

/// Claims of a token issued at Unix time `now` (a clock reading, cast to
/// `usize`) for `lifetime` seconds; refused when the expiry does not fit.
pub fn claims_issued_at(now: i64, lifetime: u64, player_id: u128, username: &str, is_guest: bool) -> (r: Result<Claims, ClaimsError>)
    ensures
        issued_claims(now, lifetime, player_id, username@, is_guest, r),
{
    let t = now as usize;
    if t as u128 + lifetime as u128 > usize::MAX as u128 {
        return Err(ClaimsError::ExpiryOverflow);
    }
    Ok(claims_at(t, lifetime, player_id, username, is_guest))
}

/// Claims for an access token issued now. Which time the clock gives is not
/// stated beyond its not being before the Unix epoch; the claims are those of
/// `claims_issued_at` at that time.
pub fn access_token_claims(config: &AuthConfig, player_id: u128, username: &str, is_guest: bool) -> (r: Result<Claims, ClaimsError>)
    ensures
        exists|now: i64| 0 <= now && #[trigger] issued_claims(now, config.access_token_expiry_secs, player_id, username@, is_guest, r),
        r matches Ok(c) ==> claims_of(c.iat, config.access_token_expiry_secs, player_id, username@, is_guest, c),
{
    let now = utc_timestamp();
    let r = claims_issued_at(now, config.access_token_expiry_secs, player_id, username, is_guest);
    assert(issued_claims(now, config.access_token_expiry_secs, player_id, username@, is_guest, r));
    r
}

/// Claims for a refresh token issued now (never a guest).
pub fn refresh_token_claims(config: &AuthConfig, player_id: u128, username: &str) -> (r: Result<Claims, ClaimsError>)
    ensures
        exists|now: i64| 0 <= now && #[trigger] issued_claims(now, config.refresh_token_expiry_secs, player_id, username@, false, r),
        r matches Ok(c) ==> claims_of(c.iat, config.refresh_token_expiry_secs, player_id, username@, false, c),
{
    let now = utc_timestamp();
    let r = claims_issued_at(now, config.refresh_token_expiry_secs, player_id, username, false);
    assert(issued_claims(now, config.refresh_token_expiry_secs, player_id, username@, false, r));
    r
}

#[verifier::external_type_specification]
#[verifier::external_body]
pub struct ExPasswordHashError(PasswordHashError);

/// Whether `password` verifies against the PHC string `hash` under Argon2
/// with default parameters (when `hash` parses).
pub uninterp spec fn argon2_accepts(password: Seq<char>, hash: Seq<char>) -> bool;

/// Whether a text parses as a PHC password-hash string.
pub uninterp spec fn phc_parses(hash: Seq<char>) -> bool;

/// The longest password, in bytes, that Argon2 hashes (`argon2::MAX_PWD_LEN`).
pub const ARGON2_MAX_PASSWORD_BYTES: u64 = 0xFFFF_FFFF;

/// `SaltString::generate(&mut OsRng)` and `Argon2::default().hash_password`:
/// the PHC string of `password` under a fresh random salt, or the hashing
/// error. Which string comes out depends on the salt and is not stated; what
/// is claimed is that it parses back as a PHC string and that Argon2 accepts
/// the same password against it (verification recomputes the hash with the
/// algorithm, version, parameters and salt the string records). With the
/// default parameters and a generated 16-byte salt, the one error that
/// hashing returns is `PwdTooLong`, for a password longer than
/// `MAX_PWD_LEN` bytes (`Argon2::verify_inputs`).
#[verifier::external_body]
fn argon2_hash(password: &str) -> (r: Result<String, PasswordHashError>)
    ensures
        r is Ok <==> password.spec_bytes().len() <= ARGON2_MAX_PASSWORD_BYTES,
        r matches Ok(h) ==> (phc_parses(h@) && argon2_accepts(password@, h@)),
{
    let salt = SaltString::generate(&mut OsRng);
    let hash = Argon2::default().hash_password(password.as_bytes(), &salt)?;
    Ok(hash.to_string())
}

/// `PasswordHash::new(hash)`: whether the text parses as a PHC string. The
/// parser refuses an empty text and one whose first field (before the first
/// `$`) is not empty, so a text that parses starts with `$`.
#[verifier::external_body]
fn phc_parse(hash: &str) -> (r: Result<(), PasswordHashError>)
    ensures
        r is Ok == phc_parses(hash@),
        r is Ok ==> hash@.len() > 0 && hash@[0] == '$',
{
    PasswordHash::new(hash).map(|_| ())
}

/// `Argon2::default().verify_password(password, &parsed)`: whether the
/// password matches a parsed PHC string.
#[verifier::external_body]
fn argon2_verify(password: &str, hash: &str) -> (r: bool)
    requires
        phc_parses(hash@),
    ensures
        r == argon2_accepts(password@, hash@),
{
    let parsed = PasswordHash::new(hash).unwrap();
    Argon2::default().verify_password(password.as_bytes(), &parsed).is_ok()
}

/// `Display` of a password-hash error.
#[verifier::external_body]
fn hash_error_text(e: &PasswordHashError) -> String {
    e.to_string()
}

/// Failure of a password operation, with the hashing library's message.
#[derive(Debug)]
pub enum PasswordError {
    Hash(String),
}

/// Hash a password with Argon2 under a fresh random salt. A hash it gives
/// back verifies with the same password; it fails only on a password longer
/// than Argon2 takes.
pub fn hash_password(password: &str) -> (r: Result<String, PasswordError>)
    ensures
        r is Ok <==> password.spec_bytes().len() <= ARGON2_MAX_PASSWORD_BYTES,
        r matches Ok(h) ==> (phc_parses(h@) && argon2_accepts(password@, h@)),
{
    match argon2_hash(password) {
        Ok(h) => Ok(h),
        Err(e) => Err(PasswordError::Hash(hash_error_text(&e))),
    }
}

/// Verify a password against a stored hash: an error if the hash does not
/// parse, otherwise whether the password matches.
pub fn verify_password(password: &str, hash: &str) -> (r: Result<bool, PasswordError>)
    ensures
        r is Ok == phc_parses(hash@),
        (hash@.len() == 0 || hash@[0] != '$') ==> r is Err,
        r matches Ok(b) ==> b == argon2_accepts(password@, hash@),
{
    match phc_parse(hash) {
        Ok(()) => Ok(argon2_verify(password, hash)),
        Err(e) => Err(PasswordError::Hash(hash_error_text(&e))),
    }
}

/// The prefix of bearer authorization headers.
pub const BEARER_PREFIX: &'static str = "Bearer ";

/// The token of a bearer authorization header: the text after `Bearer `.
pub open spec fn bearer_token_of(header: Seq<char>) -> Option<Seq<char>> {
    if header.len() >= 7 && header.take(7) == BEARER_PREFIX@ {
        Some(header.skip(7))
    } else {
        None
    }
}

/// Extract the token of a bearer authorization header.
pub fn bearer_token(header: &str) -> (r: Option<String>)
    ensures
        match (r, bearer_token_of(header@)) {
            (Some(t), Some(u)) => t@ == u,
            (None, None) => true,
            _ => false,
        },
{
    let chars = chars_of(header);
    let prefix = chars_of(BEARER_PREFIX);
    proof {
        reveal_strlit("Bearer ");
    }
    if chars.len() < 7 {
        return None;
    }
    let mut i: usize = 0;
    while i < 7
        invariant
            chars@ == header@,
            prefix@ == BEARER_PREFIX@,
            prefix@.len() == 7,
            chars@.len() >= 7,
            i <= 7,
            forall|j: int| 0 <= j < i ==> chars@[j] == prefix@[j],
        decreases 7 - i,
    {
        if chars[i] != prefix[i] {
            proof {
                assert(header@.take(7)[i as int] != BEARER_PREFIX@[i as int]);
            }
            return None;
        }
        i += 1;
    }
    assert(header@.take(7) =~= BEARER_PREFIX@);
    let token = string_from_chars(&chars, 7, chars.len());
    assert(token@ =~= header@.skip(7));
    Some(token)
}

/// Why an admin request is refused.
#[derive(Clone, Copy, Debug, PartialEq, Eq, Structural)]
pub enum AdminKeyError {
    /// No (or an empty) admin key is configured: 503.
    NotConfigured,
    /// The request carries no admin key: 401.
    Missing,
    /// The request's admin key is wrong: 401.
    Invalid,
}

impl AdminKeyError {
    /// The HTTP status of the refusal.
    pub fn status(&self) -> (s: u16)
        ensures
            s == (if *self == AdminKeyError::NotConfigured { 503u16 } else { 401u16 }),
    {
        match self {
            AdminKeyError::NotConfigured => 503,
            AdminKeyError::Missing => 401,
            AdminKeyError::Invalid => 401,
        }
    }

    /// The message of the refusal.
    pub fn message(&self) -> (r: &'static str)
        ensures
            r@ == match *self {
                AdminKeyError::NotConfigured => "Admin not configured"@,
                AdminKeyError::Missing => "Missing admin key"@,
                AdminKeyError::Invalid => "Invalid admin key"@,
            },
    {
        match self {
            AdminKeyError::NotConfigured => "Admin not configured",
            AdminKeyError::Missing => "Missing admin key",
            AdminKeyError::Invalid => "Invalid admin key",
        }
    }
}

/// `ConstantTimeEq::ct_eq` on byte slices, converted to `bool`: true exactly
/// when the slices have the same length and bytes.
#[verifier::external_body]
fn bytes_ct_eq(a: &[u8], b: &[u8]) -> (r: bool)
    ensures
        r == (a@ == b@),
{
    a.ct_eq(b).into()
}

/// How an admin key check is decided.
pub open spec fn admin_key_decision(expected: Option<Seq<char>>, provided: Option<Seq<char>>) -> Result<(), AdminKeyError> {
    match expected {
        None => Err(AdminKeyError::NotConfigured),
        Some(e) => if e.len() == 0 {
            Err(AdminKeyError::NotConfigured)
        } else {
            match provided {
                None => Err(AdminKeyError::Missing),
                Some(p) => if p == e { Ok(()) } else { Err(AdminKeyError::Invalid) },
            }
        },
    }
}

/// Check the admin key of a request (`provided`, from the `X-Admin-Key`
/// header) against the configured one (`expected`, from `ADMIN_KEY`), in
/// constant time over the key bytes.
pub fn check_admin_key(expected: Option<&str>, provided: Option<&str>) -> (r: Result<(), AdminKeyError>)
    ensures
        r == admin_key_decision(
            match expected { Some(e) => Some(e@), None => None },
            match provided { Some(p) => Some(p@), None => None },
        ),
{
    let e = match expected {
        Some(e) => e,
        None => return Err(AdminKeyError::NotConfigured),
    };
    if e.is_empty() {
        return Err(AdminKeyError::NotConfigured);
    }
    match provided {
        Some(key) => {
            let same = bytes_ct_eq(key.as_bytes(), e.as_bytes());
            proof {
                broadcast use vstd::utf8::encode_utf8_decode_utf8;
                if key.spec_bytes() == e.spec_bytes() {
                    assert(vstd::utf8::decode_utf8(key.spec_bytes()) == key@);
                    assert(vstd::utf8::decode_utf8(e.spec_bytes()) == e@);
                }
            }
            if same {
                Ok(())
            } else {
                Err(AdminKeyError::Invalid)
            }
        },
        None => Err(AdminKeyError::Missing),
    }
}

/// The SHA-256 digest of a byte string.
pub uninterp spec fn sha256(data: Seq<u8>) -> Seq<u8>;

/// `Sha256::new()`, `update`, `finalize`: the SHA-256 digest of `data`,
/// 32 bytes long.
#[verifier::external_body]
fn sha256_digest(data: &[u8]) -> (r: Vec<u8>)
    ensures
        r@ == sha256(data@),
        r@.len() == 32,
{
    let mut hasher = Sha256::new();
    hasher.update(data);
    hasher.finalize().to_vec()
}

/// Lower-case hex digit of a value below 16.
pub open spec fn lower_hex_digit(n: int) -> char {
    if n < 10 {
        (48 + n) as char
    } else {
        (87 + n) as char
    }
}

/// Two lower-case hex digits per byte, most significant first.
pub open spec fn lower_hex(bytes: Seq<u8>) -> Seq<char>
    decreases bytes.len(),
{
    if bytes.len() == 0 {
        Seq::empty()
    } else {
        lower_hex(bytes.drop_last()) + seq![lower_hex_digit((bytes.last() / 16) as int), lower_hex_digit((bytes.last() % 16) as int)]
    }
}

fn hex_char(n: u8) -> (c: char)
    requires
        n < 16,
    ensures
        c == lower_hex_digit(n as int),
{
    if n < 10 {
        (48u8 + n) as char
    } else {
        (87u8 + n) as char
    }
}

/// The stored form of a password-reset token: the lower-case hex SHA-256
/// digest of its UTF-8 bytes.
pub fn reset_token_hash(token: &str) -> (h: String)
    ensures
        h@ == lower_hex(sha256(token.spec_bytes())),
        h@.len() == 64,
{
    let digest = sha256_digest(token.as_bytes());
    let mut h = String::new();
    let mut i: usize = 0;
    while i < digest.len()
        invariant
            i <= digest@.len(),
            digest@.len() == 32,
            h@ == lower_hex(digest@.take(i as int)),
            h@.len() == 2 * i,
        decreases digest@.len() - i,
    {
        let b = digest[i];
        assert(digest@.take(i + 1).drop_last() =~= digest@.take(i as int));
        push_char(&mut h, hex_char(b / 16));
        push_char(&mut h, hex_char(b % 16));
        assert(h@ =~= lower_hex(digest@.take(i + 1)));
        i += 1;
    }
    assert(digest@.take(32) =~= digest@);
    h
}

/// Why a registration is refused before any account is created.
#[derive(Clone, Copy, Debug, PartialEq, Eq, Structural)]
pub enum CredentialError {
    /// The username is not 3 to 64 bytes long.
    UsernameLength,
    /// The password is shorter than 8 bytes.
    PasswordTooShort,
}

impl CredentialError {
    /// The message sent to the client.
    pub fn message(&self) -> (r: &'static str)
        ensures
            r@ == match *self {
                CredentialError::UsernameLength => "Username must be 3-64 characters"@,
                CredentialError::PasswordTooShort => "Password must be at least 8 characters"@,
            },
    {
        match self {
            CredentialError::UsernameLength => "Username must be 3-64 characters",
            CredentialError::PasswordTooShort => "Password must be at least 8 characters",
        }
    }
}

/// Minimum password length in bytes.
pub const MIN_PASSWORD_LEN: usize = 8;

/// How a registration's credentials are judged (lengths in UTF-8 bytes).
pub open spec fn credentials_decision(username: Seq<char>, password: Seq<char>) -> Result<(), CredentialError> {
    if byte_len(username) < 3 || byte_len(username) > 64 {
        Err(CredentialError::UsernameLength)
    } else if byte_len(password) < MIN_PASSWORD_LEN {
        Err(CredentialError::PasswordTooShort)
    } else {
        Ok(())
    }
}

/// Check a registration's username and password lengths.
pub fn validate_registration(username: &str, password: &str) -> (r: Result<(), CredentialError>)
    ensures
        r == credentials_decision(username@, password@),
{
    if username.len() < 3 || username.len() > 64 {
        return Err(CredentialError::UsernameLength);
    }
    validate_new_password(password)
}

/// Check a new password's length (at least 8 bytes).
pub fn validate_new_password(password: &str) -> (r: Result<(), CredentialError>)
    ensures
        r == (if byte_len(password@) < MIN_PASSWORD_LEN {
            Err::<(), CredentialError>(CredentialError::PasswordTooShort)
        } else {
            Ok(())
        }),
{
    if password.len() < MIN_PASSWORD_LEN {
        Err(CredentialError::PasswordTooShort)
    } else {
        Ok(())
    }
}

} // verus!
