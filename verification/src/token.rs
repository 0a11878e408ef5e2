//! The application-identity-to-installation-token exchange.
//!
//! The broker first mints a signed, time-bounded assertion of the
//! application's identity, backdated by a fixed clock-skew allowance and
//! expiring ten minutes after issuance. The assertion is then presented to
//! the identity provider's token endpoint; the classification of that
//! response into an installation token or an authentication failure is
//! verified here, while the transport itself stays outside the library.

use vstd::prelude::*;
use crate::numeral::dec_rendering;
use crate::numeral::u64_to_dec;

verus! {

/// Seconds the assertion's issuance time is backdated, tolerating clock skew.
pub const ASSERTION_BACKDATE_SECS: i64 = 60;

/// Seconds from issuance to the assertion's expiry.
pub const ASSERTION_LIFETIME_SECS: i64 = 600;

/// Seconds an installation token stays valid per the identity provider's
/// stated lifetime.
pub const TOKEN_LIFETIME_SECS: i64 = 3600;

/// A short-lived credential representing the application's authorized access
/// to one installation's resources. Treated as a capability: held in memory
/// for one delivery and never persisted.
#[derive(Debug)]
pub struct InstallationToken {
    pub value: String,
    pub installation_id: u64,
    pub issued_at: i64,
    pub expires_at: i64,
}

impl InstallationToken {
    /// Whether the token is past the lifetime it was issued with: a token
    /// is used until rejected or past its expiry.
    pub fn is_expired(&self, now: i64) -> (r: bool)
        ensures
            r == (now >= self.expires_at),
    {
        now >= self.expires_at
    }
}

/// Why the broker could not produce an installation token.
#[derive(Debug)]
pub enum BrokerError {
    /// The signing key could not be read or parsed. Fatal to the current
    /// pipeline run; raised before any network call.
    Config(String),
    /// The identity provider rejected the exchange, or its response carried
    /// no token. Aborts the pipeline run for this delivery.
    Auth(String),
}

impl BrokerError {
    /// The reason carried by the error, whichever kind it is.
    pub open spec fn message_view(&self) -> Seq<char> {
        match self {
            BrokerError::Config(m) => m@,
            BrokerError::Auth(m) => m@,
        }
    }

    /// The human-readable reason carried by the error.
    pub fn message(&self) -> (r: &String)
        ensures
            r@ == self.message_view(),
    {
        match self {
            BrokerError::Config(m) => m,
            BrokerError::Auth(m) => m,
        }
    }
}

/// The band of clock readings the broker works with: ten thousand billion
/// seconds on either side of the epoch, far past any sane clock, and far
/// inside the bounds the assertion-window arithmetic needs.
pub open spec fn clock_in_range(now: int) -> bool {
    -10_000_000_000_000 <= now <= 10_000_000_000_000
}

/// Relies on std's SystemTime::now and duration_since: the current time as
/// whole seconds relative to the Unix epoch — elapsed since it on the `Ok`
/// arm, remaining before it on the `Err` arm (a clock set before 1970).
/// Both arms are taken, so the read returns on every clock state; the
/// reading is not a function of anything the library can see, and nothing
/// is claimed of it.
#[verifier::external_body]
fn system_time_secs() -> Result<u64, u64> {
    match std::time::SystemTime::now().duration_since(std::time::UNIX_EPOCH) {
        Ok(elapsed) => Ok(elapsed.as_secs()),
        Err(before) => Err(before.duration().as_secs()),
    }
}

/// The clock's current reading as seconds since the Unix epoch, clamped
/// into [`clock_in_range`]. The clamp — never reached by a clock inside
/// roughly three hundred thousand years of now — is what lets the range be
/// proved of every reading rather than assumed of the clock.
pub fn unix_now() -> (r: i64)
    ensures
        clock_in_range(r as int),
{
    match system_time_secs() {
        Ok(elapsed) => {
            if elapsed > 10_000_000_000_000u64 {
                10_000_000_000_000i64
            } else {
                elapsed as i64
            }
        },
        Err(before) => {
            if before > 10_000_000_000_000u64 {
                -10_000_000_000_000i64
            } else {
                -(before as i64)
            }
        },
    }
}

#[verifier::external_type_specification]
#[verifier::external_body]
pub struct ExJsonWebTokenError(jsonwebtoken::errors::Error);

/// The token jsonwebtoken mints for the given claims and key, or `None`
/// where it refuses to sign (the usual cause: the key is not an RSA private
/// key it accepts). RS256 signing is deterministic, so this is a function
/// of the claims and the key alone.
pub uninterp spec fn rs256_jwt(iat: int, exp: int, iss: Seq<char>, pem: Seq<char>) -> Option<
    Seq<char>,
>;

/// Relies on jsonwebtoken's EncodingKey::from_rsa_pem, Header::new and
/// encode: signs the claims `{iat, exp, iss}` with RS256 under the given
/// PEM-encoded RSA private key; whether it signs or refuses depends on the
/// arguments alone.
#[verifier::external_body]
fn sign_rs256(iat: i64, exp: i64, iss: &str, key_pem: &str) -> (r: Result<
    String,
    jsonwebtoken::errors::Error,
>)
    ensures
        r is Ok <==> rs256_jwt(iat as int, exp as int, iss@, key_pem@) is Some,
        r matches Ok(t) ==> Some(t@) == rs256_jwt(iat as int, exp as int, iss@, key_pem@),
{
    let key = jsonwebtoken::EncodingKey::from_rsa_pem(key_pem.as_bytes())?;
    let header = jsonwebtoken::Header::new(jsonwebtoken::Algorithm::RS256);
    let mut claims = serde_json::Map::new();
    claims.insert("iat".to_owned(), serde_json::Value::from(iat));
    claims.insert("exp".to_owned(), serde_json::Value::from(exp));
    claims.insert("iss".to_owned(), serde_json::Value::from(iss));
    jsonwebtoken::encode(&header, &serde_json::Value::Object(claims), &key)
}

/// The `token` member of the response body, where the body is JSON carrying
/// a string under that key; a function of the body text alone.
pub uninterp spec fn json_token_field(body: Seq<char>) -> Option<Seq<char>>;

/// Relies on serde_json's from_str, Value::get and Value::as_str: the string
/// under the top-level `token` key of the body, where the body parses as
/// JSON and carries one.
#[verifier::external_body]
fn extract_token_field(body: &str) -> (r: Option<String>)
    ensures
        r.deep_view() == json_token_field(body@),
{
    match serde_json::from_str::<serde_json::Value>(body) {
        Ok(v) => v.get("token").and_then(|t| t.as_str()).map(|s| s.to_owned()),
        Err(_) => None,
    }
}

/// Mint the application's signed assertion for a given clock reading.
///
/// The issuance claim is backdated by the clock-skew allowance and the
/// expiry fixed at issuance plus the assertion lifetime; the issuer claim is
/// the application id in decimal. An absent or rejected key yields a
/// configuration error and nothing else does.
pub fn create_app_assertion(app_id: u64, key_pem: Option<&str>, now: i64) -> (r: Result<
    String,
    BrokerError,
>)
    requires
        i64::MIN + ASSERTION_BACKDATE_SECS <= now <= i64::MAX - ASSERTION_LIFETIME_SECS,
    ensures
        r matches Err(e) ==> e is Config,
        key_pem is None ==> r is Err,
        key_pem matches Some(pem) ==> {
            let minted = rs256_jwt(
                now - ASSERTION_BACKDATE_SECS,
                now + ASSERTION_LIFETIME_SECS,
                dec_rendering(app_id as int),
                pem@,
            );
            &&& (r is Ok <==> minted is Some)
            &&& (r matches Ok(t) ==> Some(t@) == minted)
        },
{
    let pem = match key_pem {
        Some(p) => p,
        None => {
            return Err(BrokerError::Config("signing key could not be read".to_owned()));
        },
    };
    let iss = u64_to_dec(app_id);
    let iat = now - ASSERTION_BACKDATE_SECS;
    let exp = now + ASSERTION_LIFETIME_SECS;
    match sign_rs256(iat, exp, iss.as_str(), pem) {
        Ok(token) => Ok(token),
        Err(_) => Err(BrokerError::Config("signing key could not be parsed".to_owned())),
    }
}

/// Mint the application's signed assertion at the current time.
///
/// Reads the clock and mints as [`create_app_assertion`] does for that
/// reading: with a key present, the outcome is exactly the signing's
/// outcome for the window anchored at the reading taken — success where it
/// signs, a configuration error where it refuses — and a missing key is a
/// configuration error before anything else happens.
pub fn create_jwt(app_id: u64, key_pem: Option<&str>) -> (r: Result<String, BrokerError>)
    ensures
        r matches Err(e) ==> e is Config,
        key_pem is None ==> r is Err,
        key_pem matches Some(pem) ==> r matches Ok(t) ==> exists|minted_at: int|
            #![auto]
            clock_in_range(minted_at) && Some(t@) == rs256_jwt(
                minted_at - ASSERTION_BACKDATE_SECS,
                minted_at + ASSERTION_LIFETIME_SECS,
                dec_rendering(app_id as int),
                pem@,
            ),
        key_pem matches Some(pem) ==> r is Err ==> exists|minted_at: int|
            #![auto]
            clock_in_range(minted_at) && rs256_jwt(
                minted_at - ASSERTION_BACKDATE_SECS,
                minted_at + ASSERTION_LIFETIME_SECS,
                dec_rendering(app_id as int),
                pem@,
            ) is None,
{
    let now = unix_now();
    let r = create_app_assertion(app_id, key_pem, now);
    proof {
        let w: int = now as int;
        if key_pem is Some && r is Ok {
            assert(clock_in_range(w) && Some(r->Ok_0@) == rs256_jwt(
                w - ASSERTION_BACKDATE_SECS,
                w + ASSERTION_LIFETIME_SECS,
                dec_rendering(app_id as int),
                key_pem->0@,
            ));
            assert(exists|minted_at: int|
                #![auto]
                clock_in_range(minted_at) && Some(r->Ok_0@) == rs256_jwt(
                    minted_at - ASSERTION_BACKDATE_SECS,
                    minted_at + ASSERTION_LIFETIME_SECS,
                    dec_rendering(app_id as int),
                    key_pem->0@,
                ));
        }
        if key_pem is Some && r is Err {
            assert(clock_in_range(w) && rs256_jwt(
                w - ASSERTION_BACKDATE_SECS,
                w + ASSERTION_LIFETIME_SECS,
                dec_rendering(app_id as int),
                key_pem->0@,
            ) is None);
            assert(exists|minted_at: int|
                #![auto]
                clock_in_range(minted_at) && rs256_jwt(
                    minted_at - ASSERTION_BACKDATE_SECS,
                    minted_at + ASSERTION_LIFETIME_SECS,
                    dec_rendering(app_id as int),
                    key_pem->0@,
                ) is None);
        }
    }
    r
}

/// Whether an HTTP status is a success for the exchange: anything below the
/// client-error range.
pub open spec fn exchange_accepted(status: u16) -> bool {
    status < 400
}

/// Classify the identity provider's response to the token exchange.
///
/// A response outside the success range, or one whose body carries no
/// `token` string, is an authentication failure; otherwise the token is
/// issued for the requested installation at the given clock reading and
/// expires after the provider's stated lifetime.
pub fn token_exchange_outcome(installation_id: u64, status: u16, body: &str, now: i64) -> (r:
    Result<InstallationToken, BrokerError>)
    requires
        now <= i64::MAX - TOKEN_LIFETIME_SECS,
    ensures
        r is Ok <==> exchange_accepted(status) && json_token_field(body@) is Some,
        r matches Ok(t) ==> {
            &&& Some(t.value@) == json_token_field(body@)
            &&& t.installation_id == installation_id
            &&& t.issued_at == now
            &&& t.expires_at == now + TOKEN_LIFETIME_SECS
        },
        r matches Err(e) ==> e is Auth,
{
    if status >= 400 {
        return Err(BrokerError::Auth("token endpoint rejected the assertion".to_owned()));
    }
    match extract_token_field(body) {
        Some(value) => Ok(
            InstallationToken {
                value,
                installation_id,
                issued_at: now,
                expires_at: now + TOKEN_LIFETIME_SECS,
            },
        ),
        None => Err(BrokerError::Auth("token endpoint response carried no token".to_owned())),
    }
}

} // verus!
