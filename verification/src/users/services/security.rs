//! Password hashing and signed tokens.
//!
//! A password is hashed with Argon2i under one salt that the service holds
//! for all users, and the digest is written in lower-case hexadecimal. A
//! token carries the user's email and an expiry, and is signed with a key
//! that the service holds.

use vstd::prelude::*;
use vstd::string::*;
use vstd::utf8::encode_utf8;

use crate::common::{CommonError, ErrorKind};
use crate::users::entity::{TokenPayload, User};

verus! {

/// The character that stands for a value below sixteen.
pub open spec fn hex_digit(n: int) -> char {
    seq!['0', '1', '2', '3', '4', '5', '6', '7', '8', '9', 'a', 'b', 'c', 'd', 'e', 'f'][n]
}

/// The bytes written in hexadecimal: two lower-case digits for each, the
/// high half first.
pub open spec fn hex_text(bytes: Seq<u8>) -> Seq<char> {
    Seq::new(
        2 * bytes.len(),
        |i: int|
            if i % 2 == 0 {
                hex_digit(bytes[i / 2] as int / 16)
            } else {
                hex_digit(bytes[i / 2] as int % 16)
            },
    )
}

fn digit_text(n: u8) -> (text: &'static str)
    requires
        n < 16,
    ensures
        text@ == seq![hex_digit(n as int)],
{
    proof {
        reveal_strlit("0");
        reveal_strlit("1");
        reveal_strlit("2");
        reveal_strlit("3");
        reveal_strlit("4");
        reveal_strlit("5");
        reveal_strlit("6");
        reveal_strlit("7");
        reveal_strlit("8");
        reveal_strlit("9");
        reveal_strlit("a");
        reveal_strlit("b");
        reveal_strlit("c");
        reveal_strlit("d");
        reveal_strlit("e");
        reveal_strlit("f");
    }
    let text = match n {
        0 => "0",
        1 => "1",
        2 => "2",
        3 => "3",
        4 => "4",
        5 => "5",
        6 => "6",
        7 => "7",
        8 => "8",
        9 => "9",
        10 => "a",
        11 => "b",
        12 => "c",
        13 => "d",
        14 => "e",
        _ => "f",
    };
    assert(text@ =~= seq![hex_digit(n as int)]);
    text
}

/// Writes bytes in hexadecimal.
pub fn hex_encode(bytes: &[u8]) -> (text: String)
    ensures
        text@ == hex_text(bytes@),
{
    let mut text = String::new();
    let mut i: usize = 0;
    while i < bytes.len()
        invariant
            i <= bytes@.len(),
            text@ == hex_text(bytes@.take(i as int)),
        decreases bytes@.len() - i,
    {
        let b: u8 = bytes[i];
        let ghost before = text@;
        text.append(digit_text(b / 16));
        text.append(digit_text(b % 16));
        assert(text@ =~= hex_text(bytes@.take(i + 1))) by {
            assert(text@ == before + seq![hex_digit(b as int / 16)] + seq![hex_digit(b as int % 16)]);
            assert forall|k: int| 0 <= k < 2 * (i + 1) implies text@[k] == hex_text(
                bytes@.take(i + 1),
            )[k] by {
                if k < 2 * i {
                    assert(before[k] == hex_text(bytes@.take(i as int))[k]);
                    assert(bytes@.take(i as int)[k / 2] == bytes@.take(i + 1)[k / 2]);
                } else {
                    assert(bytes@.take(i + 1)[k / 2] == b);
                }
            }
        }
        i = i + 1;
    }
    assert(bytes@.take(i as int) =~= bytes@);
    text
}

/// Two byte sequences with one hexadecimal text are one sequence.
pub proof fn hex_text_injective(a: Seq<u8>, b: Seq<u8>)
    requires
        hex_text(a) == hex_text(b),
    ensures
        a == b,
{
    assert(hex_text(a).len() == 2 * a.len());
    assert(hex_text(b).len() == 2 * b.len());
    assert forall|i: int| 0 <= i < a.len() implies a[i] == b[i] by {
        let hi_a: int = a[i] as int / 16;
        let hi_b: int = b[i] as int / 16;
        let lo_a: int = a[i] as int % 16;
        let lo_b: int = b[i] as int % 16;
        assert(hex_text(a)[2 * i] == hex_digit(hi_a));
        assert(hex_text(b)[2 * i] == hex_digit(hi_b));
        assert(hex_text(a)[2 * i + 1] == hex_digit(lo_a));
        assert(hex_text(b)[2 * i + 1] == hex_digit(lo_b));
        assert(hex_digit(hi_a) == hex_digit(hi_b));
        assert(hex_digit(lo_a) == hex_digit(lo_b));
        assert(hi_a == hi_b);
        assert(lo_a == lo_b);
    }
    assert(a =~= b);
}

/// What `argon2rs::argon2i_simple` computes from a password and a salt:
/// the Argon2i digest of 32 bytes under the crate's default cost.
pub uninterp spec fn argon2i_simple_digest(password: Seq<char>, salt: Seq<char>) -> Seq<u8>;

/// Whether Argon2i takes this salt and this plaintext: the salt is 8 to
/// 2^32 - 1 bytes long in UTF-8, the plaintext at most 2^32 - 1.
pub open spec fn hashable(salt: Seq<char>, input: Seq<char>) -> bool {
    &&& 8 <= encode_utf8(salt).len() <= 0xffff_ffff
    &&& encode_utf8(input).len() <= 0xffff_ffff
}

/// The digest of a plaintext under a salt, in hexadecimal, where Argon2i
/// takes the two.
pub open spec fn salted_digest(salt: Seq<char>, input: Seq<char>) -> Option<Seq<char>> {
    if hashable(salt, input) {
        Some(hex_text(argon2i_simple_digest(input, salt)))
    } else {
        None
    }
}

/// Calls `argon2rs::argon2i_simple`. Trusted: the result is the digest that
/// the crate computes from these two texts and from nothing else. The crate
/// asserts the lengths that `requires` asks for.
#[verifier::external_body]
fn argon2i(password: &str, salt: &str) -> (digest: [u8; 32])
    requires
        hashable(salt@, password@),
    ensures
        digest@ == argon2i_simple_digest(password@, salt@),
{
    argon2rs::argon2i_simple(password, salt)
}

/// An error of `jsonwebtoken`.
#[verifier::external_type_specification]
#[verifier::external_body]
pub struct ExTokenError(jsonwebtoken::errors::Error);

/// What `jsonwebtoken::encode` returns for the default header (HS256), a
/// claims object of one text field and one integer field, and a secret: the
/// header and the claims in base64, and the HMAC-SHA256 signature of the two
/// under the secret.
pub uninterp spec fn hs256_token(
    text_name: Seq<char>,
    text: Seq<char>,
    number_name: Seq<char>,
    number: int,
    secret: Seq<char>,
) -> Seq<char>;

/// Calls `jsonwebtoken::encode` with the default header, on a claims object
/// that holds the text under the first name and the number under the second,
/// and with the secret's bytes as the key. Trusted: a token comes back, and
/// it is a function of these five values and of nothing else. The crate
/// fails where the key is of another family than the header's algorithm,
/// where the header or the claims cannot be written as JSON, and where
/// signing fails; with a secret as the key, the default header, and a map
/// from names to a text and an integer, none of the three can happen.
#[verifier::external_body]
fn sign_hs256(text_name: &str, text: &str, number_name: &str, number: i64, secret: &str) -> (res:
    Result<String, jsonwebtoken::errors::Error>)
    ensures
        res is Ok,
        res matches Ok(token) ==> token@ == hs256_token(
            text_name@,
            text@,
            number_name@,
            number as int,
            secret@,
        ),
{
    let mut claims = serde_json::Map::new();
    claims.insert(text_name.to_string(), serde_json::Value::from(text));
    claims.insert(number_name.to_string(), serde_json::Value::from(number));
    let key = jsonwebtoken::EncodingKey::from_secret(secret.as_bytes());
    jsonwebtoken::encode(&jsonwebtoken::Header::default(), &claims, &key)
}

/// What the claims of a token hold under two names, as `jsonwebtoken::decode`
/// reads them from the token where it accepts it: the text under the first
/// name and the integer under the second, each where the claims are an
/// object that holds one there.
pub uninterp spec fn token_claims(
    token: Seq<char>,
    text_name: Seq<char>,
    number_name: Seq<char>,
) -> (Option<Seq<char>>, Option<int>);

/// Whether `jsonwebtoken` finds a token signed under a secret: the token has
/// three parts, its header names HS256, and its last part is the HMAC-SHA256
/// signature of the first two under the secret.
pub uninterp spec fn hs256_signed(token: Seq<char>, secret: Seq<char>) -> bool;

/// Two claims as contracts speak of them.
pub open spec fn claims_view(held: (Option<String>, Option<i64>)) -> (
    Option<Seq<char>>,
    Option<int>,
) {
    (
        match held.0 {
            Some(text) => Some(text@),
            None => None,
        },
        match held.1 {
            Some(number) => Some(number as int),
            None => None,
        },
    )
}

/// Calls `jsonwebtoken::decode` with the default validation and the given
/// leeway: the token must be well formed, signed in HS256 under the secret,
/// and carry an expiry that the clock has not passed. From the claims of an
/// accepted token it hands out, by `serde_json::Value::get`, `as_str` and
/// `as_i64`, the text under the first name and the integer under the second.
/// Trusted: an accepted token is signed under the secret, and what is handed
/// out is read from the token and depends on nothing else. Whether the
/// token is accepted is not promised: that depends on the clock. The crate
/// subtracts the leeway from the clock's reading, which need not hold that
/// much, so only a leeway of zero is taken. The crate panics where the
/// clock stands before the Unix epoch.
#[verifier::external_body]
fn validated_claims(
    token: &str,
    secret: &str,
    leeway: u64,
    text_name: &str,
    number_name: &str,
) -> (res: Result<(Option<String>, Option<i64>), jsonwebtoken::errors::Error>)
    requires
        leeway == 0,
    ensures
        res is Ok ==> hs256_signed(token@, secret@),
        res matches Ok(held) ==> claims_view(held) == token_claims(
            token@,
            text_name@,
            number_name@,
        ),
{
    let key = jsonwebtoken::DecodingKey::from_secret(secret.as_bytes());
    let mut validation = jsonwebtoken::Validation::default();
    validation.leeway = leeway;
    let claims = jsonwebtoken::decode::<serde_json::Value>(token, &key, &validation)?.claims;
    let text = claims.get(text_name).and_then(serde_json::Value::as_str).map(String::from);
    let number = claims.get(number_name).and_then(serde_json::Value::as_i64);
    Ok((text, number))
}

/// Calls `to_string` on an error of `jsonwebtoken`: what it says of itself.
#[verifier::external_body]
fn token_error_text(e: &jsonwebtoken::errors::Error) -> (text: String) {
    e.to_string()
}

/// Calls `chrono::Utc::now` and `timestamp`: the seconds since the Unix
/// epoch by the system's clock. Nothing is promised of the number. The crate
/// panics where the clock stands before the epoch.
#[verifier::external_body]
fn unix_now() -> (seconds: i64) {
    chrono::Utc::now().timestamp()
}

/// How long an issued token is accepted: thirty days, in seconds.
pub const TOKEN_LIFETIME_SECS: i64 = 2_592_000;

/// How long after its expiry a token is still accepted: not at all.
pub const TOKEN_LEEWAY_SECS: u64 = 0;

/// The token that a service with this signing key issues for an email at a
/// given second.
pub open spec fn issued_token(key: Seq<char>, email: Seq<char>, now: i64) -> Seq<char> {
    hs256_token("email"@, email, "exp"@, now + TOKEN_LIFETIME_SECS, key)
}

/// The second at which a token issued now expires, unless it is beyond what
/// the claim can hold.
pub fn expiry_from(now: i64) -> (exp: Option<i64>)
    ensures
        match exp {
            Some(at) => at == now + TOKEN_LIFETIME_SECS,
            None => now + TOKEN_LIFETIME_SECS > i64::MAX,
        },
{
    now.checked_add(TOKEN_LIFETIME_SECS)
}

/// What the issuer returns for what signing gave: the token, or an internal
/// failure with the signer's words.
pub fn issued(signed: Result<String, jsonwebtoken::errors::Error>) -> (res: Result<
    String,
    CommonError,
>)
    ensures
        match signed {
            Ok(token) => res == Ok::<String, CommonError>(token),
            Err(_) => res matches Err(e) && e.code == ErrorKind::InternalFailure.code(),
        },
{
    match signed {
        Ok(token) => Ok(token),
        Err(e) => Err(CommonError::new(ErrorKind::InternalFailure, token_error_text(&e))),
    }
}

/// The payload that validated claims amount to: both fields must be there,
/// the email as a text and the expiry as an integer.
pub fn payload_from(email: Option<String>, exp: Option<i64>) -> (res: Result<
    TokenPayload,
    CommonError,
>)
    ensures
        match (email, exp) {
            (Some(address), Some(at)) => res matches Ok(p) && p.email == address && p.exp == at,
            _ => res matches Err(e) && e.code == ErrorKind::AuthFailure.code(),
        },
{
    match (email, exp) {
        (Some(address), Some(at)) => Ok(TokenPayload { email: address, exp: at }),
        (None, _) => Err(
            CommonError::new(ErrorKind::AuthFailure, "the token carries no email".to_owned()),
        ),
        (_, None) => Err(
            CommonError::new(ErrorKind::AuthFailure, "the token carries no expiry".to_owned()),
        ),
    }
}

/// Hashing and verifying passwords, issuing and validating tokens.
pub trait UserSecurityService: Send + Sync {
    /// The digest of a plaintext, where the service can hash it.
    spec fn digest(&self, input: Seq<char>) -> Option<Seq<char>>;

    /// Whether a digest is the one of a plaintext.
    open spec fn matches_digest(&self, hashed: Seq<char>, raw: Seq<char>) -> bool {
        self.digest(raw) == Some(hashed)
    }

    /// Hashes a plaintext. The same plaintext always gives the same digest.
    fn hash(&self, input: &str) -> (res: Result<String, CommonError>)
        ensures
            match res {
                Ok(d) => self.digest(input@) == Some(d@),
                Err(e) => self.digest(input@) is None && e.code == ErrorKind::InternalFailure.code(),
            },
    ;

    /// Hashes the plaintext again and compares.
    fn verify_hash(&self, hashed: &str, raw: &str) -> (res: Result<bool, CommonError>)
        ensures
            match res {
                Ok(same) => self.digest(raw@) is Some && same == self.matches_digest(hashed@, raw@),
                Err(e) => self.digest(raw@) is None && e.code == ErrorKind::InternalFailure.code(),
            },
    ;

    /// The token that the service issues for an email at a given second.
    spec fn token_at(&self, email: Seq<char>, now: i64) -> Seq<char>;

    /// Issues a token for the user's email that expires thirty days from
    /// now, by the system's clock. Fails only as an internal failure.
    fn token_generator(&self, user: &User) -> (res: Result<String, CommonError>)
        ensures
            match res {
                Ok(token) => exists|now: i64|
                    now + TOKEN_LIFETIME_SECS <= i64::MAX && token@ == #[trigger] self.token_at(
                        user.email@,
                        now,
                    ),
                Err(e) => e.code == ErrorKind::InternalFailure.code(),
            },
    ;

    /// Whether a token is signed under the service's key.
    spec fn signed(&self, token: Seq<char>) -> bool;

    /// The email and the expiry that a token carries, each where it
    /// carries one.
    spec fn carried(&self, token: Seq<char>) -> (Option<Seq<char>>, Option<int>);

    /// Validates a token and hands out its payload: the email and the
    /// expiry that the token carries. An accepted token is signed under the
    /// service's key. Every failure is an authentication failure, and a
    /// token that lacks one of the two claims is refused.
    fn decode_token(&self, token: &str) -> (res: Result<TokenPayload, CommonError>)
        ensures
            match res {
                Ok(payload) => {
                    &&& self.signed(token@)
                    &&& self.carried(token@) == (Some(payload.email@), Some(payload.exp as int))
                },
                Err(e) => e.code == ErrorKind::AuthFailure.code(),
            },
    ;
}

/// The service over one salt and one signing key, both given when it is
/// built and never changed.
pub struct UserSecurityServiceImpl {
    pub salt: String,
    pub jwt_key: String,
}

impl UserSecurityService for UserSecurityServiceImpl {
    open spec fn digest(&self, input: Seq<char>) -> Option<Seq<char>> {
        salted_digest(self.salt@, input)
    }

    fn hash(&self, input: &str) -> (res: Result<String, CommonError>)
        ensures
            res matches Ok(d) ==> d@.len() == 64,
    {
        let salt = self.salt.as_str();
        let salt_len: usize = salt.as_bytes().len();
        let input_len: usize = input.as_bytes().len();
        if salt_len < 8 || salt_len as u64 > 0xffff_ffff || input_len as u64 > 0xffff_ffff {
            return Err(
                CommonError::new(
                    ErrorKind::InternalFailure,
                    "the salt or the plaintext has a length that Argon2i does not take".to_owned(),
                ),
            );
        }
        let digest = argon2i(input, salt);
        Ok(hex_encode(digest.as_slice()))
    }

    fn verify_hash(&self, hashed: &str, raw: &str) -> (res: Result<bool, CommonError>)
        ensures
            res matches Ok(same) ==> (same ==> hashed@.len() == 64),
    {
        match self.hash(raw) {
            Ok(current) => {
                let given = hashed.to_owned();
                Ok(current == given)
            },
            Err(e) => Err(e),
        }
    }

    open spec fn token_at(&self, email: Seq<char>, now: i64) -> Seq<char> {
        issued_token(self.jwt_key@, email, now)
    }

    fn token_generator(&self, user: &User) -> (res: Result<String, CommonError>) {
        let now: i64 = unix_now();
        self.token_generator_at(user, now)
    }

    open spec fn signed(&self, token: Seq<char>) -> bool {
        hs256_signed(token, self.jwt_key@)
    }

    open spec fn carried(&self, token: Seq<char>) -> (Option<Seq<char>>, Option<int>) {
        token_claims(token, "email"@, "exp"@)
    }

    fn decode_token(&self, token: &str) -> (res: Result<TokenPayload, CommonError>) {
        let secret = self.jwt_key.as_str();
        match validated_claims(token, secret, TOKEN_LEEWAY_SECS, "email", "exp") {
            Ok(held) => payload_from(held.0, held.1),
            Err(e) => Err(CommonError::new(ErrorKind::AuthFailure, token_error_text(&e))),
        }
    }
}

/// Hashing depends on the salt and the plaintext alone: two services with
/// one salt give one digest, or none, for one plaintext.
pub proof fn digest_is_a_function(
    a: UserSecurityServiceImpl,
    b: UserSecurityServiceImpl,
    input: Seq<char>,
)
    requires
        a.salt@ == b.salt@,
    ensures
        a.digest(input) == b.digest(input),
{
}

/// The digest of a plaintext verifies against that plaintext.
pub proof fn own_digest_verifies(service: UserSecurityServiceImpl, input: Seq<char>)
    requires
        service.digest(input) is Some,
    ensures
        service.matches_digest(service.digest(input).unwrap(), input),
{
}

/// The digest of a plaintext verifies against another plaintext only where
/// Argon2i gives the two one digest under the salt.
pub proof fn digest_verifies_only_its_own(
    service: UserSecurityServiceImpl,
    input: Seq<char>,
    other: Seq<char>,
)
    requires
        service.digest(input) is Some,
        service.digest(other) is Some,
    ensures
        service.matches_digest(service.digest(input).unwrap(), other) <==> argon2i_simple_digest(
            other,
            service.salt@,
        ) == argon2i_simple_digest(input, service.salt@),
{
    if service.matches_digest(service.digest(input).unwrap(), other) {
        hex_text_injective(
            argon2i_simple_digest(other, service.salt@),
            argon2i_simple_digest(input, service.salt@),
        );
    }
}

impl UserSecurityServiceImpl {
    /// Issues a token for the user's email as if the clock stood at `now`:
    /// it expires thirty days later. Fails, as an internal failure, only
    /// where that second is beyond what the claim can hold.
    pub fn token_generator_at(&self, user: &User, now: i64) -> (res: Result<String, CommonError>)
        ensures
            res is Ok <==> now + TOKEN_LIFETIME_SECS <= i64::MAX,
            match res {
                Ok(token) => token@ == self.token_at(user.email@, now),
                Err(e) => e.code == ErrorKind::InternalFailure.code(),
            },
    {
        match expiry_from(now) {
            Some(exp) => issued(
                sign_hs256("email", user.email.as_str(), "exp", exp, self.jwt_key.as_str()),
            ),
            None => Err(
                CommonError::new(
                    ErrorKind::InternalFailure,
                    "the expiry is beyond what a token can carry".to_owned(),
                ),
            ),
        }
    }
}

} // verus!
