//! Bearer tokens: signed credentials that name a user and a workspace.
//!
//! Signatures and the token format are the work of `jsonwebtoken`. What a
//! token has to claim to name a user, and until when it is good, is decided
//! here.

use crate::json::{
    canonical, exact, text_before, to_value, tree_of_value, value_tree, Json, JsonValue,
};
use crate::types::{read_i64, read_text, required_i64, required_text, RowID, User};
use crate::text::same_text;
use jsonwebtoken::errors::Error;
use jsonwebtoken::{DecodingKey, EncodingKey, Header, Validation};
use vstd::prelude::*;

verus! {

/// `jsonwebtoken::DecodingKey`, made known by name; nothing is said of its
/// inside.
#[verifier::external_type_specification]
#[verifier::external_body]
pub struct ExDecodingKey(DecodingKey);

/// `jsonwebtoken::EncodingKey`, made known by name; nothing is said of its
/// inside.
#[verifier::external_type_specification]
#[verifier::external_body]
pub struct ExEncodingKey(EncodingKey);

/// `jsonwebtoken::Validation`, made known by name; nothing is said of its
/// inside.
#[verifier::external_type_specification]
#[verifier::external_body]
pub struct ExValidation(Validation);

/// `jsonwebtoken::Header`, made known by name; nothing is said of its inside.
#[verifier::external_type_specification]
#[verifier::external_body]
pub struct ExHeader(Header);

/// `jsonwebtoken::errors::Error`, made known by name; nothing is said of its
/// inside.
#[verifier::external_type_specification]
#[verifier::external_body]
pub struct ExError(Error);

/// Seconds for which a token is good: seven days.
pub const JWT_DURATION: u64 = 604800;

/// Seconds for which a token is still accepted after its expiry, to make up
/// for clocks that differ.
pub const JWT_LEEWAY: u64 = 60;

/// Issuer that every token names.
pub open spec fn issuer() -> Seq<char> {
    "chat"@
}

/// Audience that every token names.
pub open spec fn audience() -> Seq<char> {
    "chat_web"@
}

/// Issuer that every token names.
pub fn issuer_name() -> (name: &'static str)
    ensures
        name@ == issuer(),
{
    "chat"
}

/// Audience that every token names.
pub fn audience_name() -> (name: &'static str)
    ensures
        name@ == audience(),
{
    "chat_web"
}

/// Who a request comes from: a user and the user's workspace.
#[derive(Debug, Clone, Copy, PartialEq, Eq, Structural)]
pub struct UserCliams {
    pub uid: RowID,
    pub ws_id: RowID,
}

impl Default for UserCliams {
    fn default() -> (out: UserCliams)
        ensures
            out == (UserCliams { uid: 0, ws_id: 0 }),
    {
        UserCliams { uid: 0, ws_id: 0 }
    }
}

impl UserCliams {
    /// The identity of a user account.
    pub fn of_user(user: &User) -> (out: UserCliams)
        ensures
            out == (UserCliams { uid: user.id, ws_id: user.ws_id }),
    {
        UserCliams { uid: user.id, ws_id: user.ws_id }
    }
}

/// A token was not accepted. Nothing more is said, so that a caller cannot
/// tell an expired token from a forged one.
#[derive(Debug, Clone, Copy, PartialEq, Eq, Structural)]
pub struct VerificationError;

/// A key could not be read, or a token could not be signed.
#[derive(Debug, Clone)]
pub struct JwtError {
    pub reason: String,
}

/// The integer under `key`, which must be there and fit `u64`.
pub open spec fn required_u64(doc: JsonValue, key: Seq<char>) -> Option<u64> {
    match doc.member(key) {
        Some(value) => value.as_u64(),
        None => None,
    }
}

/// The identity that a set of claims names.
///
/// The claims are an object in which `iss` is the issuer and `aud` the
/// audience, each as a string, `exp` is a non-negative integer, and `uid` and
/// `ws_id` are integers: these two are the identity. Other claims are ignored.
pub open spec fn identity_of(claims: JsonValue) -> Option<UserCliams> {
    if required_text(claims, "iss"@) == Some(issuer()) && required_text(claims, "aud"@) == Some(
        audience(),
    ) && required_u64(claims, "exp"@) is Some && required_i64(claims, "uid"@) is Some
        && required_i64(claims, "ws_id"@) is Some {
        Some(
            UserCliams {
                uid: required_i64(claims, "uid"@).unwrap(),
                ws_id: required_i64(claims, "ws_id"@).unwrap(),
            },
        )
    } else {
        None
    }
}

/// The integer `n` as a document.
pub open spec fn number(n: u64) -> JsonValue {
    if n <= i64::MAX {
        JsonValue::Int(n as i64)
    } else {
        JsonValue::UInt(n)
    }
}

/// The claims of a token for `user` that expires at `exp`, with the members in
/// the order of their names.
pub open spec fn claims_of(user: UserCliams, exp: u64) -> JsonValue {
    JsonValue::Object(
        seq![
            ("aud"@, JsonValue::Text(audience())),
            ("exp"@, number(exp)),
            ("iss"@, JsonValue::Text(issuer())),
            ("uid"@, JsonValue::Int(user.uid)),
            ("ws_id"@, JsonValue::Int(user.ws_id)),
        ],
    )
}

/// Whether claims have not expired at the time `now`, in seconds since the
/// Unix epoch: they name an expiry, and `now` is not later than the leeway
/// after it.
pub open spec fn fresh(claims: JsonValue, now: u64) -> bool {
    required_u64(claims, "exp"@) matches Some(exp) && now <= exp + JWT_LEEWAY
}

/// Tells whether claims have not expired at the time `now`.
pub fn is_fresh(claims: &Json, now: u64) -> (yes: bool)
    ensures
        yes == fresh(claims@, now),
{
    match claims.member("exp") {
        Some(exp) => match exp.as_u64() {
            Some(exp) => now <= JWT_LEEWAY || now - JWT_LEEWAY <= exp,
            None => false,
        },
        None => false,
    }
}

/// Reads the identity that a set of claims names.
pub fn identity(claims: &Json) -> (out: Result<UserCliams, VerificationError>)
    ensures
        match out {
            Ok(user) => identity_of(claims@) == Some(user),
            Err(_) => identity_of(claims@) is None,
        },
{
    let issued = match read_text(claims, "iss") {
        Some(iss) => same_text(iss.as_str(), issuer_name()),
        None => false,
    };
    let meant = match read_text(claims, "aud") {
        Some(aud) => same_text(aud.as_str(), audience_name()),
        None => false,
    };
    let expires = match claims.member("exp") {
        Some(exp) => exp.as_u64().is_some(),
        None => false,
    };
    if !issued || !meant || !expires {
        return Err(VerificationError);
    }
    match (read_i64(claims, "uid"), read_i64(claims, "ws_id")) {
        (Some(uid), Some(ws_id)) => Ok(UserCliams { uid, ws_id }),
        _ => Err(VerificationError),
    }
}

/// Builds the claims of a token for `user` that expires at `exp`.
pub fn claims(user: &UserCliams, exp: u64) -> (out: Json)
    ensures
        out@ == claims_of(*user, exp),
        exact(out@),
        canonical(out@),
{
    let expiry = if exp <= i64::MAX as u64 {
        Json::Int(exp as i64)
    } else {
        Json::UInt(exp)
    };
    let mut fields: Vec<(String, Json)> = Vec::new();
    fields.push((String::from_str("aud"), Json::Text(String::from_str(audience_name()))));
    fields.push((String::from_str("exp"), expiry));
    fields.push((String::from_str("iss"), Json::Text(String::from_str(issuer_name()))));
    fields.push((String::from_str("uid"), Json::Int(user.uid)));
    fields.push((String::from_str("ws_id"), Json::Int(user.ws_id)));
    proof {
        reveal_with_fuel(crate::json::tree, 2);
        let wanted = claims_of(*user, exp)->Object_0;
        let made = Json::Object(fields)@->Object_0;
        assert(made.len() == 5);
        assert(made[0] == wanted[0]);
        assert(made[1] == wanted[1]);
        assert(made[2] == wanted[2]);
        assert(made[3] == wanted[3]);
        assert(made[4] == wanted[4]);
        assert(made =~= wanted);
        lemma_claims_exact(*user, exp);
    }
    Json::Object(fields)
}

/// The claims of a token hold every number they contain and are written the
/// way a parsed document is.
pub proof fn lemma_claims_exact(user: UserCliams, exp: u64)
    ensures
        exact(claims_of(user, exp)),
        canonical(claims_of(user, exp)),
{
    reveal_strlit("aud");
    reveal_strlit("exp");
    reveal_strlit("iss");
    reveal_strlit("uid");
    reveal_strlit("ws_id");
    reveal_with_fuel(exact, 2);
    reveal_with_fuel(canonical, 2);
    let fields = claims_of(user, exp)->Object_0;
    assert forall|i: int| 0 <= i < fields.len() implies exact((#[trigger] fields[i]).1)
        && canonical(fields[i].1) by {
        assert(i == 0 || i == 1 || i == 2 || i == 3 || i == 4);
    }
    assert forall|i: int| 0 <= i < fields.len() - 1 implies text_before(
        (#[trigger] fields[i]).0,
        fields[i + 1].0,
    ) by {
        assert(i == 0 || i == 1 || i == 2 || i == 3);
        assert("aud"@[0] == 'a' && "exp"@[0] == 'e' && "iss"@[0] == 'i' && "uid"@[0] == 'u'
            && "ws_id"@[0] == 'w');
        assert(('a' as u32) < ('e' as u32) && ('e' as u32) < ('i' as u32) && ('i' as u32) < (
        'u' as u32) && ('u' as u32) < ('w' as u32));
    }
}

/// The claims that are signed for a user name that user again.
pub proof fn law_claims_name_their_user(user: UserCliams, exp: u64)
    ensures
        identity_of(claims_of(user, exp)) == Some(user),
{
    reveal_strlit("aud");
    reveal_strlit("exp");
    reveal_strlit("iss");
    reveal_strlit("uid");
    reveal_strlit("ws_id");
    let fields = claims_of(user, exp)->Object_0;
    assert("aud"@[0] == 'a' && "exp"@[0] == 'e' && "iss"@[0] == 'i' && "uid"@[0] == 'u');
    assert("ws_id"@.len() == 5);
    reveal_with_fuel(crate::json::lookup, 6);
    let f1 = fields.drop_first();
    let f2 = f1.drop_first();
    let f3 = f2.drop_first();
    let f4 = f3.drop_first();
    assert(f1[0] == fields[1] && f2[0] == fields[2] && f3[0] == fields[3] && f4[0] == fields[4]);
}

/// A token is good for seven days and the leeway from the time it was signed
/// at, and not a second longer.
pub proof fn law_token_is_good_for_a_week(user: UserCliams, signed: u64, now: u64)
    requires
        signed <= u64::MAX - JWT_DURATION,
    ensures
        fresh(claims_of(user, (signed + JWT_DURATION) as u64), now) <==> now <= signed
            + JWT_DURATION + JWT_LEEWAY,
{
    reveal_strlit("aud");
    reveal_strlit("exp");
    assert("aud"@[0] == 'a' && "exp"@[0] == 'e');
    let fields = claims_of(user, (signed + JWT_DURATION) as u64)->Object_0;
    crate::json::lemma_lookup_at(fields, "exp"@, 1);
}

/// A token that was signed for a user names that user to whoever accepts it.
pub proof fn law_signed_token_names_its_user(
    token: Seq<char>,
    user: UserCliams,
    exp: u64,
    named: UserCliams,
)
    requires
        token_claims(token) == Some(claims_of(user, exp)),
        token_claims(token) matches Some(doc) && identity_of(doc) == Some(named),
    ensures
        named == user,
{
    law_claims_name_their_user(user, exp);
}

/// The claims that a token carries: the document in its middle part. `None`
/// where the text is not made of three parts or the middle one holds no
/// document.
pub uninterp spec fn token_claims(token: Seq<char>) -> Option<JsonValue>;

/// Whether `jsonwebtoken` reads the bytes as a public Ed25519 key in PEM.
pub uninterp spec fn is_public_key(pem: Seq<u8>) -> bool;

/// Whether `jsonwebtoken` reads the bytes as a private Ed25519 key in PEM.
pub uninterp spec fn is_private_key(pem: Seq<u8>) -> bool;

/// Reads a public Ed25519 key from PEM with `DecodingKey::from_ed_pem`.
/// Trusted: whether this works depends on the bytes alone.
#[verifier::external_body]
fn read_decoding_key(pem: &[u8]) -> (out: Result<DecodingKey, Error>)
    ensures
        out is Ok == is_public_key(pem@),
{
    DecodingKey::from_ed_pem(pem)
}

/// Whether a key is one for EdDSA signatures, which is told by the family
/// that the key was made for.
pub uninterp spec fn is_eddsa_key(key: EncodingKey) -> bool;

/// Reads a private Ed25519 key from PEM with `EncodingKey::from_ed_pem`.
/// Trusted: whether this works depends on the bytes alone, and the key that
/// comes out is one for EdDSA signatures.
#[verifier::external_body]
fn read_encoding_key(pem: &[u8]) -> (out: Result<EncodingKey, Error>)
    ensures
        out is Ok == is_private_key(pem@),
        out matches Ok(key) ==> is_eddsa_key(key),
{
    EncodingKey::from_ed_pem(pem)
}

/// Whether checks hold a token against the clock of the machine.
pub uninterp spec fn checks_clock(validation: Validation) -> bool;

/// The audiences that checks were set to accept in a token that names one:
/// the field `aud` of a `Validation`, `None` where none was set.
pub uninterp spec fn accepted_audiences(validation: Validation) -> Option<Set<Seq<char>>>;

/// The issuers that checks were set to accept in a token that names one: the
/// field `iss` of a `Validation`, `None` where none was set.
pub uninterp spec fn accepted_issuers(validation: Validation) -> Option<Set<Seq<char>>>;

/// The claims of a token that passes checks which leave the clock alone, with
/// a key; `None` for a token that does not pass.
pub uninterp spec fn checked_claims(
    validation: Validation,
    key: DecodingKey,
    token: Seq<char>,
) -> Option<JsonValue>;

/// The checks for EdDSA tokens, from `Validation::new`: the signature, and an
/// expiry that must be there and not be past. Trusted: these checks look at
/// the clock, and no audience and no issuer is set in them.
#[verifier::external_body]
fn eddsa_validation() -> (out: Validation)
    ensures
        checks_clock(out),
        accepted_audiences(out) is None,
        accepted_issuers(out) is None,
{
    Validation::new(jsonwebtoken::Algorithm::EdDSA)
}

/// Takes the two checks against the clock out of a `Validation`, by its
/// fields `validate_exp` and `validate_nbf`: whether a token has expired is
/// then for the caller to see. Trusted: with both off, no check looks at the
/// clock, and the audiences and issuers stay as they were. A token still has
/// to name an expiry.
#[verifier::external_body]
fn leave_clock_alone(validation: &mut Validation)
    ensures
        !checks_clock(*final(validation)),
        accepted_audiences(*final(validation)) == accepted_audiences(*old(validation)),
        accepted_issuers(*final(validation)) == accepted_issuers(*old(validation)),
{
    validation.validate_exp = false;
    validation.validate_nbf = false;
}

/// Adds the check of the audience with `Validation::set_audience`. Trusted:
/// afterwards `name` is the one audience that is accepted, and nothing else
/// about the checks has changed.
#[verifier::external_body]
fn expect_audience(validation: &mut Validation, name: &str)
    ensures
        accepted_audiences(*final(validation)) == Some(set![name@]),
        accepted_issuers(*final(validation)) == accepted_issuers(*old(validation)),
        checks_clock(*final(validation)) == checks_clock(*old(validation)),
{
    validation.set_audience(&[name]);
}

/// Adds the check of the issuer with `Validation::set_issuer`. Trusted:
/// afterwards `name` is the one issuer that is accepted, and nothing else
/// about the checks has changed.
#[verifier::external_body]
fn expect_issuer(validation: &mut Validation, name: &str)
    ensures
        accepted_issuers(*final(validation)) == Some(set![name@]),
        accepted_audiences(*final(validation)) == accepted_audiences(*old(validation)),
        checks_clock(*final(validation)) == checks_clock(*old(validation)),
{
    validation.set_issuer(&[name]);
}

/// Whether a header asks for an EdDSA signature: its field `alg`.
pub uninterp spec fn is_eddsa_header(header: Header) -> bool;

/// The header of an EdDSA token, from `Header::new`.
#[verifier::external_body]
fn eddsa_header() -> (out: Header)
    ensures
        is_eddsa_header(out),
{
    Header::new(jsonwebtoken::Algorithm::EdDSA)
}

/// Seconds since the Unix epoch by the clock of the machine, from
/// `get_current_timestamp`.
#[verifier::external_body]
fn current_timestamp() -> (now: u64) {
    jsonwebtoken::get_current_timestamp()
}

/// What an error of `jsonwebtoken` says, from its `Display`.
#[verifier::external_body]
fn error_text(e: &Error) -> (text: String) {
    e.to_string()
}

/// Checks a token with `jsonwebtoken::decode` and hands out its claims.
/// Trusted: with checks that leave the clock alone, whether a token passes
/// depends on the token, the key and the checks alone; and the claims that
/// come out of one that passes are those in the token's middle part.
#[verifier::external_body]
fn decode_claims(token: &str, key: &DecodingKey, validation: &Validation) -> (out: Option<
    serde_json::Value,
>)
    requires
        !checks_clock(*validation),
    ensures
        match out {
            Some(value) => checked_claims(*validation, *key, token@) == Some(value_tree(value)),
            None => checked_claims(*validation, *key, token@) is None,
        },
        out matches Some(value) ==> token_claims(token@) == Some(value_tree(value)),
{
    jsonwebtoken::decode::<serde_json::Value>(token, key, validation).ok().map(|data| data.claims)
}

/// The token that `jsonwebtoken` makes of claims without a `Real` with an
/// EdDSA header and a key for EdDSA, or `None` where it makes none: the key
/// is not one that signs. Nothing is said of other headers and keys, whose
/// signatures may differ from one call to the next.
pub uninterp spec fn signed_token(header: Header, claims: JsonValue, key: EncodingKey) -> Option<
    Seq<char>,
>;

/// Signs claims with `jsonwebtoken::encode`. Trusted: with an EdDSA header
/// and a key for EdDSA the outcome depends on the header, the claims and the
/// key alone, for an EdDSA signature has no chance in it; and the middle part
/// of the token that comes out holds the claims that went in. This is claimed
/// of claims without a `Real`, which are all in their tree and are written
/// and read back digit by digit.
#[verifier::external_body]
fn encode_claims(header: &Header, claims: &serde_json::Value, key: &EncodingKey) -> (out: Result<
    String,
    Error,
>)
    requires
        is_eddsa_header(*header),
        is_eddsa_key(*key),
        exact(value_tree(*claims)),
    ensures
        match out {
            Ok(token) => signed_token(*header, value_tree(*claims), *key) == Some(token@),
            Err(_) => signed_token(*header, value_tree(*claims), *key) is None,
        },
        out matches Ok(token) ==> token_claims(token@) == Some(value_tree(*claims)),
{
    jsonwebtoken::encode(header, claims, key)
}

/// The private key that tokens are signed with.
pub struct JwtEncodingKey {
    ek: EncodingKey,
    header: Header,
}

/// The public key that tokens are checked with, and the checks to make.
pub struct JwtDecodingKey {
    dk: DecodingKey,
    validation: Validation,
}

/// What signing gave: the token, or nothing.
pub open spec fn signing_view(out: Result<String, JwtError>) -> Option<Seq<char>> {
    match out {
        Ok(token) => Some(token@),
        Err(_) => None,
    }
}

impl JwtEncodingKey {
    #[verifier::type_invariant]
    spec fn signs_eddsa(self) -> bool {
        is_eddsa_header(self.header) && is_eddsa_key(self.ek)
    }

    /// The token that this key makes of claims, or `None` where it makes
    /// none.
    pub closed spec fn token_for(&self, claims: JsonValue) -> Option<Seq<char>> {
        signed_token(self.header, claims, self.ek)
    }

    /// The token that this key signs for `user` at the time `now`: one with
    /// the claims of a token that expires seven days later. There is none
    /// where that day is beyond the times that can be written, or where the
    /// key makes none.
    pub open spec fn signed_at(&self, user: UserCliams, now: u64) -> Option<Seq<char>> {
        if now > u64::MAX - JWT_DURATION {
            None
        } else {
            self.token_for(claims_of(user, (now + JWT_DURATION) as u64))
        }
    }

    /// Reads the key from PEM.
    pub fn load(sk: &[u8]) -> (out: Result<JwtEncodingKey, JwtError>)
        ensures
            out is Ok == is_private_key(sk@),
    {
        match read_encoding_key(sk) {
            Ok(ek) => Ok(JwtEncodingKey { ek, header: eddsa_header() }),
            Err(e) => Err(JwtError { reason: error_text(&e) }),
        }
    }

    /// Signs a token for `user` that is good for seven days from `now`, a
    /// time in seconds since the Unix epoch.
    pub fn sign_at(&self, user: &UserCliams, now: u64) -> (out: Result<String, JwtError>)
        ensures
            signing_view(out) == self.signed_at(*user, now),
            out matches Ok(token) ==> token_claims(token@) == Some(
                claims_of(*user, (now + JWT_DURATION) as u64),
            ),
    {
        if now > u64::MAX - JWT_DURATION {
            return Err(JwtError { reason: String::from_str("the clock is out of range") });
        }
        proof {
            use_type_invariant(self);
        }
        let doc = claims(user, now + JWT_DURATION);
        let value = match to_value(&doc) {
            Some(value) => value,
            None => return Err(
                JwtError { reason: String::from_str("the claims cannot be written") },
            ),
        };
        match encode_claims(&self.header, &value, &self.ek) {
            Ok(token) => Ok(token),
            Err(e) => Err(JwtError { reason: error_text(&e) }),
        }
    }

    /// Signs a token for `user` that is good for seven days from now: what
    /// `sign_at` gives for the time that the clock of the machine shows.
    pub fn sign(&self, user: &UserCliams) -> (out: Result<String, JwtError>)
        ensures
            exists|now: u64| signing_view(out) == #[trigger] self.signed_at(*user, now),
            out matches Ok(token) ==> token_claims(token@) matches Some(doc) && identity_of(doc)
                == Some(*user),
    {
        proof {
            assert forall|exp: u64| identity_of(claims_of(*user, exp)) == Some(*user) by {
                law_claims_name_their_user(*user, exp);
            }
        }
        let now = current_timestamp();
        let out = self.sign_at(user, now);
        assert(signing_view(out) == self.signed_at(*user, now));
        out
    }
}

/// What verifying gave: the user, or nothing.
pub open spec fn verdict_view(out: Result<UserCliams, VerificationError>) -> Option<UserCliams> {
    match out {
        Ok(user) => Some(user),
        Err(_) => None,
    }
}

impl JwtDecodingKey {
    #[verifier::type_invariant]
    spec fn set_up(self) -> bool {
        &&& !checks_clock(self.validation)
        &&& accepted_audiences(self.validation) == Some(set![audience()])
        &&& accepted_issuers(self.validation) == Some(set![issuer()])
    }

    /// The audiences that this key accepts in a token.
    pub closed spec fn audiences(&self) -> Option<Set<Seq<char>>> {
        accepted_audiences(self.validation)
    }

    /// The issuers that this key accepts in a token.
    pub closed spec fn issuers(&self) -> Option<Set<Seq<char>>> {
        accepted_issuers(self.validation)
    }

    /// The claims of a token that passes the checks of this key, its expiry
    /// aside: the signature is good for the key, and the issuer and the
    /// audience, if the token names them, are the expected ones. `None` for
    /// a token that does not pass.
    pub closed spec fn passed(&self, token: Seq<char>) -> Option<JsonValue> {
        checked_claims(self.validation, self.dk, token)
    }

    /// Who a token names to this key at the time `now`, in seconds since
    /// the Unix epoch: the user that its claims name, if the token passes
    /// the checks of the key, its claims name a user, and they have not
    /// expired.
    pub open spec fn verdict(&self, token: Seq<char>, now: u64) -> Option<UserCliams> {
        match self.passed(token) {
            Some(claims) => if fresh(claims, now) {
                identity_of(claims)
            } else {
                None
            },
            None => None,
        }
    }

    /// Reads the key from PEM and sets up the checks: signature, audience
    /// and issuer. The expiry is checked by `verify_at`.
    pub fn load(pk: &[u8]) -> (out: Result<JwtDecodingKey, JwtError>)
        ensures
            out is Ok == is_public_key(pk@),
            out matches Ok(key) ==> key.audiences() == Some(set![audience()]) && key.issuers()
                == Some(set![issuer()]),
    {
        match read_decoding_key(pk) {
            Ok(dk) => {
                let mut validation = eddsa_validation();
                expect_audience(&mut validation, audience_name());
                expect_issuer(&mut validation, issuer_name());
                leave_clock_alone(&mut validation);
                Ok(JwtDecodingKey { dk, validation })
            },
            Err(e) => Err(JwtError { reason: error_text(&e) }),
        }
    }

    /// Checks a token at the time `now`, in seconds since the Unix epoch,
    /// and tells who it names. A token is accepted if and only if its
    /// signature is good, it names the issuer and the audience, it has not
    /// expired, and it names a user. Whatever is wrong, the error is the
    /// same.
    pub fn verify_at(&self, token: &str, now: u64) -> (out: Result<UserCliams, VerificationError>)
        ensures
            verdict_view(out) == self.verdict(token@, now),
            out matches Ok(user) ==> token_claims(token@) matches Some(doc) && identity_of(doc)
                == Some(user) && fresh(doc, now),
    {
        proof {
            use_type_invariant(self);
        }
        match decode_claims(token, &self.dk, &self.validation) {
            Some(value) => {
                let claims = tree_of_value(&value);
                if is_fresh(&claims, now) {
                    identity(&claims)
                } else {
                    Err(VerificationError)
                }
            },
            None => Err(VerificationError),
        }
    }

    /// Checks a token and tells who it names: what `verify_at` gives for
    /// the time that the clock of the machine shows.
    pub fn verify(&self, token: &str) -> (out: Result<UserCliams, VerificationError>)
        ensures
            exists|now: u64| verdict_view(out) == #[trigger] self.verdict(token@, now),
            out matches Ok(user) ==> token_claims(token@) matches Some(doc) && identity_of(doc)
                == Some(user),
    {
        let now = current_timestamp();
        let out = self.verify_at(token, now);
        assert(verdict_view(out) == self.verdict(token@, now));
        out
    }
}

} // verus!
