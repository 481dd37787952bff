//! Who a request comes from: finding the bearer token of a request and having
//! it verified.

use crate::jwt::{
    identity_of, token_claims, verdict_view, JwtDecodingKey, UserCliams, VerificationError,
};
use vstd::prelude::*;

verus! {

/// Something that can tell who a token names.
pub trait VerifyToken {
    /// Why a token was not accepted.
    type Error: core::fmt::Debug;

    /// Whether this verifier may accept `token` as naming `user`.
    spec fn accepts(&self, token: Seq<char>, user: UserCliams) -> bool;

    /// Tells who `token` names, or that it is not accepted.
    fn verify(&self, token: &str) -> (out: Result<UserCliams, Self::Error>)
        ensures
            out matches Ok(user) ==> self.accepts(token@, user),
    ;
}

impl VerifyToken for JwtDecodingKey {
    type Error = VerificationError;

    open spec fn accepts(&self, token: Seq<char>, user: UserCliams) -> bool {
        token_claims(token) matches Some(doc) && identity_of(doc) == Some(user)
    }

    fn verify(&self, token: &str) -> (out: Result<UserCliams, VerificationError>)
        ensures
            exists|now: u64| verdict_view(out) == #[trigger] self.verdict(token@, now),
            out matches Ok(user) ==> token_claims(token@) matches Some(doc) && identity_of(doc)
                == Some(user),
    {
        JwtDecodingKey::verify(self, token)
    }
}

/// Whether a character may stand in a header value that is read as text: a
/// tab, or a printable ASCII character.
pub open spec fn visible(c: char) -> bool {
    c == '\t' || (' ' <= c && c <= '~')
}

/// Whether a header value begins with the scheme of a bearer credential: the
/// word `Bearer`, in upper or lower case, and one space.
pub open spec fn has_bearer_scheme(value: Seq<char>) -> bool {
    value.len() > 6 && (value[0] == 'B' || value[0] == 'b') && (value[1] == 'E' || value[1]
        == 'e') && (value[2] == 'A' || value[2] == 'a') && (value[3] == 'R' || value[3] == 'r')
        && (value[4] == 'E' || value[4] == 'e') && (value[5] == 'R' || value[5] == 'r')
        && value[6] == ' '
}

/// A text without the spaces and tabs at its beginning.
pub open spec fn stripped(text: Seq<char>) -> Seq<char>
    decreases text.len(),
{
    if text.len() > 0 && (text[0] == ' ' || text[0] == '\t') {
        stripped(text.drop_first())
    } else {
        text
    }
}

/// The token in the value of an `Authorization` header: what follows the
/// scheme, without spaces and tabs before it. `None` where the value does not
/// begin with the scheme or holds a character that is not `visible`.
pub open spec fn bearer_token(value: Seq<char>) -> Option<Seq<char>> {
    if has_bearer_scheme(value) && (forall|i: int|
        0 <= i < value.len() ==> visible(#[trigger] value[i])) {
        Some(stripped(value.subrange(7, value.len() as int)))
    } else {
        None
    }
}

/// Reads a bearer credential as the typed `Authorization<Bearer>` header of
/// the `headers` crate does, from a value made with `HeaderValue::from_str`.
/// Trusted: the value passes if it begins with `Bearer` in any case and a
/// space and holds only tabs and printable ASCII; the token is the rest
/// without leading blanks.
#[verifier::external_body]
fn decode_bearer(value: &str) -> (token: Option<String>)
    ensures
        match token {
            Some(t) => bearer_token(value@) == Some(t@),
            None => bearer_token(value@) is None,
        },
{
    let value = http::HeaderValue::from_str(value).ok()?;
    let mut values = std::iter::once(&value);
    let auth: headers::Authorization<headers::authorization::Bearer> = headers::Header::decode(
        &mut values,
    ).ok()?;
    Some(auth.token().to_owned())
}

/// What the `Authorization` header of a request held.
#[derive(Debug, Clone)]
pub enum BearerHeader {
    /// The request has no such header.
    Missing,
    /// The header is there and is no bearer credential.
    Unreadable,
    /// The header is a bearer credential with this token.
    Token(String),
}

/// Mathematical form of a [`BearerHeader`].
pub enum HeaderModel {
    Missing,
    Unreadable,
    Token(Seq<char>),
}

impl View for BearerHeader {
    type V = HeaderModel;

    open spec fn view(&self) -> HeaderModel {
        match self {
            BearerHeader::Missing => HeaderModel::Missing,
            BearerHeader::Unreadable => HeaderModel::Unreadable,
            BearerHeader::Token(token) => HeaderModel::Token(token@),
        }
    }
}

/// What a header value, if there is one, holds.
pub open spec fn header_of(value: Option<Seq<char>>) -> HeaderModel {
    match value {
        None => HeaderModel::Missing,
        Some(value) => match bearer_token(value) {
            Some(token) => HeaderModel::Token(token),
            None => HeaderModel::Unreadable,
        },
    }
}

/// The view of an optional string.
pub open spec fn text_view(value: Option<&str>) -> Option<Seq<char>> {
    match value {
        Some(value) => Some(value@),
        None => None,
    }
}

/// The view of an optional owned string.
pub open spec fn string_view(value: Option<String>) -> Option<Seq<char>> {
    match value {
        Some(value) => Some(value@),
        None => None,
    }
}

impl BearerHeader {
    /// Reads the value of the `Authorization` header of a request, `None`
    /// where the request has no such header.
    pub fn read(value: Option<&str>) -> (out: BearerHeader)
        ensures
            out@ == header_of(text_view(value)),
    {
        match value {
            None => BearerHeader::Missing,
            Some(value) => match decode_bearer(value) {
                Some(token) => BearerHeader::Token(token),
                None => BearerHeader::Unreadable,
            },
        }
    }
}

/// Why a request was turned away before it reached its handler.
#[derive(Debug, Clone, Copy, PartialEq, Eq, Structural)]
pub enum Rejection {
    /// The request carries no token at all.
    MissingToken,
    /// The request has an `Authorization` header that cannot be read.
    UnreadableHeader,
    /// The request carries a token, and the token was not accepted.
    InvalidToken,
}

impl Rejection {
    /// The HTTP status that answers the request: 401 where no credential
    /// could be had, 403 where one was presented and refused.
    pub open spec fn status_code(self) -> u16 {
        match self {
            Rejection::MissingToken => 401,
            Rejection::UnreadableHeader => 401,
            Rejection::InvalidToken => 403,
        }
    }

    /// The text that answers the request.
    pub open spec fn reason_text(self) -> Seq<char> {
        match self {
            Rejection::MissingToken => "missing token"@,
            Rejection::UnreadableHeader => "cannot parse token from header"@,
            Rejection::InvalidToken => "invalid token"@,
        }
    }

    /// The HTTP status that answers the request.
    pub fn status(&self) -> (code: u16)
        ensures
            code == self.status_code(),
    {
        match self {
            Rejection::MissingToken => 401,
            Rejection::UnreadableHeader => 401,
            Rejection::InvalidToken => 403,
        }
    }

    /// The text that answers the request.
    pub fn reason(&self) -> (text: &'static str)
        ensures
            text@ == self.reason_text(),
    {
        match self {
            Rejection::MissingToken => "missing token",
            Rejection::UnreadableHeader => "cannot parse token from header",
            Rejection::InvalidToken => "invalid token",
        }
    }
}

/// The token that a request presents: the one of its header, or, where it has
/// no header, the one of its `access_token` query parameter. A header that
/// cannot be read is not made up for by the query, and an empty token is no
/// token.
pub open spec fn presented(header: HeaderModel, query: Option<Seq<char>>) -> Result<
    Seq<char>,
    Rejection,
> {
    match header {
        HeaderModel::Unreadable => Err(Rejection::UnreadableHeader),
        HeaderModel::Token(token) => if token.len() == 0 {
            Err(Rejection::MissingToken)
        } else {
            Ok(token)
        },
        HeaderModel::Missing => match query {
            Some(token) => if token.len() == 0 {
                Err(Rejection::MissingToken)
            } else {
                Ok(token)
            },
            None => Err(Rejection::MissingToken),
        },
    }
}

/// What selecting or verifying a token gave, with a token by its view.
pub open spec fn selection(out: Result<String, Rejection>) -> Result<Seq<char>, Rejection> {
    match out {
        Ok(token) => Ok(token@),
        Err(rejection) => Err(rejection),
    }
}

/// Finds the token that a request presents.
pub fn select_token(header: BearerHeader, query_token: Option<String>) -> (out: Result<
    String,
    Rejection,
>)
    ensures
        selection(out) == presented(header@, string_view(query_token)),
{
    let token = match header {
        BearerHeader::Unreadable => return Err(Rejection::UnreadableHeader),
        BearerHeader::Token(token) => token,
        BearerHeader::Missing => match query_token {
            Some(token) => token,
            None => return Err(Rejection::MissingToken),
        },
    };
    if token.as_str().is_empty() {
        Err(Rejection::MissingToken)
    } else {
        Ok(token)
    }
}

/// The outcome for a request whose token a verifier answered with `verdict`:
/// the user that the verifier named, or the refusal of the token, whatever
/// the verifier's reason.
pub open spec fn conclusion<E>(verdict: Result<UserCliams, E>) -> Result<UserCliams, Rejection> {
    match verdict {
        Ok(user) => Ok(user),
        Err(_) => Err(Rejection::InvalidToken),
    }
}

/// Turns the answer of a verifier into the outcome for the request: a token
/// that was not accepted is refused, whatever the reason.
pub fn conclude<E>(verdict: Result<UserCliams, E>) -> (out: Result<UserCliams, Rejection>)
    ensures
        out == conclusion(verdict),
{
    match verdict {
        Ok(user) => Ok(user),
        Err(_) => Err(Rejection::InvalidToken),
    }
}

/// Decides whether a request may pass, and as whom.
///
/// A request without a token is turned away as such and the verifier is not
/// asked. Else the verifier is asked about the token that was presented, and
/// nothing else: the outcome is the conclusion of an answer that the verifier
/// gave for that token. So the request passes as the user that the verifier
/// named, or is refused.
pub fn verify_token<V: VerifyToken>(
    verifier: &V,
    header: BearerHeader,
    query_token: Option<String>,
) -> (out: Result<UserCliams, Rejection>)
    ensures
        match presented(header@, string_view(query_token)) {
            Err(rejection) => out matches Err(given) && given == rejection,
            Ok(token) => {
                &&& exists|asked: &str, verdict: Result<UserCliams, V::Error>|
                    asked@ == token && #[trigger] call_ensures(
                        V::verify,
                        (verifier, asked),
                        verdict,
                    ) && out == conclusion(verdict)
                &&& match out {
                    Ok(user) => verifier.accepts(token, user),
                    Err(rejection) => rejection == Rejection::InvalidToken,
                }
            },
        },
{
    match select_token(header, query_token) {
        Err(rejection) => Err(rejection),
        Ok(token) => {
            let asked = token.as_str();
            let verdict = verifier.verify(asked);
            assert(call_ensures(V::verify, (verifier, asked), verdict));
            conclude(verdict)
        },
    }
}

/// A header of the word `Bearer`, a space and a token carries that token, if
/// the token is made of printable ASCII characters other than the space, and
/// the token is the one that the request presents, whatever its query says.
pub proof fn law_bearer_header_presents_its_token(token: Seq<char>, query: Option<Seq<char>>)
    requires
        token.len() > 0,
        forall|i: int| 0 <= i < token.len() ==> visible(#[trigger] token[i]) && token[i] != ' '
            && token[i] != '\t',
    ensures
        bearer_token("Bearer "@ + token) == Some(token),
        header_of(Some("Bearer "@ + token)) == HeaderModel::Token(token),
        presented(header_of(Some("Bearer "@ + token)), query) matches Ok(found) && found == token,
{
    reveal_strlit("Bearer ");
    let value = "Bearer "@ + token;
    assert(value.subrange(7, value.len() as int) == token);
    assert(has_bearer_scheme(value));
    assert forall|i: int| 0 <= i < value.len() implies visible(#[trigger] value[i]) by {
        if i >= 7 {
            assert(value[i] == token[i - 7]);
        }
    }
}

/// A request without any credential is told that the token is missing, with
/// status 401, whatever the verifier.
pub proof fn law_no_credential_is_missing()
    ensures
        presented(HeaderModel::Missing, None) matches Err(rejection) && rejection
            == Rejection::MissingToken,
        Rejection::MissingToken.status_code() == 401,
        Rejection::InvalidToken.status_code() == 403,
        Rejection::MissingToken != Rejection::InvalidToken,
{
}

} // verus!
