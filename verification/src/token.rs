//! Bearer-token issuance.
//!
//! A login returns a claims token (a JWS: three dot-separated base64url
//! parts). The account identifier is the `username` claim of that token.
//! Issuance reads the claims without verifying the signature or the audience:
//! the credential was just obtained over an authenticated TLS channel from the
//! trusted issuer, so claim integrity is assumed, not re-verified. Only the
//! algorithm named in the header is checked: it must be RS256, anything else
//! is rejected as a decode failure.

use vstd::prelude::*;

use jsonwebtoken::Algorithm;

verus! {

/// Signing algorithm named in a claims token's header.
#[derive(Clone, Copy, Debug, PartialEq, Eq, Structural)]
pub enum JwsAlg {
    Hs256,
    Hs384,
    Hs512,
    Es256,
    Es384,
    Rs256,
    Rs384,
    Rs512,
    Ps256,
    Ps384,
    Ps512,
    EdDsa,
    /// An algorithm this library does not distinguish further.
    Other,
}

/// The algorithm named by the token's header: `Some` exactly when the header
/// part decodes as base64url JSON naming a known algorithm.
pub uninterp spec fn jwt_header_alg(token: Seq<char>) -> Option<JwsAlg>;

/// The string value of the given claim in the token's claims part: `Some`
/// exactly when the token parses as a claims token whose claims hold that
/// claim with a string value.
pub uninterp spec fn jwt_string_claim(token: Seq<char>, claim: Seq<char>) -> Option<Seq<char>>;

/// Relies on jsonwebtoken::decode_header: reads the token's header part and
/// the algorithm it names. The result depends on the token's characters alone.
#[verifier::external_body]
fn decode_header_alg(token: &str) -> (r: Option<JwsAlg>)
    ensures
        r == jwt_header_alg(token@),
{
    let alg = match jsonwebtoken::decode_header(token) {
        Ok(h) => h.alg,
        Err(_) => return None,
    };
    Some(match alg {
        Algorithm::HS256 => JwsAlg::Hs256, Algorithm::HS384 => JwsAlg::Hs384,
        Algorithm::HS512 => JwsAlg::Hs512, Algorithm::ES256 => JwsAlg::Es256,
        Algorithm::ES384 => JwsAlg::Es384, Algorithm::RS256 => JwsAlg::Rs256,
        Algorithm::RS384 => JwsAlg::Rs384, Algorithm::RS512 => JwsAlg::Rs512,
        Algorithm::PS256 => JwsAlg::Ps256, Algorithm::PS384 => JwsAlg::Ps384,
        Algorithm::PS512 => JwsAlg::Ps512, Algorithm::EdDSA => JwsAlg::EdDsa,
        _ => JwsAlg::Other,
    })
}

/// Relies on jsonwebtoken::dangerous::insecure_decode, which parses the
/// token's claims without verifying the signature; the claim's string value is
/// picked out of the returned claims with serde_json::Value::get and
/// serde_json::Value::as_str. The result depends on the arguments alone.
#[verifier::external_body]
fn decode_string_claim(token: &str, claim: &str) -> (r: Option<String>)
    ensures
        match r {
            Some(v) => jwt_string_claim(token@, claim@) == Some(v@),
            None => jwt_string_claim(token@, claim@) is None,
        },
{
    let data: jsonwebtoken::TokenData<serde_json::Value> =
        jsonwebtoken::dangerous::insecure_decode(token).ok()?;
    Some(data.claims.get(claim)?.as_str()?.to_owned())
}

/// How token issuance fails.
#[derive(Clone, Copy, Debug, PartialEq, Eq, Structural)]
pub enum TokenError {
    /// The credential does not parse as a claims token of the expected shape:
    /// malformed, an unexpected algorithm, or no string `username` claim.
    Decode,
}

/// A credential issues a token exactly when its header names RS256 and its
/// claims hold a string `username` claim. Signature validity plays no part.
pub open spec fn spec_token_decodes(token: Seq<char>) -> bool {
    &&& jwt_header_alg(token) == Some(JwsAlg::Rs256)
    &&& jwt_string_claim(token, "username"@) is Some
}

/// A validated bearer credential together with the account identifier
/// extracted from it. Created once, at successful login; never mutated.
#[derive(Debug)]
pub struct Token {
    /// The `username` claim of the credential: the account identifier.
    pub username: String,
    /// The raw credential, kept verbatim for use as a bearer header value.
    pub jwt: String,
}

impl Token {
    /// Issues a token from the raw credential a login returned: the credential
    /// is kept verbatim and the account identifier is its `username` claim.
    pub fn try_from(jwt: String) -> (r: Result<Token, TokenError>)
        ensures
            match r {
                Ok(t) => {
                    &&& spec_token_decodes(jwt@)
                    &&& t.jwt@ == jwt@
                    &&& jwt_string_claim(jwt@, "username"@) == Some(t.username@)
                },
                Err(e) => e is Decode && !spec_token_decodes(jwt@),
            },
    {
        let rs256 = match decode_header_alg(jwt.as_str()) {
            Some(JwsAlg::Rs256) => true,
            _ => false,
        };
        if !rs256 {
            return Err(TokenError::Decode);
        }
        match decode_string_claim(jwt.as_str(), "username") {
            Some(username) => Ok(Token { username, jwt }),
            None => Err(TokenError::Decode),
        }
    }
}

} // verus!
