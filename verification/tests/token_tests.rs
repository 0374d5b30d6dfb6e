use bambu_cloud::Token;
use bambu_cloud::TokenError;

// Header {"alg":"RS256","typ":"JWT"} and claims {"username":"alice"}, base64url
// without padding; the signature part is filler, which must not matter.
const RS256_ALICE: &str = "eyJhbGciOiJSUzI1NiIsInR5cCI6IkpXVCJ9.eyJ1c2VybmFtZSI6ImFsaWNlIn0.sig";

// Same claims under an HS256 header.
const HS256_ALICE: &str = "eyJhbGciOiJIUzI1NiIsInR5cCI6IkpXVCJ9.eyJ1c2VybmFtZSI6ImFsaWNlIn0.sig";

// RS256 header, claims {"sub":"x"} without a username claim.
const RS256_NO_USERNAME: &str = "eyJhbGciOiJSUzI1NiIsInR5cCI6IkpXVCJ9.eyJzdWIiOiJ4In0.sig";

// RS256 header, claims {"username":42}: the claim is present but not a string.
const RS256_NUMERIC_USERNAME: &str = "eyJhbGciOiJSUzI1NiIsInR5cCI6IkpXVCJ9.eyJ1c2VybmFtZSI6NDJ9.sig";

#[test]
fn issuance_extracts_the_username_claim() {
    let token = Token::try_from(RS256_ALICE.to_string()).unwrap();
    assert_eq!(token.username, "alice");
}

#[test]
fn issuance_reads_the_claim_of_each_credential() {
    // Claims {"username":"bob","exp":32503680000}: extra claims are ignored and
    // the extracted identifier follows the credential, not a fixed value.
    let jwt = "eyJhbGciOiJSUzI1NiIsInR5cCI6IkpXVCJ9.eyJ1c2VybmFtZSI6ImJvYiIsImV4cCI6MzI1MDM2ODAwMDB9.x";
    let token = Token::try_from(jwt.to_string()).unwrap();
    assert_eq!(token.username, "bob");
}

#[test]
fn issuance_keeps_the_raw_credential_verbatim() {
    let token = Token::try_from(RS256_ALICE.to_string()).unwrap();
    assert_eq!(token.jwt, RS256_ALICE);
}

#[test]
fn issuance_fails_on_a_plain_string() {
    let r = Token::try_from("not a token".to_string());
    assert_eq!(r.unwrap_err(), TokenError::Decode);
}

#[test]
fn issuance_fails_on_an_unexpected_algorithm() {
    let r = Token::try_from(HS256_ALICE.to_string());
    assert_eq!(r.unwrap_err(), TokenError::Decode);
}

#[test]
fn issuance_fails_without_a_username_claim() {
    let r = Token::try_from(RS256_NO_USERNAME.to_string());
    assert_eq!(r.unwrap_err(), TokenError::Decode);
}

#[test]
fn issuance_fails_on_a_non_string_username_claim() {
    let r = Token::try_from(RS256_NUMERIC_USERNAME.to_string());
    assert_eq!(r.unwrap_err(), TokenError::Decode);
}

#[test]
fn issuance_fails_on_the_empty_string() {
    assert!(Token::try_from(String::new()).is_err());
}
