use authnotes::settings::Jwt;
use authnotes::token::{JWTController, TokenClaims};

const FUTURE: usize = 1_900_000_000;

fn codec(secret: &str) -> JWTController {
    JWTController::new(&Jwt { secret: secret.to_string(), validity_days: 14 })
}

#[test]
fn a_signed_token_decodes_back_to_its_claims() {
    let jwt = codec("a-very-secret-value");
    let claims = TokenClaims { sub: 3, exp: FUTURE };
    let token = jwt.generate_token(&claims).unwrap();
    let decoded = jwt.get_claims_from_token(&token).unwrap();
    assert_eq!(decoded.sub, 3);
    assert_eq!(decoded.exp, FUTURE);
}

#[test]
fn signing_is_deterministic_for_the_same_secret_and_claims() {
    let jwt = codec("a-very-secret-value");
    let claims = TokenClaims { sub: 8, exp: FUTURE };
    let first = jwt.generate_token(&claims).unwrap();
    let second = jwt.generate_token(&claims).unwrap();
    assert_eq!(first, second);
}

#[test]
fn a_token_signed_under_another_secret_is_rejected() {
    let jwt = codec("a-very-secret-value");
    let other = codec("a-different-secret");
    let token = other.generate_token(&TokenClaims { sub: 3, exp: FUTURE }).unwrap();
    assert!(jwt.get_claims_from_token(&token).is_err());
}

#[test]
fn garbage_and_tampered_tokens_are_rejected() {
    let jwt = codec("a-very-secret-value");
    assert!(jwt.get_claims_from_token("not-a-token").is_err());
    assert!(jwt.get_claims_from_token("").is_err());
    let token = jwt.generate_token(&TokenClaims { sub: 3, exp: FUTURE }).unwrap();
    let mut tampered = token.clone();
    tampered.push('x');
    assert!(jwt.get_claims_from_token(&tampered).is_err());
}

#[test]
fn a_token_whose_expiry_claim_lies_in_the_past_is_rejected() {
    let jwt = codec("a-very-secret-value");
    let token = jwt.generate_token(&TokenClaims { sub: 3, exp: 1_000 }).unwrap();
    assert!(jwt.get_claims_from_token(&token).is_err());
}
