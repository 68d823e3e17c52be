use dino_park_lookout::auth::check::{
    AuthValidationSettings, ClaimPresenceOptions, Presence, Validation, ValidationOptions,
};
use dino_park_lookout::auth::middleware::{get_token, AuthMiddleware, Screening};

#[test]
fn test_get_token() {
    let token = "Bearer FOOBAR…";
    assert_eq!(get_token(token), Some("FOOBAR…"));
}

#[test]
fn token_is_all_that_follows_the_scheme() {
    assert_eq!(get_token("Bearer abc.def.ghi"), Some("abc.def.ghi"));
    assert_eq!(get_token("Bearer two words"), Some("two words"));
    assert_eq!(get_token("Bearer  x"), Some(" x"));
}

#[test]
fn bare_scheme_gives_an_empty_token() {
    assert_eq!(get_token("Bearer "), Some(""));
}

#[test]
fn header_without_the_scheme_has_no_token() {
    assert_eq!(get_token(""), None);
    assert_eq!(get_token("Bearer"), None);
    assert_eq!(get_token("Basic dXNlcjpwYXNz"), None);
    assert_eq!(get_token("bearer FOOBAR"), None);
    assert_eq!(get_token("BearerFOOBAR"), None);
    assert_eq!(get_token(" Bearer FOOBAR"), None);
}

#[test]
fn header_with_wide_characters_in_the_scheme_has_no_token() {
    assert_eq!(get_token("Beare… FOOBAR"), None);
    assert_eq!(get_token("……"), None);
    assert_eq!(get_token("Bearerétoken"), None);
}

fn middleware() -> AuthMiddleware {
    let settings = AuthValidationSettings {
        audience: String::from("lookout"),
        issuer: None,
        issued_at: None,
    };
    AuthMiddleware { validation_options: settings.to_validation_options() }
}

#[test]
fn options_call_passes_unchecked() {
    assert_eq!(middleware().start("OPTIONS", None), Screening::Pass);
    assert_eq!(middleware().start("OPTIONS", Some("Bearer x")), Screening::Pass);
    assert_eq!(middleware().start("OPTIONS", Some("nonsense")), Screening::Pass);
}

#[test]
fn call_without_a_token_is_rejected() {
    assert_eq!(middleware().start("POST", None), Screening::Reject);
    assert_eq!(middleware().start("POST", Some("Basic abc")), Screening::Reject);
    assert_eq!(middleware().start("options", None), Screening::Reject);
    assert_eq!(middleware().start("GET", Some("")), Screening::Reject);
}

#[test]
fn call_with_a_token_is_to_be_checked() {
    assert_eq!(middleware().start("POST", Some("Bearer FOOBAR…")), Screening::Check("FOOBAR…"));
    assert_eq!(middleware().start("GET", Some("Bearer t")), Screening::Check("t"));
}

#[test]
fn bare_settings_ask_for_audience_and_expiry() {
    let settings = AuthValidationSettings {
        audience: String::from("lookout"),
        issuer: None,
        issued_at: None,
    };
    assert_eq!(
        settings.to_validation_options(),
        ValidationOptions {
            claim_presence_options: ClaimPresenceOptions {
                audience: Presence::Required,
                expiry: Presence::Required,
                issuer: Presence::Optional,
                issued_at: Presence::Optional,
            },
            audience: Validation::Validate(String::from("lookout")),
            issuer: Validation::Ignored,
            issued_at: Validation::Ignored,
        }
    );
}

#[test]
fn full_settings_ask_for_issuer_and_age_too() {
    let settings = AuthValidationSettings {
        audience: String::from("lookout"),
        issuer: Some(String::from("https://auth.example/")),
        issued_at: Some(3600),
    };
    assert_eq!(
        settings.to_validation_options(),
        ValidationOptions {
            claim_presence_options: ClaimPresenceOptions {
                audience: Presence::Required,
                expiry: Presence::Required,
                issuer: Presence::Required,
                issued_at: Presence::Required,
            },
            audience: Validation::Validate(String::from("lookout")),
            issuer: Validation::Validate(String::from("https://auth.example/")),
            issued_at: Validation::Validate(3600),
        }
    );
}

#[test]
fn issuer_and_age_are_asked_for_independently() {
    let only_issuer = AuthValidationSettings {
        audience: String::from("a"),
        issuer: Some(String::from("i")),
        issued_at: None,
    }
    .to_validation_options();
    assert_eq!(only_issuer.claim_presence_options.issuer, Presence::Required);
    assert_eq!(only_issuer.claim_presence_options.issued_at, Presence::Optional);
    assert_eq!(only_issuer.issued_at, Validation::Ignored);
    let only_age = AuthValidationSettings {
        audience: String::from("a"),
        issuer: None,
        issued_at: Some(-5),
    }
    .to_validation_options();
    assert_eq!(only_age.claim_presence_options.issuer, Presence::Optional);
    assert_eq!(only_age.claim_presence_options.issued_at, Presence::Required);
    assert_eq!(only_age.issuer, Validation::Ignored);
    assert_eq!(only_age.issued_at, Validation::Validate(-5));
}
