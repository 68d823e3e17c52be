//! What is asked of a token's claims.

use vstd::prelude::*;

verus! {

/// Whether a claim has to be there.
#[derive(Clone, Copy, Debug, PartialEq, Eq, Structural)]
pub enum Presence {
    Optional,
    Required,
}

/// Whether a claim is compared, and with what.
#[derive(Clone, Debug, PartialEq, Eq)]
pub enum Validation<T> {
    Ignored,
    Validate(T),
}

/// Which claims have to be there.
#[derive(Clone, Copy, Debug, PartialEq, Eq, Structural)]
pub struct ClaimPresenceOptions {
    pub audience: Presence,
    pub expiry: Presence,
    pub issuer: Presence,
    pub issued_at: Presence,
}

/// What is asked of a token's claims: which have to be there, and what the
/// audience, the issuer and the token's age (in seconds) are held against.
#[derive(Clone, Debug, PartialEq, Eq)]
pub struct ValidationOptions {
    pub claim_presence_options: ClaimPresenceOptions,
    pub audience: Validation<String>,
    pub issuer: Validation<String>,
    pub issued_at: Validation<i64>,
}

/// The configured demands on a token: the audience it must name and,
/// optionally, its issuer and its greatest age in seconds.
#[derive(Clone, Debug, PartialEq, Eq)]
pub struct AuthValidationSettings {
    pub audience: String,
    pub issuer: Option<String>,
    pub issued_at: Option<i64>,
}

/// [`ValidationOptions`] as plain values.
pub struct ValidationOptionsModel {
    pub claim_presence_options: ClaimPresenceOptions,
    pub audience: Validation<Seq<char>>,
    pub issuer: Validation<Seq<char>>,
    pub issued_at: Validation<i64>,
}

/// [`AuthValidationSettings`] as plain values.
pub struct AuthValidationSettingsModel {
    pub audience: Seq<char>,
    pub issuer: Option<Seq<char>>,
    pub issued_at: Option<i64>,
}

/// A text to compare with, as plain text.
pub open spec fn text_validation(validation: Validation<String>) -> Validation<Seq<char>> {
    match validation {
        Validation::Ignored => Validation::Ignored,
        Validation::Validate(text) => Validation::Validate(text@),
    }
}

impl DeepView for ValidationOptions {
    type V = ValidationOptionsModel;

    open spec fn deep_view(&self) -> ValidationOptionsModel {
        ValidationOptionsModel {
            claim_presence_options: self.claim_presence_options,
            audience: text_validation(self.audience),
            issuer: text_validation(self.issuer),
            issued_at: self.issued_at,
        }
    }
}

impl DeepView for AuthValidationSettings {
    type V = AuthValidationSettingsModel;

    open spec fn deep_view(&self) -> AuthValidationSettingsModel {
        AuthValidationSettingsModel {
            audience: self.audience@,
            issuer: self.issuer.deep_view(),
            issued_at: self.issued_at,
        }
    }
}

/// A claim has to be there exactly when something is configured for it.
pub open spec fn required_if<T>(configured: Option<T>) -> Presence {
    if configured is Some {
        Presence::Required
    } else {
        Presence::Optional
    }
}

/// A claim is compared with what is configured for it, and ignored where
/// nothing is.
pub open spec fn validated_if<T>(configured: Option<T>) -> Validation<T> {
    match configured {
        Some(value) => Validation::Validate(value),
        None => Validation::Ignored,
    }
}

impl AuthValidationSettingsModel {
    /// What these settings ask of a token. The audience and the expiry
    /// have to be there, and the audience is compared. The issuer and the
    /// time of issue have to be there, and are compared, only where the
    /// settings name them.
    pub open spec fn validation_options(self) -> ValidationOptionsModel {
        ValidationOptionsModel {
            claim_presence_options: ClaimPresenceOptions {
                audience: Presence::Required,
                expiry: Presence::Required,
                issuer: required_if(self.issuer),
                issued_at: required_if(self.issued_at),
            },
            audience: Validation::Validate(self.audience),
            issuer: validated_if(self.issuer),
            issued_at: validated_if(self.issued_at),
        }
    }
}

impl AuthValidationSettings {
    /// What these settings ask of a token's claims.
    pub fn to_validation_options(&self) -> (options: ValidationOptions)
        ensures
            options.deep_view() == self.deep_view().validation_options(),
    {
        let claim_presence_options = ClaimPresenceOptions {
            audience: Presence::Required,
            expiry: Presence::Required,
            issuer: match &self.issuer {
                Some(_) => Presence::Required,
                None => Presence::Optional,
            },
            issued_at: match self.issued_at {
                Some(_) => Presence::Required,
                None => Presence::Optional,
            },
        };
        ValidationOptions {
            claim_presence_options,
            audience: Validation::Validate(self.audience.clone()),
            issuer: match &self.issuer {
                Some(issuer) => Validation::Validate(issuer.clone()),
                None => Validation::Ignored,
            },
            issued_at: match self.issued_at {
                Some(seconds) => Validation::Validate(seconds),
                None => Validation::Ignored,
            },
        }
    }
}

} // verus!
