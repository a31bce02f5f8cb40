//! The construction-time validation/normalization policy: its in-progress
//! form accumulated while parsing, and the resolved form shared by both
//! halves of the generated pair.

use vstd::prelude::*;

use crate::error::{ConfigError, ConfigErrorV};

verus! {

/// One scalar check slot while parsing: untouched, requested bare (use the
/// default inferred type), or set to an explicit type name.
#[derive(Clone, Debug, PartialEq, Eq)]
pub enum CheckSetting {
    Unset,
    UseDefault,
    Explicit(String),
}

/// The mathematical model of a `CheckSetting`.
pub enum CheckSettingV {
    Unset,
    UseDefault,
    Explicit(Seq<char>),
}

impl View for CheckSetting {
    type V = CheckSettingV;

    open spec fn view(&self) -> CheckSettingV {
        match self {
            CheckSetting::Unset => CheckSettingV::Unset,
            CheckSetting::UseDefault => CheckSettingV::UseDefault,
            CheckSetting::Explicit(t) => CheckSettingV::Explicit(t@),
        }
    }
}

/// The check mode while the configuration is still being parsed: each slot
/// may still be unset, and conflicts are detected as entries arrive.
#[derive(Clone, Debug, PartialEq, Eq)]
pub struct IndefiniteCheckMode {
    pub validator: CheckSetting,
    pub normalizer: CheckSetting,
}

/// The mathematical model of an `IndefiniteCheckMode`.
pub struct IndefiniteCheckModeV {
    pub validator: CheckSettingV,
    pub normalizer: CheckSettingV,
}

impl View for IndefiniteCheckMode {
    type V = IndefiniteCheckModeV;

    open spec fn view(&self) -> IndefiniteCheckModeV {
        IndefiniteCheckModeV { validator: self.validator@, normalizer: self.normalizer@ }
    }
}

/// The state with both slots untouched.
pub open spec fn unset_check_mode() -> IndefiniteCheckModeV {
    IndefiniteCheckModeV { validator: CheckSettingV::Unset, normalizer: CheckSettingV::Unset }
}

/// The slot value an entry requests: an explicit type name, or bare
/// (use the default inferred type).
pub open spec fn setting_of(v: Option<Seq<char>>) -> CheckSettingV {
    match v {
        Some(t) => CheckSettingV::Explicit(t),
        None => CheckSettingV::UseDefault,
    }
}

/// Setting the validator slot: rejected if it was already set.
pub open spec fn spec_set_validator(m: IndefiniteCheckModeV, v: Option<Seq<char>>) -> Result<
    IndefiniteCheckModeV,
    ConfigErrorV,
> {
    if m.validator is Unset {
        Ok(IndefiniteCheckModeV { validator: setting_of(v), ..m })
    } else {
        Err(ConfigErrorV::DuplicateOption("validator"@))
    }
}

/// Setting the normalizer slot: rejected if it was already set.
pub open spec fn spec_set_normalizer(m: IndefiniteCheckModeV, v: Option<Seq<char>>) -> Result<
    IndefiniteCheckModeV,
    ConfigErrorV,
> {
    if m.normalizer is Unset {
        Ok(IndefiniteCheckModeV { normalizer: setting_of(v), ..m })
    } else {
        Err(ConfigErrorV::DuplicateOption("normalizer"@))
    }
}

impl Default for IndefiniteCheckMode {
    fn default() -> (r: Self)
        ensures
            r@ == unset_check_mode(),
    {
        IndefiniteCheckMode { validator: CheckSetting::Unset, normalizer: CheckSetting::Unset }
    }
}

impl IndefiniteCheckMode {
    /// Records a validator request (`Some` for an explicit type, `None` for
    /// bare); fails with a conflict error if the validator was already set.
    pub fn try_set_validator(&mut self, v: Option<String>) -> (r: Result<(), ConfigError>)
        ensures
            match spec_set_validator(old(self)@, spec_opt_view(v)) {
                Ok(m) => r is Ok && final(self)@ == m,
                Err(e) => r matches Err(err) && err@ == e && *final(self) == *old(self),
            },
    {
        match self.validator {
            CheckSetting::Unset => {
                self.validator = match v {
                    Some(t) => CheckSetting::Explicit(t),
                    None => CheckSetting::UseDefault,
                };
                Ok(())
            }
            _ => Err(ConfigError::DuplicateOption(String::from_str("validator"))),
        }
    }

    /// Records a normalizer request (`Some` for an explicit type, `None` for
    /// bare); fails with a conflict error if the normalizer was already set.
    pub fn try_set_normalizer(&mut self, v: Option<String>) -> (r: Result<(), ConfigError>)
        ensures
            match spec_set_normalizer(old(self)@, spec_opt_view(v)) {
                Ok(m) => r is Ok && final(self)@ == m,
                Err(e) => r matches Err(err) && err@ == e && *final(self) == *old(self),
            },
    {
        match self.normalizer {
            CheckSetting::Unset => {
                self.normalizer = match v {
                    Some(t) => CheckSetting::Explicit(t),
                    None => CheckSetting::UseDefault,
                };
                Ok(())
            }
            _ => Err(ConfigError::DuplicateOption(String::from_str("normalizer"))),
        }
    }

    /// Resolves the final check mode, inferring the default validator or
    /// normalizer from the owned type's identity where a slot asks for it.
    pub fn infer_validator_if_missing(self, owned_ty: &str) -> (r: CheckMode)
        ensures
            r@ == resolve_check_mode(self@, owned_ty@),
    {
        let normalizer: Option<String> = match self.normalizer {
            CheckSetting::Unset => None,
            CheckSetting::UseDefault => Some(owned_ty.to_owned()),
            CheckSetting::Explicit(t) => Some(t),
        };
        match normalizer {
            None => match self.validator {
                CheckSetting::Unset => CheckMode::Unchecked,
                CheckSetting::UseDefault => CheckMode::Validate(owned_ty.to_owned()),
                CheckSetting::Explicit(t) => CheckMode::Validate(t),
            },
            Some(n) => {
                let v: String = match self.validator {
                    CheckSetting::Explicit(t) => t,
                    _ => owned_ty.to_owned(),
                };
                CheckMode::ValidateAndNormalize(v, n)
            }
        }
    }
}

/// The view of an optional string.
pub open spec fn spec_opt_view(v: Option<String>) -> Option<Seq<char>> {
    match v {
        Some(s) => Some(s@),
        None => None,
    }
}

/// The resolved construction-time policy, shared by both halves of the
/// generated pair so they agree on what valid contents are.
#[derive(Clone, Debug, PartialEq, Eq)]
pub enum CheckMode {
    /// No validation or normalization.
    Unchecked,
    /// Raw contents must pass the named validator.
    Validate(String),
    /// Raw contents are rewritten by the named normalizer alone. Resolution
    /// never produces this state: normalized output must still be accepted
    /// as valid, so a normalizer always comes paired with a validator.
    Normalize(String),
    /// Raw contents are rewritten by the normalizer and accepted by the
    /// validator.
    ValidateAndNormalize(String, String),
}

/// The mathematical model of a `CheckMode`.
pub enum CheckModeV {
    Unchecked,
    Validate(Seq<char>),
    Normalize(Seq<char>),
    ValidateAndNormalize(Seq<char>, Seq<char>),
}

impl CheckMode {
    /// A fresh copy of the resolved check mode.
    pub fn duplicate(&self) -> (r: CheckMode)
        ensures
            r@ == self@,
    {
        match self {
            CheckMode::Unchecked => CheckMode::Unchecked,
            CheckMode::Validate(t) => CheckMode::Validate(crate::strutil::copy_string(t)),
            CheckMode::Normalize(t) => CheckMode::Normalize(crate::strutil::copy_string(t)),
            CheckMode::ValidateAndNormalize(v, n) => CheckMode::ValidateAndNormalize(
                crate::strutil::copy_string(v),
                crate::strutil::copy_string(n),
            ),
        }
    }
}

impl View for CheckMode {
    type V = CheckModeV;

    open spec fn view(&self) -> CheckModeV {
        match self {
            CheckMode::Unchecked => CheckModeV::Unchecked,
            CheckMode::Validate(t) => CheckModeV::Validate(t@),
            CheckMode::Normalize(t) => CheckModeV::Normalize(t@),
            CheckMode::ValidateAndNormalize(v, n) => CheckModeV::ValidateAndNormalize(v@, n@),
        }
    }
}

/// The validator a slot resolves to once a normalizer is present: the
/// explicit type if one was given, else the owned type itself (the default
/// inferred validator).
pub open spec fn validator_or_default(v: CheckSettingV, owned: Seq<char>) -> Seq<char> {
    match v {
        CheckSettingV::Explicit(t) => t,
        _ => owned,
    }
}

/// Resolution of the check mode from the two parsed slots and the owned
/// type's identity. A bare slot resolves to the owned type itself; a
/// normalizer without an explicit validator still gets the default inferred
/// validator, since normalized output must always pass some validation.
pub open spec fn resolve_check_mode(m: IndefiniteCheckModeV, owned: Seq<char>) -> CheckModeV {
    match m.normalizer {
        CheckSettingV::Unset => match m.validator {
            CheckSettingV::Unset => CheckModeV::Unchecked,
            CheckSettingV::UseDefault => CheckModeV::Validate(owned),
            CheckSettingV::Explicit(t) => CheckModeV::Validate(t),
        },
        CheckSettingV::UseDefault => CheckModeV::ValidateAndNormalize(
            validator_or_default(m.validator, owned),
            owned,
        ),
        CheckSettingV::Explicit(n) => CheckModeV::ValidateAndNormalize(
            validator_or_default(m.validator, owned),
            n,
        ),
    }
}

} // verus!
